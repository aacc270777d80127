use todo_menu::menu::{
    Event, Notice, Prompt, Screen, TodoApp, ADD_OPTION, EXIT_OPTION, REMOVE_OPTION, VIEW_OPTION,
};

fn items(app: &TodoApp) -> Vec<(String, bool)> {
    (0..app.list.len()).map(|i| (app.list.get(i).text.clone(), app.list.get(i).completed)).collect()
}

fn run(app: &mut TodoApp, event: Event) -> todo_menu::menu::Reply {
    assert!(app.accepts(&event));
    app.step(event)
}

#[test]
fn session_end_to_end() {
    let mut app = TodoApp::new();
    let r = run(&mut app, Event::Choice(ADD_OPTION));
    assert_eq!(r.prompt, Prompt::ItemText);
    assert!(run(&mut app, Event::Entered("Buy milk".to_string())).notices.is_empty());
    let r = run(&mut app, Event::Entered("buy milk".to_string()));
    assert_eq!(r.prompt, Prompt::ItemText);
    assert!(matches!(&r.notices[..], [Notice::Duplicate(t)] if t == "Buy milk"));
    run(&mut app, Event::Entered("Walk dog".to_string()));
    let r = run(&mut app, Event::Entered("   ".to_string()));
    assert_eq!(r.prompt, Prompt::MainMenu);
    assert_eq!(app.screen, Screen::MainMenu);
    assert_eq!(items(&app), vec![("Buy milk".to_string(), false), ("Walk dog".to_string(), false)]);

    let r = run(&mut app, Event::Choice(VIEW_OPTION));
    assert!(matches!(&r.notices[..], [Notice::ListHeading]));
    assert_eq!(r.prompt, Prompt::ToggleSelect { cursor: 0 });
    let r = run(&mut app, Event::Selected(0));
    assert_eq!(r.prompt, Prompt::ToggleSelect { cursor: 0 });
    assert_eq!(items(&app), vec![("Buy milk".to_string(), true), ("Walk dog".to_string(), false)]);
    run(&mut app, Event::Selected(2));
    assert_eq!(app.screen, Screen::MainMenu);

    run(&mut app, Event::Choice(REMOVE_OPTION));
    let r = run(&mut app, Event::Selected(1));
    match &r.notices[..] {
        [Notice::Removed(item)] => {
            assert_eq!(item.text, "Walk dog");
            assert!(!item.completed);
        }
        other => panic!("unexpected notices {:?}", other),
    }
    assert_eq!(r.prompt, Prompt::RemoveSelect { cursor: 0 });
    assert_eq!(items(&app), vec![("Buy milk".to_string(), true)]);
}

#[test]
fn view_on_empty_list_says_empty() {
    let mut app = TodoApp::new();
    let r = run(&mut app, Event::Choice(VIEW_OPTION));
    assert!(matches!(&r.notices[..], [Notice::ListHeading, Notice::Empty]));
    assert_eq!(r.prompt, Prompt::MainMenu);
    assert_eq!(app.screen, Screen::MainMenu);
    assert_eq!(app.list.len(), 0);
}

#[test]
fn remove_on_empty_list_says_empty() {
    let mut app = TodoApp::new();
    let r = run(&mut app, Event::Choice(REMOVE_OPTION));
    assert!(matches!(&r.notices[..], [Notice::Empty]));
    assert_eq!(r.prompt, Prompt::MainMenu);
    assert_eq!(app.list.len(), 0);
}

#[test]
fn toggle_remembers_cursor() {
    let mut app = TodoApp::new();
    run(&mut app, Event::Choice(ADD_OPTION));
    for t in ["a", "b", "c"] {
        run(&mut app, Event::Entered(t.to_string()));
    }
    run(&mut app, Event::Entered(String::new()));
    run(&mut app, Event::Choice(VIEW_OPTION));
    let r = run(&mut app, Event::Selected(2));
    assert_eq!(r.prompt, Prompt::ToggleSelect { cursor: 2 });
    assert_eq!(app.screen, Screen::ViewList);
    let r = run(&mut app, Event::Selected(3));
    assert_eq!(r.prompt, Prompt::MainMenu);
    assert_eq!(items(&app)[2], ("c".to_string(), true));
}

#[test]
fn removal_cursor_moves_up_one() {
    let mut app = TodoApp::new();
    run(&mut app, Event::Choice(ADD_OPTION));
    for t in ["a", "b", "c", "d"] {
        run(&mut app, Event::Entered(t.to_string()));
    }
    run(&mut app, Event::Entered(String::new()));
    run(&mut app, Event::Choice(REMOVE_OPTION));
    assert_eq!(run(&mut app, Event::Selected(2)).prompt, Prompt::RemoveSelect { cursor: 1 });
    assert_eq!(run(&mut app, Event::Selected(0)).prompt, Prompt::RemoveSelect { cursor: 0 });
    assert_eq!(run(&mut app, Event::Selected(1)).prompt, Prompt::RemoveSelect { cursor: 0 });
    let r = run(&mut app, Event::Selected(0));
    assert!(matches!(&r.notices[..], [Notice::Removed(_), Notice::Empty]));
    assert_eq!(r.prompt, Prompt::MainMenu);
    assert_eq!(app.screen, Screen::MainMenu);
    assert_eq!(app.list.len(), 0);
}

#[test]
fn cancel_removal_keeps_list() {
    let mut app = TodoApp::new();
    run(&mut app, Event::Choice(ADD_OPTION));
    run(&mut app, Event::Entered("a".to_string()));
    run(&mut app, Event::Entered(" ".to_string()));
    run(&mut app, Event::Choice(REMOVE_OPTION));
    let r = run(&mut app, Event::Selected(1));
    assert!(r.notices.is_empty());
    assert_eq!(r.prompt, Prompt::MainMenu);
    assert_eq!(app.list.len(), 1);
}

#[test]
fn exit_declined_then_confirmed() {
    let mut app = TodoApp::new();
    let r = run(&mut app, Event::Choice(EXIT_OPTION));
    assert_eq!(r.prompt, Prompt::ConfirmExit);
    let r = run(&mut app, Event::Confirmed(false));
    assert_eq!(r.prompt, Prompt::MainMenu);
    run(&mut app, Event::Choice(EXIT_OPTION));
    let r = run(&mut app, Event::Confirmed(true));
    assert!(matches!(&r.notices[..], [Notice::Farewell]));
    assert_eq!(r.prompt, Prompt::Exit);
    assert_eq!(app.screen, Screen::Terminated);
}

#[test]
fn events_that_do_not_fit_are_refused() {
    let mut app = TodoApp::new();
    assert!(!app.accepts(&Event::Choice(4)));
    assert!(!app.accepts(&Event::Selected(0)));
    assert!(!app.accepts(&Event::Entered("x".to_string())));
    run(&mut app, Event::Choice(ADD_OPTION));
    run(&mut app, Event::Entered("x".to_string()));
    run(&mut app, Event::Entered(String::new()));
    run(&mut app, Event::Choice(VIEW_OPTION));
    assert!(app.accepts(&Event::Selected(1)));
    assert!(!app.accepts(&Event::Selected(2)));
    assert!(!app.accepts(&Event::Choice(0)));
    run(&mut app, Event::Selected(1));
    run(&mut app, Event::Choice(EXIT_OPTION));
    run(&mut app, Event::Confirmed(true));
    assert!(!app.accepts(&Event::Confirmed(true)));
    assert!(!app.accepts(&Event::Choice(0)));
}
