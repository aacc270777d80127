//! The menu controller as a state machine. The caller shows each prompt,
//! reads the user's answer and hands it back as an event; `step` decides
//! what changes, what to tell the user and what to ask next.

use vstd::prelude::*;
use crate::item::{ItemView, ToDoItem};
use crate::store::{after_add, after_toggle, holds_text, AddError, TodoList};
use crate::text::{same_text, trimmed};

verus! {

/// Main menu option: view the list and toggle items.
pub const VIEW_OPTION: usize = 0;

/// Main menu option: add items.
pub const ADD_OPTION: usize = 1;

/// Main menu option: remove items.
pub const REMOVE_OPTION: usize = 2;

/// Main menu option: leave the program.
pub const EXIT_OPTION: usize = 3;

/// Number of options in the main menu.
pub const MAIN_OPTIONS: usize = 4;

/// Where the interaction stands.
#[derive(Debug, Clone, Copy, PartialEq, Eq, Structural)]
pub enum Screen {
    MainMenu,
    ViewList,
    AddItem,
    RemoveItem,
    ConfirmExit,
    Terminated,
}

/// What the user answered to the last prompt.
#[derive(Debug)]
pub enum Event {
    /// An option of the main menu, by index.
    Choice(usize),
    /// An entry of an item list, by index; the index one past the last item
    /// is the closing entry ("Exit" or "Cancel").
    Selected(usize),
    /// A line of text typed at the item prompt.
    Entered(String),
    /// The answer to the exit confirmation.
    Confirmed(bool),
}

/// What to ask the user next.
#[derive(Debug, Clone, Copy, PartialEq, Eq, Structural)]
pub enum Prompt {
    /// The main menu, with its first option preselected.
    MainMenu,
    /// The items and an "Exit" entry; choosing an item toggles it.
    ToggleSelect { cursor: usize },
    /// A line of text for a new item.
    ItemText,
    /// The items and a "Cancel" entry; choosing an item removes it.
    RemoveSelect { cursor: usize },
    /// Whether to leave, with "no" preselected.
    ConfirmExit,
    /// Nothing more: the program ends with success.
    Exit,
}

/// A message to show before the next prompt.
#[derive(Debug)]
pub enum Notice {
    /// The heading of the item list.
    ListHeading,
    /// The list has no items.
    Empty,
    /// The typed text is already in the list, as this item's text.
    Duplicate(String),
    /// This item was taken out of the list.
    Removed(ToDoItem),
    /// The farewell on leaving.
    Farewell,
}

/// The answer of the controller to one event.
#[derive(Debug)]
pub struct Reply {
    pub notices: Vec<Notice>,
    pub prompt: Prompt,
}

/// The selection that a removal list preselects after the item at `last`
/// was removed: one above it, and the first entry after the first item.
pub open spec fn cursor_after_removal(last: int) -> int {
    if last >= 1 {
        last - 1
    } else {
        0
    }
}

/// Whether `event` answers the prompt of `screen` with a list of `n` items.
pub open spec fn event_fits(screen: Screen, n: int, event: Event) -> bool {
    match screen {
        Screen::MainMenu => event is Choice && event->Choice_0 < MAIN_OPTIONS,
        Screen::ViewList | Screen::RemoveItem => event is Selected && event->Selected_0 <= n,
        Screen::AddItem => matches!(event, Event::Entered(_)),
        Screen::ConfirmExit => matches!(event, Event::Confirmed(_)),
        Screen::Terminated => false,
    }
}

/// The outcome of main menu option `c` on a list `items`.
pub open spec fn main_menu_post(items: Seq<ItemView>, c: usize, new: TodoApp, r: Reply) -> bool {
    &&& new.list@ == items
    &&& if c == VIEW_OPTION {
        if items.len() == 0 {
            &&& new.screen == Screen::MainMenu
            &&& r.notices@ == seq![Notice::ListHeading, Notice::Empty]
            &&& r.prompt == Prompt::MainMenu
        } else {
            &&& new.screen == Screen::ViewList
            &&& r.notices@ == seq![Notice::ListHeading]
            &&& r.prompt == (Prompt::ToggleSelect { cursor: 0 })
        }
    } else if c == ADD_OPTION {
        &&& new.screen == Screen::AddItem
        &&& r.notices@.len() == 0
        &&& r.prompt == Prompt::ItemText
    } else if c == REMOVE_OPTION {
        if items.len() == 0 {
            &&& new.screen == Screen::MainMenu
            &&& r.notices@ == seq![Notice::Empty]
            &&& r.prompt == Prompt::MainMenu
        } else {
            &&& new.screen == Screen::RemoveItem
            &&& r.notices@.len() == 0
            &&& r.prompt == (Prompt::RemoveSelect { cursor: 0 })
        }
    } else {
        &&& new.screen == Screen::ConfirmExit
        &&& r.notices@.len() == 0
        &&& r.prompt == Prompt::ConfirmExit
    }
}

/// Back at the main menu with nothing to tell and the list unchanged.
pub open spec fn back_to_main(items: Seq<ItemView>, new: TodoApp, r: Reply) -> bool {
    &&& new.list@ == items
    &&& new.screen == Screen::MainMenu
    &&& r.notices@.len() == 0
    &&& r.prompt == Prompt::MainMenu
}

/// The outcome of choosing entry `k` of the toggle list over `items`.
pub open spec fn view_list_post(items: Seq<ItemView>, k: usize, new: TodoApp, r: Reply) -> bool {
    if k == items.len() {
        back_to_main(items, new, r)
    } else {
        &&& new.list@ == after_toggle(items, k as int)
        &&& new.screen == Screen::ViewList
        &&& r.notices@.len() == 0
        &&& r.prompt == (Prompt::ToggleSelect { cursor: k })
    }
}

/// The outcome of typing `s` at the item prompt over `items`.
pub open spec fn add_item_post(items: Seq<ItemView>, s: Seq<char>, new: TodoApp, r: Reply) -> bool {
    &&& new.list@ == after_add(items, s)
    &&& if trimmed(s).len() == 0 {
        back_to_main(items, new, r)
    } else if holds_text(items, trimmed(s)) {
        &&& new.screen == Screen::AddItem
        &&& r.notices@.len() == 1
        &&& r.notices@[0] is Duplicate
        &&& exists|i: int|
            0 <= i < items.len() && items[i].text == r.notices@[0]->Duplicate_0@ && same_text(
                items[i].text,
                trimmed(s),
            )
        &&& r.prompt == Prompt::ItemText
    } else {
        &&& new.screen == Screen::AddItem
        &&& r.notices@.len() == 0
        &&& r.prompt == Prompt::ItemText
    }
}

/// The outcome of choosing entry `k` of the removal list over `items`.
pub open spec fn remove_item_post(items: Seq<ItemView>, k: usize, new: TodoApp, r: Reply) -> bool {
    if k == items.len() {
        back_to_main(items, new, r)
    } else {
        &&& new.list@ == items.remove(k as int)
        &&& r.notices@.len() >= 1
        &&& r.notices@[0] is Removed
        &&& r.notices@[0]->Removed_0@ == items[k as int]
        &&& if items.len() == 1 {
            &&& new.screen == Screen::MainMenu
            &&& r.notices@ == seq![r.notices@[0], Notice::Empty]
            &&& r.prompt == Prompt::MainMenu
        } else {
            &&& new.screen == Screen::RemoveItem
            &&& r.notices@.len() == 1
            &&& r.prompt == (Prompt::RemoveSelect { cursor: cursor_after_removal(k as int) as usize })
        }
    }
}

/// The outcome of answering `yes` to the exit confirmation over `items`.
pub open spec fn exit_post(items: Seq<ItemView>, yes: bool, new: TodoApp, r: Reply) -> bool {
    if yes {
        &&& new.list@ == items
        &&& new.screen == Screen::Terminated
        &&& r.notices@ == seq![Notice::Farewell]
        &&& r.prompt == Prompt::Exit
    } else {
        back_to_main(items, new, r)
    }
}

/// The outcome of `event` on `screen` over `items`.
pub open spec fn step_post(screen: Screen, items: Seq<ItemView>, event: Event, new: TodoApp, r: Reply) -> bool {
    match screen {
        Screen::MainMenu => main_menu_post(items, event->Choice_0, new, r),
        Screen::ViewList => view_list_post(items, event->Selected_0, new, r),
        Screen::AddItem => add_item_post(items, event->Entered_0@, new, r),
        Screen::RemoveItem => remove_item_post(items, event->Selected_0, new, r),
        Screen::ConfirmExit => exit_post(items, event->Confirmed_0, new, r),
        Screen::Terminated => false,
    }
}

/// The to-do list and where the interaction with it stands.
pub struct TodoApp {
    pub list: TodoList,
    pub screen: Screen,
}

fn reply(notices: Vec<Notice>, prompt: Prompt) -> (r: Reply)
    ensures
        r.notices == notices,
        r.prompt == prompt,
{
    Reply { notices, prompt }
}

fn no_notices() -> (r: Vec<Notice>)
    ensures
        r@ == Seq::<Notice>::empty(),
{
    Vec::new()
}

fn one_notice(a: Notice) -> (r: Vec<Notice>)
    ensures
        r@ == seq![a],
{
    let mut r = Vec::new();
    r.push(a);
    r
}

fn two_notices(a: Notice, b: Notice) -> (r: Vec<Notice>)
    ensures
        r@ == seq![a, b],
{
    let mut r = Vec::new();
    r.push(a);
    r.push(b);
    r
}

impl TodoApp {
    /// The list keeps its invariant.
    pub open spec fn well_formed(&self) -> bool {
        self.list.well_formed()
    }

    /// An empty list at the main menu.
    pub fn new() -> (r: TodoApp)
        ensures
            r.well_formed(),
            r.list@.len() == 0,
            r.screen == Screen::MainMenu,
    {
        TodoApp { list: TodoList::new(), screen: Screen::MainMenu }
    }

    /// Whether `event` answers the prompt of the current screen.
    pub fn accepts(&self, event: &Event) -> (r: bool)
        ensures
            r == event_fits(self.screen, self.list@.len() as int, *event),
    {
        let n = self.list.len();
        match self.screen {
            Screen::MainMenu => match event {
                Event::Choice(c) => *c < MAIN_OPTIONS,
                _ => false,
            },
            Screen::ViewList | Screen::RemoveItem => match event {
                Event::Selected(k) => *k <= n,
                _ => false,
            },
            Screen::AddItem => matches!(event, Event::Entered(_)),
            Screen::ConfirmExit => matches!(event, Event::Confirmed(_)),
            Screen::Terminated => false,
        }
    }
    /// Acts on main menu option `c`.
    pub fn main_menu(&mut self, c: usize) -> (r: Reply)
        requires
            old(self).well_formed(),
            old(self).screen == Screen::MainMenu,
            c < MAIN_OPTIONS,
        ensures
            final(self).well_formed(),
            main_menu_post(old(self).list@, c, *final(self), r),
    {
        if c == VIEW_OPTION {
            if self.list.is_empty() {
                reply(two_notices(Notice::ListHeading, Notice::Empty), Prompt::MainMenu)
            } else {
                self.screen = Screen::ViewList;
                reply(one_notice(Notice::ListHeading), Prompt::ToggleSelect { cursor: 0 })
            }
        } else if c == ADD_OPTION {
            self.screen = Screen::AddItem;
            reply(no_notices(), Prompt::ItemText)
        } else if c == REMOVE_OPTION {
            if self.list.is_empty() {
                reply(one_notice(Notice::Empty), Prompt::MainMenu)
            } else {
                self.screen = Screen::RemoveItem;
                reply(no_notices(), Prompt::RemoveSelect { cursor: 0 })
            }
        } else {
            self.screen = Screen::ConfirmExit;
            reply(no_notices(), Prompt::ConfirmExit)
        }
    }

    /// Acts on entry `k` of the toggle list: the closing entry goes back to
    /// the main menu, an item has its completion flag inverted.
    pub fn view_list(&mut self, k: usize) -> (r: Reply)
        requires
            old(self).well_formed(),
            old(self).screen == Screen::ViewList,
            k <= old(self).list@.len(),
        ensures
            final(self).well_formed(),
            view_list_post(old(self).list@, k, *final(self), r),
    {
        if k == self.list.len() {
            self.screen = Screen::MainMenu;
            reply(no_notices(), Prompt::MainMenu)
        } else {
            self.list.toggle(k);
            reply(no_notices(), Prompt::ToggleSelect { cursor: k })
        }
    }

    /// Acts on text `s` typed at the item prompt: empty once trimmed goes
    /// back to the main menu, a duplicate is reported, anything else is
    /// added.
    pub fn add_item_menu(&mut self, s: &str) -> (r: Reply)
        requires
            old(self).well_formed(),
            old(self).screen == Screen::AddItem,
        ensures
            final(self).well_formed(),
            add_item_post(old(self).list@, s@, *final(self), r),
    {
        match self.list.try_add(s) {
            Ok(()) => reply(no_notices(), Prompt::ItemText),
            Err(AddError::Empty) => {
                self.screen = Screen::MainMenu;
                reply(no_notices(), Prompt::MainMenu)
            },
            Err(AddError::Duplicate(i)) => {
                let existing = self.list.get(i).text.clone();
                reply(one_notice(Notice::Duplicate(existing)), Prompt::ItemText)
            },
        }
    }

    /// Acts on entry `k` of the removal list: the closing entry goes back to
    /// the main menu, an item is removed.
    pub fn remove_item_menu(&mut self, k: usize) -> (r: Reply)
        requires
            old(self).well_formed(),
            old(self).screen == Screen::RemoveItem,
            k <= old(self).list@.len(),
        ensures
            final(self).well_formed(),
            remove_item_post(old(self).list@, k, *final(self), r),
    {
        if k == self.list.len() {
            self.screen = Screen::MainMenu;
            return reply(no_notices(), Prompt::MainMenu);
        }
        let removed = self.list.remove(k);
        if self.list.is_empty() {
            self.screen = Screen::MainMenu;
            reply(two_notices(Notice::Removed(removed), Notice::Empty), Prompt::MainMenu)
        } else {
            let cursor = if k >= 1 {
                k - 1
            } else {
                0
            };
            reply(one_notice(Notice::Removed(removed)), Prompt::RemoveSelect { cursor })
        }
    }

    /// Acts on the answer to the exit confirmation.
    pub fn exit(&mut self, yes: bool) -> (r: Reply)
        requires
            old(self).well_formed(),
            old(self).screen == Screen::ConfirmExit,
        ensures
            final(self).well_formed(),
            exit_post(old(self).list@, yes, *final(self), r),
    {
        if yes {
            self.screen = Screen::Terminated;
            reply(one_notice(Notice::Farewell), Prompt::Exit)
        } else {
            self.screen = Screen::MainMenu;
            reply(no_notices(), Prompt::MainMenu)
        }
    }

    /// Acts on `event`, which must answer the prompt of the current screen.
    /// Viewing or removing on an empty list tells so and changes nothing.
    pub fn step(&mut self, event: Event) -> (r: Reply)
        requires
            old(self).well_formed(),
            event_fits(old(self).screen, old(self).list@.len() as int, event),
        ensures
            final(self).well_formed(),
            step_post(old(self).screen, old(self).list@, event, *final(self), r),
            old(self).screen == Screen::MainMenu && old(self).list@.len() == 0
                && (event == Event::Choice(VIEW_OPTION) || event == Event::Choice(REMOVE_OPTION))
                ==> final(self).list@ == old(self).list@ && r.notices@.contains(Notice::Empty),
    {
        let r = match event {
            Event::Choice(c) => self.main_menu(c),
            Event::Selected(k) => {
                if self.screen == Screen::ViewList {
                    self.view_list(k)
                } else {
                    self.remove_item_menu(k)
                }
            },
            Event::Entered(s) => self.add_item_menu(s.as_str()),
            Event::Confirmed(yes) => self.exit(yes),
        };
        proof {
            if old(self).screen == Screen::MainMenu && old(self).list@.len() == 0 {
                let last = r.notices@.len() - 1;
                if event == Event::Choice(VIEW_OPTION) || event == Event::Choice(REMOVE_OPTION) {
                    assert(r.notices@[last] == Notice::Empty);
                }
            }
        }
        r
    }
}

} // verus!
