//! Display strings for items: done items are shown in green.

use vstd::prelude::*;
use crate::item::ToDoItem;
use crate::store::TodoList;

verus! {

/// The ANSI escape that sets the foreground colour with code `code`.
pub open spec fn ansi_foreground(code: char) -> Seq<char> {
    seq!['\x1b', '[', '3', code, 'm']
}

/// The ANSI escape that resets all styling.
pub open spec fn ansi_reset() -> Seq<char> {
    seq!['\x1b', '[', '0', 'm']
}

/// `t` as console renders it in colour `code`: either bare, where colours
/// are off for standard output, or between the colour's escape and a reset.
pub open spec fn painted(t: Seq<char>, code: char, r: Seq<char>) -> bool {
    r == t || r == ansi_foreground(code) + t + ansi_reset()
}

/// Relies on `console::style(..).green()` and its `Display`: the text is
/// written between `ESC[32m` and `ESC[0m` when colours are on for standard
/// output, and bare otherwise.
#[verifier::external_body]
fn green_text(t: &str) -> (r: String)
    ensures
        painted(t@, '2', r@),
{
    console::style(t).green().to_string()
}

/// Relies on `console::style(..).red()` and its `Display`: the text is
/// written between `ESC[31m` and `ESC[0m` when colours are on for standard
/// output, and bare otherwise.
#[verifier::external_body]
fn red_text(t: &str) -> (r: String)
    ensures
        painted(t@, '1', r@),
{
    console::style(t).red().to_string()
}

/// The display string of each item, in list order: a done item's text in
/// green, a pending item's text as it is.
pub fn get_formatted_items(list: &TodoList) -> (r: Vec<String>)
    ensures
        r@.len() == list@.len(),
        forall|i: int|
            0 <= i < r@.len() ==> if list@[i].completed {
                painted(list@[i].text, '2', #[trigger] r@[i]@)
            } else {
                r@[i]@ == list@[i].text
            },
{
    let n = list.len();
    let mut r: Vec<String> = Vec::new();
    let mut i: usize = 0;
    while i < n
        invariant
            n == list@.len(),
            i <= n,
            r@.len() == i,
            forall|j: int|
                0 <= j < i ==> if list@[j].completed {
                    painted(list@[j].text, '2', #[trigger] r@[j]@)
                } else {
                    r@[j]@ == list@[j].text
                },
        decreases n - i,
    {
        let item = list.get(i);
        let s = if item.completed {
            green_text(item.text.as_str())
        } else {
            item.text.clone()
        };
        r.push(s);
        i = i + 1;
    }
    r
}

/// The text of a removed item: green where it was done, red where not.
pub fn removed_label(item: &ToDoItem) -> (r: String)
    ensures
        painted(item.text@, if item.completed { '2' } else { '1' }, r@),
{
    if item.completed {
        green_text(item.text.as_str())
    } else {
        red_text(item.text.as_str())
    }
}

} // verus!
