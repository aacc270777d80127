//! A to-do item and its mathematical view.

use vstd::prelude::*;

verus! {

/// A to-do entry: its text and whether it is done.
#[derive(Debug)]
pub struct ToDoItem {
    pub text: String,
    pub completed: bool,
}

/// What a `ToDoItem` holds, as mathematical values.
pub struct ItemView {
    pub text: Seq<char>,
    pub completed: bool,
}

impl View for ToDoItem {
    type V = ItemView;

    open spec fn view(&self) -> ItemView {
        ItemView { text: self.text@, completed: self.completed }
    }
}

impl ToDoItem {
    /// A pending item with the given text.
    pub fn new(text: String) -> (r: ToDoItem)
        ensures
            r@ == (ItemView { text: text@, completed: false }),
    {
        ToDoItem { text, completed: false }
    }

    /// The same text with the completion flag inverted.
    pub fn toggled(&self) -> (r: ToDoItem)
        ensures
            r@ == (ItemView { text: self.text@, completed: !self.completed }),
    {
        ToDoItem { text: self.text.clone(), completed: !self.completed }
    }
}

} // verus!
