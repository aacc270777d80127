//! The item store: an ordered list of to-do items whose texts are trimmed,
//! non-empty, and distinct when ASCII case is ignored.

use vstd::prelude::*;
use crate::item::{ItemView, ToDoItem};
use crate::text::{is_trimmed, is_white_space, trim_back, trim_front, same_text, texts_match, trim_text, trimmed};

verus! {

/// Some item of `items` has text `t`, ignoring ASCII case.
pub open spec fn holds_text(items: Seq<ItemView>, t: Seq<char>) -> bool {
    exists|i: int| 0 <= i < items.len() && same_text(items[i].text, t)
}

/// Every text is non-empty and trimmed, and no two texts are equal ignoring
/// ASCII case.
pub open spec fn items_well_formed(items: Seq<ItemView>) -> bool {
    &&& forall|i: int| 0 <= i < items.len() ==> items[i].text.len() > 0 && is_trimmed(#[trigger] items[i].text)
    &&& forall|i: int, j: int|
        0 <= i < items.len() && 0 <= j < items.len() && i != j ==> !same_text(#[trigger] items[i].text, #[trigger] items[j].text)
}

/// A new item with text `t`, not yet done.
pub open spec fn pending(t: Seq<char>) -> ItemView {
    ItemView { text: t, completed: false }
}

/// Input `t` is added: once trimmed it is non-empty and no item has it.
pub open spec fn accepts(items: Seq<ItemView>, t: Seq<char>) -> bool {
    trimmed(t).len() > 0 && !holds_text(items, trimmed(t))
}

/// The list after an attempt to add input `t`.
pub open spec fn after_add(items: Seq<ItemView>, t: Seq<char>) -> Seq<ItemView> {
    if accepts(items, t) {
        items.push(pending(trimmed(t)))
    } else {
        items
    }
}

/// The list with the completion flag of item `i` inverted.
pub open spec fn after_toggle(items: Seq<ItemView>, i: int) -> Seq<ItemView> {
    items.update(i, ItemView { text: items[i].text, completed: !items[i].completed })
}

/// Why an input was not added.
#[derive(Debug, Clone, Copy, PartialEq, Eq, Structural)]
pub enum AddError {
    /// Nothing is left of the input once trimmed.
    Empty,
    /// The item at this index has the same text, ignoring ASCII case.
    Duplicate(usize),
}

/// An ordered list of to-do items.
pub struct TodoList {
    items: Vec<ToDoItem>,
}

impl View for TodoList {
    type V = Seq<ItemView>;

    closed spec fn view(&self) -> Seq<ItemView> {
        self.items@.map_values(|it: ToDoItem| it@)
    }
}

impl TodoList {
    /// The items meet `items_well_formed`.
    pub open spec fn well_formed(&self) -> bool {
        items_well_formed(self@)
    }

    /// An empty list.
    pub fn new() -> (r: TodoList)
        ensures
            r@ == Seq::<ItemView>::empty(),
            r.well_formed(),
    {
        let r = TodoList { items: Vec::new() };
        assert(r@ =~= Seq::<ItemView>::empty());
        r
    }

    pub fn len(&self) -> (r: usize)
        ensures
            r == self@.len(),
    {
        self.items.len()
    }

    pub fn is_empty(&self) -> (r: bool)
        ensures
            r == (self@.len() == 0),
    {
        self.items.len() == 0
    }

    /// The item at `index`.
    pub fn get(&self, index: usize) -> (r: &ToDoItem)
        requires
            index < self@.len(),
        ensures
            r@ == self@[index as int],
    {
        &self.items[index]
    }

    /// The index of the item whose text equals `text` ignoring ASCII case.
    pub fn find_case_insensitive(&self, text: &str) -> (r: Option<usize>)
        ensures
            match r {
                Some(i) => i < self@.len() && same_text(self@[i as int].text, text@),
                None => !holds_text(self@, text@),
            },
    {
        let n = self.items.len();
        let mut i: usize = 0;
        while i < n
            invariant
                n == self@.len(),
                i <= n,
                forall|j: int| 0 <= j < i ==> !same_text(#[trigger] self@[j].text, text@),
            decreases n - i,
        {
            if texts_match(self.items[i].text.as_str(), text) {
                return Some(i);
            }
            i = i + 1;
        }
        None
    }

    /// Whether some item's text equals `text` ignoring ASCII case.
    pub fn exists_case_insensitive(&self, text: &str) -> (r: bool)
        ensures
            r == holds_text(self@, text@),
    {
        self.find_case_insensitive(text).is_some()
    }

    /// Appends a pending item with text `text`.
    pub fn add(&mut self, text: String)
        requires
            old(self).well_formed(),
            text@.len() > 0,
            is_trimmed(text@),
            !holds_text(old(self)@, text@),
        ensures
            final(self)@ == old(self)@.push(pending(text@)),
            final(self).well_formed(),
    {
        let ghost t = text@;
        self.items.push(ToDoItem::new(text));
        let ghost items = self@;
        assert(items =~= old(self)@.push(pending(t)));
        assert forall|i: int, j: int|
            0 <= i < items.len() && 0 <= j < items.len() && i != j implies !same_text(
            #[trigger] items[i].text,
            #[trigger] items[j].text,
        ) by {
            if j == items.len() - 1 {
                assert(!same_text(items[i].text, t));
            } else if i == items.len() - 1 {
                assert(!same_text(items[j].text, t));
            }
        }
    }
    /// Trims `text` and appends it as a pending item, unless nothing is
    /// left of it or an item already has that text ignoring ASCII case.
    pub fn try_add(&mut self, text: &str) -> (r: Result<(), AddError>)
        requires
            old(self).well_formed(),
        ensures
            final(self)@ == after_add(old(self)@, text@),
            final(self).well_formed(),
            r is Ok <==> accepts(old(self)@, text@),
            r == Err::<(), AddError>(AddError::Empty) <==> trimmed(text@).len() == 0,
            r matches Err(AddError::Duplicate(i)) ==> i < old(self)@.len() && same_text(
                old(self)@[i as int].text,
                trimmed(text@),
            ),
            trimmed(text@).len() > 0 && holds_text(old(self)@, trimmed(text@)) ==> r is Err
                && r != Err::<(), AddError>(AddError::Empty),
    {
        let t = trim_text(text);
        if t.as_str().is_empty() {
            return Err(AddError::Empty);
        }
        assert(t@.len() > 0);
        match self.find_case_insensitive(t.as_str()) {
            Some(i) => Err(AddError::Duplicate(i)),
            None => {
                self.add(t);
                Ok(())
            },
        }
    }

    /// Inverts the completion flag of the item at `index`, in place.
    pub fn toggle(&mut self, index: usize)
        requires
            old(self).well_formed(),
            index < old(self)@.len(),
        ensures
            final(self)@ == after_toggle(old(self)@, index as int),
            final(self).well_formed(),
    {
        let new = self.items[index].toggled();
        self.items.set(index, new);
        assert(self@ =~= after_toggle(old(self)@, index as int));
    }

    /// Removes the item at `index` and returns it; later items move down
    /// by one.
    pub fn remove(&mut self, index: usize) -> (r: ToDoItem)
        requires
            old(self).well_formed(),
            index < old(self)@.len(),
        ensures
            r@ == old(self)@[index as int],
            final(self)@ == old(self)@.remove(index as int),
            final(self).well_formed(),
    {
        let r = self.items.remove(index);
        assert(self@ =~= old(self)@.remove(index as int));
        let ghost items = self@;
        let ghost before = old(self)@;
        assert forall|i: int, j: int|
            0 <= i < items.len() && 0 <= j < items.len() && i != j implies !same_text(
            #[trigger] items[i].text,
            #[trigger] items[j].text,
        ) by {
            let a = if i < index { i } else { i + 1 };
            let b = if j < index { j } else { j + 1 };
            assert(items[i] == before[a]);
            assert(items[j] == before[b]);
        }
        assert forall|i: int| 0 <= i < items.len() implies items[i].text.len() > 0 && is_trimmed(
            #[trigger] items[i].text,
        ) by {
            let a = if i < index { i } else { i + 1 };
            assert(items[i] == before[a]);
        }
        r
    }

}

proof fn lemma_trimmed_keeps(t: Seq<char>)
    requires
        is_trimmed(t),
    ensures
        trimmed(t) == t,
{
    assert(trim_front(t) == t);
    assert(trim_back(t) == t);
}

/// Adding an input equal, ignoring ASCII case, to the text of an item of
/// the list is rejected and leaves the list as it was.
pub proof fn law_duplicate_rejected(items: Seq<ItemView>, i: int, t: Seq<char>)
    requires
        items_well_formed(items),
        0 <= i < items.len(),
        same_text(items[i].text, t),
    ensures
        !accepts(items, t),
        after_add(items, t) == items,
        after_add(items, t).len() == items.len(),
{
    let u = items[i].text;
    assert(is_white_space(t[0]) ==> t[0] == u[0]);
    assert(is_white_space(t.last()) ==> t.last() == u.last());
    lemma_trimmed_keeps(t);
    assert(same_text(items[i].text, trimmed(t)));
}

/// Adding an input that, trimmed, is non-empty and not in the list appends
/// it as a pending item after the items already there.
pub proof fn law_add_appends(items: Seq<ItemView>, t: Seq<char>)
    requires
        items_well_formed(items),
        trimmed(t).len() > 0,
        !holds_text(items, trimmed(t)),
    ensures
        accepts(items, t),
        after_add(items, t).len() == items.len() + 1,
        after_add(items, t).last() == pending(trimmed(t)),
        after_add(items, t).last().completed == false,
        after_add(items, t).subrange(0, items.len() as int) == items,
{
    assert(after_add(items, t).subrange(0, items.len() as int) =~= items);
}

/// Toggling item `i` changes its completion flag and nothing else.
pub proof fn law_toggle_in_place(items: Seq<ItemView>, i: int)
    requires
        0 <= i < items.len(),
    ensures
        after_toggle(items, i).len() == items.len(),
        after_toggle(items, i)[i].text == items[i].text,
        after_toggle(items, i)[i].completed == !items[i].completed,
        forall|j: int| 0 <= j < items.len() && j != i ==> #[trigger] after_toggle(items, i)[j] == items[j],
        items_well_formed(items) ==> items_well_formed(after_toggle(items, i)),
{
    let n = after_toggle(items, i);
    if items_well_formed(items) {
        assert forall|a: int, b: int|
            0 <= a < n.len() && 0 <= b < n.len() && a != b implies !same_text(
            #[trigger] n[a].text,
            #[trigger] n[b].text,
        ) by {
            assert(n[a].text == items[a].text);
            assert(n[b].text == items[b].text);
        }
        assert forall|a: int| 0 <= a < n.len() implies n[a].text.len() > 0 && is_trimmed(
            #[trigger] n[a].text,
        ) by {
            assert(n[a].text == items[a].text);
        }
    }
}

/// Removing item `i` shortens the list by one; the items before `i` stay,
/// and those after it move down by one.
pub proof fn law_remove_shifts(items: Seq<ItemView>, i: int)
    requires
        0 <= i < items.len(),
    ensures
        items.remove(i).len() == items.len() - 1,
        forall|j: int| 0 <= j < i ==> #[trigger] items.remove(i)[j] == items[j],
        forall|j: int| i <= j < items.len() - 1 ==> #[trigger] items.remove(i)[j] == items[j + 1],
{
}

} // verus!
