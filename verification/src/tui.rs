//! Selection state for the terminal song list. The terminal front end owns
//! the widgets; the wrap-around selection logic lives here, with the
//! selection held as a plain optional index.

use vstd::prelude::*;

verus! {

/// A list of items with one optional selection, scrolled with wrap-around.
pub struct StatefulList<T> {
    selected: Option<usize>,
    items: Vec<T>,
}

impl<T> StatefulList<T> {
    /// The current selection.
    pub closed spec fn spec_selected(self) -> Option<usize> {
        self.selected
    }

    /// The items of the list.
    pub closed spec fn spec_items(self) -> Seq<T> {
        self.items@
    }

    /// Wraps items into a list with nothing selected.
    pub fn with_items(items: Vec<T>) -> (r: StatefulList<T>)
        ensures
            r.spec_selected() is None,
            r.spec_items() == items@,
    {
        StatefulList { selected: None, items }
    }

    /// The current selection.
    pub fn selected(&self) -> (r: Option<usize>)
        ensures
            r == self.spec_selected(),
    {
        self.selected
    }

    /// The items of the list.
    pub fn items(&self) -> (r: &Vec<T>)
        ensures
            r@ == self.spec_items(),
    {
        &self.items
    }

    /// Moves the selection one item down, from the last item back to the
    /// first; an empty selection starts at the first item.
    pub fn next(&mut self)
        requires
            old(self).spec_selected() is Some ==> old(self).spec_items().len() > 0,
        ensures
            final(self).spec_items() == old(self).spec_items(),
            final(self).spec_selected() == Some(
                match old(self).spec_selected() {
                    Some(i) => if i + 1 >= old(self).spec_items().len() {
                        0usize
                    } else {
                        (i + 1) as usize
                    },
                    None => 0usize,
                },
            ),
    {
        let i: usize = match self.selected {
            Some(i) => {
                if i >= self.items.len() - 1 {
                    0
                } else {
                    i + 1
                }
            },
            None => 0,
        };
        self.selected = Some(i);
    }

    /// Moves the selection one item up, from the first item round to the
    /// last; an empty selection starts at the first item.
    pub fn previous(&mut self)
        requires
            old(self).spec_selected() is Some ==> old(self).spec_items().len() > 0,
        ensures
            final(self).spec_items() == old(self).spec_items(),
            final(self).spec_selected() == Some(
                match old(self).spec_selected() {
                    Some(i) => if i == 0 {
                        (old(self).spec_items().len() - 1) as usize
                    } else {
                        (i - 1) as usize
                    },
                    None => 0usize,
                },
            ),
    {
        let i: usize = match self.selected {
            Some(i) => {
                if i == 0 {
                    self.items.len() - 1
                } else {
                    i - 1
                }
            },
            None => 0,
        };
        self.selected = Some(i);
    }
}

} // verus!
