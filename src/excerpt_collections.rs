use vstd::prelude::*;

use crate::cut::ExcerptCollection;

verus! {

/// The excerpt collections of several sessions, one of which is selected.
pub struct ExcerptCollections {
    collections: Vec<ExcerptCollection>,
    num_selected: usize,
}

impl ExcerptCollections {
    pub closed spec fn collections(&self) -> Seq<ExcerptCollection> {
        self.collections@
    }

    pub closed spec fn selected(&self) -> int {
        self.num_selected as int
    }

    pub fn new(collections: Vec<ExcerptCollection>) -> (r: ExcerptCollections)
        ensures
            r.collections() == collections@,
            r.selected() == 0,
    {
        ExcerptCollections { collections, num_selected: 0 }
    }

    pub fn get_selected(&self) -> (r: &ExcerptCollection)
        requires
            self.selected() < self.collections().len(),
        ensures
            *r == self.collections()[self.selected()],
    {
        &self.collections[self.num_selected]
    }

    /// Selects the next collection, staying at the last one.
    pub fn select_next(&mut self)
        requires
            old(self).collections().len() > 0,
        ensures
            final(self).collections() == old(self).collections(),
            final(self).selected() == if old(self).selected() + 1 < old(self).collections().len() {
                old(self).selected() + 1
            } else {
                old(self).collections().len() - 1
            },
    {
        let last = self.collections.len() - 1;
        self.num_selected = if self.num_selected < last {
            self.num_selected + 1
        } else {
            last
        };
    }

    /// Selects the previous collection, staying at the first one.
    pub fn select_previous(&mut self)
        ensures
            final(self).collections() == old(self).collections(),
            final(self).selected() == if old(self).selected() == 0 {
                0
            } else {
                old(self).selected() - 1
            },
    {
        if self.num_selected == 0 {
            return;
        }
        self.num_selected = self.num_selected - 1;
    }

    pub fn select(&mut self, num: usize)
        ensures
            final(self).collections() == old(self).collections(),
            final(self).selected() == num,
    {
        self.num_selected = num;
    }

    pub fn get_selected_index(&self) -> (r: usize)
        ensures
            r == self.selected(),
    {
        self.num_selected
    }

    pub fn len(&self) -> (r: usize)
        ensures
            r == self.collections().len(),
    {
        self.collections.len()
    }

    /// The collections in order; a collection's index is its position.
    pub fn enumerate(&self) -> (r: &[ExcerptCollection])
        ensures
            r@ == self.collections(),
    {
        self.collections.as_slice()
    }
}

} // verus!
