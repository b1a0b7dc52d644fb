//! Values by pane.

use std::collections::HashMap;

use vstd::prelude::*;

use crate::app::state::PaneId;

verus! {

/// The entry is this pane's.
pub open spec fn of_pane<T>(id: PaneId) -> spec_fn((PaneId, T)) -> bool {
    |e: (PaneId, T)| e.0 == id
}

/// A value for each of some panes.
#[derive(Debug, PartialEq, Eq)]
pub struct PaneMap<T> {
    /// By the number behind the pane's id.
    entries: HashMap<u32, T>,
}

impl<T> View for PaneMap<T> {
    type V = Map<PaneId, T>;

    closed spec fn view(&self) -> Map<PaneId, T> {
        Map::new(
            |id: PaneId| self.entries@.contains_key(id.number()),
            |id: PaneId| self.entries@[id.number()],
        )
    }
}

impl<T> PaneMap<T> {
    pub fn new() -> (r: Self)
        ensures
            r@ == Map::<PaneId, T>::empty(),
    {
        let r = PaneMap { entries: HashMap::new() };
        assert(r@ =~= Map::<PaneId, T>::empty());
        r
    }

    /// The value of a pane.
    pub fn get(&self, id: PaneId) -> (r: Option<&T>)
        ensures
            match r {
                Some(value) => self@.contains_key(id) && self@[id] == *value,
                None => !self@.contains_key(id),
            },
    {
        broadcast use vstd::std_specs::hash::group_hash_axioms;

        self.entries.get(&id.raw())
    }

    /// Whether a pane has a value.
    pub fn has(&self, id: PaneId) -> (r: bool)
        ensures
            r == self@.contains_key(id),
    {
        self.get(id).is_some()
    }

    /// Takes a pane's value away.
    pub fn remove(&mut self, id: PaneId)
        ensures
            final(self)@ == old(self)@.remove(id),
    {
        broadcast use vstd::std_specs::hash::group_hash_axioms;

        let _ = self.entries.remove(&id.raw());
        proof {
            crate::app::state::lemma_pane_ids_are_numbers();
        }
        assert(self@ =~= old(self)@.remove(id));
    }

    /// Gives a pane this value.
    pub fn insert(&mut self, id: PaneId, value: T)
        ensures
            final(self)@ == old(self)@.insert(id, value),
    {
        broadcast use vstd::std_specs::hash::group_hash_axioms;

        let _ = self.entries.insert(id.raw(), value);
        proof {
            crate::app::state::lemma_pane_ids_are_numbers();
        }
        assert(self@ =~= old(self)@.insert(id, value));
    }
}

} // verus!
