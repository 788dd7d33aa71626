//! A set of entity identifiers, kept in bevy's hash set.
//!
//! Verus does not look inside the set. What it holds is named by
//! [`entity_set_members`], and the functions below state, unproved, what the
//! hash set's own methods do to it.

use vstd::prelude::*;

verus! {

/// Identifies one entity of the simulation.
pub type EntityId = u64;

/// A set of entities, stored in `bevy::utils::HashSet<u64>`.
///
/// The type is opaque to the verifier: its only field is the outside
/// collection.
#[verifier::external_body]
pub struct EntitySet {
    inner: bevy::utils::HashSet<u64>,
}

/// The identifiers that a set holds.
pub uninterp spec fn entity_set_members(s: EntitySet) -> Set<u64>;

impl View for EntitySet {
    type V = Set<u64>;

    open spec fn view(&self) -> Set<u64> {
        entity_set_members(*self)
    }
}

impl EntitySet {
    /// Calls `HashSet::new`. Claimed: the new set holds nothing.
    #[verifier::external_body]
    pub(crate) fn new() -> (s: EntitySet)
        ensures
            entity_set_members(s) == Set::<u64>::empty(),
    {
        EntitySet { inner: bevy::utils::HashSet::new() }
    }

    /// Calls `HashSet::insert`. Claimed: afterwards the set holds `id` and
    /// what it held before, and the result tells whether `id` was absent.
    #[verifier::external_body]
    pub(crate) fn insert(&mut self, id: EntityId) -> (fresh: bool)
        ensures
            fresh == !entity_set_members(*old(self)).contains(id),
            entity_set_members(*final(self)) == entity_set_members(*old(self)).insert(id),
    {
        self.inner.insert(id)
    }

    /// Calls `HashSet::remove`. Claimed: afterwards the set holds what it
    /// held before except `id`.
    #[verifier::external_body]
    pub(crate) fn remove(&mut self, id: EntityId)
        ensures
            entity_set_members(*final(self)) == entity_set_members(*old(self)).remove(id),
    {
        self.inner.remove(&id);
    }

    /// Calls `HashSet::contains`. Claimed: the result tells whether the set
    /// holds `id`.
    #[verifier::external_body]
    pub(crate) fn contains(&self, id: EntityId) -> (present: bool)
        ensures
            present == entity_set_members(*self).contains(id),
    {
        self.inner.contains(&id)
    }
}

} // verus!
