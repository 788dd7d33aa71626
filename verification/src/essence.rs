//! The essences that the player carries, counted by element.
//!
//! The counts are kept in bevy's hash map, keyed by the element's rank.
//! What the map holds is named by [`essence_counts`], and the three
//! functions that touch it state, unproved, what the map's own methods do.

use vstd::prelude::*;
use crate::consts::ESSENCE_HEAL;
use crate::consts::ESSENCE_LIMIT;
use crate::entity_set::EntityId;
use crate::health::HealthChange;
use crate::Element;

verus! {

/// How many essences of each element the player carries, stored in
/// `bevy::utils::HashMap<u8, u32>`.
///
/// The type is opaque to the verifier: its only field is the outside
/// collection.
#[verifier::external_body]
pub struct EssenceCounts {
    inner: bevy::utils::HashMap<u8, u32>,
}

/// Marks an entity as a collectible essence.
#[derive(Clone, Copy, Debug, PartialEq, Eq, Structural)]
pub struct Essence;

/// The count that the map holds for each rank.
pub uninterp spec fn essence_counts(counts: EssenceCounts) -> Map<u8, u32>;

impl View for EssenceCounts {
    type V = Map<u8, u32>;

    open spec fn view(&self) -> Map<u8, u32> {
        essence_counts(*self)
    }
}

/// The key under which an element is counted.
pub open spec fn key_of(element: Element) -> u8 {
    element.rank() as u8
}

/// Computes [`key_of`].
fn key(element: Element) -> (k: u8)
    ensures
        k == key_of(element),
{
    match element {
        Element::Fire => 0,
        Element::Water => 1,
        Element::Wind => 2,
        Element::Lightning => 3,
        Element::Earth => 4,
    }
}

impl EssenceCounts {
    /// Calls `HashMap::new`. Claimed: the new map holds no entry.
    #[verifier::external_body]
    fn empty_map() -> (counts: EssenceCounts)
        ensures
            essence_counts(counts).dom() == Set::<u8>::empty(),
    {
        EssenceCounts { inner: bevy::utils::HashMap::new() }
    }

    /// Calls `HashMap::get`. Claimed: the result is the value stored under
    /// `k`, if there is one.
    #[verifier::external_body]
    fn get_entry(&self, k: u8) -> (v: Option<u32>)
        ensures
            v == (if essence_counts(*self).dom().contains(k) {
                Some(essence_counts(*self)[k])
            } else {
                None
            }),
    {
        self.inner.get(&k).copied()
    }

    /// Calls `HashMap::insert`. Claimed: afterwards the map holds `v`
    /// under `k` and is otherwise as before.
    #[verifier::external_body]
    fn insert_entry(&mut self, k: u8, v: u32)
        ensures
            essence_counts(*final(self)) == essence_counts(*old(self)).insert(k, v),
    {
        self.inner.insert(k, v);
    }

    /// The number of essences of `element`. An element without an entry
    /// counts as zero.
    pub open spec fn counted(self, element: Element) -> u32 {
        if self@.dom().contains(key_of(element)) {
            self@[key_of(element)]
        } else {
            0
        }
    }

    /// Computes [`EssenceCounts::counted`].
    pub fn count(&self, element: Element) -> (n: u32)
        ensures
            n == self.counted(element),
    {
        match self.get_entry(key(element)) {
            Some(n) => n,
            None => 0,
        }
    }

    /// Sets the number of essences of `element`.
    pub fn set(&mut self, element: Element, n: u32)
        ensures
            final(self).counted(element) == n,
            forall|other: Element| other != element ==> final(self).counted(other) == old(self).counted(other),
            final(self)@ == old(self)@.insert(key_of(element), n),
    {
        self.insert_entry(key(element), n);
        assert forall|other: Element| other != element implies self.counted(other)
            == old(self).counted(other) by {
            assert(key_of(other) != key_of(element));
        }
    }

    /// Picks up an essence of `element` if fewer than the limit are
    /// carried. Returns whether it was picked up.
    pub fn collect(&mut self, element: Element) -> (taken: bool)
        ensures
            taken == (old(self).counted(element) < ESSENCE_LIMIT),
            taken ==> final(self).counted(element) == old(self).counted(element) + 1,
            !taken ==> final(self)@ == old(self)@,
            forall|other: Element| other != element ==> final(self).counted(other) == old(self).counted(other),
    {
        let n: u32 = self.count(element);
        if n < ESSENCE_LIMIT {
            self.set(element, n + 1);
            true
        } else {
            false
        }
    }

    /// Uses up an essence of `element` if one is carried. Returns whether
    /// one was.
    pub fn spend(&mut self, element: Element) -> (spent: bool)
        ensures
            spent == (old(self).counted(element) != 0),
            spent ==> final(self).counted(element) == old(self).counted(element) - 1,
            !spent ==> final(self)@ == old(self)@,
            forall|other: Element| other != element ==> final(self).counted(other) == old(self).counted(other),
    {
        let n: u32 = self.count(element);
        if n != 0 {
            self.set(element, n - 1);
            true
        } else {
            false
        }
    }

    /// Gives back an essence of `element` that was spent in vain. The
    /// count stops at the largest `u32`.
    pub fn refund(&mut self, element: Element)
        ensures
            final(self).counted(element) == (if old(self).counted(element) == u32::MAX {
                u32::MAX
            } else {
                (old(self).counted(element) + 1) as u32
            }),
            forall|other: Element| other != element ==> final(self).counted(other) == old(self).counted(other),
    {
        let n: u32 = self.count(element);
        self.set(element, if n == u32::MAX { n } else { n + 1 });
    }
}

impl Default for EssenceCounts {
    /// No essence of any element.
    fn default() -> (counts: EssenceCounts)
        ensures
            forall|element: Element| counts.counted(element) == 0,
            counts@.dom() =~= set![0u8, 1u8, 2u8, 3u8, 4u8],
    {
        let mut counts = EssenceCounts::empty_map();
        counts.insert_entry(0, 0);
        counts.insert_entry(1, 0);
        counts.insert_entry(2, 0);
        counts.insert_entry(3, 0);
        counts.insert_entry(4, 0);
        counts
    }
}

/// Lets the player `player` touch an essence of `element`. If it is
/// picked up, the player is healed.
pub fn collect(counts: &mut EssenceCounts, element: Element, player: EntityId) -> (heal: Option<
    HealthChange,
>)
    ensures
        heal == (if old(counts).counted(element) < ESSENCE_LIMIT {
            Some(HealthChange { target: player, amount: ESSENCE_HEAL })
        } else {
            None
        }),
        heal is Some ==> final(counts).counted(element) == old(counts).counted(element) + 1,
        heal is None ==> final(counts)@ == old(counts)@,
        forall|other: Element| other != element ==> final(counts).counted(other) == old(counts).counted(other),
{
    if counts.collect(element) {
        Some(HealthChange { target: player, amount: ESSENCE_HEAL })
    } else {
        None
    }
}

} // verus!
