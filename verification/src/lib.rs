//! The combat-simulation core of a top-down action game: how hostile agents
//! perceive and chase a target, how hazards turn collisions into damage,
//! force and status effects, and how two elements combine into one effect.
//!
//! Everything here works on plain values. Scalars are fixed-point integers
//! (see [`units`]), entities are `u64` identifiers, and time advances only
//! through the deltas handed to the tick functions.

use vstd::prelude::*;

pub mod consts;
pub mod enemy;
pub mod entity_set;
pub mod essence;
pub mod falloff;
pub mod geometry;
pub mod health;
pub mod hitbox;
pub mod hitstun;
pub mod homing;
pub mod level;
pub mod pathing;
pub mod player;
pub mod potion;
pub mod resolver;
pub mod status;
pub mod timer;
pub mod units;
pub mod utils;

verus! {

/// Marks an entity as a hostile agent.
#[derive(Clone, Copy, Debug, PartialEq, Eq, Structural)]
pub struct Enemy;

/// The screen the game is on.
#[derive(Clone, Copy, Debug, PartialEq, Eq, Hash, Structural)]
pub enum GameState {
    MainMenu,
    InGame,
}

/// Whether the simulation is halted.
#[derive(Clone, Copy, Debug, PartialEq, Eq, Hash, Structural)]
pub enum PauseState {
    Paused,
    Unpaused,
}

/// One of the five elements.
#[derive(Clone, Copy, Debug, PartialEq, Eq, Hash, Structural)]
pub enum Element {
    Fire,
    Water,
    Wind,
    Lightning,
    Earth,
}

impl Element {
    /// The position of the element in the fixed order fire, water, wind,
    /// lightning, earth.
    pub open spec fn rank(self) -> int {
        match self {
            Element::Fire => 0,
            Element::Water => 1,
            Element::Wind => 2,
            Element::Lightning => 3,
            Element::Earth => 4,
        }
    }

    /// The element at position `index`, if there is one.
    pub open spec fn at(index: int) -> Option<Element> {
        if index == 0 {
            Some(Element::Fire)
        } else if index == 1 {
            Some(Element::Water)
        } else if index == 2 {
            Some(Element::Wind)
        } else if index == 3 {
            Some(Element::Lightning)
        } else if index == 4 {
            Some(Element::Earth)
        } else {
            None
        }
    }

    /// Computes [`Element::rank`].
    pub fn index(self) -> (i: usize)
        ensures
            i == self.rank(),
            Element::at(i as int) == Some(self),
    {
        match self {
            Element::Fire => 0,
            Element::Water => 1,
            Element::Wind => 2,
            Element::Lightning => 3,
            Element::Earth => 4,
        }
    }

    /// Computes [`Element::at`].
    pub fn from_index(index: usize) -> (e: Option<Element>)
        ensures
            e == Element::at(index as int),
            e matches Some(found) ==> found.rank() == index,
    {
        if index == 0 {
            Some(Element::Fire)
        } else if index == 1 {
            Some(Element::Water)
        } else if index == 2 {
            Some(Element::Wind)
        } else if index == 3 {
            Some(Element::Lightning)
        } else if index == 4 {
            Some(Element::Earth)
        } else {
            None
        }
    }

    /// The element that a level file names, if `name` is one of `Fire`,
    /// `Water`, `Wind`, `Lightning` and `Earth`.
    pub open spec fn named(name: Seq<char>) -> Option<Element> {
        if name == "Fire"@ {
            Some(Element::Fire)
        } else if name == "Water"@ {
            Some(Element::Water)
        } else if name == "Wind"@ {
            Some(Element::Wind)
        } else if name == "Lightning"@ {
            Some(Element::Lightning)
        } else if name == "Earth"@ {
            Some(Element::Earth)
        } else {
            None
        }
    }

    /// Computes [`Element::named`].
    pub fn from_name(name: &str) -> (e: Option<Element>)
        ensures
            e == Element::named(name@),
    {
        if same_text(name, "Fire") {
            Some(Element::Fire)
        } else if same_text(name, "Water") {
            Some(Element::Water)
        } else if same_text(name, "Wind") {
            Some(Element::Wind)
        } else if same_text(name, "Lightning") {
            Some(Element::Lightning)
        } else if same_text(name, "Earth") {
            Some(Element::Earth)
        } else {
            None
        }
    }
}

/// Whether two strings hold the same characters.
pub fn same_text(a: &str, b: &str) -> (same: bool)
    ensures
        same == (a@ == b@),
{
    let n: usize = a.unicode_len();
    if b.unicode_len() != n {
        return false;
    }
    let mut i: usize = 0;
    while i < n
        invariant
            i <= n,
            n == a@.len(),
            n == b@.len(),
            forall|j: int| 0 <= j < i ==> a@[j] == b@[j],
        decreases n - i,
    {
        if a.get_char(i) != b.get_char(i) {
            return false;
        }
        i += 1;
    }
    assert(a@ =~= b@);
    true
}

} // verus!
