//! Hit points and the requests that change them.

use vstd::prelude::*;
use crate::entity_set::EntityId;
use crate::units::clamp_i64;
use crate::units::floor_div;
use crate::units::UNIT;
use crate::utils::TimeScale;

verus! {

/// A request to add `amount` to the hit points of `target`. Damage is a
/// negative amount, healing a positive one.
#[derive(Clone, Copy, Debug, PartialEq, Eq, Structural)]
pub struct HealthChange {
    pub target: EntityId,
    pub amount: i64,
}

/// The hit points of an agent.
#[derive(Clone, Copy, Debug, PartialEq, Eq, Structural)]
pub struct Health {
    pub current: i64,
    pub max: i64,
}

/// Marks an agent whose hit points fell below zero.
#[derive(Clone, Copy, Debug, PartialEq, Eq, Structural)]
pub struct Dead;

/// What a health change did besides moving the hit points.
#[derive(Clone, Copy, Debug, PartialEq, Eq, Structural)]
pub struct Verdict {
    /// The agent died: its hit points are below zero.
    pub dead: bool,
    /// The change was a damage, which makes the agent flash.
    pub flash: bool,
}

impl Health {
    /// The hit points after `amount` was added: never above the maximum.
    pub open spec fn changed_by(self, amount: i64) -> Health {
        let sum = self.current as int + amount as int;
        Health {
            current: if sum > self.max as int {
                self.max
            } else {
                clamp_i64(sum) as i64
            },
            ..self
        }
    }

    /// The share of the maximum that is left, in thousandths, rounded down.
    /// It is zero when the maximum is zero.
    pub open spec fn share(self) -> int {
        if self.max == 0 {
            0
        } else if self.max > 0 {
            clamp_i64((self.current as int * UNIT as int) / (self.max as int))
        } else {
            clamp_i64((-(self.current as int) * UNIT as int) / (-(self.max as int)))
        }
    }

    /// Full hit points.
    pub fn new(amount: i64) -> (h: Health)
        ensures
            h == (Health { current: amount, max: amount }),
    {
        Health { current: amount, max: amount }
    }

    /// Computes [`Health::share`].
    pub fn percentage(&self) -> (p: i64)
        ensures
            p as int == self.share(),
    {
        if self.max == 0 {
            return 0;
        }
        // The literal is the value of UNIT.
        assert(UNIT == 1_000);
        let n: i128 = self.current as i128 * 1_000;
        let q: i128 = if self.max > 0 {
            floor_div(n, self.max as i128)
        } else {
            floor_div(-n, -(self.max as i128))
        };
        if q < i64::MIN as i128 {
            i64::MIN
        } else if q > i64::MAX as i128 {
            i64::MAX
        } else {
            q as i64
        }
    }

    /// Adds `amount` to the hit points and tells what follows.
    ///
    /// The hit points stop at the maximum. The agent dies when they fall
    /// below zero, not when they reach it. Every negative amount makes the
    /// agent flash.
    pub fn apply(&mut self, amount: i64) -> (v: Verdict)
        ensures
            *final(self) == old(self).changed_by(amount),
            v.dead == (old(self).current + amount <= old(self).max && old(self).current + amount
                < 0),
            v.flash == (amount < 0),
    {
        let sum: i128 = self.current as i128 + amount as i128;
        let mut dead: bool = false;
        if sum > self.max as i128 {
            self.current = self.max;
        } else {
            if sum < 0 {
                dead = true;
            }
            self.current = if sum < i64::MIN as i128 {
                i64::MIN
            } else {
                sum as i64
            };
        }
        Verdict { dead, flash: amount < 0 }
    }
}

/// The red flash of a damaged agent. It fades as `amount` rises to one.
#[derive(Clone, Copy, Debug, PartialEq, Eq, Structural)]
pub struct DamageFlash {
    /// How far the flash has faded, in thousandths.
    pub amount: i64,
}

impl DamageFlash {
    /// The flash after `delta` scaled nanoseconds: it fades by five per
    /// second and stops at one.
    pub open spec fn faded(self, delta: u64) -> DamageFlash {
        let sum = self.amount as int + (delta as int * 5) / 1_000_000;
        DamageFlash {
            amount: if sum > UNIT as int {
                UNIT
            } else {
                sum as i64
            },
        }
    }

    /// A flash at its brightest.
    pub fn new() -> (f: DamageFlash)
        ensures
            f == (DamageFlash { amount: 0 }),
    {
        DamageFlash { amount: 0 }
    }

    /// Fades the flash by a tick of `delta` nanoseconds and tells whether
    /// it is over.
    pub fn update(&mut self, delta: u64, time_scale: &TimeScale) -> (over: bool)
        ensures
            *final(self) == old(self).faded(time_scale.scaled_delta(delta)),
            over == (final(self).amount >= UNIT),
    {
        let scaled: u64 = time_scale.scale_delta(delta);
        let step: i128 = (scaled as i128 * 5) / 1_000_000;
        let sum: i128 = self.amount as i128 + step;
        self.amount = if sum > UNIT as i128 {
            UNIT
        } else {
            sum as i64
        };
        self.amount >= UNIT
    }
}

} // verus!
