//! The distance-based attenuation curve used by damage and force.

use vstd::prelude::*;
use vstd::arithmetic::div_mod::lemma_div_is_ordered;
use vstd::arithmetic::div_mod::lemma_div_multiples_vanish;
use vstd::arithmetic::div_mod::lemma_div_basics;
use crate::units::UNIT;
use crate::units::floor_div_parts;
use crate::units::signed;

verus! {

/// Maps a distance to an intensity.
///
/// The intensity is `ratio` from `end` outward and one from `start` inward.
/// Between the two it rises in a straight line from `ratio` at `end` to one
/// at `start`. A curve whose `ratio` is one is flat.
#[derive(Clone, Copy, Debug, PartialEq, Eq, Structural)]
pub struct Falloff {
    /// The intensity at and beyond `end`, in thousandths.
    pub ratio: i64,
    /// The distance up to which the intensity is one.
    pub start: i64,
    /// The distance from which the intensity is `ratio`.
    pub end: i64,
}

/// `(a * b) / d` lies between zero and `b` when `a` lies between zero and `d`.
pub proof fn lemma_share_bounds(a: int, b: int, d: int)
    requires
        0 <= a <= d,
        0 < d,
    ensures
        b >= 0 ==> 0 <= (a * b) / d <= b,
        b <= 0 ==> b <= (a * b) / d <= 0,
{
    lemma_div_multiples_vanish(b, d);
    lemma_div_basics(d);
    assert(0int / d == 0);
    if b >= 0 {
        assert(0 <= a * b <= d * b) by (nonlinear_arith)
            requires
                0 <= a <= d,
                b >= 0,
        ;
        lemma_div_is_ordered(0, a * b, d);
        lemma_div_is_ordered(a * b, d * b, d);
    } else {
        assert(d * b <= a * b <= 0) by (nonlinear_arith)
            requires
                0 <= a <= d,
                b <= 0,
        ;
        lemma_div_is_ordered(d * b, a * b, d);
        lemma_div_is_ordered(a * b, 0, d);
    }
}

/// `(a * b) / d` does not decrease with `a` when `b` is not negative.
pub proof fn lemma_share_monotonic(a1: int, a2: int, b: int, d: int)
    requires
        a1 <= a2,
        0 <= b,
        0 < d,
    ensures
        (a1 * b) / d <= (a2 * b) / d,
{
    assert(a1 * b <= a2 * b) by (nonlinear_arith)
        requires
            a1 <= a2,
            0 <= b,
    ;
    lemma_div_is_ordered(a1 * b, a2 * b, d);
}

impl Falloff {
    /// The intensity at `distance`, in thousandths.
    pub open spec fn amount_at(self, distance: int) -> int {
        if self.ratio == UNIT {
            UNIT as int
        } else if distance >= self.end {
            self.ratio as int
        } else if distance <= self.start {
            UNIT as int
        } else {
            self.ratio + ((self.end - distance) * (UNIT - self.ratio)) / (self.end - self.start)
        }
    }

    /// The flat curve: intensity one at every distance.
    pub fn none() -> (f: Falloff)
        ensures
            f == (Falloff { ratio: UNIT, start: 0, end: 0 }),
    {
        Falloff { start: 0, end: 0, ratio: UNIT }
    }

    /// A curve that falls to `ratio` between `start` and `end`.
    pub fn new(ratio: i64, start: i64, end: i64) -> (f: Falloff)
        ensures
            f == (Falloff { ratio, start, end }),
    {
        Falloff { start, end, ratio }
    }

    /// Computes the intensity at `distance`.
    pub fn amount(&self, distance: i64) -> (a: i64)
        ensures
            a as int == self.amount_at(distance as int),
    {
        if self.ratio == UNIT {
            return UNIT;
        }
        if distance >= self.end {
            return self.ratio;
        }
        if distance <= self.start {
            return UNIT;
        }
        let span: u128 = (self.end as i128 - self.start as i128) as u128;
        let inward: u128 = (self.end as i128 - distance as i128) as u128;
        let rise: i128 = UNIT as i128 - self.ratio as i128;
        let negative: bool = rise < 0;
        let height: u128 = if negative { (-rise) as u128 } else { rise as u128 };
        assert(inward * height <= 0xffff_ffff_ffff_ffff * 0xffff_ffff_ffff_ffff) by (nonlinear_arith)
            requires
                inward <= 0xffff_ffff_ffff_ffff,
                height <= 0xffff_ffff_ffff_ffff,
        ;
        let product: u128 = inward * height;
        proof {
            lemma_share_bounds(inward as int, height as int, span as int);
            assert(signed(negative, product as int) == (inward as int) * (rise as int))
                by (nonlinear_arith)
                requires
                    product as int == (inward as int) * (height as int),
                    negative ==> height as int == -(rise as int),
                    !negative ==> height as int == rise as int,
            ;
            lemma_share_bounds(inward as int, rise as int, span as int);
        }
        let share: i128 = floor_div_parts(negative, product, span);
        (self.ratio as i128 + share) as i64
    }
}

/// A flat curve gives intensity one at every distance.
pub proof fn lemma_flat_is_one(f: Falloff, distance: int)
    requires
        f.ratio == UNIT,
    ensures
        f.amount_at(distance) == UNIT,
{
}

/// The intensity always lies between the curve's ratio and one.
pub proof fn lemma_amount_between(f: Falloff, distance: int)
    ensures
        f.ratio <= UNIT ==> f.ratio <= f.amount_at(distance) <= UNIT,
        f.ratio >= UNIT ==> UNIT <= f.amount_at(distance) <= f.ratio,
{
    if f.ratio != UNIT && distance < f.end && distance > f.start {
        lemma_share_bounds(f.end - distance, UNIT - f.ratio, f.end - f.start);
    }
}

/// At and beyond `end` the intensity is the ratio; at and within `start`,
/// short of `end`, it is one.
pub proof fn lemma_amount_at_the_ends(f: Falloff, distance: int)
    ensures
        distance >= f.end ==> f.amount_at(distance) == f.ratio,
        distance <= f.start && distance < f.end ==> f.amount_at(distance) == UNIT,
{
}

/// With a ratio of at most one, the intensity never grows with distance.
pub proof fn lemma_amount_non_increasing(f: Falloff, near: int, far: int)
    requires
        f.ratio <= UNIT,
        near <= far,
    ensures
        f.amount_at(near) >= f.amount_at(far),
{
    lemma_amount_between(f, near);
    lemma_amount_between(f, far);
    if f.ratio != UNIT && far < f.end && near > f.start {
        lemma_share_monotonic(f.end - far, f.end - near, UNIT - f.ratio, f.end - f.start);
    }
}

} // verus!
