//! Points and vectors of the plane in fixed-point coordinates.

use vstd::prelude::*;
use crate::units::clamp_i64;

verus! {

/// A point or a displacement, each coordinate in thousandths of a pixel.
#[derive(Clone, Copy, Debug, PartialEq, Eq, Structural)]
pub struct Vector {
    pub x: i64,
    pub y: i64,
}

/// Whether `r` is the integer square root of `n`, rounded down.
pub open spec fn is_floor_sqrt(n: nat, r: nat) -> bool {
    r * r <= n && n < (r + 1) * (r + 1)
}

/// The integer square root of `n`, rounded down.
pub open spec fn floor_sqrt(n: nat) -> nat {
    choose|r: nat| is_floor_sqrt(n, r)
}

/// At most one number is the rounded-down square root of `n`.
pub proof fn lemma_floor_sqrt_unique(n: nat, a: nat, b: nat)
    requires
        is_floor_sqrt(n, a),
        is_floor_sqrt(n, b),
    ensures
        a == b,
{
    if a < b {
        assert((a + 1) * (a + 1) <= b * b) by (nonlinear_arith)
            requires
                a + 1 <= b,
        ;
    } else if b < a {
        assert((b + 1) * (b + 1) <= a * a) by (nonlinear_arith)
            requires
                b + 1 <= a,
        ;
    }
}

/// Every number has a rounded-down square root.
pub proof fn lemma_floor_sqrt_exists(n: nat)
    ensures
        is_floor_sqrt(n, floor_sqrt(n)),
    decreases n,
{
    if n == 0 {
        assert((0 as nat) * (0 as nat) == 0 && ((0 as nat) + 1) * ((0 as nat) + 1) == 1)
            by (nonlinear_arith);
        assert(is_floor_sqrt(0, 0));
    } else {
        lemma_floor_sqrt_exists((n - 1) as nat);
        let r = floor_sqrt((n - 1) as nat);
        if (r + 1) * (r + 1) <= n {
            assert(n < (r + 2) * (r + 2)) by (nonlinear_arith)
                requires
                    n - 1 < (r + 1) * (r + 1),
            ;
            assert(is_floor_sqrt(n, r + 1));
        } else {
            assert(is_floor_sqrt(n, r));
        }
    }
}

/// A number that passes [`is_floor_sqrt`] is the value of [`floor_sqrt`].
pub proof fn lemma_floor_sqrt_is(n: nat, r: nat)
    requires
        is_floor_sqrt(n, r),
    ensures
        floor_sqrt(n) == r,
{
    let c = floor_sqrt(n);
    lemma_floor_sqrt_unique(n, c, r);
}

/// Computes the integer square root of `n`, rounded down.
pub fn isqrt(n: u128) -> (r: u128)
    ensures
        r == floor_sqrt(n as nat),
        r <= u64::MAX,
{
    let mut lo: u128 = 0;
    let mut hi: u128 = 0x1_0000_0000_0000_0000;
    assert(0x1_0000_0000_0000_0000 * 0x1_0000_0000_0000_0000 > u128::MAX) by (nonlinear_arith);
    while hi - lo > 1
        invariant
            lo < hi <= 0x1_0000_0000_0000_0000,
            lo * lo <= n,
            n < hi * hi,
        decreases hi - lo,
    {
        let mid: u128 = lo + (hi - lo) / 2;
        assert(mid * mid <= 0xffff_ffff_ffff_ffff * 0xffff_ffff_ffff_ffff) by (nonlinear_arith)
            requires
                mid <= 0xffff_ffff_ffff_ffff,
        ;
        if mid * mid <= n {
            lo = mid;
        } else {
            hi = mid;
        }
    }
    proof {
        assert(hi == lo + 1);
        lemma_floor_sqrt_is(n as nat, lo as nat);
    }
    lo
}

impl Vector {
    /// The squared length of the displacement from `from` to `self`.
    pub open spec fn squared_distance(self, from: Vector) -> nat {
        let dx = self.x as int - from.x as int;
        let dy = self.y as int - from.y as int;
        (dx * dx + dy * dy) as nat
    }

    /// The distance from `from` to `self`, rounded down and held to the
    /// range of `i64`.
    pub open spec fn distance_from(self, from: Vector) -> int {
        clamp_i64(floor_sqrt(self.squared_distance(from)) as int)
    }

    /// The displacement that leads from `from` to `self`, each coordinate
    /// held to the range of `i64`.
    pub open spec fn offset_from(self, from: Vector) -> Vector {
        Vector {
            x: clamp_i64(self.x as int - from.x as int) as i64,
            y: clamp_i64(self.y as int - from.y as int) as i64,
        }
    }

    /// The scalar product of two vectors.
    pub open spec fn dot(self, other: Vector) -> int {
        self.x as int * other.x as int + self.y as int * other.y as int
    }

    /// Computes [`Vector::distance_from`].
    pub fn distance(&self, from: &Vector) -> (d: i64)
        ensures
            d as int == self.distance_from(*from),
            d >= 0,
    {
        let dx: i128 = self.x as i128 - from.x as i128;
        let dy: i128 = self.y as i128 - from.y as i128;
        let ax: u128 = if dx < 0 { (-dx) as u128 } else { dx as u128 };
        let ay: u128 = if dy < 0 { (-dy) as u128 } else { dy as u128 };
        assert(ax * ax <= 0xffff_ffff_ffff_ffff * 0xffff_ffff_ffff_ffff) by (nonlinear_arith)
            requires
                ax <= 0xffff_ffff_ffff_ffff,
        ;
        assert(ay * ay <= 0xffff_ffff_ffff_ffff * 0xffff_ffff_ffff_ffff) by (nonlinear_arith)
            requires
                ay <= 0xffff_ffff_ffff_ffff,
        ;
        assert(ax * ax == dx * dx) by (nonlinear_arith)
            requires
                ax == dx || ax == -dx,
        ;
        assert(ay * ay == dy * dy) by (nonlinear_arith)
            requires
                ay == dy || ay == -dy,
        ;
        let sx: u128 = ax * ax;
        let sy: u128 = ay * ay;
        if sx > u128::MAX - sy {
            // The sum exceeds 2^128 - 1, so its root exceeds every i64.
            proof {
                let n = self.squared_distance(*from);
                let r = floor_sqrt(n);
                lemma_floor_sqrt_exists(n);
                if r <= i64::MAX as nat {
                    assert((r + 1) * (r + 1) <= 0x8000_0000_0000_0000 * 0x8000_0000_0000_0000)
                        by (nonlinear_arith)
                        requires
                            r + 1 <= 0x8000_0000_0000_0000,
                    ;
                    assert(false);
                }
            }
            i64::MAX
        } else {
            let r: u128 = isqrt(sx + sy);
            if r > i64::MAX as u128 {
                i64::MAX
            } else {
                r as i64
            }
        }
    }

    /// Computes [`Vector::offset_from`].
    pub fn offset(&self, from: &Vector) -> (v: Vector)
        ensures
            v == self.offset_from(*from),
    {
        Vector { x: saturating_difference(self.x, from.x), y: saturating_difference(self.y, from.y) }
    }

    /// Whether the scalar product with `other` is negative.
    pub fn dot_is_negative(&self, other: &Vector) -> (b: bool)
        ensures
            b == (self.dot(*other) < 0),
    {
        assert(-0x4000_0000_0000_0000_0000_0000_0000_0000 <= (self.x as int) * (other.x as int)
            <= 0x4000_0000_0000_0000_0000_0000_0000_0000) by (nonlinear_arith)
            requires
                -0x8000_0000_0000_0000 <= self.x as int <= 0x8000_0000_0000_0000,
                -0x8000_0000_0000_0000 <= other.x as int <= 0x8000_0000_0000_0000,
        ;
        assert(-0x4000_0000_0000_0000_0000_0000_0000_0000 <= (self.y as int) * (other.y as int)
            <= 0x4000_0000_0000_0000_0000_0000_0000_0000) by (nonlinear_arith)
            requires
                -0x8000_0000_0000_0000 <= self.y as int <= 0x8000_0000_0000_0000,
                -0x8000_0000_0000_0000 <= other.y as int <= 0x8000_0000_0000_0000,
        ;
        let a: i128 = (self.x as i128) * (other.x as i128);
        let b: i128 = (self.y as i128) * (other.y as i128);
        // Each product lies within [-2^126, 2^126]; the halves cannot overflow.
        if a >= 0 && b >= 0 {
            false
        } else if a < 0 && b < 0 {
            true
        } else {
            a + b < 0
        }
    }
}

impl Vector {
    /// Whether the scalar product with `other` is positive.
    pub fn dot_is_positive(&self, other: &Vector) -> (b: bool)
        ensures
            b == (self.dot(*other) > 0),
    {
        assert(-0x4000_0000_0000_0000_0000_0000_0000_0000 <= (self.x as int) * (other.x as int)
            <= 0x4000_0000_0000_0000_0000_0000_0000_0000) by (nonlinear_arith)
            requires
                -0x8000_0000_0000_0000 <= self.x as int <= 0x8000_0000_0000_0000,
                -0x8000_0000_0000_0000 <= other.x as int <= 0x8000_0000_0000_0000,
        ;
        assert(-0x4000_0000_0000_0000_0000_0000_0000_0000 <= (self.y as int) * (other.y as int)
            <= 0x4000_0000_0000_0000_0000_0000_0000_0000) by (nonlinear_arith)
            requires
                -0x8000_0000_0000_0000 <= self.y as int <= 0x8000_0000_0000_0000,
                -0x8000_0000_0000_0000 <= other.y as int <= 0x8000_0000_0000_0000,
        ;
        let a: i128 = (self.x as i128) * (other.x as i128);
        let b: i128 = (self.y as i128) * (other.y as i128);
        if a > 0 && b > 0 {
            true
        } else if a <= 0 && b <= 0 {
            false
        } else {
            a + b > 0
        }
    }
}

/// `a - b`, held to the range of `i64`.
pub fn saturating_difference(a: i64, b: i64) -> (d: i64)
    ensures
        d as int == clamp_i64(a as int - b as int),
{
    let wide: i128 = a as i128 - b as i128;
    if wide < i64::MIN as i128 {
        i64::MIN
    } else if wide > i64::MAX as i128 {
        i64::MAX
    } else {
        wide as i64
    }
}

} // verus!
