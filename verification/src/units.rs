//! Fixed-point arithmetic shared by the whole simulation.
//!
//! Every scalar quantity (a distance, a range, a speed, a damage amount, a
//! force, an intensity) is an `i64` counted in thousandths: the value one is
//! [`UNIT`]. Durations are `u64` nanoseconds.

use vstd::prelude::*;
use vstd::arithmetic::div_mod::lemma_fundamental_div_mod_converse;
use vstd::arithmetic::div_mod::lemma_fundamental_div_mod;
use vstd::arithmetic::div_mod::lemma_mod_bound;

verus! {

/// The fixed-point representation of the value one.
pub const UNIT: i64 = 1_000;


/// The nearest `i64` to `v`.
pub open spec fn clamp_i64(v: int) -> int {
    if v < i64::MIN as int {
        i64::MIN as int
    } else if v > i64::MAX as int {
        i64::MAX as int
    } else {
        v
    }
}

/// `value` multiplied by the fixed-point `factor`, rounded toward minus
/// infinity and held to the range of `i64`.
pub open spec fn scaled(value: int, factor: int) -> int {
    clamp_i64((value * factor) / (UNIT as int))
}

/// The signed number with the given sign and magnitude.
pub open spec fn signed(negative: bool, magnitude: int) -> int {
    if negative {
        -magnitude
    } else {
        magnitude
    }
}

/// Quotient of a number, given by sign and magnitude, by the positive `d`,
/// rounded toward minus infinity.
pub fn floor_div_parts(negative: bool, magnitude: u128, d: u128) -> (q: i128)
    requires
        d > 0,
        magnitude / d < 0x7fff_ffff_ffff_ffff_ffff_ffff_ffff_ffff,
    ensures
        q == signed(negative, magnitude as int) / (d as int),
{
    let uq: u128 = magnitude / d;
    let ur: u128 = magnitude % d;
    proof {
        lemma_fundamental_div_mod(magnitude as int, d as int);
        lemma_mod_bound(magnitude as int, d as int);
    }
    if !negative {
        uq as i128
    } else if ur == 0 {
        proof {
            assert(-(magnitude as int) == (d as int) * (-(uq as int)) + 0) by (nonlinear_arith)
                requires
                    magnitude as int == (d as int) * (uq as int),
            ;
            lemma_fundamental_div_mod_converse(-(magnitude as int), d as int, -(uq as int), 0);
        }
        -(uq as i128)
    } else {
        proof {
            assert(-(magnitude as int) == (d as int) * (-(uq as int) - 1) + ((d as int) - (
            ur as int))) by (nonlinear_arith)
                requires
                    magnitude as int == (d as int) * (uq as int) + (ur as int),
            ;
            lemma_fundamental_div_mod_converse(
                -(magnitude as int),
                d as int,
                -(uq as int) - 1,
                (d as int) - (ur as int),
            );
        }
        -(uq as i128) - 1
    }
}

/// Quotient of `n` by the positive `d`, rounded toward minus infinity.
pub fn floor_div(n: i128, d: i128) -> (q: i128)
    requires
        d > 0,
        n > i128::MIN,
    ensures
        q == (n as int) / (d as int),
{
    if d == 1 {
        proof {
            vstd::arithmetic::div_mod::lemma_div_basics(n as int);
        }
        return n;
    }
    let negative: bool = n < 0;
    let magnitude: u128 = if negative { (-n) as u128 } else { n as u128 };
    proof {
        let m = magnitude as int;
        let dd = d as int;
        lemma_fundamental_div_mod(m, dd);
        lemma_mod_bound(m, dd);
        assert(m / dd <= m) by (nonlinear_arith)
            requires
                m == dd * (m / dd) + (m % dd),
                0 <= m % dd,
                dd >= 2,
                m >= 0,
        ;
        assert(m / dd < m || m == 0) by (nonlinear_arith)
            requires
                m == dd * (m / dd) + (m % dd),
                0 <= m % dd,
                dd >= 2,
                m >= 0,
        ;
    }
    floor_div_parts(negative, magnitude, d as u128)
}

/// Multiplies `value` by the fixed-point `factor`.
pub fn scale(value: i64, factor: i64) -> (r: i64)
    ensures
        r as int == scaled(value as int, factor as int),
{
    assert(-0x4000_0000_0000_0000_0000_0000_0000_0000 <= (value as int) * (factor as int)
        <= 0x4000_0000_0000_0000_0000_0000_0000_0000) by (nonlinear_arith)
        requires
            -0x8000_0000_0000_0000 <= value as int <= 0x8000_0000_0000_0000,
            -0x8000_0000_0000_0000 <= factor as int <= 0x8000_0000_0000_0000,
    ;
    let product: i128 = (value as i128) * (factor as i128);
    let q: i128 = floor_div(product, UNIT as i128);
    if q < i64::MIN as i128 {
        i64::MIN
    } else if q > i64::MAX as i128 {
        i64::MAX
    } else {
        q as i64
    }
}

/// A factor between zero and one never enlarges a value.
pub proof fn lemma_scaled_within(value: int, factor: int)
    requires
        i64::MIN <= value <= i64::MAX,
        0 <= factor <= UNIT,
    ensures
        value >= 0 ==> 0 <= scaled(value, factor) <= value,
        value <= 0 ==> value <= scaled(value, factor) <= 0,
        factor == UNIT ==> scaled(value, factor) == value,
        factor == 0 ==> scaled(value, factor) == 0,
{
    let p = value * factor;
    let q = p / (UNIT as int);
    lemma_fundamental_div_mod(p, UNIT as int);
    lemma_mod_bound(p, UNIT as int);
    if value >= 0 {
        assert(0 <= p <= value * UNIT) by (nonlinear_arith)
            requires
                p == value * factor,
                value >= 0,
                0 <= factor <= UNIT,
        ;
    } else {
        assert(value * UNIT <= p <= 0) by (nonlinear_arith)
            requires
                p == value * factor,
                value <= 0,
                0 <= factor <= UNIT,
        ;
    }
    if factor == UNIT {
        lemma_fundamental_div_mod_converse(p, UNIT as int, value, 0);
    }
}

} // verus!
