//! Effects that drift toward the targets around them.

use vstd::prelude::*;
use crate::geometry::floor_sqrt;
use crate::geometry::Vector;
use crate::units::clamp_i64;
use crate::units::floor_div;

verus! {

/// Makes an effect drift toward nearby targets, no faster than
/// `max_speed`.
#[derive(Clone, Copy, Debug, PartialEq, Eq, Structural)]
pub struct Homing {
    pub max_speed: i64,
}

/// The sum of the first coordinates of `points`.
pub open spec fn sum_x(points: Seq<Vector>) -> int
    decreases points.len(),
{
    if points.len() == 0 {
        0
    } else {
        sum_x(points.drop_last()) + points.last().x
    }
}

/// The sum of the second coordinates of `points`.
pub open spec fn sum_y(points: Seq<Vector>) -> int
    decreases points.len(),
{
    if points.len() == 0 {
        0
    } else {
        sum_y(points.drop_last()) + points.last().y
    }
}

/// The mean of `points`, each coordinate rounded down. There must be at
/// least one point.
pub open spec fn mean(points: Seq<Vector>) -> Vector {
    Vector {
        x: (sum_x(points) / (points.len() as int)) as i64,
        y: (sum_y(points) / (points.len() as int)) as i64,
    }
}

/// `v` shortened to the length `max` if it is longer, each coordinate
/// rounded down. The length of `v` is itself taken rounded down.
pub open spec fn shortened(v: Vector, max: i64) -> Vector {
    let length = clamp_i64(floor_sqrt((v.x as int * v.x as int + v.y as int * v.y as int) as nat) as int);
    if length > max && length > 0 {
        Vector {
            x: clamp_i64((v.x as int * max as int) / length) as i64,
            y: clamp_i64((v.y as int * max as int) / length) as i64,
        }
    } else {
        v
    }
}

/// The mean of points with `i64` coordinates has `i64` coordinates.
proof fn lemma_mean_in_range(total: int, n: int)
    requires
        n > 0,
        -0x8000_0000_0000_0000 * n <= total <= 0x7fff_ffff_ffff_ffff * n,
    ensures
        -0x8000_0000_0000_0000 <= total / n <= 0x7fff_ffff_ffff_ffff,
{
    vstd::arithmetic::div_mod::lemma_div_is_ordered(-0x8000_0000_0000_0000 * n, total, n);
    vstd::arithmetic::div_mod::lemma_div_is_ordered(total, 0x7fff_ffff_ffff_ffff * n, n);
    vstd::arithmetic::div_mod::lemma_div_multiples_vanish(-0x8000_0000_0000_0000, n);
    vstd::arithmetic::div_mod::lemma_div_multiples_vanish(0x7fff_ffff_ffff_ffff, n);
    assert(-0x8000_0000_0000_0000 * n == n * (-0x8000_0000_0000_0000)) by (nonlinear_arith);
    assert(0x7fff_ffff_ffff_ffff * n == n * 0x7fff_ffff_ffff_ffff) by (nonlinear_arith);
}

/// Computes [`shortened`].
pub fn clamp_length_max(v: Vector, max: i64) -> (r: Vector)
    ensures
        r == shortened(v, max),
{
    let origin = Vector { x: 0, y: 0 };
    let length: i64 = v.distance(&origin);
    if length > max && length > 0 {
        assert(-0x4000_0000_0000_0000_0000_0000_0000_0000 <= (v.x as int) * (max as int)
            <= 0x4000_0000_0000_0000_0000_0000_0000_0000) by (nonlinear_arith)
            requires
                -0x8000_0000_0000_0000 <= v.x as int <= 0x8000_0000_0000_0000,
                -0x8000_0000_0000_0000 <= max as int <= 0x8000_0000_0000_0000,
        ;
        assert(-0x4000_0000_0000_0000_0000_0000_0000_0000 <= (v.y as int) * (max as int)
            <= 0x4000_0000_0000_0000_0000_0000_0000_0000) by (nonlinear_arith)
            requires
                -0x8000_0000_0000_0000 <= v.y as int <= 0x8000_0000_0000_0000,
                -0x8000_0000_0000_0000 <= max as int <= 0x8000_0000_0000_0000,
        ;
        let qx: i128 = floor_div(v.x as i128 * max as i128, length as i128);
        let qy: i128 = floor_div(v.y as i128 * max as i128, length as i128);
        Vector { x: narrow(qx), y: narrow(qy) }
    } else {
        v
    }
}

/// The nearest `i64` to `v`.
fn narrow(v: i128) -> (r: i64)
    ensures
        r as int == clamp_i64(v as int),
{
    if v < i64::MIN as i128 {
        i64::MIN
    } else if v > i64::MAX as i128 {
        i64::MAX
    } else {
        v as i64
    }
}

/// The velocity of a homing effect at `position` that senses targets at
/// `targets`: toward their mean position, no faster than its top speed.
/// Without a target the effect keeps its velocity and the result is
/// `None`.
pub fn calc_homing(position: &Vector, targets: &Vec<Vector>, homing: &Homing) -> (velocity: Option<
    Vector,
>)
    ensures
        targets.len() == 0 ==> velocity is None,
        targets.len() != 0 ==> velocity == Some(
            shortened(mean(targets@).offset_from(*position), homing.max_speed),
        ),
{
    if targets.len() == 0 {
        return None;
    }
    let mut total_x: i128 = 0;
    let mut total_y: i128 = 0;
    let mut i: usize = 0;
    while i < targets.len()
        invariant
            i <= targets.len(),
            total_x == sum_x(targets@.take(i as int)),
            total_y == sum_y(targets@.take(i as int)),
            -0x8000_0000_0000_0000 * i <= total_x <= 0x7fff_ffff_ffff_ffff * i,
            -0x8000_0000_0000_0000 * i <= total_y <= 0x7fff_ffff_ffff_ffff * i,
        decreases targets.len() - i,
    {
        proof {
            assert(targets@.take(i + 1).drop_last() =~= targets@.take(i as int));
        }
        total_x = total_x + targets[i].x as i128;
        total_y = total_y + targets[i].y as i128;
        i += 1;
    }
    proof {
        assert(targets@.take(targets.len() as int) =~= targets@);
        lemma_mean_in_range(total_x as int, targets.len() as int);
        lemma_mean_in_range(total_y as int, targets.len() as int);
    }
    let n: i128 = targets.len() as i128;
    let centre = Vector { x: floor_div(total_x, n) as i64, y: floor_div(total_y, n) as i64 };
    Some(clamp_length_max(centre.offset(position), homing.max_speed))
}

} // verus!
