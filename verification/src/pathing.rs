//! Routes over the walkable grid.
//!
//! Agents move in eight directions. A diagonal move is allowed only when
//! both cells that flank the diagonal are walkable too, so that no route
//! cuts through the corner of a wall. The search itself is the A* of the
//! `pathfinding` crate; the moves, their costs and the estimate of the
//! remaining cost are defined and verified here.

use vstd::prelude::*;
use crate::geometry::floor_sqrt;
use crate::geometry::lemma_floor_sqrt_exists;
use crate::geometry::lemma_floor_sqrt_is;
use crate::geometry::isqrt;
use crate::level::Cell;
use crate::level::WalkableTiles;

verus! {

/// The cost of a move to a cell that shares an edge.
pub const CARDINAL_COST: u128 = 1_000_000;

/// The cost of a diagonal move: the square root of two, in millionths,
/// rounded up.
pub const DIAGONAL_COST: u128 = 1_414_214;

/// Whether an agent standing on `from` may move to `to` in one step.
///
/// The two cells are distinct and touch, by an edge or by a corner; `to`
/// is walkable; and for a diagonal step both cells that share an edge with
/// `from` and with `to` are walkable.
pub open spec fn is_step(tiles: Set<Cell>, from: Cell, to: Cell) -> bool {
    let dx = to.0 as int - from.0 as int;
    let dy = to.1 as int - from.1 as int;
    &&& -1 <= dx <= 1
    &&& -1 <= dy <= 1
    &&& (dx != 0 || dy != 0)
    &&& tiles.contains(to)
    &&& (dx != 0 && dy != 0) ==> tiles.contains((to.0, from.1)) && tiles.contains((from.0, to.1))
}

/// The cost of the step from `from` to `to`.
pub open spec fn step_cost(from: Cell, to: Cell) -> u128 {
    if to.0 != from.0 && to.1 != from.1 {
        DIAGONAL_COST
    } else {
        CARDINAL_COST
    }
}

/// The `k`-th direction in the order in which moves are offered: the four
/// cardinal directions, then the four diagonals.
pub open spec fn direction(k: int) -> (int, int) {
    if k == 0 {
        (-1, 0)
    } else if k == 1 {
        (0, 1)
    } else if k == 2 {
        (1, 0)
    } else if k == 3 {
        (0, -1)
    } else if k == 4 {
        (-1, -1)
    } else if k == 5 {
        (-1, 1)
    } else if k == 6 {
        (1, 1)
    } else {
        (1, -1)
    }
}

/// The cell reached from `from` in the `k`-th direction, if its
/// coordinates exist.
pub open spec fn cell_toward(from: Cell, k: int) -> Option<Cell> {
    let x = from.0 as int + direction(k).0;
    let y = from.1 as int + direction(k).1;
    if i32::MIN <= x <= i32::MAX && i32::MIN <= y <= i32::MAX {
        Some((x as i32, y as i32))
    } else {
        None
    }
}

/// The moves open to an agent on `from` among the first `k` directions,
/// each with its cost, in the order of the directions.
pub open spec fn moves_among(tiles: Set<Cell>, from: Cell, k: int) -> Seq<(Cell, u128)>
    decreases k,
{
    if k <= 0 {
        Seq::empty()
    } else {
        let before = moves_among(tiles, from, k - 1);
        match cell_toward(from, k - 1) {
            Some(to) => if is_step(tiles, from, to) {
                before.push((to, step_cost(from, to)))
            } else {
                before
            },
            None => before,
        }
    }
}

/// The moves open to an agent on `from`, each with its cost.
pub open spec fn moves(tiles: Set<Cell>, from: Cell) -> Seq<(Cell, u128)> {
    moves_among(tiles, from, 8)
}

/// Computes the `k`-th direction.
fn direction_of(k: u8) -> (d: (i8, i8))
    requires
        k < 8,
    ensures
        (d.0 as int, d.1 as int) == direction(k as int),
{
    if k == 0 {
        (-1, 0)
    } else if k == 1 {
        (0, 1)
    } else if k == 2 {
        (1, 0)
    } else if k == 3 {
        (0, -1)
    } else if k == 4 {
        (-1, -1)
    } else if k == 5 {
        (-1, 1)
    } else if k == 6 {
        (1, 1)
    } else {
        (1, -1)
    }
}

/// Lists the moves open to an agent on `from`, each with its cost.
pub fn neighbours(tiles: &WalkableTiles, from: Cell) -> (out: Vec<(Cell, u128)>)
    ensures
        out@ == moves(tiles@, from),
{
    let mut out: Vec<(Cell, u128)> = Vec::new();
    let mut k: u8 = 0;
    while k < 8
        invariant
            k <= 8,
            out@ == moves_among(tiles@, from, k as int),
        decreases 8 - k,
    {
        let d: (i8, i8) = direction_of(k);
        let x: i64 = from.0 as i64 + d.0 as i64;
        let y: i64 = from.1 as i64 + d.1 as i64;
        if x >= i32::MIN as i64 && x <= i32::MAX as i64 && y >= i32::MIN as i64 && y
            <= i32::MAX as i64 {
            let to: Cell = (x as i32, y as i32);
            let diagonal: bool = d.0 != 0 && d.1 != 0;
            let open: bool = tiles.contains(to) && (!diagonal || (tiles.contains((to.0, from.1))
                && tiles.contains((from.0, to.1))));
            if open {
                out.push((to, if diagonal { DIAGONAL_COST } else { CARDINAL_COST }));
            }
        }
        k += 1;
    }
    out
}

/// Every move offered from a cell is a step, and every step is offered.
pub proof fn lemma_moves_are_the_steps(tiles: Set<Cell>, from: Cell)
    ensures
        forall|i: int|
            0 <= i < moves(tiles, from).len() ==> is_step(
                tiles,
                from,
                (#[trigger] moves(tiles, from)[i]).0,
            ),
        forall|to: Cell|
            is_step(tiles, from, to) ==> exists|i: int|
                0 <= i < moves(tiles, from).len() && (#[trigger] moves(tiles, from)[i]).0 == to,
{
    lemma_moves_among(tiles, from, 8);
    assert forall|to: Cell| is_step(tiles, from, to) implies exists|i: int|
        0 <= i < moves(tiles, from).len() && (#[trigger] moves(tiles, from)[i]).0 == to by {
        let dx = to.0 as int - from.0 as int;
        let dy = to.1 as int - from.1 as int;
        let k: int = if dx == -1 && dy == 0 {
            0
        } else if dx == 0 && dy == 1 {
            1
        } else if dx == 1 && dy == 0 {
            2
        } else if dx == 0 && dy == -1 {
            3
        } else if dx == -1 && dy == -1 {
            4
        } else if dx == -1 && dy == 1 {
            5
        } else if dx == 1 && dy == 1 {
            6
        } else {
            7
        };
        assert(cell_toward(from, k) == Some(to));
        let i = choose|i: int|
            0 <= i < moves_among(tiles, from, 8).len() && (#[trigger] moves_among(
                tiles,
                from,
                8,
            )[i]).0 == cell_toward(from, k)->0;
        assert(moves(tiles, from)[i].0 == to);
    }
}

/// What [`moves_among`] holds: steps only, and each step in one of the
/// first `k` directions.
proof fn lemma_moves_among(tiles: Set<Cell>, from: Cell, k: int)
    requires
        0 <= k <= 8,
    ensures
        forall|i: int|
            0 <= i < moves_among(tiles, from, k).len() ==> is_step(
                tiles,
                from,
                (#[trigger] moves_among(tiles, from, k)[i]).0,
            ),
        forall|j: int|
            0 <= j < k && (#[trigger] cell_toward(from, j)) is Some && is_step(
                tiles,
                from,
                cell_toward(from, j)->0,
            ) ==> exists|i: int|
                0 <= i < moves_among(tiles, from, k).len() && (#[trigger] moves_among(
                    tiles,
                    from,
                    k,
                )[i]).0 == cell_toward(from, j)->0,
    decreases k,
{
    if k > 0 {
        lemma_moves_among(tiles, from, k - 1);
        let before = moves_among(tiles, from, k - 1);
        let now = moves_among(tiles, from, k);
        assert forall|j: int|
            0 <= j < k && (#[trigger] cell_toward(from, j)) is Some && is_step(
                tiles,
                from,
                cell_toward(from, j)->0,
            ) implies exists|i: int|
            0 <= i < now.len() && (#[trigger] now[i]).0 == cell_toward(from, j)->0 by {
            let to = cell_toward(from, j)->0;
            if j < k - 1 {
                let i = choose|i: int| 0 <= i < before.len() && (#[trigger] before[i]).0 == to;
                assert(now[i].0 == to);
            } else {
                assert(now[now.len() - 1].0 == to);
            }
        }
    }
}

/// Squared distance between two cells, in cells.
pub open spec fn cell_distance_squared(a: Cell, b: Cell) -> nat {
    let dx = a.0 as int - b.0 as int;
    let dy = a.1 as int - b.1 as int;
    (dx * dx + dy * dy) as nat
}

/// The estimate of the cost that remains from `node` to `goal`: their
/// straight-line distance in millionths of a cell, rounded down.
pub open spec fn estimate(node: Cell, goal: Cell) -> nat {
    floor_sqrt(cell_distance_squared(node, goal) * 1_000_000_000_000)
}

/// Computes [`estimate`].
pub fn heuristic(node: Cell, goal: Cell) -> (h: u128)
    ensures
        h == estimate(node, goal),
{
    let dx: i64 = node.0 as i64 - goal.0 as i64;
    let dy: i64 = node.1 as i64 - goal.1 as i64;
    let ax: u128 = if dx < 0 { (-dx) as u128 } else { dx as u128 };
    let ay: u128 = if dy < 0 { (-dy) as u128 } else { dy as u128 };
    assert(ax * ax <= 0xffff_ffff * 0xffff_ffff) by (nonlinear_arith)
        requires
            ax <= 0xffff_ffff,
    ;
    assert(ay * ay <= 0xffff_ffff * 0xffff_ffff) by (nonlinear_arith)
        requires
            ay <= 0xffff_ffff,
    ;
    assert(ax * ax == dx * dx) by (nonlinear_arith)
        requires
            ax == dx || ax == -dx,
    ;
    assert(ay * ay == dy * dy) by (nonlinear_arith)
        requires
            ay == dy || ay == -dy,
    ;
    let squared: u128 = ax * ax + ay * ay;
    isqrt(squared * 1_000_000_000_000)
}

/// The scalar product of a step with a vector is bounded by the product
/// of their lengths.
proof fn lemma_step_dot_bound(sx: int, sy: int, vx: int, vy: int)
    requires
        -1 <= sx <= 1,
        -1 <= sy <= 1,
    ensures
        (sx * vx + sy * vy) * (sx * vx + sy * vy) <= (sx * sx + sy * sy) * (vx * vx + vy * vy),
{
    if sx == 0 {
        if sy == 0 {
            assert((sx * vx + sy * vy) * (sx * vx + sy * vy) <= (sx * sx + sy * sy) * (vx * vx + vy
                * vy)) by (nonlinear_arith)
                requires
                    sx == 0,
                    sy == 0,
            ;
        } else {
            assert((sx * vx + sy * vy) * (sx * vx + sy * vy) <= (sx * sx + sy * sy) * (vx * vx + vy
                * vy)) by (nonlinear_arith)
                requires
                    sx == 0,
                    sy == 1 || sy == -1,
            ;
        }
    } else if sy == 0 {
        assert((sx * vx + sy * vy) * (sx * vx + sy * vy) <= (sx * sx + sy * sy) * (vx * vx + vy
            * vy)) by (nonlinear_arith)
            requires
                sy == 0,
                sx == 1 || sx == -1,
        ;
    } else if sx == sy {
        assert((vx - vy) * (vx - vy) >= 0) by (nonlinear_arith);
        assert((sx * vx + sy * vy) * (sx * vx + sy * vy) <= (sx * sx + sy * sy) * (vx * vx + vy
            * vy)) by (nonlinear_arith)
            requires
                sx == sy,
                sx == 1 || sx == -1,
                (vx - vy) * (vx - vy) >= 0,
        ;
    } else {
        assert((vx + vy) * (vx + vy) >= 0) by (nonlinear_arith);
        assert((sx * vx + sy * vy) * (sx * vx + sy * vy) <= (sx * sx + sy * sy) * (vx * vx + vy
            * vy)) by (nonlinear_arith)
            requires
                sx == -sy,
                sx == 1 || sx == -1,
                (vx + vy) * (vx + vy) >= 0,
        ;
    }
}

/// The estimate from a cell is at most the cost of a step to a neighbour
/// plus the estimate from there.
pub proof fn lemma_estimate_is_consistent(from: Cell, to: Cell, goal: Cell)
    requires
        -1 <= to.0 - from.0 <= 1,
        -1 <= to.1 - from.1 <= 1,
    ensures
        estimate(from, goal) <= step_cost(from, to) + estimate(to, goal),
{
    let n: int = 1_000_000_000_000;
    let vx = to.0 as int - goal.0 as int;
    let vy = to.1 as int - goal.1 as int;
    let sx = from.0 as int - to.0 as int;
    let sy = from.1 as int - to.1 as int;
    let ux = from.0 as int - goal.0 as int;
    let uy = from.1 as int - goal.1 as int;
    let v2 = vx * vx + vy * vy;
    let u2 = ux * ux + uy * uy;
    let s2 = sx * sx + sy * sy;
    let dot = sx * vx + sy * vy;
    let c = step_cost(from, to) as int;
    let e = estimate(from, goal) as int;
    let m = estimate(to, goal) as int + 1;
    assert(v2 >= 0 && u2 >= 0 && s2 >= 0) by (nonlinear_arith)
        requires
            v2 == vx * vx + vy * vy,
            u2 == ux * ux + uy * uy,
            s2 == sx * sx + sy * sy,
    ;
    assert(cell_distance_squared(from, goal) * 1_000_000_000_000 == n * u2) by (nonlinear_arith)
        requires
            cell_distance_squared(from, goal) == u2,
            n == 1_000_000_000_000,
    ;
    assert(cell_distance_squared(to, goal) * 1_000_000_000_000 == n * v2) by (nonlinear_arith)
        requires
            cell_distance_squared(to, goal) == v2,
            n == 1_000_000_000_000,
    ;
    assert(n * u2 >= 0 && n * v2 >= 0) by (nonlinear_arith)
        requires
            u2 >= 0,
            v2 >= 0,
            n == 1_000_000_000_000,
    ;
    lemma_floor_sqrt_exists((n * u2) as nat);
    lemma_floor_sqrt_exists((n * v2) as nat);
    // e * e <= n * u2 and n * v2 < m * m.
    assert(e * e <= n * u2);
    assert(n * v2 < m * m);
    assert(u2 == v2 + 2 * dot + s2) by (nonlinear_arith)
        requires
            ux == vx + sx,
            uy == vy + sy,
            v2 == vx * vx + vy * vy,
            u2 == ux * ux + uy * uy,
            s2 == sx * sx + sy * sy,
            dot == sx * vx + sy * vy,
    ;
    assert(n * s2 <= c * c && c > 0) by {
        if sx != 0 && sy != 0 {
            assert(s2 == 2) by (nonlinear_arith)
                requires
                    -1 <= sx <= 1,
                    -1 <= sy <= 1,
                    sx != 0,
                    sy != 0,
                    s2 == sx * sx + sy * sy,
            ;
            assert(c == 1_414_214);
        } else {
            assert(s2 <= 1) by (nonlinear_arith)
                requires
                    -1 <= sx <= 1,
                    -1 <= sy <= 1,
                    sx == 0 || sy == 0,
                    s2 == sx * sx + sy * sy,
            ;
            assert(c == 1_000_000);
        }
    }
    // The scalar product is bounded by the product of the lengths.
    lemma_step_dot_bound(sx, sy, vx, vy);
    assert(dot * dot <= s2 * v2);
    assert(n * dot < c * m) by {
        if dot > 0 {
            assert((n * dot) * (n * dot) <= (n * s2) * (n * v2)) by (nonlinear_arith)
                requires
                    dot * dot <= s2 * v2,
                    n > 0,
            ;
            assert((n * s2) * (n * v2) < (c * c) * (m * m)) by (nonlinear_arith)
                requires
                    0 <= n * s2 <= c * c,
                    0 <= n * v2 < m * m,
                    c > 0,
            ;
            assert(n * dot < c * m) by (nonlinear_arith)
                requires
                    (n * dot) * (n * dot) < (c * c) * (m * m),
                    c > 0,
                    m > 0,
                    n * dot >= 0,
            ;
        } else {
            assert(n * dot <= 0 && c * m > 0) by (nonlinear_arith)
                requires
                    dot <= 0,
                    n > 0,
                    c > 0,
                    m > 0,
            ;
        }
    }
    assert(n * u2 < (m + c) * (m + c)) by (nonlinear_arith)
        requires
            u2 == v2 + 2 * dot + s2,
            n * v2 < m * m,
            n * dot < c * m,
            n * s2 <= c * c,
    ;
    assert(e < m + c) by (nonlinear_arith)
        requires
            e * e <= n * u2,
            n * u2 < (m + c) * (m + c),
            e >= 0,
            m + c >= 0,
    ;
}

/// The cost of a walk: the sum of the costs of its steps.
pub open spec fn walk_cost(walk: Seq<Cell>) -> nat
    decreases walk.len(),
{
    if walk.len() <= 1 {
        0
    } else {
        step_cost(walk[0], walk[1]) as nat + walk_cost(walk.drop_first())
    }
}

/// The estimate from the start never exceeds the cost of a walk to the
/// goal.
pub proof fn lemma_estimate_never_exceeds(tiles: Set<Cell>, start: Cell, goal: Cell, walk: Seq<Cell>)
    requires
        is_walk(tiles, start, goal, walk),
    ensures
        estimate(start, goal) <= walk_cost(walk),
    decreases walk.len(),
{
    if walk.len() == 1 {
        assert(cell_distance_squared(goal, goal) * 1_000_000_000_000 == 0) by (nonlinear_arith)
            requires
                cell_distance_squared(goal, goal) == 0,
        ;
        assert((0 as nat) * (0 as nat) == 0 && ((0 as nat) + 1) * ((0 as nat) + 1) == 1)
            by (nonlinear_arith);
        lemma_floor_sqrt_is(0, 0);
    } else {
        let rest = walk.drop_first();
        assert(is_step(tiles, walk[0], walk[1]));
        assert forall|i: int| 0 <= i < rest.len() - 1 implies is_step(
            tiles,
            #[trigger] rest[i],
            rest[i + 1],
        ) by {
            assert(is_step(tiles, walk[i + 1], walk[i + 2]));
        }
        assert(is_walk(tiles, walk[1], goal, rest));
        lemma_estimate_never_exceeds(tiles, walk[1], goal, rest);
        lemma_estimate_is_consistent(walk[0], walk[1], goal);
    }
}

/// Whether `node` is the cell that a search is after.
pub fn is_goal(node: Cell, goal: Cell) -> (b: bool)
    ensures
        b == (node == goal),
{
    node.0 == goal.0 && node.1 == goal.1
}

/// Whether `walk` leads from `start` to `goal` by steps. The start need not
/// be walkable; every later cell is.
pub open spec fn is_walk(tiles: Set<Cell>, start: Cell, goal: Cell, walk: Seq<Cell>) -> bool {
    &&& walk.len() >= 1
    &&& walk[0] == start
    &&& walk[walk.len() - 1] == goal
    &&& forall|i: int| 0 <= i < walk.len() - 1 ==> is_step(tiles, #[trigger] walk[i], walk[i + 1])
}

/// Whether `route` is a walk from `start` to `goal` that visits no cell
/// twice.
pub open spec fn is_route(tiles: Set<Cell>, start: Cell, goal: Cell, route: Seq<Cell>) -> bool {
    is_walk(tiles, start, goal, route) && route.no_duplicates()
}

/// The route that the A* search of the `pathfinding` crate returns for a
/// grid, a start and a goal, with the moves, costs and estimate of this
/// module; `None` where it returns none.
pub uninterp spec fn astar_route(tiles: Set<Cell>, start: Cell, goal: Cell) -> Option<Seq<Cell>>;

/// A route as a plain sequence.
pub open spec fn route_view(route: Option<Vec<Cell>>) -> Option<Seq<Cell>> {
    match route {
        Some(r) => Some(r@),
        None => None,
    }
}

/// Calls `pathfinding::directed::astar::astar` from `start`, with
/// [`neighbours`] as successors, [`heuristic`] as estimate and [`is_goal`]
/// as test of success, and drops the cost that comes with the path.
///
/// Claimed of the search: its result depends on the grid, the start and the
/// goal alone. A path that it returns begins with the start, ends with a
/// node that passed the test of success, holds no node twice, and each of
/// its nodes but the first was offered as a successor of the node before
/// it; by [`lemma_moves_are_the_steps`] what is offered are the steps. It
/// returns no path only when no sequence of successors leads from the
/// start to the goal. The path it returns costs no more than any other
/// sequence of successors to the goal: the crate promises a shortest path
/// where the estimate never exceeds the cost that remains, which
/// [`lemma_estimate_never_exceeds`] proves of [`estimate`]. Costs are
/// `u128` and cannot overflow: a route has at most 2^64 steps of less than
/// 2^21 each, and the estimate is below 2^54.
#[verifier::external_body]
fn astar_search(tiles: &WalkableTiles, start: Cell, goal: Cell) -> (route: Option<Vec<Cell>>)
    ensures
        route_view(route) == astar_route(tiles@, start, goal),
        route matches Some(r) ==> is_route(tiles@, start, goal, r@),
        route matches Some(r) ==> forall|w: Seq<Cell>|
            is_walk(tiles@, start, goal, w) ==> walk_cost(r@) <= walk_cost(w),
        route is None ==> forall|w: Seq<Cell>| !is_walk(tiles@, start, goal, w),
{
    pathfinding::directed::astar::astar(
        &start,
        |node| neighbours(tiles, *node),
        |node| heuristic(*node, goal),
        |node| is_goal(*node, goal),
    ).map(|found| found.0)
}

/// Searches a route from `start` to `goal` over the walkable cells.
///
/// A route is found exactly when the goal can be reached from the start
/// by steps at all, and no walk to the goal is cheaper than the route
/// found. Which of several cheapest routes is found is decided by the
/// search and named by [`astar_route`].
pub fn find_path(tiles: &WalkableTiles, start: Cell, goal: Cell) -> (route: Option<Vec<Cell>>)
    ensures
        route_view(route) == astar_route(tiles@, start, goal),
        route matches Some(r) ==> is_route(tiles@, start, goal, r@),
        route matches Some(r) ==> forall|w: Seq<Cell>|
            is_walk(tiles@, start, goal, w) ==> walk_cost(r@) <= walk_cost(w),
        route is Some <==> exists|w: Seq<Cell>| is_walk(tiles@, start, goal, w),
{
    let route = astar_search(tiles, start, goal);
    proof {
        if route is Some {
            assert(is_walk(tiles@, start, goal, route->0@));
        }
    }
    route
}

/// No diagonal step of a walk cuts a corner: both cells beside the
/// diagonal are walkable, as is the cell stepped on.
pub proof fn lemma_route_never_cuts_corners(
    tiles: Set<Cell>,
    start: Cell,
    goal: Cell,
    route: Seq<Cell>,
    i: int,
)
    requires
        is_walk(tiles, start, goal, route),
        0 <= i < route.len() - 1,
    ensures
        tiles.contains(route[i + 1]),
        route[i + 1].0 != route[i].0 && route[i + 1].1 != route[i].1 ==> tiles.contains(
            (route[i + 1].0, route[i].1),
        ) && tiles.contains((route[i].0, route[i + 1].1)),
{
    assert(is_step(tiles, route[i], route[i + 1]));
}

} // verus!
