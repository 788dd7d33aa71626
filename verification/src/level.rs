//! The walkable grid of the current level.
//!
//! The cells are kept in bevy's hash set. What the set holds is named by
//! [`walkable_cells`], and the functions of [`WalkableTiles`] state,
//! unproved, what the hash set's own methods do to it.

use vstd::prelude::*;

verus! {

/// A cell of the level grid: column and row.
pub type Cell = (i32, i32);



/// The cells an agent may stand on, stored in
/// `bevy::utils::HashSet<(i32, i32)>`.
///
/// The type is opaque to the verifier: its only field is the outside
/// collection.
#[verifier::external_body]
pub struct WalkableTiles {
    inner: bevy::utils::HashSet<(i32, i32)>,
}

/// The cells that a grid holds.
pub uninterp spec fn walkable_cells(tiles: WalkableTiles) -> Set<Cell>;

impl View for WalkableTiles {
    type V = Set<Cell>;

    open spec fn view(&self) -> Set<Cell> {
        walkable_cells(*self)
    }
}

impl WalkableTiles {
    /// Calls `HashSet::new`. Claimed: the new grid holds no cell.
    #[verifier::external_body]
    pub(crate) fn empty_set() -> (tiles: WalkableTiles)
        ensures
            walkable_cells(tiles) == Set::<Cell>::empty(),
    {
        WalkableTiles { inner: bevy::utils::HashSet::new() }
    }

    /// Calls `HashSet::insert`. Claimed: afterwards the grid holds `cell`
    /// and what it held before.
    #[verifier::external_body]
    pub(crate) fn insert_cell(&mut self, cell: Cell)
        ensures
            walkable_cells(*final(self)) == walkable_cells(*old(self)).insert(cell),
    {
        self.inner.insert(cell);
    }

    /// Calls `HashSet::contains`. Claimed: the result tells whether the
    /// grid holds `cell`.
    #[verifier::external_body]
    pub(crate) fn contains_cell(&self, cell: Cell) -> (present: bool)
        ensures
            present == walkable_cells(*self).contains(cell),
    {
        self.inner.contains(&cell)
    }

    /// A grid without any walkable cell.
    pub fn new() -> (tiles: WalkableTiles)
        ensures
            tiles@ == Set::<Cell>::empty(),
    {
        WalkableTiles::empty_set()
    }

    /// Whether an agent may stand on `cell`.
    pub fn contains(&self, cell: Cell) -> (present: bool)
        ensures
            present == self@.contains(cell),
    {
        self.contains_cell(cell)
    }

    /// Marks `cell` as walkable.
    pub fn register_walkable(&mut self, cell: Cell)
        ensures
            final(self)@ == old(self)@.insert(cell),
    {
        self.insert_cell(cell);
    }

    /// A grid that holds exactly the cells of `cells`.
    pub fn from_cells(cells: &Vec<Cell>) -> (tiles: WalkableTiles)
        ensures
            tiles@ == cells@.to_set(),
    {
        let mut tiles = WalkableTiles::new();
        let mut i: usize = 0;
        while i < cells.len()
            invariant
                i <= cells.len(),
                tiles@ == cells@.take(i as int).to_set(),
            decreases cells.len() - i,
        {
            proof {
                let a = cells@.take(i as int);
                let b = cells@.take(i + 1);
                assert(b =~= a.push(cells@[i as int]));
                assert(b.to_set() =~= a.to_set().insert(cells@[i as int])) by {
                    assert forall|c: Cell| b.to_set().contains(c) == a.to_set().insert(
                        cells@[i as int],
                    ).contains(c) by {
                        if b.contains(c) {
                            let k = choose|k: int| 0 <= k < b.len() && b[k] == c;
                            if k < a.len() {
                                assert(a[k] == c);
                            }
                        }
                        if a.contains(c) {
                            let k = choose|k: int| 0 <= k < a.len() && a[k] == c;
                            assert(b[k] == c);
                        }
                        if c == cells@[i as int] {
                            assert(b[i as int] == c);
                        }
                    }
                }
            }
            tiles.register_walkable(cells[i]);
            i += 1;
        }
        proof {
            assert(cells@.take(cells.len() as int) =~= cells@);
            if cells.len() == 0 {
                assert(cells@.to_set() =~= Set::<Cell>::empty());
            }
        }
        tiles
    }
}

/// The index of the level that is being played.
#[derive(Clone, Copy, Debug, PartialEq, Eq, Structural)]
pub struct CurrentLevel(pub usize);

/// The request to go on to the next level.
#[derive(Clone, Copy, Debug, PartialEq, Eq, Structural)]
pub struct NextLevel;

/// The request to start the current level over.
#[derive(Clone, Copy, Debug, PartialEq, Eq, Structural)]
pub struct RestartLevel;

/// The request to go back to the first level.
#[derive(Clone, Copy, Debug, PartialEq, Eq, Structural)]
pub struct Reset;

/// Marks an entity that survives no change of level.
#[derive(Clone, Copy, Debug, PartialEq, Eq, Structural)]
pub struct NotFromLevel;

/// Marks a walkable tile.
#[derive(Clone, Copy, Debug, PartialEq, Eq, Structural)]
pub struct Walkable;

/// Marks the stairs to the next level.
#[derive(Clone, Copy, Debug, PartialEq, Eq, Structural)]
pub struct Stairs;

/// Whether `id` occurs in `ids`.
pub fn is_among(ids: &Vec<u64>, id: u64) -> (b: bool)
    ensures
        b == ids@.contains(id),
{
    let mut i: usize = 0;
    while i < ids.len()
        invariant
            i <= ids.len(),
            forall|j: int| 0 <= j < i ==> ids@[j] != id,
        decreases ids.len() - i,
    {
        if ids[i] == id {
            return true;
        }
        i += 1;
    }
    false
}

/// Whether a collision is the player `player` stepping on one of `stairs`.
///
/// Only a starting contact counts. If the first entity is a stair, the
/// second must be the player; otherwise the second must be a stair and
/// the first the player.
pub open spec fn steps_on_stairs(e1: u64, e2: u64, stairs: Seq<u64>, player: u64) -> bool {
    if stairs.contains(e1) {
        e2 == player
    } else {
        stairs.contains(e2) && e1 == player
    }
}

/// Decides whether the player stepped on stairs, given the pairs of
/// entities whose contact started this tick.
pub fn update_stairs(started: &Vec<(u64, u64)>, stairs: &Vec<u64>, player: u64) -> (next: Option<
    NextLevel,
>)
    ensures
        next is Some <==> exists|i: int|
            0 <= i < started.len() && steps_on_stairs(
                (#[trigger] started@[i]).0,
                started@[i].1,
                stairs@,
                player,
            ),
{
    let mut i: usize = 0;
    while i < started.len()
        invariant
            i <= started.len(),
            forall|j: int|
                0 <= j < i ==> !steps_on_stairs(
                    (#[trigger] started@[j]).0,
                    started@[j].1,
                    stairs@,
                    player,
                ),
        decreases started.len() - i,
    {
        let pair: (u64, u64) = started[i];
        let on: bool = if is_among(stairs, pair.0) {
            pair.1 == player
        } else {
            is_among(stairs, pair.1) && pair.0 == player
        };
        if on {
            return Some(NextLevel);
        }
        i += 1;
    }
    None
}

/// Goes on to the next level if that was requested. Returns the index of
/// the level to load.
pub fn next_level(requested: bool, current: &mut CurrentLevel) -> (load: Option<usize>)
    requires
        old(current).0 < usize::MAX,
    ensures
        requested ==> final(current).0 == old(current).0 + 1 && load == Some(final(current).0),
        !requested ==> *final(current) == *old(current) && load is None,
{
    if requested {
        current.0 = current.0 + 1;
        Some(current.0)
    } else {
        None
    }
}

/// Goes back to the first level if that was requested. Returns the index
/// of the level to load.
pub fn reset(requested: bool, current: &mut CurrentLevel) -> (load: Option<usize>)
    ensures
        requested ==> final(current).0 == 0 && load == Some(0usize),
        !requested ==> *final(current) == *old(current) && load is None,
{
    if requested {
        current.0 = 0;
        Some(0)
    } else {
        None
    }
}

} // verus!
