//! Grid cells and the mapping of keys to directions.

pub mod control;

use vstd::prelude::*;

use crate::{ARENA_HEIGHT, ARENA_WIDTH};

verus! {

/// A cell of the arena; `x` grows to the right, `y` grows upwards.
#[derive(Clone, Copy, Debug, PartialEq, Eq, Structural)]
pub struct Position {
    pub x: i32,
    pub y: i32,
}

/// A cell as a pair of mathematical integers.
pub type Cell = (int, int);

/// The cell that a position stands for.
pub open spec fn cell(p: Position) -> Cell {
    (p.x as int, p.y as int)
}

/// The cells of a sequence of positions, in order.
pub open spec fn cells(s: Seq<Position>) -> Seq<Cell> {
    s.map_values(|p: Position| cell(p))
}

/// Whether a cell lies on the board `[0, width) x [0, height)`.
pub open spec fn in_arena(c: Cell) -> bool {
    0 <= c.0 < ARENA_WIDTH as int && 0 <= c.1 < ARENA_HEIGHT as int
}

/// Whether a cell lies on the board or on the ring of cells just outside it.
pub open spec fn near_arena(c: Cell) -> bool {
    -1 <= c.0 <= ARENA_WIDTH as int && -1 <= c.1 <= ARENA_HEIGHT as int
}

impl Position {
    /// Whether the position lies on the board.
    pub fn in_arena(&self) -> (r: bool)
        ensures
            r == in_arena(cell(*self)),
    {
        self.x >= 0 && self.y >= 0 && (self.x as u32) < ARENA_WIDTH && (self.y as u32) < ARENA_HEIGHT
    }

    /// Whether the position lies on the board or on the ring just outside it.
    pub fn near_arena(&self) -> (r: bool)
        ensures
            r == near_arena(cell(*self)),
    {
        self.x >= -1 && self.y >= -1 && self.x <= ARENA_WIDTH as i32 && self.y <= ARENA_HEIGHT as i32
    }
}

} // verus!
