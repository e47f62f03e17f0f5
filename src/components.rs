//! A second direction type, listed left, up, down, right, with its reversal.

pub use crate::actions::Position;

use vstd::prelude::*;

verus! {

/// A direction of travel on the grid.
#[derive(Clone, Copy, Debug, PartialEq, Eq, Hash, Structural)]
pub enum Direction {
    Left,
    Up,
    Down,
    Right,
}

/// The direction that points the other way.
pub open spec fn reverse_direction(d: Direction) -> Direction {
    match d {
        Direction::Left => Direction::Right,
        Direction::Right => Direction::Left,
        Direction::Up => Direction::Down,
        Direction::Down => Direction::Up,
    }
}

impl Direction {
    /// The direction that points the other way.
    pub fn opposite(self) -> (r: Direction)
        ensures
            r == reverse_direction(self),
    {
        match self {
            Direction::Left => Direction::Right,
            Direction::Right => Direction::Left,
            Direction::Up => Direction::Down,
            Direction::Down => Direction::Up,
        }
    }
}

/// Reversing a direction twice gives it back.
pub proof fn direction_opposite_is_involution(d: Direction)
    ensures
        reverse_direction(reverse_direction(d)) == d,
{
}

} // verus!
