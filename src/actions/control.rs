//! Directions of travel and how held keys select one.

use vstd::prelude::*;

use crate::actions::Cell;
use crate::snake::SnakeHead;

verus! {

/// A direction of travel on the grid; the snake starts out going `Up`.
#[derive(Clone, Copy, Debug, PartialEq, Eq, Hash, Structural)]
pub enum GameControl {
    Up,
    Down,
    Left,
    Right,
}

/// The direction that points the other way.
pub open spec fn reverse(d: GameControl) -> GameControl {
    match d {
        GameControl::Left => GameControl::Right,
        GameControl::Right => GameControl::Left,
        GameControl::Up => GameControl::Down,
        GameControl::Down => GameControl::Up,
    }
}

/// Horizontal component of one step in direction `d`.
pub open spec fn dx(d: GameControl) -> int {
    match d {
        GameControl::Left => -1,
        GameControl::Right => 1,
        _ => 0,
    }
}

/// Vertical component of one step in direction `d`.
pub open spec fn dy(d: GameControl) -> int {
    match d {
        GameControl::Up => 1,
        GameControl::Down => -1,
        _ => 0,
    }
}

/// The cell one step from `c` in direction `d`.
pub open spec fn step(c: Cell, d: GameControl) -> Cell {
    (c.0 + dx(d), c.1 + dy(d))
}

/// The cell `n` steps from `c` in direction `d`.
pub open spec fn offset(c: Cell, d: GameControl, n: nat) -> Cell {
    (c.0 + n * dx(d), c.1 + n * dy(d))
}

/// The direction keys held down during one frame.
#[derive(Clone, Copy, Debug, PartialEq, Eq, Structural)]
pub struct KeyInput {
    pub left: bool,
    pub right: bool,
    pub down: bool,
    pub up: bool,
}

/// The direction the keys ask for: left before right before down before up,
/// and `current` when none is held.
pub open spec fn requested(keys: KeyInput, current: GameControl) -> GameControl {
    if keys.left {
        GameControl::Left
    } else if keys.right {
        GameControl::Right
    } else if keys.down {
        GameControl::Down
    } else if keys.up {
        GameControl::Up
    } else {
        current
    }
}

/// The direction a head holds after the keys of one frame: a request for the
/// reverse of the current direction is ignored.
pub open spec fn steer(keys: KeyInput, current: GameControl) -> GameControl {
    let want = requested(keys, current);
    if want == reverse(current) {
        current
    } else {
        want
    }
}

impl GameControl {
    /// The direction the held keys select for `head`.
    pub fn pressed(keys: &KeyInput, head: &SnakeHead) -> (r: GameControl)
        ensures
            r == requested(*keys, head.direction),
    {
        if keys.left {
            GameControl::Left
        } else if keys.right {
            GameControl::Right
        } else if keys.down {
            GameControl::Down
        } else if keys.up {
            GameControl::Up
        } else {
            head.direction
        }
    }

    /// The direction that points the other way.
    pub fn opposite(self) -> (r: GameControl)
        ensures
            r == reverse(self),
    {
        match self {
            GameControl::Left => GameControl::Right,
            GameControl::Right => GameControl::Left,
            GameControl::Up => GameControl::Down,
            GameControl::Down => GameControl::Up,
        }
    }
}

/// Reversing a direction twice gives it back.
pub proof fn opposite_is_involution(d: GameControl)
    ensures
        reverse(reverse(d)) == d,
{
}

/// A request for the reverse of the current direction leaves it unchanged.
pub proof fn reversal_is_ignored(keys: KeyInput, current: GameControl)
    requires
        requested(keys, current) == reverse(current),
    ensures
        steer(keys, current) == current,
{
}

} // verus!
