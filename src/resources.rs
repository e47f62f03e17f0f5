//! State shared between the systems of a frame: timers, the snake's cells and
//! the cell its tail last left.

use vstd::prelude::*;

use crate::actions::{cell, cells, Cell, Position};

verus! {

/// A repeating timer counted in milliseconds.
pub struct Timer {
    pub duration: u64,
    pub elapsed: u64,
}

/// A timer as (period, time elapsed in the current period).
pub type TimerView = (nat, nat);

/// Whether a timer of period `t.0` that has run `t.1` into its period
/// completes a period when `delta` more milliseconds pass.
pub open spec fn timer_fires(t: TimerView, delta: nat) -> bool {
    t.1 + delta >= t.0
}

/// The timer after `delta` more milliseconds: whole periods are dropped.
pub open spec fn timer_after(t: TimerView, delta: nat) -> TimerView {
    (t.0, ((t.1 + delta) as int % (t.0 as int)) as nat)
}

impl Timer {
    pub open spec fn view(&self) -> TimerView {
        (self.duration as nat, self.elapsed as nat)
    }

    /// A running timer: a positive period, not yet used up.
    pub open spec fn wf(&self) -> bool {
        0 < self.duration && self.elapsed < self.duration
    }

    /// A repeating timer of period `duration` milliseconds, started now.
    pub fn from_millis(duration: u64) -> (r: Timer)
        requires
            duration > 0,
        ensures
            r.wf(),
            r.view() == (duration as nat, 0nat),
    {
        Timer { duration, elapsed: 0 }
    }

    /// Advances the timer by `delta` milliseconds; tells whether a period
    /// ended in that time.
    pub fn tick(&mut self, delta: u64) -> (finished: bool)
        requires
            old(self).wf(),
        ensures
            final(self).wf(),
            finished == timer_fires(old(self).view(), delta as nat),
            final(self).view() == timer_after(old(self).view(), delta as nat),
    {
        let room = self.duration - self.elapsed;
        if delta < room {
            self.elapsed = self.elapsed + delta;
            assert((self.elapsed as int) % (self.duration as int) == self.elapsed as int) by {
                vstd::arithmetic::div_mod::lemma_small_mod(self.elapsed as nat, self.duration as nat);
            }
            false
        } else {
            let over = delta - room;
            let e = over % self.duration;
            proof {
                let d = self.duration as int;
                let total = old(self).elapsed as int + delta as int;
                assert(total == over as int + d);
                vstd::arithmetic::div_mod::lemma_mod_add_multiples_vanish(over as int, d);
            }
            self.elapsed = e;
            true
        }
    }
}

/// The timer that paces the snake's moves.
pub struct SnakeMoveTimer(pub Timer);

impl SnakeMoveTimer {
    /// A move timer with a period of `millis` milliseconds.
    pub fn new(millis: u64) -> (r: SnakeMoveTimer)
        requires
            millis > 0,
        ensures
            r.0.wf(),
            r.0.view() == (millis as nat, 0nat),
    {
        SnakeMoveTimer(Timer::from_millis(millis))
    }
}

/// The timer that paces the appearance of food.
pub struct FoodSpawnTimer(pub Timer);

impl FoodSpawnTimer {
    /// A food timer with a period of `millis` milliseconds.
    pub fn new(millis: u64) -> (r: FoodSpawnTimer)
        requires
            millis > 0,
        ensures
            r.0.wf(),
            r.0.view() == (millis as nat, 0nat),
    {
        FoodSpawnTimer(Timer::from_millis(millis))
    }
}

/// The cells of the snake, head first.
pub struct SnakeBlocks(pub Vec<Position>);

impl SnakeBlocks {
    pub open spec fn view(&self) -> Seq<Cell> {
        cells(self.0@)
    }
}

/// The cell that the tail left on the last move, if the snake has moved.
#[derive(Clone, Copy, Debug, PartialEq, Eq, Structural)]
pub struct LastBlockPosition(pub Option<Position>);

impl LastBlockPosition {
    pub open spec fn view(&self) -> Option<Cell> {
        match self.0 {
            Some(p) => Some(cell(p)),
            None => None,
        }
    }
}

} // verus!
