//! The score: a counter of the food eaten in the current game.

use vstd::prelude::*;

use crate::game::{Game, GameView};

verus! {

/// Food eaten since the last game ended.
#[derive(Clone, Copy, Debug, PartialEq, Eq, Structural)]
pub struct Score(pub u32);

/// `n`, held at the largest value a `u32` counter can take.
pub open spec fn capped_u32(n: nat) -> nat {
    if n > u32::MAX {
        u32::MAX as nat
    } else {
        n
    }
}

impl Score {
    /// Sets the score back to zero.
    pub fn reset(&mut self)
        ensures
            final(self).0 == 0,
    {
        self.0 = 0;
    }

    /// Counts one more food; the counter stays at its largest value once
    /// there.
    pub fn increment(&mut self)
        ensures
            final(self).0 as nat == capped_u32(old(self).0 as nat + 1),
    {
        self.0 = self.0.saturating_add(1);
    }

    /// The current score.
    pub fn get(&self) -> (r: u32)
        ensures
            r == self.0,
    {
        self.0
    }
}

/// The board after one frame's look at the score signals: one pending signal
/// is taken and counted.
pub open spec fn board_updated(g: GameView) -> GameView {
    if g.score_events > 0 {
        GameView { score_events: (g.score_events - 1) as nat, score: capped_u32(g.score + 1), ..g }
    } else {
        g
    }
}

/// The board when a game ends: the score goes back to zero.
pub open spec fn score_reset(g: GameView) -> GameView {
    GameView { score: 0, ..g }
}

impl Game {
    /// Takes one pending score signal, if any, and counts it.
    pub fn update_board(&mut self)
        requires
            old(self).wf(),
        ensures
            final(self).wf(),
            final(self).view() == board_updated(old(self).view()),
    {
        if self.score_events > 0 {
            self.score_events = self.score_events - 1;
            self.score.increment();
        }
    }

    /// Sets the score back to zero.
    pub fn reset_score(&mut self)
        requires
            old(self).wf(),
        ensures
            final(self).wf(),
            final(self).view() == score_reset(old(self).view()),
    {
        self.score.reset();
    }
}

} // verus!
