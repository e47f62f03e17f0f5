//! Food: a piece appears on a random cell each time the food timer ends a
//! period. Nothing keeps it off the snake.

use vstd::prelude::*;

use crate::actions::{cell, cells, in_arena, Cell, Position};
use crate::game::{Game, GameView};
use crate::resources::{timer_after, timer_fires};
use crate::{ARENA_HEIGHT, ARENA_WIDTH};

verus! {

/// Relies on rand::thread_rng with rand::Rng::gen_range: a value drawn from
/// `0..bound`, which it documents to panic only when that range is empty.
#[verifier::external_body]
fn random_below(bound: u32) -> (r: u32)
    requires
        bound > 0,
    ensures
        r < bound,
{
    rand::Rng::gen_range(&mut rand::thread_rng(), 0..bound)
}

/// The game with one more piece of food on cell `c`.
pub open spec fn food_placed(g: GameView, c: Cell) -> GameView {
    GameView { foods: g.foods.push(c), ..g }
}

/// The game after the food timer ran `delta` milliseconds, where `c` is the
/// cell drawn for a piece that appears.
pub open spec fn food_ticked(g: GameView, delta: nat, c: Cell) -> GameView {
    let t = GameView { food_timer: timer_after(g.food_timer, delta), ..g };
    if timer_fires(g.food_timer, delta) {
        food_placed(t, c)
    } else {
        t
    }
}

impl Game {
    /// Adds a piece of food at column `x`, row `y`.
    pub fn place_food(&mut self, x: u32, y: u32)
        requires
            old(self).wf(),
            x < ARENA_WIDTH,
            y < ARENA_HEIGHT,
        ensures
            final(self).wf(),
            final(self).view() == food_placed(old(self).view(), (x as int, y as int)),
    {
        let ghost before = self.foods@;
        self.foods.push(Position { x: x as i32, y: y as i32 });
        assert(cells(self.foods@) =~= cells(before).push((x as int, y as int)));
    }

    /// Runs the food timer for `delta` milliseconds; when a period ends a
    /// piece of food appears on a cell of the board drawn at random.
    pub fn spawn_food(&mut self, delta: u64)
        requires
            old(self).wf(),
        ensures
            final(self).wf(),
            exists|c: Cell|
                in_arena(c) && final(self).view() == #[trigger] food_ticked(
                    old(self).view(),
                    delta as nat,
                    c,
                ),
    {
        let ghost g = self.view();
        if self.food_timer.0.tick(delta) {
            let x = random_below(ARENA_WIDTH);
            let y = random_below(ARENA_HEIGHT);
            self.place_food(x, y);
            assert(food_ticked(g, delta as nat, (x as int, y as int)) == self.view());
        } else {
            assert(food_ticked(g, delta as nat, (0int, 0int)) == self.view());
        }
    }
}

} // verus!
