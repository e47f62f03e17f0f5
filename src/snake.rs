//! The snake: steering, moving, colliding, eating and growing.

use vstd::prelude::*;

use crate::actions::control::{offset, reverse, steer, step, GameControl, KeyInput};
use crate::actions::{cell, cells, in_arena, near_arena, Cell, Position};
use crate::game::{valid_blocks, Game, GameView};
use crate::resources::{timer_after, timer_fires, LastBlockPosition, SnakeBlocks};
use crate::GameState;

verus! {

/// The head of the snake and the direction it travels in.
#[derive(Clone, Copy, Debug, PartialEq, Eq, Structural)]
pub struct SnakeHead {
    pub direction: GameControl,
}

/// The cells of a fresh snake: head at (3, 3), one block below it.
pub open spec fn fresh_blocks() -> Seq<Cell> {
    seq![(3int, 3int), (3int, 2int)]
}

/// A fresh snake, going up.
pub open spec fn snake_spawned(g: GameView) -> GameView {
    GameView { blocks: fresh_blocks(), direction: GameControl::Up, ..g }
}

/// The direction after one frame's keys, for a game with a snake.
pub open spec fn steered(g: GameView, keys: KeyInput) -> GameView {
    if g.blocks.len() == 0 {
        g
    } else {
        GameView { direction: steer(keys, g.direction), ..g }
    }
}

/// The cells after one move in direction `d`: a new head one step ahead, and
/// every other block in the cell its predecessor held.
pub open spec fn advance(s: Seq<Cell>, d: GameControl) -> Seq<Cell>
    recommends
        s.len() > 0,
{
    seq![step(s[0], d)] + s.drop_last()
}

/// The cells after `n` moves in direction `d`.
pub open spec fn run(s: Seq<Cell>, d: GameControl, n: nat) -> Seq<Cell>
    decreases n,
{
    if n == 0 {
        s
    } else {
        advance(run(s, d, (n - 1) as nat), d)
    }
}

/// One move of the snake. A head whose next cell leaves the board or meets a
/// cell the snake held before the move ends the game at the next frame. The
/// blocks move, and the cell the tail left is kept, unless that next cell lies
/// beyond the ring just outside the board: then they stay put.
pub open spec fn moved(g: GameView) -> GameView {
    if g.blocks.len() == 0 {
        g
    } else if !near_arena(step(g.blocks[0], g.direction)) {
        GameView { next_state: Some(GameState::GameOver), ..g }
    } else {
        let h = step(g.blocks[0], g.direction);
        GameView {
            blocks: advance(g.blocks, g.direction),
            last: Some(g.blocks.last()),
            next_state: if !in_arena(h) || g.blocks.contains(h) {
                Some(GameState::GameOver)
            } else {
                g.next_state
            },
            ..g
        }
    }
}

/// The game after the move timer ran `delta` milliseconds: the snake moves
/// when a period ends.
pub open spec fn move_ticked(g: GameView, delta: nat) -> GameView {
    let t = GameView { move_timer: timer_after(g.move_timer, delta), ..g };
    if timer_fires(g.move_timer, delta) {
        moved(t)
    } else {
        t
    }
}

/// `n`, held at the largest value a `usize` counter can take.
pub open spec fn capped_usize(n: nat) -> nat {
    if n > usize::MAX {
        usize::MAX as nat
    } else {
        n
    }
}

/// The food that is not on cell `h`, in order.
pub open spec fn uneaten(foods: Seq<Cell>, h: Cell) -> Seq<Cell>
    decreases foods.len(),
{
    if foods.len() == 0 {
        foods
    } else {
        let rest = uneaten(foods.drop_last(), h);
        if foods.last() == h {
            rest
        } else {
            rest.push(foods.last())
        }
    }
}

/// How many pieces of food lie on cell `h`.
pub open spec fn eaten_at(foods: Seq<Cell>, h: Cell) -> nat
    decreases foods.len(),
{
    if foods.len() == 0 {
        0
    } else {
        eaten_at(foods.drop_last(), h) + if foods.last() == h {
            1nat
        } else {
            0nat
        }
    }
}

/// The game after the head eats: the food under it goes, and each piece
/// eaten signals one growth and one point.
pub open spec fn eaten(g: GameView) -> GameView {
    if g.blocks.len() == 0 {
        g
    } else {
        let k = eaten_at(g.foods, g.blocks[0]);
        GameView {
            foods: uneaten(g.foods, g.blocks[0]),
            growth_events: capped_usize(g.growth_events + k),
            score_events: capped_usize(g.score_events + k),
            ..g
        }
    }
}

/// The game after a growth tick: one pending growth signal adds a block at the
/// cell the tail last left. Without such a cell the signal waits.
pub open spec fn grown(g: GameView) -> GameView {
    if g.growth_events > 0 && g.last is Some {
        GameView {
            blocks: g.blocks.push(g.last->0),
            growth_events: (g.growth_events - 1) as nat,
            ..g
        }
    } else {
        g
    }
}

/// Whether some position of `s` is `p`.
fn occupies(s: &Vec<Position>, p: Position) -> (r: bool)
    ensures
        r == cells(s@).contains(cell(p)),
{
    let mut i: usize = 0;
    while i < s.len()
        invariant
            i <= s@.len(),
            forall|j: int| 0 <= j < i ==> cell(s@[j]) != cell(p),
        decreases s@.len() - i,
    {
        if s[i] == p {
            assert(cells(s@)[i as int] == cell(p));
            return true;
        }
        i = i + 1;
    }
    proof {
        if cells(s@).contains(cell(p)) {
            let j = choose|j: int| 0 <= j < cells(s@).len() && cells(s@)[j] == cell(p);
            assert(cell(s@[j]) == cell(p));
        }
    }
    false
}

/// The position one step from `p` in direction `d`.
fn step_from(p: Position, d: GameControl) -> (r: Position)
    requires
        near_arena(cell(p)),
    ensures
        cell(r) == step(cell(p), d),
{
    match d {
        GameControl::Left => Position { x: p.x - 1, y: p.y },
        GameControl::Right => Position { x: p.x + 1, y: p.y },
        GameControl::Up => Position { x: p.x, y: p.y + 1 },
        GameControl::Down => Position { x: p.x, y: p.y - 1 },
    }
}

impl Game {
    /// Puts a fresh snake on the board: head at (3, 3) going up, one block
    /// below it.
    pub fn spawn_snake(&mut self)
        requires
            old(self).wf(),
        ensures
            final(self).wf(),
            final(self).view() == snake_spawned(old(self).view()),
    {
        let mut blocks: Vec<Position> = Vec::new();
        blocks.push(Position { x: 3, y: 3 });
        blocks.push(Position { x: 3, y: 2 });
        self.blocks = SnakeBlocks(blocks);
        self.head = SnakeHead { direction: GameControl::Up };
        assert(cells(self.blocks.0@) =~= fresh_blocks());
    }

    /// Turns the head as the held keys ask, unless they ask for a reversal.
    pub fn snake_movment_input(&mut self, keys: &KeyInput)
        requires
            old(self).wf(),
        ensures
            final(self).wf(),
            final(self).view() == steered(old(self).view(), *keys),
            reverse(old(self).head.direction) == crate::actions::control::requested(
                *keys,
                old(self).head.direction,
            ) ==> final(self).head.direction == old(self).head.direction,
    {
        if self.blocks.0.len() > 0 {
            let dir = GameControl::pressed(keys, &self.head);
            if dir != self.head.direction.opposite() {
                self.head.direction = dir;
            }
        }
    }

    /// Moves the snake one cell in its direction (see `moved`).
    pub fn advance_snake(&mut self)
        requires
            old(self).wf(),
        ensures
            final(self).wf(),
            final(self).view() == moved(old(self).view()),
    {
        let n = self.blocks.0.len();
        if n == 0 {
            return;
        }
        let head = self.blocks.0[0];
        let new_head = step_from(head, self.head.direction);
        if !new_head.near_arena() {
            self.next_state = Some(GameState::GameOver);
            return;
        }
        let hit = occupies(&self.blocks.0, new_head);
        let tail = self.blocks.0[n - 1];
        let mut shifted: Vec<Position> = Vec::new();
        shifted.push(new_head);
        let mut i: usize = 0;
        while i + 1 < n
            invariant
                n == self.blocks.0@.len(),
                i < n,
                shifted@ == seq![new_head] + self.blocks.0@.subrange(0, i as int),
            decreases n - i,
        {
            shifted.push(self.blocks.0[i]);
            i = i + 1;
            assert(shifted@ =~= seq![new_head] + self.blocks.0@.subrange(0, i as int));
        }
        let ghost old_view = self.view();
        if !new_head.in_arena() || hit {
            self.next_state = Some(GameState::GameOver);
        }
        self.blocks = SnakeBlocks(shifted);
        self.last_block_pos = LastBlockPosition(Some(tail));
        proof {
            let s = old_view.blocks;
            let d = old_view.direction;
            assert(self.blocks.view() =~= advance(s, d));
            assert(s.last() == cell(tail));
            assert forall|j: int| 0 <= j < self.blocks.view().len() implies #[trigger] near_arena(
                self.blocks.view()[j],
            ) by {
                if j > 0 {
                    assert(self.blocks.view()[j] == s[j - 1]);
                }
            }
        }
    }

    /// Runs the move timer for `delta` milliseconds and moves the snake when
    /// a period ends.
    pub fn move_snake(&mut self, delta: u64)
        requires
            old(self).wf(),
        ensures
            final(self).wf(),
            final(self).view() == move_ticked(old(self).view(), delta as nat),
    {
        if self.move_timer.0.tick(delta) {
            self.advance_snake();
        }
    }

    /// Removes the food under the head, and signals one growth and one point
    /// for each piece.
    pub fn snake_eating(&mut self)
        requires
            old(self).wf(),
        ensures
            final(self).wf(),
            final(self).view() == eaten(old(self).view()),
    {
        if self.blocks.0.len() == 0 {
            return;
        }
        let h = self.blocks.0[0];
        let mut kept: Vec<Position> = Vec::new();
        let mut k: usize = 0;
        let mut i: usize = 0;
        while i < self.foods.len()
            invariant
                i <= self.foods@.len(),
                k <= i,
                cells(kept@) == uneaten(cells(self.foods@.subrange(0, i as int)), cell(h)),
                k == eaten_at(cells(self.foods@.subrange(0, i as int)), cell(h)),
            decreases self.foods@.len() - i,
        {
            let f = self.foods[i];
            let ghost before = cells(self.foods@.subrange(0, i as int));
            let ghost after = cells(self.foods@.subrange(0, i + 1));
            assert(after.drop_last() =~= before);
            assert(after.last() == cell(f));
            if f == h {
                k = k + 1;
            } else {
                let ghost kept_before = kept@;
                kept.push(f);
                assert(cells(kept@) =~= cells(kept_before).push(cell(f)));
            }
            i = i + 1;
        }
        assert(self.foods@.subrange(0, self.foods@.len() as int) =~= self.foods@);
        self.foods = kept;
        self.growth_events = self.growth_events.saturating_add(k);
        self.score_events = self.score_events.saturating_add(k);
    }

    /// Acts on one pending growth signal: a new block at the cell the tail
    /// last left.
    pub fn snake_growth(&mut self)
        requires
            old(self).wf(),
        ensures
            final(self).wf(),
            final(self).view() == grown(old(self).view()),
    {
        if self.growth_events > 0 {
            match self.last_block_pos.0 {
                Some(p) => {
                    let ghost s = self.blocks.view();
                    self.blocks.0.push(p);
                    self.growth_events = self.growth_events - 1;
                    assert(self.blocks.view() =~= s.push(cell(p)));
                },
                None => {},
            }
        }
    }
}

/// After `n` moves without a turn the head stands `n` steps from where it
/// began, in the direction of travel, and the snake keeps its length.
pub proof fn straight_run(s: Seq<Cell>, d: GameControl, n: nat)
    requires
        s.len() > 0,
    ensures
        run(s, d, n).len() == s.len(),
        run(s, d, n)[0] == offset(s[0], d, n),
    decreases n,
{
    if n > 0 {
        straight_run(s, d, (n - 1) as nat);
        let prev = run(s, d, (n - 1) as nat);
        assert(run(s, d, n) == advance(prev, d));
        assert(advance(prev, d)[0] == step(prev[0], d));
        assert(n * crate::actions::control::dx(d) == (n - 1) * crate::actions::control::dx(d)
            + crate::actions::control::dx(d)) by (nonlinear_arith);
        assert(n * crate::actions::control::dy(d) == (n - 1) * crate::actions::control::dy(d)
            + crate::actions::control::dy(d)) by (nonlinear_arith);
    }
}

/// The game after `n` moves.
pub open spec fn moved_times(g: GameView, n: nat) -> GameView
    decreases n,
{
    if n == 0 {
        g
    } else {
        moved(moved_times(g, (n - 1) as nat))
    }
}

/// While the head stays on the board, `n` moves of a game without turns lay
/// the snake out as `n` straight moves of its cells: the head ends `n` steps
/// from where it began.
pub proof fn moves_run_straight(g: GameView, n: nat)
    requires
        g.blocks.len() > 0,
        forall|k: nat| k < n ==> #[trigger] in_arena(offset(g.blocks[0], g.direction, k)),
    ensures
        moved_times(g, n).blocks == run(g.blocks, g.direction, n),
        moved_times(g, n).direction == g.direction,
        moved_times(g, n).blocks[0] == offset(g.blocks[0], g.direction, n),
    decreases n,
{
    straight_run(g.blocks, g.direction, n);
    if n > 0 {
        let m = (n - 1) as nat;
        moves_run_straight(g, m);
        straight_run(g.blocks, g.direction, m);
        assert(in_arena(offset(g.blocks[0], g.direction, m)));
    }
}

/// The game after the move timer ran through each of `deltas` in turn.
pub open spec fn timed_moves(g: GameView, deltas: Seq<nat>) -> GameView
    decreases deltas.len(),
{
    if deltas.len() == 0 {
        g
    } else {
        move_ticked(timed_moves(g, deltas.drop_last()), deltas.last())
    }
}

/// When every one of `n` timed moves ends a timer period, no turn is made and
/// the head stays on the board, the head ends `n` steps from where it began
/// and the snake keeps its length.
pub proof fn timed_moves_run_straight(g: GameView, deltas: Seq<nat>)
    requires
        g.blocks.len() > 0,
        forall|k: nat| k < deltas.len() ==> #[trigger] in_arena(offset(g.blocks[0], g.direction, k)),
        forall|k: int|
            0 <= k < deltas.len() ==> timer_fires(
                #[trigger] timed_moves(g, deltas.take(k)).move_timer,
                deltas[k],
            ),
    ensures
        timed_moves(g, deltas).blocks == run(g.blocks, g.direction, deltas.len()),
        timed_moves(g, deltas).direction == g.direction,
        timed_moves(g, deltas).blocks.len() == g.blocks.len(),
        timed_moves(g, deltas).blocks[0] == offset(g.blocks[0], g.direction, deltas.len()),
    decreases deltas.len(),
{
    let n = deltas.len();
    straight_run(g.blocks, g.direction, n);
    if n > 0 {
        let p = deltas.drop_last();
        assert forall|k: int| 0 <= k < p.len() implies timer_fires(
            #[trigger] timed_moves(g, p.take(k)).move_timer,
            p[k],
        ) by {
            assert(p.take(k) =~= deltas.take(k));
            assert(timer_fires(timed_moves(g, deltas.take(k)).move_timer, deltas[k]));
        }
        timed_moves_run_straight(g, p);
        let m = (n - 1) as nat;
        straight_run(g.blocks, g.direction, m);
        assert(deltas.take(m as int) =~= p);
        assert(timer_fires(timed_moves(g, deltas.take(m as int)).move_timer, deltas[m as int]));
        assert(in_arena(offset(g.blocks[0], g.direction, m)));
    }
}

/// What lies on a cell plus what does not is all the food.
pub proof fn eaten_plus_uneaten(foods: Seq<Cell>, h: Cell)
    ensures
        eaten_at(foods, h) + uneaten(foods, h).len() == foods.len(),
    decreases foods.len(),
{
    if foods.len() > 0 {
        eaten_plus_uneaten(foods.drop_last(), h);
    }
}

/// When the head reaches a cell with exactly one piece of food, eating takes
/// that one piece away and signals one more growth; the next growth tick then
/// adds exactly one block. (The signal counter holds at `usize::MAX`.)
pub proof fn eating_grows_by_one(g: GameView)
    requires
        g.blocks.len() > 0,
        eaten_at(g.foods, g.blocks[0]) == 1,
        g.growth_events < usize::MAX,
        g.last is Some,
    ensures
        eaten(g).foods.len() == g.foods.len() - 1,
        eaten(g).growth_events == g.growth_events + 1,
        grown(eaten(g)).blocks.len() == g.blocks.len() + 1,
        grown(eaten(g)).growth_events == g.growth_events,
{
    eaten_plus_uneaten(g.foods, g.blocks[0]);
}

} // verus!
