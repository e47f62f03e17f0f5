//! The whole state of a game and the order in which a frame runs its systems.

use vstd::prelude::*;

use crate::actions::control::GameControl;
use crate::actions::{cell, cells, in_arena, near_arena, Cell, Position};
use crate::actions::control::{step, KeyInput};
use crate::board::{board_updated, score_reset, Score};
use crate::food::food_ticked;
use crate::resources::Timer;
use crate::snake::{eaten, grown, move_ticked, moved, snake_spawned, steered};
use crate::resources::{
    FoodSpawnTimer, LastBlockPosition, SnakeBlocks, SnakeMoveTimer, TimerView,
};
use crate::snake::SnakeHead;
use crate::GameState;

verus! {

/// Milliseconds between two moves of the snake.
pub const MOVE_PERIOD_MS: u64 = 200;

/// Milliseconds between two pieces of food.
pub const FOOD_PERIOD_MS: u64 = 2000;

/// Everything the systems of a frame read and write.
pub struct Game {
    pub state: GameState,
    /// The state to enter at the start of the next frame.
    pub next_state: Option<GameState>,
    pub head: SnakeHead,
    pub blocks: SnakeBlocks,
    pub last_block_pos: LastBlockPosition,
    /// The cells holding food; two may share a cell.
    pub foods: Vec<Position>,
    /// Growth signals not yet acted on.
    pub growth_events: usize,
    /// Score signals not yet counted.
    pub score_events: usize,
    pub score: Score,
    pub move_timer: SnakeMoveTimer,
    pub food_timer: FoodSpawnTimer,
}

/// A game seen as mathematical values.
pub struct GameView {
    pub state: GameState,
    pub next_state: Option<GameState>,
    pub direction: GameControl,
    /// The snake's cells, head first.
    pub blocks: Seq<Cell>,
    pub last: Option<Cell>,
    pub foods: Seq<Cell>,
    pub growth_events: nat,
    pub score_events: nat,
    pub score: nat,
    pub move_timer: TimerView,
    pub food_timer: TimerView,
}

impl Game {
    pub open spec fn view(&self) -> GameView {
        GameView {
            state: self.state,
            next_state: self.next_state,
            direction: self.head.direction,
            blocks: self.blocks.view(),
            last: self.last_block_pos.view(),
            foods: cells(self.foods@),
            growth_events: self.growth_events as nat,
            score_events: self.score_events as nat,
            score: self.score.0 as nat,
            move_timer: self.move_timer.0.view(),
            food_timer: self.food_timer.0.view(),
        }
    }

    /// Running timers; every cell of the snake, and the cell the tail left,
    /// on the board or on the ring just outside it.
    pub open spec fn wf(&self) -> bool {
        &&& self.move_timer.0.wf()
        &&& self.food_timer.0.wf()
        &&& valid_blocks(self.blocks.view())
        &&& (self.last_block_pos.view() matches Some(c) ==> near_arena(c))
    }
}

/// Every cell lies on the board or on the ring just outside it.
pub open spec fn valid_blocks(s: Seq<Cell>) -> bool {
    forall|i: int| 0 <= i < s.len() ==> #[trigger] near_arena(s[i])
}

/// A game at start-up: on the menu, with no snake, no food and no score.
pub open spec fn initial() -> GameView {
    GameView {
        state: GameState::Menu,
        next_state: None,
        direction: GameControl::Up,
        blocks: Seq::empty(),
        last: None,
        foods: Seq::empty(),
        growth_events: 0,
        score_events: 0,
        score: 0,
        move_timer: (MOVE_PERIOD_MS as nat, 0),
        food_timer: (FOOD_PERIOD_MS as nat, 0),
    }
}

/// The snake and the food taken off the board.
pub open spec fn cleared(g: GameView) -> GameView {
    GameView { blocks: Seq::empty(), foods: Seq::empty(), ..g }
}

/// What entering state `s` does: a new game gets a fresh snake; a lost game
/// loses its snake, its food and its score.
pub open spec fn entered(g: GameView, s: GameState) -> GameView {
    match s {
        GameState::Playing => snake_spawned(g),
        GameState::GameOver => score_reset(cleared(g)),
        GameState::Menu => g,
    }
}

/// The game after the state asked for last frame is taken up.
pub open spec fn transitioned(g: GameView) -> GameView {
    match g.next_state {
        None => g,
        Some(s) => {
            let t = GameView { next_state: None, ..g };
            if s == g.state {
                t
            } else {
                entered(GameView { state: s, ..t }, s)
            }
        },
    }
}

/// The game after the play button was or was not pressed: on the menu or
/// after a lost game, a press asks for a new game.
pub open spec fn clicked(g: GameView, pressed: bool) -> GameView {
    if pressed && (g.state == GameState::Menu || g.state == GameState::GameOver) {
        GameView { next_state: Some(GameState::Playing), ..g }
    } else {
        g
    }
}

/// One frame: the pending state change, then, while playing, steering,
/// moving, eating, growing and food; then the score and the button. `c` is
/// the cell drawn for a piece of food that appears.
pub open spec fn frame(g: GameView, delta: nat, keys: KeyInput, pressed: bool, c: Cell) -> GameView {
    let t = transitioned(g);
    let p = if t.state == GameState::Playing {
        food_ticked(grown(eaten(move_ticked(steered(t, keys), delta))), delta, c)
    } else {
        t
    };
    clicked(board_updated(p), pressed)
}

impl Game {
    /// A game at start-up, on the menu.
    pub fn new() -> (r: Game)
        ensures
            r.wf(),
            r.view() == initial(),
    {
        let r = Game {
            state: GameState::Menu,
            next_state: None,
            head: SnakeHead { direction: GameControl::Up },
            blocks: SnakeBlocks(Vec::new()),
            last_block_pos: LastBlockPosition(None),
            foods: Vec::new(),
            growth_events: 0,
            score_events: 0,
            score: Score(0),
            move_timer: SnakeMoveTimer::new(MOVE_PERIOD_MS),
            food_timer: FoodSpawnTimer::new(FOOD_PERIOD_MS),
        };
        assert(r.view().blocks =~= Seq::<Cell>::empty());
        assert(r.view().foods =~= Seq::<Cell>::empty());
        r
    }

    /// Takes the snake and the food off the board.
    pub fn despawn_all(&mut self)
        requires
            old(self).wf(),
        ensures
            final(self).wf(),
            final(self).view() == cleared(old(self).view()),
    {
        self.blocks = SnakeBlocks(Vec::new());
        self.foods = Vec::new();
        assert(self.view().blocks =~= Seq::<Cell>::empty());
        assert(self.view().foods =~= Seq::<Cell>::empty());
    }

    /// Enters the state asked for last frame and runs what entering it does.
    pub fn apply_state_transition(&mut self)
        requires
            old(self).wf(),
        ensures
            final(self).wf(),
            final(self).view() == transitioned(old(self).view()),
    {
        match self.next_state {
            None => {},
            Some(s) => {
                self.next_state = None;
                if s != self.state {
                    self.state = s;
                    match s {
                        GameState::Playing => self.spawn_snake(),
                        GameState::GameOver => {
                            self.despawn_all();
                            self.reset_score();
                        },
                        GameState::Menu => {},
                    }
                }
            },
        }
    }

    /// On the menu or after a lost game, a press of the play button asks for
    /// a new game.
    pub fn click_play_button(&mut self, pressed: bool)
        requires
            old(self).wf(),
        ensures
            final(self).wf(),
            final(self).view() == clicked(old(self).view(), pressed),
    {
        if pressed && (self.state == GameState::Menu || self.state == GameState::GameOver) {
            self.next_state = Some(GameState::Playing);
        }
    }

    /// Runs one frame in which `delta` milliseconds passed, `keys` were held
    /// and the play button was or was not `pressed`.
    pub fn update(&mut self, delta: u64, keys: &KeyInput, pressed: bool)
        requires
            old(self).wf(),
        ensures
            final(self).wf(),
            exists|c: Cell|
                in_arena(c) && final(self).view() == #[trigger] frame(
                    old(self).view(),
                    delta as nat,
                    *keys,
                    pressed,
                    c,
                ),
    {
        let ghost g = self.view();
        self.apply_state_transition();
        let ghost t = self.view();
        let ghost mut c: Cell = (0int, 0int);
        if self.state == GameState::Playing {
            self.snake_movment_input(keys);
            self.move_snake(delta);
            self.snake_eating();
            self.snake_growth();
            let ghost before_food = self.view();
            self.spawn_food(delta);
            proof {
                c = choose|c: Cell| in_arena(c) && self.view() == #[trigger] food_ticked(before_food, delta as nat, c);
            }
        }
        self.update_board();
        self.click_play_button(pressed);
        assert(self.view() == frame(g, delta as nat, *keys, pressed, c));
    }
}

/// A move that takes the head off the board ends the game at the next
/// frame's state change.
pub proof fn leaving_the_board_ends_the_game(g: GameView)
    requires
        g.blocks.len() > 0,
        !in_arena(step(g.blocks[0], g.direction)),
    ensures
        moved(g).next_state == Some(GameState::GameOver),
        transitioned(moved(g)).state == GameState::GameOver,
{
}

} // verus!
