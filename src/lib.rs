//! Grid snake: movement, collision, feeding, growth and the menu / playing /
//! game-over cycle, as plain state driven one frame at a time.

pub mod actions;
pub mod board;
pub mod components;
pub mod food;
pub mod game;
pub mod resources;
pub mod snake;

use vstd::prelude::*;

verus! {

/// Number of columns of the arena.
pub const ARENA_WIDTH: u32 = 25;

/// Number of rows of the arena.
pub const ARENA_HEIGHT: u32 = 25;

/// The coarse state that gates which systems run.
#[derive(Clone, Copy, Debug, PartialEq, Eq, Hash, Structural)]
pub enum GameState {
    Menu,
    Playing,
    GameOver,
}

/// The game as a whole: builds the state a fresh game starts from.
pub struct GamePlugin;

impl GamePlugin {
    /// A game at start-up, on the menu.
    pub fn build(&self) -> (r: game::Game)
        ensures
            r.wf(),
            r.view() == game::initial(),
    {
        game::Game::new()
    }
}

} // verus!
