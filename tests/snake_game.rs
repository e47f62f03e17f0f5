use snake::actions::control::{GameControl, KeyInput};
use snake::actions::Position;
use snake::board::Score;
use snake::components::Direction;
use snake::game::Game;
use snake::resources::{FoodSpawnTimer, SnakeMoveTimer, Timer};
use snake::snake::SnakeHead;
use snake::{GamePlugin, GameState, ARENA_HEIGHT, ARENA_WIDTH};

fn no_keys() -> KeyInput {
    KeyInput { left: false, right: false, down: false, up: false }
}

fn playing() -> Game {
    let mut g = GamePlugin.build();
    g.click_play_button(true);
    g.update(0, &no_keys(), false);
    assert_eq!(g.state, GameState::Playing);
    g
}

fn head(g: &Game) -> Position {
    g.blocks.0[0]
}

#[test]
fn opposite_twice_is_identity() {
    for d in [GameControl::Up, GameControl::Down, GameControl::Left, GameControl::Right] {
        assert_eq!(d.opposite().opposite(), d);
        assert_ne!(d.opposite(), d);
    }
    for d in [Direction::Up, Direction::Down, Direction::Left, Direction::Right] {
        assert_eq!(d.opposite().opposite(), d);
    }
    assert_eq!(GameControl::Left.opposite(), GameControl::Right);
    assert_eq!(GameControl::Up.opposite(), GameControl::Down);
    assert_eq!(Direction::Down.opposite(), Direction::Up);
    assert_eq!(Direction::Right.opposite(), Direction::Left);
}

#[test]
fn pressed_follows_key_precedence() {
    let head = SnakeHead { direction: GameControl::Up };
    let all = KeyInput { left: true, right: true, down: true, up: true };
    assert_eq!(GameControl::pressed(&all, &head), GameControl::Left);
    let rd = KeyInput { left: false, right: true, down: true, up: false };
    assert_eq!(GameControl::pressed(&rd, &head), GameControl::Right);
    let du = KeyInput { left: false, right: false, down: true, up: true };
    assert_eq!(GameControl::pressed(&du, &head), GameControl::Down);
    let u = KeyInput { left: false, right: false, down: false, up: true };
    let left_head = SnakeHead { direction: GameControl::Left };
    assert_eq!(GameControl::pressed(&u, &left_head), GameControl::Up);
    assert_eq!(GameControl::pressed(&no_keys(), &left_head), GameControl::Left);
}

#[test]
fn reversal_request_is_ignored() {
    let mut g = playing();
    assert_eq!(g.head.direction, GameControl::Up);
    let down = KeyInput { left: false, right: false, down: true, up: false };
    g.snake_movment_input(&down);
    assert_eq!(g.head.direction, GameControl::Up);
    let right = KeyInput { left: false, right: true, down: false, up: false };
    g.snake_movment_input(&right);
    assert_eq!(g.head.direction, GameControl::Right);
    let left = KeyInput { left: true, right: false, down: false, up: false };
    g.snake_movment_input(&left);
    assert_eq!(g.head.direction, GameControl::Right);
}

#[test]
fn fresh_snake_layout() {
    let g = playing();
    assert_eq!(g.blocks.0, vec![Position { x: 3, y: 3 }, Position { x: 3, y: 2 }]);
    assert!(g.foods.is_empty());
    assert_eq!(g.score.get(), 0);
}

#[test]
fn head_moves_up_three_cells() {
    let mut g = playing();
    for _ in 0..3 {
        g.advance_snake();
    }
    assert_eq!(head(&g), Position { x: 3, y: 6 });
    assert_eq!(g.blocks.0[1], Position { x: 3, y: 5 });
    assert_eq!(g.blocks.0.len(), 2);
    assert_eq!(g.last_block_pos.0, Some(Position { x: 3, y: 4 }));
    assert_eq!(g.next_state, None);
}

#[test]
fn straight_run_by_frames() {
    let mut g = playing();
    let right = KeyInput { left: false, right: true, down: false, up: false };
    g.update(0, &right, false);
    for _ in 0..5 {
        g.update(200, &no_keys(), false);
    }
    assert_eq!(head(&g), Position { x: 8, y: 3 });
    assert_eq!(g.state, GameState::Playing);
}

#[test]
fn move_waits_for_the_timer() {
    let mut g = playing();
    g.move_snake(150);
    assert_eq!(head(&g), Position { x: 3, y: 3 });
    g.move_snake(100);
    assert_eq!(head(&g), Position { x: 3, y: 4 });
    assert_eq!(g.move_timer.0.elapsed, 50);
}

#[test]
fn eating_grows_by_one_block() {
    let mut g = playing();
    g.place_food(3, 4);
    g.place_food(10, 10);
    g.advance_snake();
    g.snake_eating();
    assert_eq!(g.foods, vec![Position { x: 10, y: 10 }]);
    assert_eq!(g.growth_events, 1);
    assert_eq!(g.score_events, 1);
    g.snake_growth();
    assert_eq!(
        g.blocks.0,
        vec![Position { x: 3, y: 4 }, Position { x: 3, y: 3 }, Position { x: 3, y: 2 }]
    );
    assert_eq!(g.growth_events, 0);
    g.update_board();
    assert_eq!(g.score.get(), 1);
    assert_eq!(g.score_events, 0);
}

#[test]
fn two_pieces_on_one_cell_are_both_eaten() {
    let mut g = playing();
    g.place_food(3, 3);
    g.place_food(3, 3);
    g.snake_eating();
    assert!(g.foods.is_empty());
    assert_eq!(g.growth_events, 2);
    g.snake_growth();
    assert_eq!(g.blocks.0.len(), 2);
    assert_eq!(g.growth_events, 2);
    g.advance_snake();
    g.snake_growth();
    assert_eq!(g.blocks.0.len(), 3);
    assert_eq!(g.blocks.0[2], Position { x: 3, y: 2 });
    assert_eq!(g.growth_events, 1);
}

#[test]
fn leaving_the_board_ends_the_game() {
    let mut g = playing();
    let left = KeyInput { left: true, right: false, down: false, up: false };
    g.snake_movment_input(&left);
    for _ in 0..3 {
        g.advance_snake();
        assert_eq!(g.next_state, None);
    }
    assert_eq!(head(&g), Position { x: 0, y: 3 });
    g.advance_snake();
    assert_eq!(head(&g), Position { x: -1, y: 3 });
    assert_eq!(g.next_state, Some(GameState::GameOver));
    g.advance_snake();
    assert_eq!(head(&g), Position { x: -1, y: 3 });
    g.update(0, &no_keys(), false);
    assert_eq!(g.state, GameState::GameOver);
    assert!(g.blocks.0.is_empty());
    assert!(g.foods.is_empty());
}

#[test]
fn top_edge_ends_the_game() {
    let mut g = playing();
    for _ in 0..21 {
        g.advance_snake();
    }
    assert_eq!(head(&g), Position { x: 3, y: 24 });
    assert_eq!(g.next_state, None);
    g.advance_snake();
    assert_eq!(head(&g), Position { x: 3, y: ARENA_HEIGHT as i32 });
    assert_eq!(g.next_state, Some(GameState::GameOver));
}

#[test]
fn running_into_itself_ends_the_game() {
    let mut g = playing();
    g.place_food(3, 4);
    g.place_food(3, 5);
    g.place_food(3, 6);
    for _ in 0..3 {
        g.advance_snake();
        g.snake_eating();
        g.snake_growth();
    }
    assert_eq!(g.blocks.0.len(), 5);
    let right = KeyInput { left: false, right: true, down: false, up: false };
    let down = KeyInput { left: false, right: false, down: true, up: false };
    let left = KeyInput { left: true, right: false, down: false, up: false };
    g.snake_movment_input(&right);
    g.advance_snake();
    g.snake_movment_input(&down);
    g.advance_snake();
    assert_eq!(g.next_state, None);
    g.snake_movment_input(&left);
    g.advance_snake();
    assert_eq!(head(&g), Position { x: 3, y: 5 });
    assert_eq!(g.next_state, Some(GameState::GameOver));
}

#[test]
fn restart_resets_score_and_snake() {
    let mut g = playing();
    g.place_food(3, 4);
    g.update(200, &no_keys(), false);
    assert_eq!(g.score.get(), 1);
    assert_eq!(g.blocks.0.len(), 3);
    g.next_state = Some(GameState::GameOver);
    g.update(0, &no_keys(), false);
    assert_eq!(g.state, GameState::GameOver);
    assert_eq!(g.score.get(), 0);
    g.update(0, &no_keys(), true);
    assert_eq!(g.next_state, Some(GameState::Playing));
    g.update(0, &no_keys(), false);
    assert_eq!(g.state, GameState::Playing);
    assert_eq!(g.blocks.0, vec![Position { x: 3, y: 3 }, Position { x: 3, y: 2 }]);
    assert_eq!(g.head.direction, GameControl::Up);
}

#[test]
fn menu_waits_for_the_button() {
    let mut g = Game::new();
    g.update(5000, &no_keys(), false);
    assert_eq!(g.state, GameState::Menu);
    assert!(g.blocks.0.is_empty());
    assert!(g.foods.is_empty());
    g.click_play_button(true);
    assert_eq!(g.next_state, Some(GameState::Playing));
}

#[test]
fn food_appears_on_the_board() {
    let mut g = playing();
    g.spawn_food(1999);
    assert!(g.foods.is_empty());
    for _ in 0..50 {
        g.spawn_food(1);
        let f = g.foods[g.foods.len() - 1];
        assert!(f.x >= 0 && (f.x as u32) < ARENA_WIDTH);
        assert!(f.y >= 0 && (f.y as u32) < ARENA_HEIGHT);
        g.spawn_food(1999);
    }
    assert_eq!(g.foods.len(), 50);
    assert!(g.foods.iter().any(|f| f.x != 0 || f.y != 0));
}

#[test]
fn timer_repeats() {
    let mut t = Timer::from_millis(200);
    assert!(!t.tick(199));
    assert!(t.tick(1));
    assert_eq!(t.elapsed, 0);
    assert!(t.tick(450));
    assert_eq!(t.elapsed, 50);
    assert_eq!(SnakeMoveTimer::new(200).0.duration, 200);
    assert_eq!(FoodSpawnTimer::new(2000).0.duration, 2000);
}

#[test]
fn score_counts_and_resets() {
    let mut s = Score(0);
    s.increment();
    s.increment();
    assert_eq!(s.get(), 2);
    s.reset();
    assert_eq!(s.get(), 0);
    let mut top = Score(u32::MAX);
    top.increment();
    assert_eq!(top.get(), u32::MAX);
}

#[test]
fn position_in_arena() {
    assert!(Position { x: 0, y: 0 }.in_arena());
    assert!(Position { x: 24, y: 24 }.in_arena());
    assert!(!Position { x: 25, y: 0 }.in_arena());
    assert!(!Position { x: 0, y: -1 }.in_arena());
}

#[test]
fn head_on_the_ring_steps_back_onto_the_board() {
    let mut g = playing();
    g.blocks.0 = vec![Position { x: -1, y: 3 }, Position { x: -1, y: 2 }];
    g.head.direction = GameControl::Right;
    g.advance_snake();
    assert_eq!(g.blocks.0, vec![Position { x: 0, y: 3 }, Position { x: -1, y: 3 }]);
    assert_eq!(g.last_block_pos.0, Some(Position { x: -1, y: 2 }));
    assert_eq!(g.next_state, None);
}

#[test]
fn head_on_the_ring_moving_out_ends_the_game() {
    let mut g = playing();
    g.blocks.0 = vec![Position { x: 25, y: 3 }, Position { x: 24, y: 3 }];
    g.head.direction = GameControl::Right;
    g.advance_snake();
    assert_eq!(g.next_state, Some(GameState::GameOver));
    assert_eq!(g.blocks.0, vec![Position { x: 25, y: 3 }, Position { x: 24, y: 3 }]);
    let mut h = playing();
    h.blocks.0 = vec![Position { x: 3, y: 25 }, Position { x: 4, y: 25 }];
    h.head.direction = GameControl::Down;
    h.advance_snake();
    assert_eq!(h.blocks.0[0], Position { x: 3, y: 24 });
    assert_eq!(h.next_state, None);
}
