use rsnake::draw::{to_coord_u32, Paint, Shape};
use rsnake::game::{direction_of, parse_score, Config, Game, Key};
use rsnake::snake::{Block, Direction};

fn defaults() -> Config {
    Config::from_fields(None, None, None)
}

fn cells(g: &Game) -> Vec<(i32, i32)> {
    g.snake().body().iter().map(|b| (b.x, b.y)).collect()
}

/// Drives a fresh game into the right wall.
fn ended_game(width: i32, height: i32) -> Game {
    let mut g = Game::new(width, height, defaults(), 0);
    while !g.is_game_over() {
        g.update_snake(None);
    }
    g
}

#[test]
fn config_defaults_and_given_values() {
    let c = defaults();
    assert!(c.food_exists);
    assert_eq!(c.moving_period, 100_000);
    assert_eq!(c.restart_time, 1_000_000);
    let c = Config::from_fields(Some(false), Some(250_000), Some(3_000_000));
    assert!(!c.food_exists);
    assert_eq!(c.moving_period, 250_000);
    assert_eq!(c.restart_time, 3_000_000);
}

#[test]
fn score_text_parses_or_falls_back_to_zero() {
    assert_eq!(parse_score("42"), 42);
    assert_eq!(parse_score("-7"), -7);
    assert_eq!(parse_score(""), 0);
    assert_eq!(parse_score("abc"), 0);
    assert_eq!(parse_score("99999999999"), 0);
}

#[test]
fn coordinates_in_surface_units() {
    assert_eq!(to_coord_u32(0), 0);
    assert_eq!(to_coord_u32(4), 100);
    assert_eq!(to_coord_u32(30), 750);
    assert_eq!(to_coord_u32(-3), 0);
    assert_eq!(to_coord_u32(i32::MAX), u32::MAX);
}

#[test]
fn arrow_keys_map_to_directions() {
    assert_eq!(direction_of(Key::Up), Some(Direction::Up));
    assert_eq!(direction_of(Key::Down), Some(Direction::Down));
    assert_eq!(direction_of(Key::Left), Some(Direction::Left));
    assert_eq!(direction_of(Key::Right), Some(Direction::Right));
    assert_eq!(direction_of(Key::Other), None);
}

#[test]
fn new_game_state() {
    let g = Game::new(10, 10, defaults(), 5);
    assert_eq!(cells(&g), vec![(2, 2), (1, 2), (0, 2)]);
    assert_eq!(g.food(), Some(Block { x: 6, y: 4 }));
    assert!(!g.is_game_over());
    assert_eq!(g.waiting_time(), 0);
    assert_eq!(g.best_score(), 5);
    assert_eq!(g.current_score(), 0);
    let g = Game::new(10, 10, Config::from_fields(Some(false), None, None), 0);
    assert_eq!(g.food(), None);
}

#[test]
fn forced_tick_moves_head_right() {
    let mut g = Game::new(10, 10, defaults(), 0);
    g.update(50_000);
    assert_eq!(g.waiting_time(), 50_000);
    g.update_snake(None);
    assert_eq!(g.snake().head_position(), (3, 2));
    assert_eq!(g.snake().len(), 3);
    assert_eq!(g.waiting_time(), 0);
    assert!(!g.is_game_over());
}

#[test]
fn update_ticks_once_the_period_is_exceeded() {
    let mut g = Game::new(10, 10, defaults(), 0);
    assert_eq!(g.update(100_000), None);
    assert_eq!(g.snake().head_position(), (2, 2));
    assert_eq!(g.update(1), None);
    assert_eq!(g.snake().head_position(), (3, 2));
    assert_eq!(g.waiting_time(), 0);
}

#[test]
fn border_ends_the_game_on_the_right() {
    let mut g = Game::new(30, 30, defaults(), 0);
    for _ in 0..26 {
        g.update_snake(None);
        assert!(!g.is_game_over());
    }
    assert_eq!(g.snake().head_position(), (28, 2));
    g.update_snake(None);
    assert!(g.is_game_over());
    assert_eq!(g.snake().head_position(), (28, 2));
}

#[test]
fn border_ends_the_game_at_the_top() {
    let mut g = Game::new(30, 30, defaults(), 0);
    g.key_pressed(Key::Up);
    assert!(!g.is_game_over());
    assert_eq!(g.snake().head_position(), (2, 1));
    g.key_pressed(Key::Left);
    assert!(!g.is_game_over());
    assert_eq!(g.snake().head_position(), (1, 1));
    g.key_pressed(Key::Down);
    assert_eq!(g.snake().head_position(), (1, 2));
    g.key_pressed(Key::Left);
    assert!(g.is_game_over());
    assert_eq!(g.snake().head_position(), (1, 2));
}

#[test]
fn moving_into_the_body_ends_the_game() {
    let mut g = Game::new(30, 30, defaults(), 0);
    g.key_pressed(Key::Down);
    g.key_pressed(Key::Down);
    for _ in 0..4 {
        g.key_pressed(Key::Right);
    }
    assert_eq!(cells(&g), vec![(6, 4), (5, 4), (4, 4), (3, 4)]);
    g.key_pressed(Key::Down);
    g.key_pressed(Key::Left);
    assert!(!g.is_game_over());
    assert_eq!(cells(&g), vec![(5, 5), (6, 5), (6, 4), (5, 4)]);
    g.key_pressed(Key::Up);
    assert!(g.is_game_over());
    assert_eq!(g.snake().head_position(), (5, 5));
}

#[test]
fn reversal_is_discarded() {
    let mut g = Game::new(30, 30, defaults(), 0);
    g.update(30_000);
    g.key_pressed(Key::Left);
    assert_eq!(g.snake().head_direction(), Direction::Right);
    assert_eq!(g.snake().head_position(), (2, 2));
    assert_eq!(g.waiting_time(), 30_000);
}

#[test]
fn other_keys_and_game_over_ignore_input() {
    let mut g = Game::new(30, 30, defaults(), 0);
    g.key_pressed(Key::Other);
    assert_eq!(g.snake().head_position(), (2, 2));
    let mut g = ended_game(10, 10);
    let before = cells(&g);
    g.key_pressed(Key::Down);
    assert_eq!(cells(&g), before);
}

#[test]
fn key_press_moves_at_once_and_resets_the_timer() {
    let mut g = Game::new(30, 30, defaults(), 0);
    g.update(40_000);
    g.key_pressed(Key::Down);
    assert_eq!(g.snake().head_position(), (2, 3));
    assert_eq!(g.snake().head_direction(), Direction::Down);
    assert_eq!(g.waiting_time(), 0);
}

#[test]
fn eating_grows_the_snake_and_scores() {
    let mut g = Game::new(30, 30, defaults(), 0);
    g.key_pressed(Key::Down);
    g.key_pressed(Key::Down);
    for _ in 0..3 {
        g.key_pressed(Key::Right);
    }
    assert_eq!(g.snake().len(), 3);
    g.key_pressed(Key::Right);
    assert_eq!(g.snake().head_position(), (6, 4));
    assert_eq!(g.snake().len(), 4);
    assert_eq!(g.current_score(), 1);
    assert_eq!(g.food(), None);
    assert_eq!(cells(&g), vec![(6, 4), (5, 4), (4, 4), (3, 4)]);
    g.update(1);
    let f = g.food().unwrap();
    assert!(!g.snake().overlap_tail(f.x, f.y));
}

#[test]
fn food_never_lands_on_the_snake() {
    let mut g = Game::new(12, 12, Config::from_fields(Some(false), None, None), 0);
    for _ in 0..1000 {
        g.add_food();
        let f = g.food().unwrap();
        assert!(f.x >= 1 && f.x < 11 && f.y >= 1 && f.y < 11);
        assert!(!g.snake().overlap_tail(f.x, f.y));
    }
}

#[test]
fn food_stays_on_the_few_free_cells() {
    // a 5 by 4 board has six inner cells, and the snake covers three of them
    let mut g = Game::new(5, 4, Config::from_fields(Some(false), None, None), 0);
    g.key_pressed(Key::Up);
    g.key_pressed(Key::Right);
    assert!(!g.is_game_over());
    assert_eq!(cells(&g), vec![(3, 1), (2, 1), (2, 2)]);
    for _ in 0..200 {
        g.add_food();
        let f = g.food().unwrap();
        assert!([(1, 1), (1, 2), (3, 2)].contains(&(f.x, f.y)));
    }
}

#[test]
fn no_food_without_an_inner_cell() {
    let mut g = Game::new(2, 2, defaults(), 0);
    g.add_food();
    assert_eq!(g.food(), None);
}

#[test]
fn score_is_due_once_when_beaten() {
    let mut g = Game::new(30, 30, defaults(), 0);
    assert_eq!(g.pending_best(), None);
    g.key_pressed(Key::Down);
    g.key_pressed(Key::Down);
    for _ in 0..4 {
        g.key_pressed(Key::Right);
    }
    assert_eq!(g.current_score(), 1);
    assert_eq!(g.pending_best(), Some(1));
    g.record_best(1);
    assert_eq!(g.best_score(), 1);
    assert_eq!(g.pending_best(), None);
    g.record_best(0);
    assert_eq!(g.best_score(), 1);
}

#[test]
fn score_not_due_when_not_beaten() {
    let mut g = ended_game(10, 10);
    assert_eq!(g.best_score(), 0);
    assert_eq!(g.pending_best(), None);
    assert_eq!(g.restart(), None);
    let mut g = Game::new(10, 10, defaults(), 3);
    assert_eq!(g.restart(), None);
    assert_eq!(g.best_score(), 3);
}

#[test]
fn restart_after_the_restart_time() {
    let mut g = ended_game(10, 10);
    assert!(g.is_game_over());
    assert_eq!(g.update(500_000), None);
    assert!(g.is_game_over());
    assert_eq!(g.waiting_time(), 500_000);
    assert_eq!(g.update(600_000), None);
    assert!(!g.is_game_over());
    assert_eq!(cells(&g), vec![(2, 2), (1, 2), (0, 2)]);
    assert_eq!(g.snake().head_direction(), Direction::Right);
    assert_eq!(g.current_score(), 0);
    assert_eq!(g.waiting_time(), 0);
    assert_eq!(g.food(), Some(Block { x: 6, y: 4 }));
}

#[test]
fn restart_hands_back_a_beaten_score() {
    let mut g = Game::new(10, 10, defaults(), 0);
    g.key_pressed(Key::Down);
    g.key_pressed(Key::Down);
    for _ in 0..4 {
        g.key_pressed(Key::Right);
    }
    assert_eq!(g.current_score(), 1);
    while !g.is_game_over() {
        g.update_snake(None);
    }
    assert_eq!(g.update(2_000_000), Some(1));
    assert_eq!(g.current_score(), 0);
    assert_eq!(g.best_score(), 0);
}

#[test]
fn frame_lists_snake_food_border_and_shade() {
    let g = Game::new(10, 8, defaults(), 0);
    let shapes = g.draw();
    let block = |paint, x, y| Shape { paint, x, y, width: 1, height: 1 };
    assert_eq!(
        shapes,
        vec![
            block(Paint::Snake, 2, 2),
            block(Paint::Snake, 1, 2),
            block(Paint::Snake, 0, 2),
            block(Paint::Food, 6, 4),
            Shape { paint: Paint::Border, x: 0, y: 0, width: 10, height: 1 },
            Shape { paint: Paint::Border, x: 0, y: 7, width: 10, height: 1 },
            Shape { paint: Paint::Border, x: 0, y: 0, width: 1, height: 8 },
            Shape { paint: Paint::Border, x: 9, y: 0, width: 1, height: 8 },
        ]
    );
    let g = ended_game(10, 8);
    let shapes = g.draw();
    assert_eq!(shapes.len(), 9);
    assert_eq!(shapes[8], Shape { paint: Paint::GameOver, x: 0, y: 0, width: 10, height: 8 });
}

#[test]
fn food_cells_vary_between_draws() {
    let mut g = Game::new(12, 12, Config::from_fields(Some(false), None, None), 0);
    let mut seen: Vec<(i32, i32)> = Vec::new();
    for _ in 0..200 {
        g.add_food();
        let f = g.food().unwrap();
        if !seen.contains(&(f.x, f.y)) {
            seen.push((f.x, f.y));
        }
    }
    assert!(seen.len() > 10);
}
