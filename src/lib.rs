//! A grid-based snake game: the snake and game state machines, food
//! placement, collision rules and the drawing list of a frame.

pub mod draw;
pub mod game;
pub mod snake;
