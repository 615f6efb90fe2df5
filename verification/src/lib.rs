//! Core logic of a grid-based snake game: grid geometry, an input buffer
//! that rejects illegal reversals, the snake state machine (advance, growth,
//! collision detection), random treat placement over the free cells, and the
//! per-tick game-state transition. Windowing, event polling and rendering
//! live outside this crate.

pub mod direction;
pub mod game;
pub mod grid;
pub mod input;
pub mod snake;
pub mod treat;
