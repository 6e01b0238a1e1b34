//! A two-player tic-tac-toe engine: player registration, turn order, moves,
//! and win / tie detection on a fixed 3x3 grid.
pub mod board;
pub mod engine;
pub mod laws;
pub mod player;
pub mod shape;
pub mod state;

pub use engine::TTTEngine;
pub use player::Player;
pub use shape::{TTTError, TTTShape};
