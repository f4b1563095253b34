pub mod actions;
pub mod board;
pub mod input;
pub mod kicks;
pub mod laws;
pub mod pieces;
pub mod rng;
pub mod scoring;
pub mod state;
pub mod timing;
pub mod types;

pub use board::{Board, Cell};
pub use input::GameAction;
pub use pieces::{Rotation, Tetromino, TetrominoType};
pub use state::{GameConfig, GameState};
