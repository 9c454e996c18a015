//! A linear board game: tokens move along a track of cells, and the cell a
//! token lands on may carry a rule that sends it further, sends it back, or
//! asks the players for a decision.

pub mod board;
pub mod game;
pub mod player;
pub mod resolver;
pub mod rules;

pub use board::{GameBoard, GameCell};
pub use game::{create_game, take_turn};
pub use player::Player;
pub use resolver::{game_move, play};
