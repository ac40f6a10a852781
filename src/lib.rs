//! Rules engine for a two-player game of noughts and crosses: the board,
//! the game status machine and the controller that validates moves.
pub mod board;
pub mod errors;
pub mod game_status;
pub mod game;
pub mod events;
