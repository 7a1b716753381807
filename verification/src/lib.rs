//! A move-selection engine for 3x3 tic-tac-toe.
//!
//! The heart of the crate is [`bot::choose_move`]: given a board and the
//! player to move, it applies Newell and Simon's prioritized rules (win,
//! block, fork, block fork, center, opposite corner, empty corner, empty
//! side) and returns the first match. Every rule carries a contract that
//! pins its result down exactly, and the cascade is proved total: on any
//! board with an empty cell it produces an empty cell.

pub mod board;
pub mod bot;
pub mod game;

pub use board::Board;
pub use board::BOARD_SIZE;
pub use board::PlayerKind;
pub use board::has_won;
pub use board::is_full;
pub use game::Game;
pub use game::GameStatus;
pub use game::Player;
