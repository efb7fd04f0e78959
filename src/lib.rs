//! A rules engine for standard chess: board position, move generation with
//! self-check filtering, move application and game status.
//!
//! Modules, leaf first: `piece` (colours, kinds, statuses), `board` (the
//! 8x8 board and its model), `rules` (pseudo-legal movement of each kind),
//! `legality` (king location, attack tests, the self-check filter and move
//! lists), `game` (turns, moves and status), `render` (the board as text)
//! and `laws` (properties that hold across calls).
//!
//! Squares are `[row, column]` pairs with both coordinates below 8; a square
//! off the board is a precondition violation, not a refusal.

pub mod board;
pub mod game;
pub mod laws;
pub mod legality;
pub mod piece;
pub mod render;
pub mod rules;

pub use board::Board;
pub use game::Game;
pub use piece::{Colour, GameState, Piece, PieceType};
