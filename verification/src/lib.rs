//! Tic-tac-toe for two named players on a 3x3 board.
//!
//! The crate holds the rules of the game: the board and its winning lines,
//! the two players and whose turn follows whose, the validation of a typed
//! move, and the turn-by-turn state machine of one game. Every function is
//! verified against a contract stated over the views of these types.

pub mod board;
pub mod game;
pub mod input;
pub mod player;
pub mod symbol;
pub mod text;

pub use board::Board;
pub use game::{Game, GameOutcome, GameState};
pub use input::{validate, ParseError, ValidationError};
pub use player::{ArgumentError, Player, Players};
pub use symbol::Symbol;
