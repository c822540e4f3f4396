//! A fragment of a rules engine for Konane (Hawaiian checkers): a board of
//! six by six cells, each with a white piece, a black piece or none, and the
//! capturing jumps that are open from one of its cells.

pub mod board;
pub mod direction;
pub mod moves;
pub mod piece;
pub mod reachability;
pub mod text;

pub use board::Board;
pub use direction::Direction;
pub use piece::Piece;
