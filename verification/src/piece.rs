//! What one cell of the board holds.

use vstd::prelude::*;

verus! {

/// The content of a cell: no piece, a white piece or a black piece.
#[allow(non_camel_case_types)]
#[derive(Clone, Copy, Debug, PartialEq, Eq, Structural)]
pub enum Piece {
    EMPTY,
    WHITE,
    BLACK,
}

impl Piece {
    /// Whether a piece stands on the cell.
    pub open spec fn occupied(self) -> bool {
        self != Piece::EMPTY
    }
}

impl Default for Piece {
    /// A cell starts out without a piece.
    fn default() -> (piece: Piece)
        ensures
            piece == Piece::EMPTY,
    {
        Piece::EMPTY
    }
}

} // verus!
