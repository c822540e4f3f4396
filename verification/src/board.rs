//! The playing board: 36 cells in six rows of six, read and written by row
//! and column.

use vstd::prelude::*;

use crate::piece::Piece;

verus! {

/// The number of rows, and of columns, of the board.
pub const SIDE: usize = 6;

/// The number of cells of the board.
pub const CELLS: usize = 36;

/// Whether `(row, col)` names a cell of the board.
pub open spec fn on_board(row: int, col: int) -> bool {
    0 <= row < SIDE && 0 <= col < SIDE
}

/// The place of the cell `(row, col)` in the row-major sequence of cells.
pub open spec fn cell_index(row: int, col: int) -> int {
    row * SIDE + col
}

/// The cells of a board that holds no piece.
pub open spec fn empty_cells() -> Seq<Piece> {
    Seq::new(CELLS as nat, |i: int| Piece::EMPTY)
}

/// The cells of a board at the start of a game: black and white pieces in
/// turn, a black one first.
pub open spec fn starting_cells() -> Seq<Piece> {
    Seq::new(
        CELLS as nat,
        |i: int|
            if i % 2 == 0 {
                Piece::BLACK
            } else {
                Piece::WHITE
            },
    )
}

/// A square board of six cells per side. Each cell holds a white piece, a
/// black piece or none.
pub struct Board {
    points: [Piece; CELLS],
}

impl View for Board {
    type V = Seq<Piece>;

    /// The 36 cells, row after row.
    closed spec fn view(&self) -> Seq<Piece> {
        self.points@
    }
}

impl Board {
    /// What the cell `(row, col)` holds.
    pub open spec fn cell(&self, row: int, col: int) -> Piece {
        self@[cell_index(row, col)]
    }

    /// What `get_piece` answers.
    pub open spec fn spec_get_piece(&self, row: usize, col: usize) -> Option<Piece> {
        if on_board(row as int, col as int) {
            Some(self.cell(row as int, col as int))
        } else {
            None
        }
    }

    /// The cells after `piece_type` was set at `(row, col)`: that one cell
    /// holds `piece_type`, and a position off the board changes nothing.
    pub open spec fn cells_with(&self, row: usize, col: usize, piece_type: Piece) -> Seq<Piece> {
        if on_board(row as int, col as int) {
            self@.update(cell_index(row as int, col as int), piece_type)
        } else {
            self@
        }
    }

    /// A board has 36 cells, whatever was done to it.
    pub proof fn lemma_cell_count(&self)
        ensures
            self@.len() == CELLS,
    {
    }

    /// Create an empty board.
    pub fn create_empty() -> (board: Board)
        ensures
            board@ == empty_cells(),
            forall|row: usize, col: usize|
                on_board(row as int, col as int) ==> #[trigger] board.get_piece(row, col) == Some(
                    Piece::EMPTY,
                ),
    {
        let board = Board { points: [Piece::EMPTY; CELLS] };
        assert(board@ =~= empty_cells()) by {
            // what an array filled with one value holds is known of this name
            assert(board.points == vstd::array::spec_array_fill_for_copy_type::<Piece, CELLS>(
                Piece::EMPTY,
            ));
        }
        board
    }

    /// Get the piece at a given position, or `None` for a position off the
    /// board.
    #[verifier::when_used_as_spec(spec_get_piece)]
    pub fn get_piece(&self, row: usize, col: usize) -> (piece: Option<Piece>)
        ensures
            piece == self.spec_get_piece(row, col),
            row > 5 || col > 5 ==> piece is None,
            row <= 5 && col <= 5 ==> piece == Some(self.cell(row as int, col as int)),
    {
        if row > 5 || col > 5 {
            return None;
        }
        Some(self.points[row * SIDE + col])
    }

    /// Set the piece at a given position and hand back what the cell held
    /// before. A position off the board leaves the board as it is and
    /// answers `None`.
    pub fn set_piece(&mut self, row: usize, col: usize, piece_type: Piece) -> (prior: Option<Piece>)
        ensures
            prior == old(self).get_piece(row, col),
            final(self)@ == old(self).cells_with(row, col, piece_type),
    {
        match self.get_piece(row, col) {
            Some(piece) => {
                self.points[row * SIDE + col] = piece_type;
                Some(piece)
            },
            None => None,
        }
    }
}

/// Reading a cell that was just set gives the piece that was set, and every
/// other position reads as it did before. Setting a piece off the board
/// changes nothing that can be read.
pub proof fn lemma_set_then_get(
    before: Board,
    after: Board,
    row: usize,
    col: usize,
    piece_type: Piece,
    other_row: usize,
    other_col: usize,
)
    requires
        after@ == before.cells_with(row, col, piece_type),
    ensures
        on_board(row as int, col as int) ==> after.get_piece(row, col) == Some(piece_type),
        (other_row, other_col) != (row, col) ==> after.get_piece(other_row, other_col)
            == before.get_piece(other_row, other_col),
        !on_board(row as int, col as int) ==> after.get_piece(row, col) is None && after@
            == before@,
{
}

impl Default for Board {
    /// The board at the start of a game.
    fn default() -> (board: Board)
        ensures
            board@ == starting_cells(),
            forall|row: usize, col: usize|
                on_board(row as int, col as int) ==> #[trigger] board.get_piece(row, col) == Some(
                    if col % 2 == 0 {
                        Piece::BLACK
                    } else {
                        Piece::WHITE
                    },
                ),
    {
        let mut board = Board::create_empty();
        let mut i: usize = 0;
        while i < CELLS
            invariant
                i <= CELLS,
                i % 2 == 0,
                forall|k: int| 0 <= k < i ==> board@[k] == starting_cells()[k],
            decreases CELLS - i,
        {
            board.points[i] = Piece::BLACK;
            board.points[i + 1] = Piece::WHITE;
            i += 2;
        }
        board
    }
}

} // verus!
