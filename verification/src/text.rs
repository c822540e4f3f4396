//! The board as text: one line per row, and in it one character per cell,
//! each followed by a space.

use vstd::prelude::*;

use crate::board::{on_board, Board, SIDE};
use crate::piece::Piece;

verus! {

/// The character that stands for a cell's content: `B` for a black piece,
/// `W` for a white one, a space for none.
pub open spec fn glyph(piece: Piece) -> char {
    match piece {
        Piece::BLACK => 'B',
        Piece::WHITE => 'W',
        Piece::EMPTY => ' ',
    }
}

impl Board {
    /// The text of the first `cells` cells of a row: for each cell its
    /// character, then a space.
    pub open spec fn cells_text(&self, row: int, cells: nat) -> Seq<char> {
        Seq::new(
            2 * cells,
            |i: int|
                if i % 2 == 0 {
                    glyph(self.cell(row, i / 2))
                } else {
                    ' '
                },
        )
    }

    /// The line of a row: the text of its six cells and a line break.
    pub open spec fn row_text(&self, row: int) -> Seq<char> {
        self.cells_text(row, SIDE as nat).push('\n')
    }

    /// The lines of the first `rows` rows, one after the other.
    pub open spec fn rows_text(&self, rows: nat) -> Seq<char>
        decreases rows,
    {
        if rows == 0 {
            Seq::empty()
        } else {
            self.rows_text((rows - 1) as nat) + self.row_text(rows - 1)
        }
    }

    /// The text of the whole board: the lines of its six rows.
    pub open spec fn text(&self) -> Seq<char> {
        self.rows_text(SIDE as nat)
    }

    /// The board as text, for a person to read.
    pub fn render(&self) -> (text: String)
        ensures
            text@ == self.text(),
    {
        let mut text = String::new();
        let mut row: usize = 0;
        while row < SIDE
            invariant
                row <= SIDE,
                text@ == self.rows_text(row as nat),
            decreases SIDE - row,
        {
            let ghost above = text@;
            let mut col: usize = 0;
            while col < SIDE
                invariant
                    row < SIDE,
                    col <= SIDE,
                    text@ == above + self.cells_text(row as int, col as nat),
                decreases SIDE - col,
            {
                let shown = match self.get_piece(row, col) {
                    Some(Piece::BLACK) => "B ",
                    Some(Piece::WHITE) => "W ",
                    _ => "  ",
                };
                proof {
                    reveal_strlit("B ");
                    reveal_strlit("W ");
                    reveal_strlit("  ");
                    assert(self.cells_text(row as int, (col + 1) as nat) =~= self.cells_text(
                        row as int,
                        col as nat,
                    ) + shown@);
                }
                text.append(shown);
                col += 1;
            }
            proof {
                reveal_strlit("\n");
                assert(self.row_text(row as int) =~= self.cells_text(row as int, SIDE as nat)
                    + "\n"@);
            }
            text.append("\n");
            row += 1;
        }
        text
    }

    /// Where the text shows a cell: each line takes thirteen characters, and
    /// in it each cell takes two.
    pub proof fn lemma_text_shows_every_cell(&self, row: int, col: int)
        requires
            on_board(row, col),
        ensures
            self.text().len() == 13 * SIDE,
            self.text()[13 * row + 2 * col] == glyph(self.cell(row, col)),
            self.text()[13 * row + 2 * col + 1] == ' ',
            self.text()[13 * row + 12] == '\n',
    {
        reveal_with_fuel(Board::rows_text, 7);
    }
}

} // verus!
