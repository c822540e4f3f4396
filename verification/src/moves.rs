//! Move generation: the cells that a piece can reach from its cell by
//! capturing jumps along a row or a column.
//!
//! A jump passes over one cell and lands on the next. Jumps chain in a
//! straight line: the second jump of a chain passes over the third cell from
//! the start and lands on the fourth. Every cell that a chain passes over must
//! hold a piece; whose piece it is does not matter here, nor does the content
//! of the cell the chain starts from. A chain may end on any landing cell that
//! is empty, also where a nearer landing cell is taken.

use vstd::prelude::*;

use crate::board::{on_board, Board};
use crate::direction::Direction;
use crate::piece::Piece;

verus! {

/// No chain of jumps is longer than this: a third jump in one direction would
/// land six cells from where the chain started.
pub const MAX_JUMPS: usize = 2;

/// The position where the `jump`-th jump of a chain from `(row, col)` lands.
pub open spec fn landing(toward: Direction, row: int, col: int, jump: int) -> (int, int) {
    toward.shift(row, col, 2 * jump)
}

/// The position that the `jump`-th jump of a chain from `(row, col)` passes
/// over.
pub open spec fn intervening(toward: Direction, row: int, col: int, jump: int) -> (int, int) {
    toward.shift(row, col, 2 * jump - 1)
}

/// The landing position of a jump as a pair of indices.
pub open spec fn landing_cell(toward: Direction, row: int, col: int, jump: int) -> (usize, usize) {
    let (r, c) = landing(toward, row, col, jump);
    (r as usize, c as usize)
}

impl Board {
    /// Whether the `jump`-th jump of a chain from `(row, col)` passes over a
    /// piece: over a cell of the board that is not empty.
    pub open spec fn captures(&self, toward: Direction, row: int, col: int, jump: int) -> bool {
        let (r, c) = intervening(toward, row, col, jump);
        on_board(r, c) && self.cell(r, c).occupied()
    }

    /// Whether a chain of `jumps` jumps from `(row, col)` can end its last
    /// jump: it lands on an empty cell of the board, and each of its jumps
    /// passes over a piece.
    pub open spec fn lands(&self, toward: Direction, row: int, col: int, jumps: int) -> bool {
        let (r, c) = landing(toward, row, col, jumps);
        &&& 1 <= jumps
        &&& on_board(r, c)
        &&& self.cell(r, c) == Piece::EMPTY
        &&& forall|jump: int| 1 <= jump <= jumps ==> #[trigger] self.captures(toward, row, col, jump)
    }

    /// The cells where a chain of at most `jumps` jumps from `(row, col)` can
    /// end, the nearest first.
    pub open spec fn line_moves(&self, toward: Direction, row: int, col: int, jumps: nat) -> Seq<
        (usize, usize),
    >
        decreases jumps,
    {
        if jumps == 0 {
            Seq::empty()
        } else {
            let nearer = self.line_moves(toward, row, col, (jumps - 1) as nat);
            if self.lands(toward, row, col, jumps as int) {
                nearer.push(landing_cell(toward, row, col, jumps as int))
            } else {
                nearer
            }
        }
    }

    /// The cells that can be reached from `(row, col)`: those above it, those
    /// below it, those to its left and those to its right, in this order.
    pub open spec fn moves_from(&self, row: int, col: int) -> Seq<(usize, usize)> {
        self.line_moves(Direction::Up, row, col, MAX_JUMPS as nat) + self.line_moves(
            Direction::Down,
            row,
            col,
            MAX_JUMPS as nat,
        ) + self.line_moves(Direction::Left, row, col, MAX_JUMPS as nat) + self.line_moves(
            Direction::Right,
            row,
            col,
            MAX_JUMPS as nat,
        )
    }

    /// Jumps that cannot end add nothing to the moves of a line.
    pub(crate) proof fn lemma_line_moves_settle(
        &self,
        toward: Direction,
        row: int,
        col: int,
        reached: nat,
        jumps: nat,
    )
        requires
            reached <= jumps,
            forall|j: int| reached < j <= jumps ==> !self.lands(toward, row, col, j),
        ensures
            self.line_moves(toward, row, col, jumps) == self.line_moves(toward, row, col, reached),
        decreases jumps,
    {
        if reached < jumps {
            self.lemma_line_moves_settle(toward, row, col, reached, (jumps - 1) as nat);
        }
    }

    /// Appends to `moves` the cells that can be reached from `(row, col)` in
    /// one direction, the nearest first.
    fn scan(&self, toward: Direction, row: usize, col: usize, moves: &mut Vec<(usize, usize)>)
        requires
            on_board(row as int, col as int),
        ensures
            final(moves)@ == old(moves)@ + self.line_moves(
                toward,
                row as int,
                col as int,
                MAX_JUMPS as nat,
            ),
    {
        let mut made: usize = 0;
        loop
            invariant
                made <= MAX_JUMPS,
                on_board(row as int, col as int),
                moves@ == old(moves)@ + self.line_moves(toward, row as int, col as int, made as nat),
                forall|jump: int|
                    1 <= jump <= made ==> #[trigger] self.captures(
                        toward,
                        row as int,
                        col as int,
                        jump,
                    ),
            ensures
                moves@ == old(moves)@ + self.line_moves(
                    toward,
                    row as int,
                    col as int,
                    MAX_JUMPS as nat,
                ),
            decreases MAX_JUMPS - made,
        {
            let jump = made + 1;
            let over = toward.reach(row, col, 2 * jump - 1);
            let onto = toward.reach(row, col, 2 * jump);
            if over.is_none() || onto.is_none() {
                proof {
                    self.lemma_line_moves_settle(
                        toward,
                        row as int,
                        col as int,
                        made as nat,
                        MAX_JUMPS as nat,
                    );
                }
                break;
            }
            let (over_row, over_col) = over.unwrap();
            let (onto_row, onto_col) = onto.unwrap();
            if let Some(enemy) = self.get_piece(over_row, over_col) {
                match enemy {
                    Piece::EMPTY => {
                        proof {
                            assert(!self.captures(toward, row as int, col as int, jump as int));
                            self.lemma_line_moves_settle(
                                toward,
                                row as int,
                                col as int,
                                made as nat,
                                MAX_JUMPS as nat,
                            );
                        }
                        break;
                    },
                    _ => {
                        if let Some(Piece::EMPTY) = self.get_piece(onto_row, onto_col) {
                            moves.push((onto_row, onto_col));
                        }
                    },
                }
            }
            made = jump;
        }
    }

    /// Return a list of the possible moves that can be made from a given
    /// position on the board, or `None` for a position off the board.
    ///
    /// Each piece next to the position in the line of a jump is taken for an
    /// enemy piece: its colour is not looked at, nor is it asked whether a
    /// piece stands on the position itself.
    pub fn possible_moves(&self, row: usize, col: usize) -> (moves: Option<Vec<(usize, usize)>>)
        ensures
            moves is Some <==> on_board(row as int, col as int),
            moves matches Some(found) ==> found@ == self.moves_from(row as int, col as int),
    {
        if let None = self.get_piece(row, col) {
            return None;
        }
        let mut moves = Vec::new();
        self.scan(Direction::Up, row, col, &mut moves);
        self.scan(Direction::Down, row, col, &mut moves);
        self.scan(Direction::Left, row, col, &mut moves);
        self.scan(Direction::Right, row, col, &mut moves);
        Some(moves)
    }
}

} // verus!
