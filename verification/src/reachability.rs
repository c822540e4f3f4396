//! What holds of the possible moves, whatever the board and the position.

use vstd::prelude::*;

use crate::board::{on_board, Board};
use crate::direction::Direction;
use crate::moves::{landing_cell, MAX_JUMPS};
use crate::piece::Piece;

verus! {

/// What is in the one or the other of two sequences is in both of them put
/// together, and nothing else is.
proof fn lemma_concat_contains<A>(a: Seq<A>, b: Seq<A>, x: A)
    ensures
        (a + b).contains(x) <==> a.contains(x) || b.contains(x),
{
    let both = a + b;
    if a.contains(x) {
        let i = choose|i: int| 0 <= i < a.len() && a[i] == x;
        assert(both[i] == x);
    }
    if b.contains(x) {
        let i = choose|i: int| 0 <= i < b.len() && b[i] == x;
        assert(both[a.len() + i] == x);
    }
    if both.contains(x) {
        let i = choose|i: int| 0 <= i < both.len() && both[i] == x;
        if i < a.len() {
            assert(a[i] == x);
        } else {
            assert(b[i - a.len()] == x);
        }
    }
}

impl Board {
    /// Whether some chain of jumps from `(row, col)` can end on `cell`.
    pub open spec fn reaches(&self, row: int, col: int, cell: (usize, usize)) -> bool {
        exists|toward: Direction, jumps: int|
            #[trigger] self.lands(toward, row, col, jumps) && landing_cell(toward, row, col, jumps)
                == cell
    }

    /// A chain that starts on the board and ends on it has at most
    /// `MAX_JUMPS` jumps.
    pub proof fn lemma_chains_are_short(&self, toward: Direction, row: int, col: int, jumps: int)
        requires
            on_board(row, col),
            self.lands(toward, row, col, jumps),
        ensures
            1 <= jumps <= MAX_JUMPS,
    {
    }

    /// A line's moves are the landing cells of the chains that can end, of
    /// up to `jumps` jumps.
    pub proof fn lemma_line_moves_contains(
        &self,
        toward: Direction,
        row: int,
        col: int,
        jumps: nat,
        cell: (usize, usize),
    )
        ensures
            self.line_moves(toward, row, col, jumps).contains(cell) <==> exists|j: int|
                1 <= j <= jumps && #[trigger] self.lands(toward, row, col, j) && landing_cell(
                    toward,
                    row,
                    col,
                    j,
                ) == cell,
        decreases jumps,
    {
        if jumps > 0 {
            let nearer = self.line_moves(toward, row, col, (jumps - 1) as nat);
            self.lemma_line_moves_contains(toward, row, col, (jumps - 1) as nat, cell);
            if self.lands(toward, row, col, jumps as int) {
                let last = landing_cell(toward, row, col, jumps as int);
                let all = nearer.push(last);
                assert(all.contains(cell) <==> nearer.contains(cell) || last == cell) by {
                    if nearer.contains(cell) {
                        let i = choose|i: int| 0 <= i < nearer.len() && nearer[i] == cell;
                        assert(all[i] == cell);
                    }
                    if last == cell {
                        assert(all[nearer.len() as int] == cell);
                    }
                }
            }
        }
    }

    /// The possible moves from a position on the board are exactly the
    /// cells that a chain of jumps from it can end on.
    pub proof fn lemma_moves_are_the_reachable_cells(&self, row: int, col: int, cell: (usize, usize))
        requires
            on_board(row, col),
        ensures
            self.moves_from(row, col).contains(cell) <==> self.reaches(row, col, cell),
    {
        let up = self.line_moves(Direction::Up, row, col, MAX_JUMPS as nat);
        let down = self.line_moves(Direction::Down, row, col, MAX_JUMPS as nat);
        let left = self.line_moves(Direction::Left, row, col, MAX_JUMPS as nat);
        let right = self.line_moves(Direction::Right, row, col, MAX_JUMPS as nat);
        self.lemma_line_moves_contains(Direction::Up, row, col, MAX_JUMPS as nat, cell);
        self.lemma_line_moves_contains(Direction::Down, row, col, MAX_JUMPS as nat, cell);
        self.lemma_line_moves_contains(Direction::Left, row, col, MAX_JUMPS as nat, cell);
        self.lemma_line_moves_contains(Direction::Right, row, col, MAX_JUMPS as nat, cell);
        lemma_concat_contains(up, down, cell);
        lemma_concat_contains(up + down, left, cell);
        lemma_concat_contains(up + down + left, right, cell);
        if self.reaches(row, col, cell) {
            let (toward, jumps) = choose|toward: Direction, jumps: int|
                #[trigger] self.lands(toward, row, col, jumps) && landing_cell(
                    toward,
                    row,
                    col,
                    jumps,
                ) == cell;
            self.lemma_chains_are_short(toward, row, col, jumps);
        }
    }

    /// Every possible move from a position on the board is an empty cell of
    /// the board.
    pub proof fn lemma_moves_are_empty_cells(&self, row: int, col: int, cell: (usize, usize))
        requires
            on_board(row, col),
            self.moves_from(row, col).contains(cell),
        ensures
            self.get_piece(cell.0, cell.1) == Some(Piece::EMPTY),
    {
        self.lemma_moves_are_the_reachable_cells(row, col, cell);
    }

    /// No cell is listed twice among the possible moves.
    pub proof fn lemma_moves_are_distinct(&self, row: int, col: int)
        ensures
            self.moves_from(row, col).no_duplicates(),
    {
        let up = self.line_moves(Direction::Up, row, col, MAX_JUMPS as nat);
        let down = self.line_moves(Direction::Down, row, col, MAX_JUMPS as nat);
        let left = self.line_moves(Direction::Left, row, col, MAX_JUMPS as nat);
        let right = self.line_moves(Direction::Right, row, col, MAX_JUMPS as nat);
        self.lemma_line_moves_are_distinct(Direction::Up, row, col, MAX_JUMPS as nat);
        self.lemma_line_moves_are_distinct(Direction::Down, row, col, MAX_JUMPS as nat);
        self.lemma_line_moves_are_distinct(Direction::Left, row, col, MAX_JUMPS as nat);
        self.lemma_line_moves_are_distinct(Direction::Right, row, col, MAX_JUMPS as nat);
        self.lemma_lines_share_no_cell(Direction::Up, Direction::Down, row, col);
        self.lemma_lines_share_no_cell(Direction::Up, Direction::Left, row, col);
        self.lemma_lines_share_no_cell(Direction::Down, Direction::Left, row, col);
        self.lemma_lines_share_no_cell(Direction::Up, Direction::Right, row, col);
        self.lemma_lines_share_no_cell(Direction::Down, Direction::Right, row, col);
        self.lemma_lines_share_no_cell(Direction::Left, Direction::Right, row, col);
        vstd::seq_lib::lemma_no_dup_in_concat(up, down);
        vstd::seq_lib::lemma_no_dup_in_concat(up + down, left);
        vstd::seq_lib::lemma_no_dup_in_concat(up + down + left, right);
    }

    /// There are at most `MAX_JUMPS` possible moves in each of the four
    /// directions.
    pub proof fn lemma_moves_are_few(&self, row: int, col: int)
        ensures
            self.moves_from(row, col).len() <= 4 * MAX_JUMPS,
    {
        self.lemma_line_moves_are_few(Direction::Up, row, col, MAX_JUMPS as nat);
        self.lemma_line_moves_are_few(Direction::Down, row, col, MAX_JUMPS as nat);
        self.lemma_line_moves_are_few(Direction::Left, row, col, MAX_JUMPS as nat);
        self.lemma_line_moves_are_few(Direction::Right, row, col, MAX_JUMPS as nat);
    }

    /// A line has at most one move for each jump.
    proof fn lemma_line_moves_are_few(&self, toward: Direction, row: int, col: int, jumps: nat)
        ensures
            self.line_moves(toward, row, col, jumps).len() <= jumps,
        decreases jumps,
    {
        if jumps > 0 {
            self.lemma_line_moves_are_few(toward, row, col, (jumps - 1) as nat);
        }
    }

    /// No cell is listed twice among the moves of a line: chains of
    /// different lengths end on different cells.
    proof fn lemma_line_moves_are_distinct(&self, toward: Direction, row: int, col: int, jumps: nat)
        ensures
            self.line_moves(toward, row, col, jumps).no_duplicates(),
        decreases jumps,
    {
        if jumps > 0 {
            self.lemma_line_moves_are_distinct(toward, row, col, (jumps - 1) as nat);
            if self.lands(toward, row, col, jumps as int) {
                let last = landing_cell(toward, row, col, jumps as int);
                self.lemma_line_moves_contains(toward, row, col, (jumps - 1) as nat, last);
            }
        }
    }

    /// Chains in different directions end on different cells.
    proof fn lemma_lines_share_no_cell(&self, first: Direction, second: Direction, row: int, col: int)
        requires
            first != second,
        ensures
            forall|i: int, k: int|
                #![trigger
                    self.line_moves(first, row, col, MAX_JUMPS as nat)[i],
                    self.line_moves(second, row, col, MAX_JUMPS as nat)[k],
                ]
                0 <= i < self.line_moves(first, row, col, MAX_JUMPS as nat).len() && 0 <= k
                    < self.line_moves(second, row, col, MAX_JUMPS as nat).len()
                    ==> self.line_moves(first, row, col, MAX_JUMPS as nat)[i] != self.line_moves(
                    second,
                    row,
                    col,
                    MAX_JUMPS as nat,
                )[k],
    {
        let a = self.line_moves(first, row, col, MAX_JUMPS as nat);
        let b = self.line_moves(second, row, col, MAX_JUMPS as nat);
        assert forall|i: int, k: int| 0 <= i < a.len() && 0 <= k < b.len() implies a[i] != b[k] by {
            self.lemma_line_moves_contains(first, row, col, MAX_JUMPS as nat, a[i]);
            self.lemma_line_moves_contains(second, row, col, MAX_JUMPS as nat, b[k]);
        }
    }

    /// What can be reached depends on nothing but the cells of the board and
    /// the position: as long as no cell changes, asking again gives the same
    /// moves.
    pub proof fn lemma_moves_depend_on_cells(&self, other: &Board, row: int, col: int)
        requires
            self@ == other@,
        ensures
            self.moves_from(row, col) == other.moves_from(row, col),
    {
        self.lemma_line_moves_depend_on_cells(other, Direction::Up, row, col, MAX_JUMPS as nat);
        self.lemma_line_moves_depend_on_cells(other, Direction::Down, row, col, MAX_JUMPS as nat);
        self.lemma_line_moves_depend_on_cells(other, Direction::Left, row, col, MAX_JUMPS as nat);
        self.lemma_line_moves_depend_on_cells(other, Direction::Right, row, col, MAX_JUMPS as nat);
    }

    /// Two boards with the same cells have the same moves along a line.
    proof fn lemma_line_moves_depend_on_cells(
        &self,
        other: &Board,
        toward: Direction,
        row: int,
        col: int,
        jumps: nat,
    )
        requires
            self@ == other@,
        ensures
            self.line_moves(toward, row, col, jumps) == other.line_moves(toward, row, col, jumps),
        decreases jumps,
    {
        if jumps > 0 {
            self.lemma_line_moves_depend_on_cells(other, toward, row, col, (jumps - 1) as nat);
            assert(self.lands(toward, row, col, jumps as int) == other.lands(
                toward,
                row,
                col,
                jumps as int,
            )) by {
                assert forall|jump: int|
                    self.captures(toward, row, col, jump) == other.captures(
                        toward,
                        row,
                        col,
                        jump,
                    ) by {}
            }
        }
    }

    /// A position with no piece next to it, above, below, left or right, has
    /// no possible move.
    pub proof fn lemma_no_moves_without_neighbours(&self, row: int, col: int)
        requires
            forall|toward: Direction| !(#[trigger] self.captures(toward, row, col, 1)),
        ensures
            self.moves_from(row, col) == Seq::<(usize, usize)>::empty(),
    {
        assert forall|toward: Direction|
            #[trigger] self.line_moves(toward, row, col, MAX_JUMPS as nat) == Seq::<
                (usize, usize),
            >::empty() by {
            assert(!self.captures(toward, row, col, 1));
            self.lemma_line_moves_settle(toward, row, col, 0, MAX_JUMPS as nat);
        }
    }
}

} // verus!
