//! The four ways a piece can jump: along its column or along its row.

use vstd::prelude::*;

use crate::board::{on_board, SIDE};

verus! {

/// One of the four directions of a jump.
#[derive(Clone, Copy, Debug, PartialEq, Eq, Structural)]
pub enum Direction {
    /// Along the column, toward row 0.
    Up,
    /// Along the column, toward row 5.
    Down,
    /// Along the row, toward column 0.
    Left,
    /// Along the row, toward column 5.
    Right,
}

impl Direction {
    /// The position `dist` cells from `(row, col)` in this direction. It may
    /// lie off the board.
    pub open spec fn shift(self, row: int, col: int, dist: int) -> (int, int) {
        match self {
            Direction::Up => (row - dist, col),
            Direction::Down => (row + dist, col),
            Direction::Left => (row, col - dist),
            Direction::Right => (row, col + dist),
        }
    }

    /// What `reach` answers.
    pub open spec fn spec_reach(self, row: usize, col: usize, dist: usize) -> Option<
        (usize, usize),
    > {
        let (r, c) = self.shift(row as int, col as int, dist as int);
        if on_board(r, c) {
            Some((r as usize, c as usize))
        } else {
            None
        }
    }

    /// The cell `dist` cells from `(row, col)` in this direction, or `None`
    /// where the board ends before it.
    pub fn reach(self, row: usize, col: usize, dist: usize) -> (cell: Option<(usize, usize)>)
        ensures
            cell == self.spec_reach(row, col, dist),
    {
        match self {
            Direction::Up => if col < SIDE && dist <= row && row - dist < SIDE {
                Some((row - dist, col))
            } else {
                None
            },
            Direction::Down => if col < SIDE && row < SIDE && dist < SIDE - row {
                Some((row + dist, col))
            } else {
                None
            },
            Direction::Left => if row < SIDE && dist <= col && col - dist < SIDE {
                Some((row, col - dist))
            } else {
                None
            },
            Direction::Right => if row < SIDE && col < SIDE && dist < SIDE - col {
                Some((row, col + dist))
            } else {
                None
            },
        }
    }
}

} // verus!
