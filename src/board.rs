//! The 3x3 board as a mathematical object: cells, winning lines, fullness and
//! the outcome a board position decides.
use vstd::prelude::*;

verus! {

/// The two marks a cell can hold; the first player places `X`, the second `O`.
#[derive(Clone, Copy, Debug, PartialEq, Eq, Structural)]
pub enum Sign {
    X,
    O,
}

/// Number of cells on the board.
pub const CELLS: usize = 9;

/// Number of rows, and of columns.
pub const SIDE: u8 = 3;

impl Sign {
    /// The mark of the player with the given zero-based index.
    pub open spec fn of_index_spec(index: int) -> Sign {
        if index == 0 {
            Sign::X
        } else {
            Sign::O
        }
    }

    /// Maps a zero-based player index to that player's mark.
    pub fn from_index(index: usize) -> (r: Option<Sign>)
        ensures
            index < 2 ==> r == Some(Sign::of_index_spec(index as int)),
            index >= 2 ==> r is None,
    {
        if index == 0 {
            Some(Sign::X)
        } else if index == 1 {
            Some(Sign::O)
        } else {
            None
        }
    }
}

/// Position in the flat, row-major board of the cell at `(row, column)`.
pub open spec fn cell_index(row: int, column: int) -> int {
    3 * row + column
}

/// The cell at `(row, column)` of a row-major board.
pub open spec fn cell_at(board: Seq<Option<Sign>>, row: int, column: int) -> Option<Sign> {
    board[cell_index(row, column)]
}

/// The three cells at positions `a`, `b`, `c` are occupied by the same mark.
pub open spec fn trio_complete(board: Seq<Option<Sign>>, a: int, b: int, c: int) -> bool {
    &&& board[a] is Some
    &&& board[a] == board[b]
    &&& board[a] == board[c]
}

/// Row `r` is completed by one mark.
pub open spec fn row_complete(board: Seq<Option<Sign>>, r: int) -> bool {
    trio_complete(board, cell_index(r, 0), cell_index(r, 1), cell_index(r, 2))
}

/// Column `c` is completed by one mark.
pub open spec fn column_complete(board: Seq<Option<Sign>>, c: int) -> bool {
    trio_complete(board, cell_index(0, c), cell_index(1, c), cell_index(2, c))
}

/// One of the two diagonals is completed by one mark.
pub open spec fn diagonal_complete(board: Seq<Option<Sign>>) -> bool {
    ||| trio_complete(board, cell_index(0, 0), cell_index(1, 1), cell_index(2, 2))
    ||| trio_complete(board, cell_index(0, 2), cell_index(1, 1), cell_index(2, 0))
}

/// Some row, column or diagonal is completed by one mark.
pub open spec fn has_winning_line(board: Seq<Option<Sign>>) -> bool {
    ||| exists|r: int| 0 <= r < 3 && #[trigger] row_complete(board, r)
    ||| exists|c: int| 0 <= c < 3 && #[trigger] column_complete(board, c)
    ||| diagonal_complete(board)
}

/// Every cell holds a mark.
pub open spec fn is_full(board: Seq<Option<Sign>>) -> bool {
    forall|i: int| 0 <= i < 9 ==> (#[trigger] board[i]) is Some
}

/// 1 for an occupied cell, 0 for an empty one.
pub open spec fn occupied(cell: Option<Sign>) -> int {
    if cell is Some {
        1
    } else {
        0
    }
}

/// Number of occupied cells of a nine-cell board.
pub open spec fn mark_count(board: Seq<Option<Sign>>) -> int {
    occupied(board[0]) + occupied(board[1]) + occupied(board[2]) + occupied(board[3])
        + occupied(board[4]) + occupied(board[5]) + occupied(board[6]) + occupied(board[7])
        + occupied(board[8])
}

/// A nine-cell board is full exactly when all nine cells are counted.
pub proof fn lemma_full_iff_count(board: Seq<Option<Sign>>)
    requires
        board.len() == 9,
    ensures
        is_full(board) <==> mark_count(board) == 9,
        0 <= mark_count(board) <= 9,
{
    if mark_count(board) == 9 {
        assert forall|i: int| 0 <= i < 9 implies (#[trigger] board[i]) is Some by {
            assert(occupied(board[i]) == 1);
        }
    }
    if is_full(board) {
        assert(board[0] is Some && board[1] is Some && board[2] is Some);
        assert(board[3] is Some && board[4] is Some && board[5] is Some);
        assert(board[6] is Some && board[7] is Some && board[8] is Some);
    }
}

/// Filling one empty cell adds one to the count of occupied cells.
pub proof fn lemma_count_after_fill(board: Seq<Option<Sign>>, i: int, s: Sign)
    requires
        board.len() == 9,
        0 <= i < 9,
        board[i] is None,
    ensures
        mark_count(board.update(i, Some(s))) == mark_count(board) + 1,
{
    let b2 = board.update(i, Some(s));
    assert(forall|j: int| 0 <= j < 9 && j != i ==> b2[j] == board[j]);
}

} // verus!
