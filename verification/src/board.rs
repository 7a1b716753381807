//! The board model: players, cells, the 3x3 grid, and the line predicates
//! (`has_won`, `is_full`) that the match logic and the move rules share.

use vstd::prelude::*;

verus! {

/// One of the two players. No other identity is representable.
#[derive(Clone, Copy, Debug, PartialEq, Eq, Hash, Structural)]
pub enum PlayerKind {
    PlayerX,
    PlayerO,
}

impl PlayerKind {
    /// The character conventionally used to draw this player's marks.
    pub fn to_char(&self) -> (c: char)
        ensures
            c == (match *self {
                PlayerKind::PlayerX => 'X',
                PlayerKind::PlayerO => 'O',
            }),
    {
        match self {
            PlayerKind::PlayerX => 'X',
            PlayerKind::PlayerO => 'O',
        }
    }
}

/// The player whose turn it is not. Total: swapping twice gives the argument back.
pub open spec fn opponent(p: PlayerKind) -> PlayerKind {
    match p {
        PlayerKind::PlayerX => PlayerKind::PlayerO,
        PlayerKind::PlayerO => PlayerKind::PlayerX,
    }
}

pub const BOARD_SIZE: usize = 3;

/// A 3x3 grid of cells in row-major order; `None` is an empty cell.
pub type Board = [[Option<PlayerKind>; 3]; 3];

/// The board's mathematical model: the nine cells as one row-major sequence,
/// cell (row, col) at index `3 * row + col`.
pub open spec fn board_view(b: Board) -> Seq<Option<PlayerKind>> {
    Seq::new(9, |i: int| b@[i / 3]@[i % 3])
}

/// Index of cell (row, col) in the row-major model.
pub open spec fn cell_index(row: int, col: int) -> int {
    3 * row + col
}

pub proof fn lemma_cell_index_div_mod(row: int, col: int)
    requires
        0 <= row < 3,
        0 <= col < 3,
    ensures
        0 <= cell_index(row, col) < 9,
        cell_index(row, col) / 3 == row,
        cell_index(row, col) % 3 == col,
{
}

/// Reads one cell; the bridge between the grid and its row-major model.
pub fn get_cell(board: &Board, row: usize, col: usize) -> (c: Option<PlayerKind>)
    requires
        row < 3,
        col < 3,
    ensures
        c == board_view(*board)[cell_index(row as int, col as int)],
{
    proof {
        lemma_cell_index_div_mod(row as int, col as int);
    }
    board[row][col]
}

/// Writes one cell; the model changes at exactly that index.
pub fn set_cell(board: &mut Board, row: usize, col: usize, value: Option<PlayerKind>)
    requires
        row < 3,
        col < 3,
    ensures
        board_view(*final(board)) == board_view(*old(board)).update(
            cell_index(row as int, col as int),
            value,
        ),
{
    let mut line: [Option<PlayerKind>; 3] = board[row];
    line[col] = value;
    board[row] = line;
    proof {
        let target = cell_index(row as int, col as int);
        lemma_cell_index_div_mod(row as int, col as int);
        assert forall|i: int| 0 <= i < 9 implies board_view(*board)[i] == board_view(
            *old(board),
        ).update(target, value)[i] by {
            lemma_cell_index_div_mod(i / 3, i % 3);
        }
        assert(board_view(*board) =~= board_view(*old(board)).update(target, value));
    }
}

/// True when this cell holds this player's mark.
pub(crate) fn cell_is(cell: Option<PlayerKind>, player: PlayerKind) -> (r: bool)
    ensures
        r == (cell == Some(player)),
{
    match cell {
        Some(q) => q == player,
        None => false,
    }
}

/// How many of the three cells at these indices hold this player's mark.
pub open spec fn marks_in_triple(
    p: PlayerKind,
    s: Seq<Option<PlayerKind>>,
    i0: int,
    i1: int,
    i2: int,
) -> int {
    (if s[i0] == Some(p) {
        1int
    } else {
        0int
    }) + (if s[i1] == Some(p) {
        1int
    } else {
        0int
    }) + (if s[i2] == Some(p) {
        1int
    } else {
        0int
    })
}

/// How many of the three cells at these indices are empty.
pub open spec fn empties_in_triple(s: Seq<Option<PlayerKind>>, i0: int, i1: int, i2: int) -> int {
    (if s[i0] is None {
        1int
    } else {
        0int
    }) + (if s[i1] is None {
        1int
    } else {
        0int
    }) + (if s[i2] is None {
        1int
    } else {
        0int
    })
}

/// Board index of slot `j` (0..3) on winning line `k` (0..8). The lines are,
/// in order: the three rows top to bottom, the three columns left to right,
/// the main diagonal, the anti-diagonal.
pub open spec fn line_cell(k: int, j: int) -> int {
    if k < 3 {
        3 * k + j
    } else if k < 6 {
        3 * j + (k - 3)
    } else if k == 6 {
        4 * j
    } else {
        2 * j + 2
    }
}

/// Line `k` is fully occupied by this player.
pub open spec fn line_won(p: PlayerKind, s: Seq<Option<PlayerKind>>, k: int) -> bool {
    marks_in_triple(p, s, line_cell(k, 0), line_cell(k, 1), line_cell(k, 2)) == 3
}

/// The player owns some complete row, column, or diagonal.
pub open spec fn has_won_spec(p: PlayerKind, s: Seq<Option<PlayerKind>>) -> bool {
    ||| line_won(p, s, 0)
    ||| line_won(p, s, 1)
    ||| line_won(p, s, 2)
    ||| line_won(p, s, 3)
    ||| line_won(p, s, 4)
    ||| line_won(p, s, 5)
    ||| line_won(p, s, 6)
    ||| line_won(p, s, 7)
}

/// No cell is empty.
pub open spec fn is_full_spec(s: Seq<Option<PlayerKind>>) -> bool {
    &&& s[0] is Some
    &&& s[1] is Some
    &&& s[2] is Some
    &&& s[3] is Some
    &&& s[4] is Some
    &&& s[5] is Some
    &&& s[6] is Some
    &&& s[7] is Some
    &&& s[8] is Some
}

/// Whether `player` owns a complete line on this board.
pub fn has_won(player: PlayerKind, board: &Board) -> (r: bool)
    ensures
        r == has_won_spec(player, board_view(*board)),
{
    let row0 = cell_is(board[0][0], player) && cell_is(board[0][1], player) && cell_is(
        board[0][2],
        player,
    );
    let row1 = cell_is(board[1][0], player) && cell_is(board[1][1], player) && cell_is(
        board[1][2],
        player,
    );
    let row2 = cell_is(board[2][0], player) && cell_is(board[2][1], player) && cell_is(
        board[2][2],
        player,
    );
    let col0 = cell_is(board[0][0], player) && cell_is(board[1][0], player) && cell_is(
        board[2][0],
        player,
    );
    let col1 = cell_is(board[0][1], player) && cell_is(board[1][1], player) && cell_is(
        board[2][1],
        player,
    );
    let col2 = cell_is(board[0][2], player) && cell_is(board[1][2], player) && cell_is(
        board[2][2],
        player,
    );
    let diagonal = cell_is(board[0][0], player) && cell_is(board[1][1], player) && cell_is(
        board[2][2],
        player,
    );
    let anti_diagonal = cell_is(board[0][2], player) && cell_is(board[1][1], player) && cell_is(
        board[2][0],
        player,
    );
    row0 || row1 || row2 || col0 || col1 || col2 || diagonal || anti_diagonal
}

/// Whether every cell of the board is occupied.
pub fn is_full(board: &Board) -> (r: bool)
    ensures
        r == is_full_spec(board_view(*board)),
{
    board[0][0].is_some() && board[0][1].is_some() && board[0][2].is_some()
        && board[1][0].is_some() && board[1][1].is_some() && board[1][2].is_some()
        && board[2][0].is_some() && board[2][1].is_some() && board[2][2].is_some()
}

} // verus!
