//! The move-selection rules: the prioritized cascade and its sub-routines.

use vstd::prelude::*;

use crate::board::Board;
use crate::board::PlayerKind;
use crate::board::board_view;
use crate::board::cell_index;
use crate::board::cell_is;
use crate::board::empties_in_triple;
use crate::board::get_cell;
use crate::board::has_won_spec;
use crate::board::is_full_spec;
use crate::board::line_cell;
use crate::board::line_won;
use crate::board::marks_in_triple;
use crate::board::opponent;
use crate::board::set_cell;

verus! {

/// A cell of the grid, as (row, col), both in 0..3.
#[derive(Clone, Copy, Debug, PartialEq, Eq, Structural)]
pub struct Position {
    pub row: usize,
    pub col: usize,
}

/// The row-major model index of a position.
pub open spec fn pos_index(p: Position) -> int {
    3 * p.row + p.col
}

/// The model index of an optional position, for stating rule results.
pub open spec fn opt_pos_index(r: Option<Position>) -> Option<int> {
    match r {
        Some(p) => Some(pos_index(p)),
        None => None,
    }
}

/// The other player's identity.
pub fn opposite_player(player: PlayerKind) -> (r: PlayerKind)
    ensures
        r == opponent(player),
{
    match player {
        PlayerKind::PlayerX => PlayerKind::PlayerO,
        PlayerKind::PlayerO => PlayerKind::PlayerX,
    }
}

/// The completing move in the triple of cells at indices `i0, i1, i2`:
/// the single empty cell, provided the other two hold the player's marks.
pub open spec fn triple_two_in_a_row(
    p: PlayerKind,
    s: Seq<Option<PlayerKind>>,
    i0: int,
    i1: int,
    i2: int,
) -> Option<int> {
    if empties_in_triple(s, i0, i1, i2) == 1 && marks_in_triple(p, s, i0, i1, i2) == 2 {
        Some(
            if s[i0] is None {
                i0
            } else if s[i1] is None {
                i1
            } else {
                i2
            },
        )
    } else {
        None
    }
}

/// The completing move on winning line `k`, if the line has exactly one
/// empty cell and two of the player's marks.
pub open spec fn line_two_in_a_row(p: PlayerKind, s: Seq<Option<PlayerKind>>, k: int) -> Option<
    int,
> {
    triple_two_in_a_row(p, s, line_cell(k, 0), line_cell(k, 1), line_cell(k, 2))
}

/// The first line, in the fixed order (rows top to bottom, columns left to
/// right, main diagonal, anti-diagonal), that the player can complete in one
/// move, and the cell that completes it.
pub open spec fn win_spec(p: PlayerKind, s: Seq<Option<PlayerKind>>) -> Option<int> {
    if line_two_in_a_row(p, s, 0) is Some {
        line_two_in_a_row(p, s, 0)
    } else if line_two_in_a_row(p, s, 1) is Some {
        line_two_in_a_row(p, s, 1)
    } else if line_two_in_a_row(p, s, 2) is Some {
        line_two_in_a_row(p, s, 2)
    } else if line_two_in_a_row(p, s, 3) is Some {
        line_two_in_a_row(p, s, 3)
    } else if line_two_in_a_row(p, s, 4) is Some {
        line_two_in_a_row(p, s, 4)
    } else if line_two_in_a_row(p, s, 5) is Some {
        line_two_in_a_row(p, s, 5)
    } else if line_two_in_a_row(p, s, 6) is Some {
        line_two_in_a_row(p, s, 6)
    } else {
        line_two_in_a_row(p, s, 7)
    }
}

/// The square the mover must occupy to prevent the opponent's win.
pub open spec fn block_spec(p: PlayerKind, s: Seq<Option<PlayerKind>>) -> Option<int> {
    win_spec(opponent(p), s)
}

/// Scans one line of the board for two of `player`'s marks beside a single
/// empty cell. The line starts at (row, col) and advances by the offsets.
pub fn check_two_in_a_row(
    player: PlayerKind,
    board: &Board,
    row: usize,
    col: usize,
    offset_row: i32,
    offset_col: i32,
) -> (r: Option<Position>)
    requires
        row < 3,
        col < 3,
        0 <= row + offset_row < 3,
        0 <= row + 2 * offset_row < 3,
        0 <= col + offset_col < 3,
        0 <= col + 2 * offset_col < 3,
    ensures
        ({
            let s = board_view(*board);
            let i0 = cell_index(row as int, col as int);
            let i1 = cell_index(row + offset_row, col + offset_col);
            let i2 = cell_index(row + 2 * offset_row, col + 2 * offset_col);
            &&& opt_pos_index(r) == triple_two_in_a_row(player, s, i0, i1, i2)
            &&& (r matches Some(q) ==> q.row < 3 && q.col < 3)
        }),
{
    let row1 = (row as i32 + offset_row) as usize;
    let col1 = (col as i32 + offset_col) as usize;
    let row2 = (row as i32 + 2 * offset_row) as usize;
    let col2 = (col as i32 + 2 * offset_col) as usize;
    let cell0 = get_cell(board, row, col);
    let cell1 = get_cell(board, row1, col1);
    let cell2 = get_cell(board, row2, col2);
    let empties: u32 = (if cell0.is_none() {
        1
    } else {
        0
    }) + (if cell1.is_none() {
        1
    } else {
        0
    }) + (if cell2.is_none() {
        1
    } else {
        0
    });
    let marks: u32 = (if cell_is(cell0, player) {
        1
    } else {
        0
    }) + (if cell_is(cell1, player) {
        1
    } else {
        0
    }) + (if cell_is(cell2, player) {
        1
    } else {
        0
    });
    if empties == 1 && marks == 2 {
        if cell0.is_none() {
            Some(Position { row, col })
        } else if cell1.is_none() {
            Some(Position { row: row1, col: col1 })
        } else {
            Some(Position { row: row2, col: col2 })
        }
    } else {
        None
    }
}

/// The position of a winning move for `player`, under the fixed line order.
pub fn win(player: PlayerKind, board: &Board) -> (r: Option<Position>)
    ensures
        opt_pos_index(r) == win_spec(player, board_view(*board)),
        r matches Some(q) ==> q.row < 3 && q.col < 3,
{
    let p = check_two_in_a_row(player, board, 0, 0, 0, 1);
    if p.is_some() {
        return p;
    }
    let p = check_two_in_a_row(player, board, 1, 0, 0, 1);
    if p.is_some() {
        return p;
    }
    let p = check_two_in_a_row(player, board, 2, 0, 0, 1);
    if p.is_some() {
        return p;
    }
    let p = check_two_in_a_row(player, board, 0, 0, 1, 0);
    if p.is_some() {
        return p;
    }
    let p = check_two_in_a_row(player, board, 0, 1, 1, 0);
    if p.is_some() {
        return p;
    }
    let p = check_two_in_a_row(player, board, 0, 2, 1, 0);
    if p.is_some() {
        return p;
    }
    let p = check_two_in_a_row(player, board, 0, 0, 1, 1);
    if p.is_some() {
        return p;
    }
    check_two_in_a_row(player, board, 0, 2, 1, -1)
}

/// The position of a move that blocks a win by `player`'s opponent.
pub fn block(player: PlayerKind, board: &Board) -> (r: Option<Position>)
    ensures
        opt_pos_index(r) == block_spec(player, board_view(*board)),
        r matches Some(q) ==> q.row < 3 && q.col < 3,
{
    win(opposite_player(player), board)
}

/// The rules whose goals the simulation helper can count: a winning move, or
/// a forking move.
#[derive(Clone, Copy, Debug, PartialEq, Eq, Structural)]
pub enum Rule {
    Win,
    Fork,
}

/// Termination measure for the mutual recursion between `valid_move_count`
/// and `fork`: counting fork options re-enters the helper, but only for the
/// strictly simpler win rule.
pub open spec fn rule_rank(rule: Rule) -> int {
    match rule {
        Rule::Win => 0,
        Rule::Fork => 2,
    }
}

/// How many distinct ways the player has to complete a line: 0 if none, and
/// otherwise whether a second one survives the opponent blocking the first.
pub open spec fn count_win_options(p: PlayerKind, s: Seq<Option<PlayerKind>>) -> int {
    match win_spec(p, s) {
        None => 0,
        Some(i) => match win_spec(p, s.update(i, Some(opponent(p)))) {
            None => 1,
            Some(_) => 2,
        },
    }
}

/// Placing the player's mark on empty cell `i` yields two simultaneous
/// winning threats, which the opponent cannot block with one reply.
/// Kept opaque: the callers reason about it through `reveal`, which keeps
/// the cascade's terms small.
#[verifier::opaque]
pub open spec fn fork_cell(p: PlayerKind, s: Seq<Option<PlayerKind>>, i: int) -> bool {
    s[i] is None && count_win_options(p, s.update(i, Some(p))) == 2
}

/// The first empty cell, in row-major order, whose occupation creates a fork.
pub open spec fn fork_spec(p: PlayerKind, s: Seq<Option<PlayerKind>>) -> Option<int> {
    if fork_cell(p, s, 0) {
        Some(0int)
    } else if fork_cell(p, s, 1) {
        Some(1int)
    } else if fork_cell(p, s, 2) {
        Some(2int)
    } else if fork_cell(p, s, 3) {
        Some(3int)
    } else if fork_cell(p, s, 4) {
        Some(4int)
    } else if fork_cell(p, s, 5) {
        Some(5int)
    } else if fork_cell(p, s, 6) {
        Some(6int)
    } else if fork_cell(p, s, 7) {
        Some(7int)
    } else if fork_cell(p, s, 8) {
        Some(8int)
    } else {
        None
    }
}

/// How many distinct forking moves the player has: 0 if none, and otherwise
/// whether a second one survives the opponent occupying the first.
pub open spec fn count_fork_options(p: PlayerKind, s: Seq<Option<PlayerKind>>) -> int {
    match fork_spec(p, s) {
        None => 0,
        Some(i) => match fork_spec(p, s.update(i, Some(opponent(p)))) {
            None => 1,
            Some(_) => 2,
        },
    }
}

/// How many distinct moves exist for the given rule's goal: applies the rule,
/// lets the opponent hypothetically occupy the found square on a private
/// copy, and applies the rule once more.
pub fn valid_move_count(player: PlayerKind, board: &Board, rule: Rule) -> (r: u32)
    ensures
        rule == Rule::Win ==> r == count_win_options(player, board_view(*board)),
        rule == Rule::Fork ==> r == count_fork_options(player, board_view(*board)),
        r <= 2,
    decreases rule_rank(rule),
{
    let mut board_copy: Board = *board;
    let first = match rule {
        Rule::Win => win(player, &board_copy),
        Rule::Fork => fork(player, &board_copy),
    };
    match first {
        None => 0,
        Some(p) => {
            set_cell(&mut board_copy, p.row, p.col, Some(opposite_player(player)));
            let second = match rule {
                Rule::Win => win(player, &board_copy),
                Rule::Fork => fork(player, &board_copy),
            };
            match second {
                None => 1,
                Some(_) => 2,
            }
        },
    }
}

/// The position of a forking move for `player`: the first empty cell, in
/// row-major order, that creates two winning threats at once.
pub fn fork(player: PlayerKind, board: &Board) -> (r: Option<Position>)
    ensures
        opt_pos_index(r) == fork_spec(player, board_view(*board)),
        r matches Some(q) ==> q.row < 3 && q.col < 3,
    decreases 1int,
{
    let mut idx: usize = 0;
    while idx < 9
        invariant
            idx <= 9,
            forall|j: int| 0 <= j < idx ==> !fork_cell(player, board_view(*board), j),
        decreases 9 - idx,
    {
        let row = idx / 3;
        let col = idx % 3;
        proof {
            reveal(fork_cell);
        }
        if get_cell(board, row, col).is_none() {
            let mut board_copy: Board = *board;
            set_cell(&mut board_copy, row, col, Some(player));
            if valid_move_count(player, &board_copy, Rule::Win) == 2 {
                return Some(Position { row, col });
            }
        }
        idx += 1;
    }
    None
}

/// Placing the player's mark on empty cell `i` creates a winning threat whose
/// forced block leaves the opponent without their forking square: the
/// opponent's block of that threat differs from the opponent's fork.
/// Kept opaque for the same reason as `fork_cell`.
#[verifier::opaque]
pub open spec fn block_double_fork_cell(p: PlayerKind, s: Seq<Option<PlayerKind>>, i: int) -> bool {
    let s2 = s.update(i, Some(p));
    &&& s[i] is None
    &&& count_win_options(p, s2) > 0
    &&& (match (win_spec(p, s2), fork_spec(opponent(p), s2)) {
        (Some(b), Some(f)) => b != f,
        _ => false,
    })
}

/// The first empty cell, in row-major order, that forces the opponent to
/// spend their reply blocking a threat instead of completing a fork.
pub open spec fn block_double_fork_spec(p: PlayerKind, s: Seq<Option<PlayerKind>>) -> Option<int> {
    if block_double_fork_cell(p, s, 0) {
        Some(0int)
    } else if block_double_fork_cell(p, s, 1) {
        Some(1int)
    } else if block_double_fork_cell(p, s, 2) {
        Some(2int)
    } else if block_double_fork_cell(p, s, 3) {
        Some(3int)
    } else if block_double_fork_cell(p, s, 4) {
        Some(4int)
    } else if block_double_fork_cell(p, s, 5) {
        Some(5int)
    } else if block_double_fork_cell(p, s, 6) {
        Some(6int)
    } else if block_double_fork_cell(p, s, 7) {
        Some(7int)
    } else if block_double_fork_cell(p, s, 8) {
        Some(8int)
    } else {
        None
    }
}

/// The response to the opponent's forks: occupy their sole fork-enabling
/// square if they have exactly one, otherwise force them to block a threat.
pub open spec fn block_fork_spec(p: PlayerKind, s: Seq<Option<PlayerKind>>) -> Option<int> {
    let n = count_fork_options(opponent(p), s);
    if n == 1 {
        fork_spec(opponent(p), s)
    } else if n == 2 {
        block_double_fork_spec(p, s)
    } else {
        None
    }
}

/// The middle cell, if it is empty.
pub open spec fn center_spec(s: Seq<Option<PlayerKind>>) -> Option<int> {
    if s[4] is None {
        Some(4int)
    } else {
        None
    }
}

/// The first corner, in the fixed corner order, that is empty while the
/// opponent occupies the diagonally opposite corner.
pub open spec fn opposite_corner_spec(p: PlayerKind, s: Seq<Option<PlayerKind>>) -> Option<int> {
    if s[0] == Some(opponent(p)) && s[8] is None {
        Some(8int)
    } else if s[6] == Some(opponent(p)) && s[2] is None {
        Some(2int)
    } else if s[8] == Some(opponent(p)) && s[0] is None {
        Some(0int)
    } else if s[2] == Some(opponent(p)) && s[6] is None {
        Some(6int)
    } else {
        None
    }
}

/// The first empty corner, in the fixed corner order.
pub open spec fn empty_corner_spec(s: Seq<Option<PlayerKind>>) -> Option<int> {
    if s[0] is None {
        Some(0int)
    } else if s[6] is None {
        Some(6int)
    } else if s[8] is None {
        Some(8int)
    } else if s[2] is None {
        Some(2int)
    } else {
        None
    }
}

/// The first empty edge-midpoint cell, in the fixed side order.
pub open spec fn empty_side_spec(s: Seq<Option<PlayerKind>>) -> Option<int> {
    if s[3] is None {
        Some(3int)
    } else if s[7] is None {
        Some(7int)
    } else if s[5] is None {
        Some(5int)
    } else if s[1] is None {
        Some(1int)
    } else {
        None
    }
}

/// The prioritized cascade: the first rule that applies, in the exact order
/// win, block, fork, block fork, center, opposite corner, empty corner,
/// empty side. This order is the load-bearing contract of the strategy.
pub open spec fn choose_move_spec(p: PlayerKind, s: Seq<Option<PlayerKind>>) -> Option<int> {
    if win_spec(p, s) is Some {
        win_spec(p, s)
    } else if block_spec(p, s) is Some {
        block_spec(p, s)
    } else if fork_spec(p, s) is Some {
        fork_spec(p, s)
    } else if block_fork_spec(p, s) is Some {
        block_fork_spec(p, s)
    } else if center_spec(s) is Some {
        center_spec(s)
    } else if opposite_corner_spec(p, s) is Some {
        opposite_corner_spec(p, s)
    } else if empty_corner_spec(s) is Some {
        empty_corner_spec(s)
    } else {
        empty_side_spec(s)
    }
}

/// The position of a move that blocks the opponent from creating a fork.
pub fn block_fork(player: PlayerKind, board: &Board) -> (r: Option<Position>)
    ensures
        opt_pos_index(r) == block_fork_spec(player, board_view(*board)),
        r matches Some(q) ==> q.row < 3 && q.col < 3,
{
    let forking_move_count = valid_move_count(opposite_player(player), board, Rule::Fork);
    if forking_move_count == 1 {
        fork(opposite_player(player), board)
    } else if forking_move_count == 2 {
        block_double_fork(player, board)
    } else {
        None
    }
}

/// Whether occupying the cell at (row, col) creates a threat whose forced
/// block is not also the opponent's forking square.
fn creates_safe_threat(player: PlayerKind, board: &Board, row: usize, col: usize) -> (r: bool)
    requires
        row < 3,
        col < 3,
    ensures
        r == block_double_fork_cell(
            player,
            board_view(*board),
            cell_index(row as int, col as int),
        ),
{
    proof {
        reveal(block_double_fork_cell);
    }
    if get_cell(board, row, col).is_some() {
        return false;
    }
    let mut board_copy: Board = *board;
    set_cell(&mut board_copy, row, col, Some(player));
    if valid_move_count(player, &board_copy, Rule::Win) > 0 {
        if let Some(block_pos) = block(opposite_player(player), &board_copy) {
            if let Some(fork_pos) = fork(opposite_player(player), &board_copy) {
                if block_pos.row != fork_pos.row || block_pos.col != fork_pos.col {
                    return true;
                }
            }
        }
    }
    false
}

/// The position of a move that creates a two-in-a-row threat whose forced
/// block is not also the opponent's forking square.
pub fn block_double_fork(player: PlayerKind, board: &Board) -> (r: Option<Position>)
    ensures
        opt_pos_index(r) == block_double_fork_spec(player, board_view(*board)),
        r matches Some(q) ==> q.row < 3 && q.col < 3,
{
    let mut idx: usize = 0;
    while idx < 9
        invariant
            idx <= 9,
            forall|j: int| 0 <= j < idx ==> !block_double_fork_cell(player, board_view(*board), j),
        decreases 9 - idx,
    {
        let row = idx / 3;
        let col = idx % 3;
        if creates_safe_threat(player, board, row, col) {
            return Some(Position { row, col });
        }
        idx += 1;
    }
    None
}

/// The middle cell, if it is empty.
pub fn center(_player: PlayerKind, board: &Board) -> (r: Option<Position>)
    ensures
        opt_pos_index(r) == center_spec(board_view(*board)),
        r matches Some(q) ==> q.row < 3 && q.col < 3,
{
    if get_cell(board, 1, 1).is_none() {
        Some(Position { row: 1, col: 1 })
    } else {
        None
    }
}

/// The empty corner diagonally opposite a corner the opponent occupies.
pub fn opposite_corner(player: PlayerKind, board: &Board) -> (r: Option<Position>)
    ensures
        opt_pos_index(r) == opposite_corner_spec(player, board_view(*board)),
        r matches Some(q) ==> q.row < 3 && q.col < 3,
{
    let opposite = opposite_player(player);
    if cell_is(get_cell(board, 0, 0), opposite) && get_cell(board, 2, 2).is_none() {
        return Some(Position { row: 2, col: 2 });
    }
    if cell_is(get_cell(board, 2, 0), opposite) && get_cell(board, 0, 2).is_none() {
        return Some(Position { row: 0, col: 2 });
    }
    if cell_is(get_cell(board, 2, 2), opposite) && get_cell(board, 0, 0).is_none() {
        return Some(Position { row: 0, col: 0 });
    }
    if cell_is(get_cell(board, 0, 2), opposite) && get_cell(board, 2, 0).is_none() {
        return Some(Position { row: 2, col: 0 });
    }
    None
}

/// The first empty corner, in the fixed corner order.
pub fn empty_corner(_player: PlayerKind, board: &Board) -> (r: Option<Position>)
    ensures
        opt_pos_index(r) == empty_corner_spec(board_view(*board)),
        r matches Some(q) ==> q.row < 3 && q.col < 3,
{
    if get_cell(board, 0, 0).is_none() {
        return Some(Position { row: 0, col: 0 });
    }
    if get_cell(board, 2, 0).is_none() {
        return Some(Position { row: 2, col: 0 });
    }
    if get_cell(board, 2, 2).is_none() {
        return Some(Position { row: 2, col: 2 });
    }
    if get_cell(board, 0, 2).is_none() {
        return Some(Position { row: 0, col: 2 });
    }
    None
}

/// The first empty edge-midpoint cell, in the fixed side order.
pub fn empty_side(_player: PlayerKind, board: &Board) -> (r: Option<Position>)
    ensures
        opt_pos_index(r) == empty_side_spec(board_view(*board)),
        r matches Some(q) ==> q.row < 3 && q.col < 3,
{
    if get_cell(board, 1, 0).is_none() {
        return Some(Position { row: 1, col: 0 });
    }
    if get_cell(board, 2, 1).is_none() {
        return Some(Position { row: 2, col: 1 });
    }
    if get_cell(board, 1, 2).is_none() {
        return Some(Position { row: 1, col: 2 });
    }
    if get_cell(board, 0, 1).is_none() {
        return Some(Position { row: 0, col: 1 });
    }
    None
}

/// The win rule is sound and complete. A returned cell is an empty cell
/// whose occupation completes a line for the player; and when it returns
/// nothing on a board the player has not already won, no empty cell
/// completes a line for them.
pub proof fn lemma_win_finds_completion(p: PlayerKind, s: Seq<Option<PlayerKind>>)
    requires
        s.len() == 9,
    ensures
        win_spec(p, s) matches Some(i) ==> 0 <= i < 9 && s[i] is None && has_won_spec(
            p,
            s.update(i, Some(p)),
        ),
        win_spec(p, s) is None && !has_won_spec(p, s) ==> forall|i: int|
            0 <= i < 9 && s[i] is None ==> !has_won_spec(p, s.update(i, Some(p))),
{
    if win_spec(p, s) is None && !has_won_spec(p, s) {
        assert forall|i: int| 0 <= i < 9 && s[i] is None implies !has_won_spec(
            p,
            s.update(i, Some(p)),
        ) by {
            let s2 = s.update(i, Some(p));
            assert forall|k: int| 0 <= k < 8 implies !line_won(p, s2, k) by {
                if line_won(p, s2, k) {
                    assert(line_two_in_a_row(p, s, k) is Some);
                }
            }
        }
    }
}

/// The block rule is the win rule for the opponent, by construction: the
/// square that lets the opponent complete a line is the square to occupy.
pub proof fn lemma_block_is_opponent_win(p: PlayerKind, s: Seq<Option<PlayerKind>>)
    ensures
        block_spec(p, s) == win_spec(opponent(p), s),
{
}

/// The fork rule only returns a cell whose occupation leaves the player with
/// exactly two distinct winning completions afterwards.
pub proof fn lemma_fork_creates_double_threat(p: PlayerKind, s: Seq<Option<PlayerKind>>)
    requires
        s.len() == 9,
    ensures
        fork_spec(p, s) matches Some(i) ==> 0 <= i < 9 && s[i] is None && count_win_options(
            p,
            s.update(i, Some(p)),
        ) == 2,
{
    reveal(fork_cell);
}

/// A winning move stands on an empty cell of the board.
pub proof fn lemma_win_spec_on_empty_cell(p: PlayerKind, s: Seq<Option<PlayerKind>>)
    requires
        s.len() == 9,
    ensures
        win_spec(p, s) matches Some(i) ==> 0 <= i < 9 && s[i] is None,
{
}

/// A forking move stands on an empty cell of the board.
pub proof fn lemma_fork_spec_on_empty_cell(p: PlayerKind, s: Seq<Option<PlayerKind>>)
    requires
        s.len() == 9,
    ensures
        fork_spec(p, s) matches Some(i) ==> 0 <= i < 9 && s[i] is None,
{
    reveal(fork_cell);
}

/// A fork-blocking move stands on an empty cell of the board.
pub proof fn lemma_block_fork_spec_on_empty_cell(p: PlayerKind, s: Seq<Option<PlayerKind>>)
    requires
        s.len() == 9,
    ensures
        block_fork_spec(p, s) matches Some(i) ==> 0 <= i < 9 && s[i] is None,
{
    reveal(fork_cell);
    reveal(block_double_fork_cell);
}

/// Totality of the cascade: on any board with an empty cell the prioritized
/// rules produce a move, and the move stands on an empty cell. The center,
/// the four corners, and the four sides cover the whole grid, so the three
/// positional fallbacks alone already reach every empty cell.
pub proof fn lemma_choose_move_total(p: PlayerKind, s: Seq<Option<PlayerKind>>)
    requires
        s.len() == 9,
        !is_full_spec(s),
    ensures
        choose_move_spec(p, s) matches Some(i) && 0 <= i < 9 && s[i] is None,
{
    lemma_win_spec_on_empty_cell(p, s);
    lemma_win_spec_on_empty_cell(opponent(p), s);
    lemma_fork_spec_on_empty_cell(p, s);
    lemma_block_fork_spec_on_empty_cell(p, s);
}

/// The chosen move for `player`: the first match of the prioritized rules.
/// The caller must hand in a board with at least one empty cell; the result
/// is always an empty cell of that board.
pub fn choose_move(player: PlayerKind, board: &Board) -> (r: Position)
    requires
        !is_full_spec(board_view(*board)),
    ensures
        Some(pos_index(r)) == choose_move_spec(player, board_view(*board)),
        r.row < 3,
        r.col < 3,
        board_view(*board)[pos_index(r)] is None,
{
    proof {
        lemma_choose_move_total(player, board_view(*board));
    }
    if let Some(p) = win(player, board) {
        return p;
    }
    if let Some(p) = block(player, board) {
        return p;
    }
    if let Some(p) = fork(player, board) {
        return p;
    }
    if let Some(p) = block_fork(player, board) {
        return p;
    }
    if let Some(p) = center(player, board) {
        return p;
    }
    if let Some(p) = opposite_corner(player, board) {
        return p;
    }
    if let Some(p) = empty_corner(player, board) {
        return p;
    }
    empty_side(player, board).unwrap()
}

/// Chooses a move for `player` by the prioritized rules and writes the
/// player's mark into the board at the chosen, previously empty cell.
pub fn make_move(player: PlayerKind, board: &mut Board)
    requires
        !is_full_spec(board_view(*old(board))),
    ensures
        choose_move_spec(player, board_view(*old(board))) matches Some(i) && board_view(
            *final(board),
        ) == board_view(*old(board)).update(i, Some(player)),
{
    let p = choose_move(player, board);
    set_cell(board, p.row, p.col, Some(player));
}

} // verus!
