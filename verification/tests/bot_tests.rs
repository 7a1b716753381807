use tic_tac_torture::Board;
use tic_tac_torture::PlayerKind;
use tic_tac_torture::PlayerKind::PlayerO;
use tic_tac_torture::PlayerKind::PlayerX;
use tic_tac_torture::bot::Position;
use tic_tac_torture::bot::Rule;
use tic_tac_torture::bot::block;
use tic_tac_torture::bot::block_fork;
use tic_tac_torture::bot::choose_move;
use tic_tac_torture::bot::empty_corner;
use tic_tac_torture::bot::empty_side;
use tic_tac_torture::bot::fork;
use tic_tac_torture::bot::make_move;
use tic_tac_torture::bot::opposite_corner;
use tic_tac_torture::bot::opposite_player;
use tic_tac_torture::bot::valid_move_count;
use tic_tac_torture::bot::win;

const EMP: Option<PlayerKind> = None;
const P_X: Option<PlayerKind> = Some(PlayerX);
const P_O: Option<PlayerKind> = Some(PlayerO);

fn expect_position(r: Option<Position>, expected: Position) {
    let found = match r {
        Some(p) => p,
        None => panic!("Function should return Some(_), found None"),
    };
    assert_eq!(found.row, expected.row);
    assert_eq!(found.col, expected.col);
}

// testing win()
#[test]
fn none_win_test() {
    let board: Board = [[P_X, EMP, P_O], [EMP, P_O, EMP], [EMP, P_X, EMP]];
    assert!(win(PlayerX, &board).is_none());
}

#[test]
fn bot_vertical_win_test() {
    let board: Board = [[P_X, EMP, P_O], [P_X, EMP, EMP], [EMP, EMP, P_O]];
    expect_position(win(PlayerX, &board), Position { row: 2, col: 0 });
}

#[test]
fn bot_horizontal_win_test() {
    let board: Board = [[P_X, EMP, P_O], [P_O, EMP, P_O], [P_X, P_X, EMP]];
    expect_position(win(PlayerX, &board), Position { row: 2, col: 2 });
}

#[test]
fn bot_diagonal_win_test() {
    let board: Board = [[P_X, P_O, EMP], [P_O, EMP, EMP], [EMP, EMP, P_X]];
    expect_position(win(PlayerX, &board), Position { row: 1, col: 1 });
}

// testing block()
#[test]
fn none_block_test() {
    let board: Board = [[EMP, P_X, P_O], [P_O, P_X, EMP], [EMP, EMP, EMP]];
    assert!(block(PlayerX, &board).is_none());
}

#[test]
fn some_block_test() {
    let board: Board = [[EMP, EMP, P_O], [EMP, P_X, P_O], [P_X, EMP, EMP]];
    expect_position(block(PlayerX, &board), Position { row: 2, col: 2 });
}

// testing fork()
#[test]
fn none_fork_test() {
    let board: Board = [[P_X, EMP, P_O], [EMP, EMP, EMP], [P_X, EMP, P_O]];
    assert!(fork(PlayerX, &board).is_none());
}

#[test]
fn corner_fork_test() {
    let board: Board = [[P_X, EMP, EMP], [EMP, P_O, EMP], [P_O, EMP, P_X]];
    expect_position(fork(PlayerX, &board), Position { row: 0, col: 2 });
}

#[test]
fn center_fork_test() {
    let board: Board = [[P_X, P_X, EMP], [EMP, EMP, P_O], [P_O, EMP, EMP]];
    expect_position(fork(PlayerX, &board), Position { row: 1, col: 1 });
}

#[test]
fn side_fork_test() {
    let board: Board = [[P_X, EMP, P_O], [EMP, EMP, P_X], [EMP, EMP, P_O]];
    expect_position(fork(PlayerX, &board), Position { row: 1, col: 0 });
}

// testing block_fork()
#[test]
fn none_block_fork_test() {
    let board: Board = [[P_X, EMP, P_O], [EMP, EMP, EMP], [P_X, EMP, P_O]];
    assert!(block_fork(PlayerX, &board).is_none());
}

#[test]
fn corner_block_fork_test() {
    let board: Board = [[P_O, EMP, P_X], [EMP, P_X, EMP], [EMP, EMP, P_O]];
    expect_position(block_fork(PlayerX, &board), Position { row: 2, col: 0 });
}

#[test]
fn double_block_fork_test1() {
    let board: Board = [[P_X, EMP, EMP], [EMP, P_O, EMP], [EMP, EMP, P_X]];
    expect_position(block_fork(PlayerO, &board), Position { row: 0, col: 1 });
}

// testing opposite_corner()
#[test]
fn opposite_corner_test() {
    let board: Board = [[P_O, EMP, EMP], [EMP, EMP, EMP], [EMP, EMP, EMP]];
    expect_position(opposite_corner(PlayerX, &board), Position { row: 2, col: 2 });
}

// testing empty_corner()
#[test]
fn none_empty_corner_test() {
    let board: Board = [[P_O, EMP, P_X], [EMP, EMP, EMP], [P_O, EMP, P_X]];
    assert!(empty_corner(PlayerX, &board).is_none());
}

#[test]
fn some_empty_corner_test() {
    let board: Board = [[EMP, P_O, EMP], [P_O, P_X, P_O], [EMP, P_X, EMP]];
    expect_position(empty_corner(PlayerX, &board), Position { row: 0, col: 0 });
}

// testing empty_side()
#[test]
fn none_empty_side_test() {
    let board: Board = [[EMP, P_O, EMP], [P_O, P_X, P_O], [EMP, P_X, EMP]];
    assert!(empty_side(PlayerX, &board).is_none());
}

#[test]
fn some_empty_side_test() {
    let board: Board = [[P_O, EMP, P_X], [EMP, EMP, EMP], [P_O, EMP, P_X]];
    expect_position(empty_side(PlayerX, &board), Position { row: 1, col: 0 });
}

#[test]
fn valid_move_count_test() {
    // winning move
    let mut board: Board = [[P_X, EMP, EMP], [P_O, P_O, EMP], [P_X, EMP, EMP]];
    assert_eq!(valid_move_count(PlayerX, &board, Rule::Win), 0);

    board = [[P_X, P_O, P_X], [P_O, EMP, P_O], [P_X, EMP, EMP]];
    assert_eq!(valid_move_count(PlayerX, &board, Rule::Win), 1);

    board = [[P_X, EMP, P_X], [EMP, P_O, EMP], [P_X, EMP, P_O]];
    assert_eq!(valid_move_count(PlayerX, &board, Rule::Win), 2);

    // forking move
    board = [[P_X, P_O, EMP], [P_X, P_O, EMP], [P_O, EMP, P_X]];
    assert_eq!(valid_move_count(PlayerX, &board, Rule::Fork), 0);

    board = [[P_X, P_O, EMP], [EMP, EMP, P_X], [EMP, EMP, P_O]];
    assert_eq!(valid_move_count(PlayerX, &board, Rule::Fork), 1);

    board = [[P_X, EMP, EMP], [EMP, P_O, EMP], [EMP, EMP, P_X]];
    assert_eq!(valid_move_count(PlayerX, &board, Rule::Fork), 2);
}

#[test]
fn opposite_player_swaps_identities() {
    assert_eq!(opposite_player(PlayerX), PlayerO);
    assert_eq!(opposite_player(PlayerO), PlayerX);
}

// With marks on the board but no threat anywhere, the block rule fires on
// the single line the opponent can complete, and the dispatcher commits it.
#[test]
fn block_decides_the_move() {
    let board: Board = [[P_X, EMP, P_O], [EMP, P_O, EMP], [EMP, P_X, EMP]];
    assert!(win(PlayerX, &board).is_none());
    // O threatens the anti-diagonal: (0,2) and (1,1) with (2,0) empty.
    expect_position(block(PlayerX, &board), Position { row: 2, col: 0 });
    let chosen = choose_move(PlayerX, &board);
    assert_eq!(chosen.row, 2);
    assert_eq!(chosen.col, 0);
}

// On an empty board no structural rule can match, so the center rule fires.
#[test]
fn center_decides_the_first_move() {
    let board: Board = [[EMP, EMP, EMP], [EMP, EMP, EMP], [EMP, EMP, EMP]];
    assert!(win(PlayerX, &board).is_none());
    assert!(block(PlayerX, &board).is_none());
    assert!(fork(PlayerX, &board).is_none());
    assert!(block_fork(PlayerX, &board).is_none());
    let chosen = choose_move(PlayerX, &board);
    assert_eq!(chosen.row, 1);
    assert_eq!(chosen.col, 1);
}

#[test]
fn make_move_writes_the_chosen_cell() {
    let mut board: Board = [[EMP, EMP, EMP], [EMP, EMP, EMP], [EMP, EMP, EMP]];
    make_move(PlayerX, &mut board);
    assert_eq!(board[1][1], P_X);
    // every other cell stays empty
    let occupied: usize = board
        .iter()
        .map(|row| row.iter().filter(|c| c.is_some()).count())
        .sum();
    assert_eq!(occupied, 1);
}

#[test]
fn make_move_takes_the_win_over_the_block() {
    // X can complete the top row; O threatens the left column.
    let board: Board = [[P_X, P_X, EMP], [P_O, EMP, EMP], [P_O, EMP, EMP]];
    let mut played = board;
    make_move(PlayerX, &mut played);
    assert_eq!(played[0][2], P_X);
}
