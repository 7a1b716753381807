use tic_tac_torture::Board;
use tic_tac_torture::Game;
use tic_tac_torture::GameStatus;
use tic_tac_torture::PlayerKind;
use tic_tac_torture::PlayerKind::PlayerO;
use tic_tac_torture::PlayerKind::PlayerX;
use tic_tac_torture::has_won;
use tic_tac_torture::is_full;
use tic_tac_torture::bot::make_move;

#[test]
fn new_game_starts_empty_with_x_to_move() {
    let game = Game::new();
    assert!(matches!(game.status, GameStatus::InProgress));
    assert_eq!(game.current_player, PlayerX);
    assert_eq!(game.player1.kind, PlayerX);
    assert!(game.player1.is_human);
    assert_eq!(game.player2.kind, PlayerO);
    assert!(!game.player2.is_human);
    for row in game.board.iter() {
        for cell in row.iter() {
            assert!(cell.is_none());
        }
    }
}

#[test]
fn make_move_places_mark_and_switches_turn() {
    let mut game = Game::new();
    game.make_move(0, 2);
    assert_eq!(game.board[0][2], Some(PlayerX));
    assert_eq!(game.current_player, PlayerO);
    assert!(matches!(game.status, GameStatus::InProgress));
}

#[test]
fn make_move_detects_a_win() {
    let mut game = Game::new();
    game.make_move(0, 0); // X
    game.make_move(1, 0); // O
    game.make_move(0, 1); // X
    game.make_move(1, 1); // O
    game.make_move(0, 2); // X completes the top row
    assert!(matches!(game.status, GameStatus::Win(PlayerX)));
}

#[test]
fn make_move_detects_a_tie() {
    let mut game = Game::new();
    // X O X / X X O / O X O: full board, nobody wins.
    game.make_move(0, 0); // X
    game.make_move(0, 1); // O
    game.make_move(0, 2); // X
    game.make_move(1, 2); // O
    game.make_move(1, 0); // X
    game.make_move(2, 0); // O
    game.make_move(1, 1); // X
    game.make_move(2, 2); // O
    game.make_move(2, 1); // X
    assert!(matches!(game.status, GameStatus::Tie));
}

#[test]
fn reset_clears_the_match() {
    let mut game = Game::new();
    game.make_move(0, 0);
    game.make_move(1, 1);
    game.reset();
    assert!(matches!(game.status, GameStatus::InProgress));
    assert_eq!(game.current_player, PlayerX);
    for row in game.board.iter() {
        for cell in row.iter() {
            assert!(cell.is_none());
        }
    }
}

#[test]
fn current_player_is_human_follows_the_turn() {
    let mut game = Game::new();
    assert!(game.current_player_is_human());
    game.make_move(0, 0);
    assert!(!game.current_player_is_human());
}

fn opposite(p: PlayerKind) -> PlayerKind {
    match p {
        PlayerX => PlayerO,
        PlayerO => PlayerX,
    }
}

fn brute_force_helper(
    current_player: PlayerKind,
    bot_player: PlayerKind,
    board: Board,
    failed_games: &mut Vec<Board>,
) {
    // base case: game is tied
    if is_full(&board) {
        return;
    }

    // base case: the previous move won the game
    if has_won(opposite(current_player), &board) {
        // record if the non-bot player has won (test failure case)
        if opposite(current_player) != bot_player {
            failed_games.push(board);
        }
        return;
    }

    // if it's the bot's turn use its function to make a move
    if current_player == bot_player {
        let mut played = board;
        make_move(current_player, &mut played);
        brute_force_helper(opposite(current_player), bot_player, played, failed_games);
    // if it's the non-bot's turn, recursively call for every possible move
    } else {
        for i in 0..3 {
            for j in 0..3 {
                if board[i][j].is_none() {
                    let mut board_copy = board;
                    board_copy[i][j] = Some(current_player);
                    brute_force_helper(
                        opposite(current_player),
                        bot_player,
                        board_copy,
                        failed_games,
                    );
                }
            }
        }
    }
}

/// Checks every possible game against the engine: whichever side the engine
/// plays, no sequence of opponent moves ever ends with the opponent winning.
#[test]
fn brute_force_everything() {
    let mut failed_games: Vec<Board> = Vec::new();
    let empty: Board = [[None, None, None], [None, None, None], [None, None, None]];
    // test for the bot playing X
    brute_force_helper(PlayerX, PlayerX, empty, &mut failed_games);

    // test for the bot playing O
    brute_force_helper(PlayerX, PlayerO, empty, &mut failed_games);
    assert!(failed_games.is_empty(), "Failed game states were:\n {:?}", failed_games);
}
