//! The match state machine around the engine: participants, turn order, and
//! the win/tie status kept up to date after each move.

use vstd::prelude::*;

use crate::board::Board;
use crate::board::PlayerKind;
use crate::board::board_view;
use crate::board::cell_index;
use crate::board::has_won;
use crate::board::has_won_spec;
use crate::board::is_full;
use crate::board::is_full_spec;
use crate::board::opponent;
use crate::board::set_cell;
use crate::bot::opposite_player;

verus! {

/// The outcome state of a match.
#[derive(Clone, Copy, Debug)]
pub enum GameStatus {
    InProgress,
    Tie,
    Win(PlayerKind),
}

/// A participant: the marks they play, and whether a human plays them.
#[derive(Clone, Copy, Debug, PartialEq, Eq, Hash, Structural)]
pub struct Player {
    pub kind: PlayerKind,
    pub is_human: bool,
}

/// A live match: two participants, the player to move, the board, and the
/// current outcome state.
pub struct Game {
    pub player1: Player,
    pub player2: Player,
    pub current_player: PlayerKind,
    pub board: Board,
    pub status: GameStatus,
}

/// The model of a grid with every cell empty.
pub open spec fn empty_board_view() -> Seq<Option<PlayerKind>> {
    Seq::new(9, |i: int| None::<PlayerKind>)
}

/// The status after a move by `mover` leaves the board in state `s`: a full
/// board counts as a tie even when the move also completed a line, a
/// completed line otherwise wins, and anything else leaves `before` as it
/// was.
pub open spec fn status_after_move(
    mover: PlayerKind,
    s: Seq<Option<PlayerKind>>,
    before: GameStatus,
) -> GameStatus {
    if is_full_spec(s) {
        GameStatus::Tie
    } else if has_won_spec(mover, s) {
        GameStatus::Win(mover)
    } else {
        before
    }
}

impl Game {
    /// A fresh match: X is a human, O is the engine, X moves first on an
    /// empty board.
    pub fn new() -> (g: Game)
        ensures
            g.player1 == (Player { kind: PlayerKind::PlayerX, is_human: true }),
            g.player2 == (Player { kind: PlayerKind::PlayerO, is_human: false }),
            g.current_player == PlayerKind::PlayerX,
            board_view(g.board) == empty_board_view(),
            g.status is InProgress,
    {
        let board: Board = [
            [None, None, None],
            [None, None, None],
            [None, None, None],
        ];
        proof {
            assert(board_view(board) =~= empty_board_view());
        }
        Game {
            player1: Player { kind: PlayerKind::PlayerX, is_human: true },
            player2: Player { kind: PlayerKind::PlayerO, is_human: false },
            current_player: PlayerKind::PlayerX,
            board,
            status: GameStatus::InProgress,
        }
    }

    /// Clears the board and restarts with X to move; the participants stay.
    pub fn reset(&mut self)
        ensures
            board_view(final(self).board) == empty_board_view(),
            final(self).status is InProgress,
            final(self).current_player == PlayerKind::PlayerX,
            final(self).player1 == old(self).player1,
            final(self).player2 == old(self).player2,
    {
        let board: Board = [
            [None, None, None],
            [None, None, None],
            [None, None, None],
        ];
        proof {
            assert(board_view(board) =~= empty_board_view());
        }
        self.board = board;
        self.status = GameStatus::InProgress;
        self.current_player = PlayerKind::PlayerX;
    }

    /// Whether the player to move is played by a human.
    pub fn current_player_is_human(&self) -> (r: bool)
        ensures
            r == (if self.player1.kind == self.current_player {
                self.player1.is_human
            } else if self.player2.kind == self.current_player {
                self.player2.is_human
            } else {
                false
            }),
    {
        if self.player1.kind == self.current_player {
            return self.player1.is_human;
        }
        if self.player2.kind == self.current_player {
            return self.player2.is_human;
        }
        false
    }

    /// Writes the mark of the player to move at (row, col), re-evaluates the
    /// win and tie state, and passes the turn to the other player.
    pub fn make_move(&mut self, row: usize, col: usize)
        requires
            row < 3,
            col < 3,
        ensures
            ({
                let s2 = board_view(old(self).board).update(
                    cell_index(row as int, col as int),
                    Some(old(self).current_player),
                );
                &&& board_view(final(self).board) == s2
                &&& final(self).status == status_after_move(
                    old(self).current_player,
                    s2,
                    old(self).status,
                )
                &&& final(self).current_player == opponent(old(self).current_player)
                &&& final(self).player1 == old(self).player1
                &&& final(self).player2 == old(self).player2
            }),
    {
        let player = self.current_player;
        set_cell(&mut self.board, row, col, Some(player));
        if has_won(player, &self.board) {
            self.status = GameStatus::Win(player);
        }
        if is_full(&self.board) {
            self.status = GameStatus::Tie;
        }
        self.current_player = opposite_player(player);
    }
}

} // verus!
