//! The state of a game: who plays, what the board holds, how far the game is.

use vstd::prelude::*;
use crate::rules::{is_available, lemma_lines_on_board, well_formed};

verus! {

/// One of the two sides.
#[derive(Debug, Copy, Clone, PartialEq, Eq, Structural)]
pub enum Player {
    User,
    Computer,
}

/// What a cell of the board holds. `Nought` is the mark of whoever moved
/// first in this game, `Cross` the mark of the other side.
#[derive(Debug, Copy, Clone, PartialEq, Eq, Structural)]
pub enum Cell {
    Nought,
    Cross,
    Unfilled,
}

/// The nine cells, row by row: 0 to 2 is the top row, 6 to 8 the bottom row.
pub type Board = [Cell; 9];

/// How far the game is. `Draw` and `Settled` end it.
#[derive(Debug, Copy, Clone, PartialEq, Eq, Structural)]
pub enum GameStatus {
    Draw,
    NotFinished,
    Settled(Player),
}

/// The whole state of a game.
#[derive(Debug, Copy, Clone, PartialEq, Eq)]
pub struct Model {
    pub first_player: Option<Player>,
    pub board: Board,
    pub status: GameStatus,
}

/// What one pass of the view asks the rules to do.
#[derive(Debug, Copy, Clone, PartialEq, Eq, Structural)]
pub enum Message {
    /// The user takes the cell with this index.
    CellClicked(usize),
    /// The user has said who moves first.
    PlayerSelected { user_play_first: bool },
    /// Nothing to do.
    NoMessage,
}

/// A game as the rules see it: the board is a sequence of nine cells.
pub struct ModelView {
    pub first_player: Option<Player>,
    pub board: Seq<Cell>,
    pub status: GameStatus,
}

impl View for Model {
    type V = ModelView;

    open spec fn view(&self) -> ModelView {
        ModelView { first_player: self.first_player, board: self.board@, status: self.status }
    }
}

impl GameStatus {
    /// Whether the game is over.
    pub open spec fn is_terminal(self) -> bool {
        self !is NotFinished
    }

    /// Whether the game is over.
    #[verifier::when_used_as_spec(is_terminal)]
    pub fn is_finished(self) -> (over: bool)
        ensures
            over == self.is_terminal(),
    {
        match self {
            GameStatus::NotFinished => false,
            _ => true,
        }
    }
}

impl Model {
    /// A game that nobody has touched: no order chosen, nothing played.
    pub fn new() -> (m: Model)
        ensures
            m@ == fresh_game(),
            well_formed(m@),
    {
        let m = Model {
            status: GameStatus::NotFinished,
            board: [Cell::Unfilled;9],
            first_player: None,
        };
        assert(m.board@ =~= fresh_game().board);
        proof {
            lemma_fresh_game_is_well_formed();
        }
        m
    }
}

/// The game before anything has happened: the order is open, every cell is
/// unfilled, and the game is not finished.
pub open spec fn fresh_game() -> ModelView {
    ModelView {
        first_player: None,
        board: Seq::new(9, |i: int| Cell::Unfilled),
        status: GameStatus::NotFinished,
    }
}

/// The game before anything has happened is well formed: its board has no
/// line and is not full, so it is rightly not finished.
pub proof fn lemma_fresh_game_is_well_formed()
    ensures
        well_formed(fresh_game()),
{
    let board = fresh_game().board;
    lemma_lines_on_board();
    assert(is_available(board, 0));
}

/// Two games with the same view are the same game.
pub proof fn lemma_view_is_injective(a: Model, b: Model)
    requires
        a@ == b@,
    ensures
        a == b,
{
    assert(a.board =~= b.board);
}

} // verus!
