//! The rules of the game as mathematics: winning lines, how a board is
//! judged, and what a move of either side makes of a game.

use vstd::prelude::*;
use crate::model::{Cell, GameStatus, Message, ModelView, Player};

verus! {

/// The eight lines that win: three rows, three columns, two diagonals.
pub open spec fn winning_lines() -> Seq<(usize, usize, usize)> {
    seq![
        (0usize, 1usize, 2usize),
        (3usize, 4usize, 5usize),
        (6usize, 7usize, 8usize),
        (0usize, 3usize, 6usize),
        (1usize, 4usize, 7usize),
        (2usize, 5usize, 8usize),
        (0usize, 4usize, 8usize),
        (2usize, 4usize, 6usize),
    ]
}

/// Every cell of every winning line is on the board.
pub proof fn lemma_lines_on_board()
    ensures
        winning_lines().len() == 8,
        forall|k: int|
            0 <= k < 8 ==> {
                let line = #[trigger] winning_lines()[k];
                line.0 < 9 && line.1 < 9 && line.2 < 9
            },
{
    assert forall|k: int| 0 <= k < 8 implies {
        let line = #[trigger] winning_lines()[k];
        line.0 < 9 && line.1 < 9 && line.2 < 9
    } by {
        if k == 0 {
        } else if k == 1 {
        } else if k == 2 {
        } else if k == 3 {
        } else if k == 4 {
        } else if k == 5 {
        } else if k == 6 {
        } else {
        }
    }
}

/// The three cells of a winning line are three different cells.
pub proof fn lemma_lines_are_three_cells()
    ensures
        forall|k: int|
            0 <= k < 8 ==> {
                let line = #[trigger] winning_lines()[k];
                line.0 != line.1 && line.1 != line.2 && line.0 != line.2
            },
{
    assert forall|k: int| 0 <= k < 8 implies {
        let line = #[trigger] winning_lines()[k];
        line.0 != line.1 && line.1 != line.2 && line.0 != line.2
    } by {
        if k == 0 {
        } else if k == 1 {
        } else if k == 2 {
        } else if k == 3 {
        } else if k == 4 {
        } else if k == 5 {
        } else if k == 6 {
        } else {
        }
    }
}

/// Whether `indices` holds all three cells of `line`.
pub open spec fn covers(indices: Seq<usize>, line: (usize, usize, usize)) -> bool {
    indices.contains(line.0) && indices.contains(line.1) && indices.contains(line.2)
}

/// Whether `indices` holds all three cells of some winning line.
pub open spec fn covers_line(indices: Seq<usize>) -> bool {
    exists|k: int| 0 <= k < winning_lines().len() && covers(indices, #[trigger] winning_lines()[k])
}

/// Whether all three cells of `line` hold `mark` on `board`.
pub open spec fn line_holds(board: Seq<Cell>, line: (usize, usize, usize), mark: Cell) -> bool {
    board[line.0 as int] == mark && board[line.1 as int] == mark && board[line.2 as int] == mark
}

/// Whether `mark` fills some winning line of `board`.
pub open spec fn has_line(board: Seq<Cell>, mark: Cell) -> bool {
    exists|k: int|
        0 <= k < winning_lines().len() && line_holds(board, #[trigger] winning_lines()[k], mark)
}

/// Whether cell `i` is on the board and still unfilled.
pub open spec fn is_available(board: Seq<Cell>, i: int) -> bool {
    0 <= i < board.len() && board[i] == Cell::Unfilled
}

/// Whether the board has no unfilled cell left.
pub open spec fn is_full(board: Seq<Cell>) -> bool {
    forall|i: int| !is_available(board, i)
}

/// The side that plays noughts: the one that moves first. While the order
/// is open, the computer counts as first.
pub open spec fn nought_player(first_player: Option<Player>) -> Player {
    if first_player == Some(Player::User) {
        Player::User
    } else {
        Player::Computer
    }
}

/// The side that plays crosses.
pub open spec fn cross_player(first_player: Option<Player>) -> Player {
    if first_player == Some(Player::User) {
        Player::Computer
    } else {
        Player::User
    }
}

/// The mark that the user plays.
pub open spec fn user_mark(first_player: Option<Player>) -> Cell {
    if first_player == Some(Player::User) {
        Cell::Nought
    } else {
        Cell::Cross
    }
}

/// The mark that the computer plays.
pub open spec fn computer_mark(first_player: Option<Player>) -> Cell {
    if first_player == Some(Player::User) {
        Cell::Cross
    } else {
        Cell::Nought
    }
}

/// How a board is judged. A line of noughts is looked for before a line of
/// crosses; a board without a line is a draw once it is full.
pub open spec fn game_status(board: Seq<Cell>, first_player: Option<Player>) -> GameStatus {
    if has_line(board, Cell::Nought) {
        GameStatus::Settled(nought_player(first_player))
    } else if has_line(board, Cell::Cross) {
        GameStatus::Settled(cross_player(first_player))
    } else if is_full(board) {
        GameStatus::Draw
    } else {
        GameStatus::NotFinished
    }
}

/// The board with `mark` in cell `i`, every other cell as it was. An index
/// beyond the board changes nothing.
pub open spec fn place(board: Seq<Cell>, i: usize, mark: Cell) -> Seq<Cell> {
    if i < board.len() {
        board.update(i as int, mark)
    } else {
        board
    }
}

/// The game with `board` in place of its board, judged anew.
pub open spec fn with_board(m: ModelView, board: Seq<Cell>) -> ModelView {
    ModelView {
        first_player: m.first_player,
        board,
        status: game_status(board, m.first_player),
    }
}

/// The game after the user has taken cell `i`.
pub open spec fn after_user_move(m: ModelView, i: usize) -> ModelView {
    with_board(m, place(m.board, i, user_mark(m.first_player)))
}

/// The game after the computer has taken the cell it chose. Without a
/// choice the board stays and the game is only judged anew.
pub open spec fn after_computer_move(m: ModelView, choice: Option<usize>) -> ModelView {
    match choice {
        Some(i) => with_board(m, place(m.board, i, computer_mark(m.first_player))),
        None => with_board(m, m.board),
    }
}

/// The game with the order of play decided, nothing else touched.
pub open spec fn with_first_player(m: ModelView, first: Player) -> ModelView {
    ModelView { first_player: Some(first), board: m.board, status: m.status }
}

/// Whether `r` is what one computer move may make of `m`: the computer
/// takes one of the available cells, whichever it likes; on a full board it
/// takes none.
pub open spec fn is_computer_move(m: ModelView, r: ModelView) -> bool {
    if is_full(m.board) {
        r == after_computer_move(m, None)
    } else {
        exists|i: usize|
            is_available(m.board, i as int) && r == #[trigger] after_computer_move(m, Some(i))
    }
}

/// Whether `r` is what the rules may make of `m` on `message`.
///
/// A finished game stays as it is, whatever the message. Otherwise: no
/// message changes nothing; the choice of the order is recorded, and a
/// computer that moves first moves at once; a click places the user's mark,
/// and the computer answers unless that mark has ended the game.
pub open spec fn is_update(m: ModelView, message: Message, r: ModelView) -> bool {
    if m.status.is_terminal() {
        r == m
    } else {
        match message {
            Message::NoMessage => r == m,
            Message::PlayerSelected { user_play_first } => if user_play_first {
                r == with_first_player(m, Player::User)
            } else {
                is_computer_move(with_first_player(m, Player::Computer), r)
            },
            Message::CellClicked(i) => {
                let played = after_user_move(m, i);
                if played.status.is_terminal() {
                    r == played
                } else {
                    is_computer_move(played, r)
                }
            },
        }
    }
}

/// The cells in which two boards differ.
pub open spec fn changed_cells(before: Seq<Cell>, after: Seq<Cell>) -> Set<int> {
    Set::new(|i: int| 0 <= i < before.len() && before[i] != after[i])
}

/// Whether `after` is `before` with exactly `n` more cells filled: the
/// boards differ in `n` cells, each unfilled before and filled after.
pub open spec fn fills_exactly(before: Seq<Cell>, after: Seq<Cell>, n: nat) -> bool {
    &&& after.len() == before.len()
    &&& changed_cells(before, after).finite()
    &&& changed_cells(before, after).len() == n
    &&& forall|i: int| #[trigger]
        changed_cells(before, after).contains(i) ==> before[i] == Cell::Unfilled && after[i]
            != Cell::Unfilled
}

/// Whether `r` is `m` after the computer has opened the game: the computer
/// is recorded as the first player, and exactly one cell has been filled,
/// with a nought.
pub open spec fn is_computer_opening(m: ModelView, r: ModelView) -> bool {
    &&& r.first_player == Some(Player::Computer)
    &&& fills_exactly(m.board, r.board, 1)
    &&& forall|i: int| #[trigger]
        changed_cells(m.board, r.board).contains(i) ==> r.board[i] == Cell::Nought
}

/// Whether `r` is what a click on the free cell `i` may make of `m`. The
/// cell holds the user's mark, and any other cell that has changed holds
/// the computer's. If the user's mark completes a line, the game is settled
/// for the user and no other cell has changed; if it fills the board
/// without a line, the game is a draw and no other cell has changed;
/// otherwise the computer has answered, and exactly two cells are filled.
pub open spec fn is_click_outcome(m: ModelView, i: usize, r: ModelView) -> bool {
    let mine = user_mark(m.first_player);
    let board = place(m.board, i, mine);
    &&& r.board[i as int] == mine
    &&& r.first_player == m.first_player
    &&& forall|j: int| #[trigger]
        changed_cells(m.board, r.board).contains(j) && j != i ==> r.board[j] == computer_mark(
            m.first_player,
        )
    &&& if has_line(board, mine) {
        r.status == GameStatus::Settled(Player::User) && fills_exactly(m.board, r.board, 1)
    } else if is_full(board) {
        r.status == GameStatus::Draw && fills_exactly(m.board, r.board, 1)
    } else {
        fills_exactly(m.board, r.board, 2)
    }
}

/// Whether the status of a game is the one its board deserves.
pub open spec fn well_formed(m: ModelView) -> bool {
    &&& m.board.len() == 9
    &&& m.status == game_status(m.board, m.first_player)
}

} // verus!
