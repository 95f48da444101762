//! What holds of every game that the rules produce.

use vstd::prelude::*;
use crate::model::{Cell, GameStatus, Message, ModelView, Player};
use crate::rules::{
    after_computer_move, after_user_move, changed_cells, computer_mark, covers, covers_line,
    fills_exactly, game_status, has_line, is_available, is_click_outcome, is_computer_move,
    is_computer_opening, is_full, is_update, lemma_lines_are_three_cells, lemma_lines_on_board,
    line_holds, place, user_mark, well_formed, winning_lines, with_first_player,
};

verus! {

/// Indices that hold the three cells of a winning line make a bingo,
/// whatever else they hold and in whatever order.
pub proof fn lemma_line_is_bingo(indices: Seq<usize>, k: int)
    requires
        0 <= k < 8,
        covers(indices, winning_lines()[k]),
    ensures
        covers_line(indices),
{
    lemma_lines_on_board();
}

/// Indices that name at most two different cells make no bingo: not the
/// empty set, not one cell, not two cells of a winning line.
pub proof fn lemma_two_cells_are_no_bingo(indices: Seq<usize>, a: usize, b: usize)
    requires
        forall|n: int| 0 <= n < indices.len() ==> indices[n] == a || indices[n] == b,
    ensures
        !covers_line(indices),
{
    lemma_lines_on_board();
    lemma_lines_are_three_cells();
}

/// A move of either side changes no cell but the one it takes.
pub proof fn lemma_move_touches_one_cell(m: ModelView, i: usize)
    ensures
        forall|j: int|
            0 <= j < m.board.len() && j != i ==> after_user_move(m, i).board[j] == m.board[j],
        forall|j: int|
            0 <= j < m.board.len() && j != i ==> after_computer_move(m, Some(i)).board[j]
                == m.board[j],
        after_computer_move(m, None).board == m.board,
{
}

/// Placing a mark in an available cell fills exactly that cell.
pub proof fn lemma_place_fills_one(board: Seq<Cell>, i: usize, mark: Cell)
    requires
        is_available(board, i as int),
        mark != Cell::Unfilled,
    ensures
        fills_exactly(board, place(board, i, mark), 1),
        changed_cells(board, place(board, i, mark)) == set![i as int],
{
    assert(changed_cells(board, place(board, i, mark)) =~= set![i as int]);
}

/// Placing two marks, one after the other, each in a cell available at its
/// turn, fills exactly those two cells.
pub proof fn lemma_place_fills_two(board: Seq<Cell>, i: usize, first: Cell, j: usize, second: Cell)
    requires
        is_available(board, i as int),
        is_available(place(board, i, first), j as int),
        first != Cell::Unfilled,
        second != Cell::Unfilled,
    ensures
        i != j,
        fills_exactly(board, place(place(board, i, first), j, second), 2),
        changed_cells(board, place(place(board, i, first), j, second)) == set![i as int, j as int],
{
    assert(changed_cells(board, place(place(board, i, first), j, second)) =~= set![
        i as int,
        j as int,
    ]);
}

/// A mark placed in a free cell gives the other mark no line that it did
/// not have before.
pub proof fn lemma_place_gives_other_no_line(board: Seq<Cell>, i: usize, mark: Cell, other: Cell)
    requires
        board.len() == 9,
        mark != other,
        has_line(place(board, i, mark), other),
    ensures
        has_line(board, other),
{
    lemma_lines_on_board();
    let after = place(board, i, mark);
    let k = choose|k: int|
        0 <= k < winning_lines().len() && line_holds(after, #[trigger] winning_lines()[k], other);
    assert(line_holds(board, winning_lines()[k], other));
}

/// A finished game stays as it is: whatever the message, the rules hand
/// back the game they were given.
pub proof fn lemma_finished_game_is_kept(m: ModelView, message: Message, r: ModelView)
    requires
        m.status.is_terminal(),
        is_update(m, message, r),
    ensures
        r == m,
{
}

/// One computer move on a game whose board has a free cell fills exactly
/// one cell, with the computer's mark, and leaves the order of play alone.
pub proof fn lemma_computer_move_fills_one(m: ModelView, r: ModelView)
    requires
        m.board.len() == 9,
        !is_full(m.board),
        is_computer_move(m, r),
    ensures
        r.first_player == m.first_player,
        fills_exactly(m.board, r.board, 1),
        forall|i: int| #[trigger]
            changed_cells(m.board, r.board).contains(i) ==> r.board[i] == computer_mark(
                m.first_player,
            ),
        well_formed(r),
{
    let i = choose|i: usize|
        is_available(m.board, i as int) && r == #[trigger] after_computer_move(m, Some(i));
    lemma_place_fills_one(m.board, i, computer_mark(m.first_player));
}

/// When the user leaves the first move to the computer in a game that is
/// not finished, the computer is recorded as the first player and exactly
/// one cell is filled: with a nought, the first player's mark.
pub proof fn lemma_computer_opens(m: ModelView, r: ModelView)
    requires
        well_formed(m),
        m.status == GameStatus::NotFinished,
        is_update(m, (Message::PlayerSelected { user_play_first: false }), r),
    ensures
        is_computer_opening(m, r),
{
    lemma_computer_move_fills_one(with_first_player(m, Player::Computer), r);
}

/// When the user takes a free cell in a game that is not finished, one of
/// three things happens. The user's mark completes a line: the game is
/// settled for the user and only that cell is filled. Or it fills the
/// board without a line: the game is a draw and only that cell is filled.
/// Or the game goes on, the computer answers, and exactly two cells are
/// filled. In each case the clicked cell holds the user's mark.
pub proof fn lemma_click_fills_one_or_two(m: ModelView, i: usize, r: ModelView)
    requires
        well_formed(m),
        m.status == GameStatus::NotFinished,
        is_available(m.board, i as int),
        is_update(m, Message::CellClicked(i), r),
    ensures
        is_click_outcome(m, i, r),
        r.status == GameStatus::NotFinished ==> fills_exactly(m.board, r.board, 2),
{
    let mine = user_mark(m.first_player);
    let theirs = computer_mark(m.first_player);
    let played = after_user_move(m, i);
    lemma_place_fills_one(m.board, i, mine);
    if has_line(played.board, theirs) {
        lemma_place_gives_other_no_line(m.board, i, mine, theirs);
    }
    if !played.status.is_terminal() {
        let j = choose|j: usize|
            is_available(played.board, j as int) && r == #[trigger] after_computer_move(
                played,
                Some(j),
            );
        lemma_place_fills_two(m.board, i, mine, j, theirs);
    }
}

/// The rules keep a game well formed: the status of the game they hand back
/// is the one its board deserves.
pub proof fn lemma_update_keeps_well_formed(m: ModelView, message: Message, r: ModelView)
    requires
        well_formed(m),
        is_update(m, message, r),
    ensures
        well_formed(r),
{
    if !m.status.is_terminal() {
        match message {
            Message::NoMessage => {},
            Message::PlayerSelected { user_play_first } => {
                if user_play_first {
                    assert(game_status(m.board, Some(Player::User)) == GameStatus::NotFinished);
                } else {
                    lemma_computer_move_keeps(with_first_player(m, Player::Computer), r);
                }
            },
            Message::CellClicked(i) => {
                let played = after_user_move(m, i);
                if !played.status.is_terminal() {
                    lemma_computer_move_keeps(played, r);
                }
            },
        }
    }
}

/// A computer move judges the board it leaves.
proof fn lemma_computer_move_keeps(m: ModelView, r: ModelView)
    requires
        m.board.len() == 9,
        is_computer_move(m, r),
    ensures
        well_formed(r),
{
}

/// No move takes a mark off the board, and the order of play, once
/// decided, is only changed by deciding it again.
pub proof fn lemma_update_never_clears(m: ModelView, message: Message, r: ModelView)
    requires
        m.board.len() == 9,
        is_update(m, message, r),
    ensures
        r.board.len() == 9,
        forall|i: int| 0 <= i < 9 && m.board[i] != Cell::Unfilled ==> r.board[i] != Cell::Unfilled,
        message !is PlayerSelected ==> r.first_player == m.first_player,
        m.first_player is Some ==> r.first_player is Some,
{
}

} // verus!
