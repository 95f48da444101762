//! Reading and changing a board: which cells are free, whether a side has a
//! line, how the board is judged, and placing one mark.

use vstd::prelude::*;
use vstd::seq_lib::lemma_seq_contains_after_push;
use crate::model::{Board, Cell, GameStatus, Player};
use crate::rules::{
    covers, covers_line, cross_player, game_status, has_line, is_available, is_full,
    lemma_lines_on_board, line_holds, nought_player, place, winning_lines,
};

verus! {

/// Whether `x` is among `indices`.
pub(crate) fn holds(indices: &Vec<usize>, x: usize) -> (found: bool)
    ensures
        found == indices@.contains(x),
{
    for j in 0..indices.len()
        invariant
            forall|n: int| 0 <= n < j ==> indices@[n] != x,
    {
        if indices[j] == x {
            return true;
        }
    }
    false
}

/// Whether `indices` holds all three cells of one of the eight winning
/// lines.
pub fn has_bingo(indices: Vec<usize>) -> (bingo: bool)
    ensures
        bingo == covers_line(indices@),
{
    let pattern: [(usize, usize, usize); 8] = [
        (0, 1, 2),
        (3, 4, 5),
        (6, 7, 8),
        (0, 3, 6),
        (1, 4, 7),
        (2, 5, 8),
        (0, 4, 8),
        (2, 4, 6),
    ];
    assert(pattern@ =~= winning_lines());
    for k in 0..8
        invariant
            pattern@ == winning_lines(),
            forall|n: int| 0 <= n < k ==> !covers(indices@, #[trigger] winning_lines()[n]),
    {
        let (a, b, c) = pattern[k];
        if holds(&indices, a) && holds(&indices, b) && holds(&indices, c) {
            return true;
        }
    }
    false
}

/// The indices of the unfilled cells, in rising order.
pub fn get_available_cells(board: &Board) -> (availables: Vec<usize>)
    ensures
        forall|i: usize| availables@.contains(i) <==> is_available(board@, i as int),
        forall|a: int, b: int|
            0 <= a < b < availables@.len() ==> availables@[a] < availables@[b],
{
    let mut availables: Vec<usize> = Vec::new();
    for i in 0..9
        invariant
            forall|n: usize| availables@.contains(n) <==> n < i && is_available(board@, n as int),
            forall|a: int, b: int|
                0 <= a < b < availables@.len() ==> availables@[a] < availables@[b],
    {
        broadcast use lemma_seq_contains_after_push;

        let free = match board[i] {
            Cell::Unfilled => true,
            _ => false,
        };
        if free {
            let ghost before = availables@;
            availables.push(i);
            assert forall|a: int, b: int| 0 <= a < b < availables@.len() implies availables@[a]
                < availables@[b] by {
                if b == before.len() {
                    assert(before.contains(before[a]));
                }
            }
        }
    }
    availables
}

/// A copy of the board with `cell` at `selected_index` and every other cell
/// as it was. An index beyond the board gives an unchanged copy.
pub fn update_board_helper(board: &Board, selected_index: usize, cell: Cell) -> (new_board: Board)
    ensures
        new_board@ == place(board@, selected_index, cell),
        forall|j: int| 0 <= j < 9 && j != selected_index ==> new_board@[j] == board@[j],
        selected_index < 9 ==> new_board@[selected_index as int] == cell,
{
    let mut new_board = [Cell::Unfilled;9];
    for i in 0..9
        invariant
            forall|j: int| 0 <= j < i ==> new_board@[j] == place(board@, selected_index, cell)[j],
    {
        if i == selected_index {
            new_board[i] = cell
        } else {
            new_board[i] = board[i]
        }
    }
    assert(new_board@ =~= place(board@, selected_index, cell));
    new_board
}

/// A side's indices cover a line exactly when its mark fills one.
proof fn lemma_covers_iff_has_line(indices: Seq<usize>, board: Seq<Cell>, mark: Cell)
    requires
        board.len() == 9,
        forall|i: usize| indices.contains(i) <==> i < 9 && board[i as int] == mark,
    ensures
        covers_line(indices) == has_line(board, mark),
{
    lemma_lines_on_board();
    if covers_line(indices) {
        let k = choose|k: int|
            0 <= k < winning_lines().len() && covers(indices, #[trigger] winning_lines()[k]);
        assert(line_holds(board, winning_lines()[k], mark));
    }
    if has_line(board, mark) {
        let k = choose|k: int|
            0 <= k < winning_lines().len() && line_holds(
                board,
                #[trigger] winning_lines()[k],
                mark,
            );
        assert(covers(indices, winning_lines()[k]));
    }
}

/// Judges a board: settled for the side whose mark fills a line, noughts
/// looked for first; a draw when no line is filled and no cell is free;
/// not finished otherwise.
pub fn update_game_status(board: &Board, first_player: Option<Player>) -> (status: GameStatus)
    ensures
        status == game_status(board@, first_player),
        has_line(board@, Cell::Nought) ==> status == GameStatus::Settled(
            nought_player(first_player),
        ),
        !has_line(board@, Cell::Nought) && has_line(board@, Cell::Cross) ==> status
            == GameStatus::Settled(cross_player(first_player)),
        !has_line(board@, Cell::Nought) && !has_line(board@, Cell::Cross) && is_full(board@)
            ==> status == GameStatus::Draw,
        !has_line(board@, Cell::Nought) && !has_line(board@, Cell::Cross) && !is_full(board@)
            ==> status == GameStatus::NotFinished,
{
    let mut noughts: Vec<usize> = Vec::new();
    let mut crosses: Vec<usize> = Vec::new();
    let mut num_unfilled: usize = 0;
    for i in 0..9
        invariant
            forall|n: usize| noughts@.contains(n) <==> n < i && board@[n as int] == Cell::Nought,
            forall|n: usize| crosses@.contains(n) <==> n < i && board@[n as int] == Cell::Cross,
            num_unfilled <= i,
            num_unfilled == 0 <==> forall|n: int| 0 <= n < i ==> !is_available(board@, n),
    {
        broadcast use lemma_seq_contains_after_push;

        if let Cell::Nought = board[i] {
            noughts.push(i);
        } else if let Cell::Cross = board[i] {
            crosses.push(i);
        } else {
            assert(is_available(board@, i as int));
            num_unfilled += 1;
        }
    }
    proof {
        lemma_covers_iff_has_line(noughts@, board@, Cell::Nought);
        lemma_covers_iff_has_line(crosses@, board@, Cell::Cross);
    }
    let user_first = if let Some(Player::User) = first_player {
        true
    } else {
        false
    };
    if has_bingo(noughts) {
        return GameStatus::Settled(
            if user_first {
                Player::User
            } else {
                Player::Computer
            },
        );
    }
    if has_bingo(crosses) {
        return GameStatus::Settled(
            if user_first {
                Player::Computer
            } else {
                Player::User
            },
        );
    }
    if num_unfilled == 0 {
        return GameStatus::Draw;
    }
    GameStatus::NotFinished
}

} // verus!
