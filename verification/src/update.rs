//! The rules at work: what a message makes of a game.

use vstd::prelude::*;
use crate::board::{get_available_cells, update_board_helper, update_game_status};
use crate::laws::{
    lemma_click_fills_one_or_two, lemma_computer_opens, lemma_update_keeps_well_formed,
};
use crate::model::{Cell, GameStatus, Message, Model, Player};
use crate::random::shuffle;
use crate::rules::{
    after_computer_move, after_user_move, is_available, is_click_outcome, is_computer_move,
    is_computer_opening, is_update, well_formed, with_first_player,
};

verus! {

/// Places the user's mark in `selected_cell` and judges the board anew.
pub fn update_board_with_user_move(model: Model, selected_cell: usize) -> (played: Model)
    ensures
        played@ == after_user_move(model@, selected_cell),
{
    let user_cell_type = if let Some(Player::User) = model.first_player {
        Cell::Nought
    } else {
        Cell::Cross
    };
    let new_board = update_board_helper(&model.board, selected_cell, user_cell_type);
    Model {
        first_player: model.first_player,
        board: new_board,
        status: update_game_status(&new_board, model.first_player),
    }
}

/// Places the computer's mark in the cell it chose and judges the board
/// anew. Without a choice the board stays as it is.
pub fn update_board_with_computer_move(model: Model, choice: Option<usize>) -> (played: Model)
    ensures
        played@ == after_computer_move(model@, choice),
{
    let computer_cell_type = if let Some(Player::User) = model.first_player {
        Cell::Cross
    } else {
        Cell::Nought
    };
    let new_board = match choice {
        Some(i) => update_board_helper(&model.board, i, computer_cell_type),
        None => model.board,
    };
    Model {
        first_player: model.first_player,
        board: new_board,
        status: update_game_status(&new_board, model.first_player),
    }
}

/// Lets the computer take one of the unfilled cells at random. Which one it
/// takes is open; that it takes exactly one of them, if there is one, is not.
pub fn update_board_with_random_play_computer_move(model: Model) -> (played: Model)
    ensures
        is_computer_move(model@, played@),
{
    let mut availables = get_available_cells(&model.board);
    let ghost sorted = availables@;
    let mut rng = rand::thread_rng();
    shuffle(&mut availables, &mut rng);
    let ghost shuffled = availables@;
    let choice = availables.pop();
    proof {
        sorted.to_multiset_ensures();
        shuffled.to_multiset_ensures();
        match choice {
            Some(i) => {
                assert(shuffled[shuffled.len() - 1] == i);
                assert(shuffled.to_multiset().count(i) > 0);
                assert(sorted.to_multiset().count(i) > 0);
            },
            None => {
                assert forall|i: int| !is_available(model.board@, i) by {
                    if is_available(model.board@, i) {
                        assert(sorted.to_multiset().count(i as usize) > 0);
                    }
                }
            },
        }
    }
    update_board_with_computer_move(model, choice)
}

/// Records who moves first. A computer that moves first moves at once.
pub fn update_player_selection(model: Model, is_player_first: bool) -> (chosen: Model)
    ensures
        is_player_first ==> chosen@ == with_first_player(model@, Player::User),
        !is_player_first ==> is_computer_move(
            with_first_player(model@, Player::Computer),
            chosen@,
        ),
{
    if is_player_first {
        Model { first_player: Some(Player::User), board: model.board, status: model.status }
    } else {
        let new_model = Model {
            first_player: Some(Player::Computer),
            board: model.board,
            status: model.status,
        };
        update_board_with_random_play_computer_move(new_model)
    }
}

/// The user takes `selected_cell`; unless that ends the game, the computer
/// answers with a move of its own.
pub fn update_board(model: Model, selected_cell: usize) -> (played: Model)
    ensures
        after_user_move(model@, selected_cell).status.is_terminal() ==> played@ == after_user_move(
            model@,
            selected_cell,
        ),
        !after_user_move(model@, selected_cell).status.is_terminal() ==> is_computer_move(
            after_user_move(model@, selected_cell),
            played@,
        ),
{
    let user_played = update_board_with_user_move(model, selected_cell);
    if user_played.status.is_finished() {
        user_played
    } else {
        update_board_with_random_play_computer_move(user_played)
    }
}

/// What the rules make of `model` on `message`.
///
/// A finished game is handed back as it is, and so is any game when there
/// is no message. A game whose status fits its board stays such a game.
/// In a game that is not finished, a computer that is given the first move
/// fills exactly one cell, and a click on a free cell fills that cell and,
/// unless it ends the game, one more.
pub fn update(model: Model, message: Message) -> (next: Model)
    ensures
        is_update(model@, message, next@),
        model.status.is_terminal() || message == Message::NoMessage ==> next == model,
        well_formed(model@) ==> well_formed(next@),
        well_formed(model@) && model.status == GameStatus::NotFinished && message
            == (Message::PlayerSelected { user_play_first: false }) ==> is_computer_opening(
            model@,
            next@,
        ),
        message matches Message::CellClicked(i) ==> (well_formed(model@) && model.status
            == GameStatus::NotFinished && is_available(model.board@, i as int)
            ==> is_click_outcome(model@, i, next@)),
{
    let next = if model.status.is_finished() {
        model
    } else {
        match message {
            Message::CellClicked(selected_cell) => update_board(model, selected_cell),
            Message::PlayerSelected { user_play_first: flag } => update_player_selection(
                model,
                flag,
            ),
            Message::NoMessage => model,
        }
    };
    proof {
        if well_formed(model@) {
            lemma_update_keeps_well_formed(model@, message, next@);
            if model.status == GameStatus::NotFinished {
                match message {
                    Message::CellClicked(i) => {
                        if is_available(model.board@, i as int) {
                            lemma_click_fills_one_or_two(model@, i, next@);
                        }
                    },
                    Message::PlayerSelected { user_play_first } => {
                        if !user_play_first {
                            lemma_computer_opens(model@, next@);
                        }
                    },
                    Message::NoMessage => {},
                }
            }
        }
    }
    next
}

} // verus!
