use tictactoe::model::{Board, Cell, GameStatus, Message, Model, Player};
use tictactoe::view::{
    ask_move, ask_user_to_be_first, render_board, select_first_player_view, view, Input,
};

fn board_with(noughts: &[usize], crosses: &[usize]) -> Board {
    let mut board = [Cell::Unfilled; 9];
    for &i in noughts {
        board[i] = Cell::Nought;
    }
    for &i in crosses {
        board[i] = Cell::Cross;
    }
    board
}

fn first_answer(lines: &[&str]) -> Option<bool> {
    for line in lines {
        if let Ok(answer) = ask_user_to_be_first(Some(line)) {
            return Some(answer);
        }
    }
    None
}

#[test]
fn cells_are_shown_as_one_character() {
    assert_eq!(Cell::Unfilled.as_str(), " ");
    assert_eq!(Cell::Nought.as_str(), "o");
    assert_eq!(Cell::Cross.as_str(), "x");
}

#[test]
fn empty_board_is_shown_with_blanks() {
    assert_eq!(
        render_board(&[Cell::Unfilled; 9]),
        "0|1|2   | | \n3|4|5   | | \n6|7|8   | | \n"
    );
}

#[test]
fn board_is_shown_row_by_row() {
    assert_eq!(
        render_board(&board_with(&[0, 4, 8], &[2, 3])),
        "0|1|2  o| |x\n3|4|5  x|o| \n6|7|8   | |o\n"
    );
    assert_eq!(
        render_board(&board_with(&[0, 1, 5, 6, 8], &[2, 3, 4, 7])),
        "0|1|2  o|o|x\n3|4|5  x|x|o\n6|7|8  o|x|o\n"
    );
}

#[test]
fn yes_and_no_are_read_from_the_first_character() {
    assert_eq!(ask_user_to_be_first(Some("y\n")), Ok(true));
    assert_eq!(ask_user_to_be_first(Some("n\n")), Ok(false));
    assert_eq!(ask_user_to_be_first(Some("yes please\n")), Ok(true));
    assert_eq!(ask_user_to_be_first(Some("no\n")), Ok(false));
    assert_eq!(ask_user_to_be_first(Some("y")), Ok(true));
}

#[test]
fn other_lines_are_answered_with_guidance() {
    let guidance = Err(String::from("Please input 'y' or 'n' :\n"));
    assert_eq!(ask_user_to_be_first(Some("z\n")), guidance);
    assert_eq!(ask_user_to_be_first(Some("Y\n")), guidance);
    assert_eq!(ask_user_to_be_first(Some(" y\n")), guidance);
    assert_eq!(ask_user_to_be_first(Some("\n")), guidance);
    assert_eq!(ask_user_to_be_first(Some("")), guidance);
    assert_eq!(ask_user_to_be_first(Some("\u{e9}y\n")), guidance);
}

#[test]
fn unreadable_line_is_passed_over_in_silence() {
    assert_eq!(ask_user_to_be_first(None), Err(String::new()));
}

#[test]
fn first_valid_answer_wins() {
    assert_eq!(first_answer(&["z\n", "n\n"]), Some(false));
    assert_eq!(first_answer(&["z\n", "\n", "y\n", "n\n"]), Some(true));
    assert_eq!(first_answer(&["z\n", "7\n"]), None);
}

#[test]
fn order_of_play_becomes_a_message() {
    assert_eq!(
        select_first_player_view(Some("y\n")),
        Ok(Message::PlayerSelected { user_play_first: true })
    );
    assert_eq!(
        select_first_player_view(Some("n\n")),
        Ok(Message::PlayerSelected { user_play_first: false })
    );
    assert_eq!(
        select_first_player_view(Some("q\n")),
        Err(String::from("Please input 'y' or 'n' :\n"))
    );
    assert_eq!(select_first_player_view(None), Err(String::new()));
}

#[test]
fn move_is_read_from_the_first_character() {
    let available = vec![1, 2, 5, 6, 7];
    assert_eq!(ask_move(&available, Some("1\n")), Ok(1));
    assert_eq!(ask_move(&available, Some("7\n")), Ok(7));
    assert_eq!(ask_move(&available, Some("52\n")), Ok(5));
    assert_eq!(ask_move(&available, Some("6")), Ok(6));
    assert_eq!(ask_move(&vec![0, 8], Some("0\n")), Ok(0));
    assert_eq!(ask_move(&vec![0, 8], Some("8\n")), Ok(8));
}

#[test]
fn taken_cell_is_named_in_the_guidance() {
    let available = vec![1, 2, 5, 6, 7];
    assert_eq!(
        ask_move(&available, Some("0\n")),
        Err(String::from("The cell 0 is not available\nPlease input [0-8] :\n"))
    );
    assert_eq!(
        ask_move(&available, Some("8\n")),
        Err(String::from("The cell 8 is not available\nPlease input [0-8] :\n"))
    );
    assert_eq!(
        ask_move(&available, Some("9\n")),
        Err(String::from("The cell 9 is not available\nPlease input [0-8] :\n"))
    );
    assert_eq!(
        ask_move(&Vec::new(), Some("4\n")),
        Err(String::from("The cell 4 is not available\nPlease input [0-8] :\n"))
    );
}

#[test]
fn line_without_digit_is_answered_with_guidance() {
    let available = vec![1, 2, 5, 6, 7];
    let guidance = Err(String::from("Please input [0-8] :\n"));
    assert_eq!(ask_move(&available, Some("x\n")), guidance);
    assert_eq!(ask_move(&available, Some(" 1\n")), guidance);
    assert_eq!(ask_move(&available, Some("-1\n")), guidance);
    assert_eq!(ask_move(&available, Some("+1\n")), guidance);
    assert_eq!(ask_move(&available, Some("\n")), guidance);
    assert_eq!(ask_move(&available, Some("")), guidance);
    assert_eq!(ask_move(&available, Some("\u{661}\n")), guidance);
    assert_eq!(ask_move(&available, None), guidance);
}

#[test]
fn view_opens_with_the_question_of_order() {
    let screen = view(&Model::new(), Input::Opened);
    assert_eq!(screen.text, "Do you want to play first? [y/n]: \n");
    assert_eq!(screen.message, None);
}

#[test]
fn view_reads_the_order_of_play() {
    let m = Model::new();
    let screen = view(&m, Input::Line("z\n"));
    assert_eq!(screen.text, "Please input 'y' or 'n' :\n");
    assert_eq!(screen.message, None);
    let screen = view(&m, Input::Unreadable);
    assert_eq!(screen.text, "");
    assert_eq!(screen.message, None);
    let screen = view(&m, Input::Line("n\n"));
    assert_eq!(screen.text, "");
    assert_eq!(screen.message, Some(Message::PlayerSelected { user_play_first: false }));
    let screen = view(&m, Input::Line("y\n"));
    assert_eq!(screen.text, "");
    assert_eq!(screen.message, Some(Message::PlayerSelected { user_play_first: true }));
}

#[test]
fn view_opens_a_game_under_way_with_board_and_question() {
    let m = Model {
        first_player: Some(Player::User),
        board: board_with(&[4], &[0]),
        status: GameStatus::NotFinished,
    };
    let screen = view(&m, Input::Opened);
    assert_eq!(
        screen.text,
        "0|1|2  x| | \n3|4|5   |o| \n6|7|8   | | \nWhat's your move? [0-8]: \n"
    );
    assert_eq!(screen.message, None);
}

#[test]
fn view_reads_the_move() {
    let m = Model {
        first_player: Some(Player::Computer),
        board: board_with(&[4], &[0]),
        status: GameStatus::NotFinished,
    };
    let screen = view(&m, Input::Line("8\n"));
    assert_eq!(screen.text, "");
    assert_eq!(screen.message, Some(Message::CellClicked(8)));
    let screen = view(&m, Input::Line("4\n"));
    assert_eq!(screen.text, "The cell 4 is not available\nPlease input [0-8] :\n");
    assert_eq!(screen.message, None);
    let screen = view(&m, Input::Line("y\n"));
    assert_eq!(screen.text, "Please input [0-8] :\n");
    assert_eq!(screen.message, None);
    let screen = view(&m, Input::Unreadable);
    assert_eq!(screen.text, "Please input [0-8] :\n");
    assert_eq!(screen.message, None);
}

#[test]
fn view_closes_a_draw() {
    let m = Model {
        first_player: Some(Player::User),
        board: board_with(&[0, 1, 5, 6, 8], &[2, 3, 4, 7]),
        status: GameStatus::Draw,
    };
    for input in [Input::Opened, Input::Line("3\n"), Input::Unreadable] {
        let screen = view(&m, input);
        assert_eq!(
            screen.text,
            "0|1|2  o|o|x\n3|4|5  x|x|o\n6|7|8  o|x|o\n======== Draw! =======\n"
        );
        assert_eq!(screen.message, Some(Message::NoMessage));
    }
}

#[test]
fn view_closes_a_won_game() {
    let m = Model {
        first_player: Some(Player::User),
        board: board_with(&[0, 1, 2], &[3, 4]),
        status: GameStatus::Settled(Player::User),
    };
    let screen = view(&m, Input::Opened);
    assert_eq!(
        screen.text,
        "0|1|2  o|o|o\n3|4|5  x|x| \n6|7|8   | | \n======== You win, nice! =======\n"
    );
    assert_eq!(screen.message, Some(Message::NoMessage));
}

#[test]
fn view_closes_a_lost_game() {
    let m = Model {
        first_player: None,
        board: board_with(&[0, 1, 8], &[3, 4, 5]),
        status: GameStatus::Settled(Player::Computer),
    };
    let screen = view(&m, Input::Opened);
    assert_eq!(
        screen.text,
        "0|1|2  o|o| \n3|4|5  x|x|x\n6|7|8   | |o\n======== You lose, too bad! Try again! =======\n"
    );
    assert_eq!(screen.message, Some(Message::NoMessage));
}
