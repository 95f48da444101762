//! What the game shows and how it reads what the user types. Nothing here
//! prints or reads: the text to show is handed out, the line that was read
//! is handed in.

use vstd::prelude::*;
use vstd::string::*;
use crate::board::{get_available_cells, holds};
use crate::model::{Board, Cell, GameStatus, Message, Model, ModelView, Player};
use crate::rules::is_available;

verus! {

/// The character that stands for a cell: a blank while it is unfilled, `o`
/// for the first player's mark, `x` for the other's.
pub open spec fn symbol(cell: Cell) -> char {
    match cell {
        Cell::Unfilled => ' ',
        Cell::Nought => 'o',
        Cell::Cross => 'x',
    }
}

/// One row of the board: the indices of its cells, then what they hold.
pub open spec fn row_text(label: Seq<char>, a: Cell, b: Cell, c: Cell) -> Seq<char> {
    label + seq![symbol(a)] + "|"@ + seq![symbol(b)] + "|"@ + seq![symbol(c)] + "\n"@
}

/// The board as it is shown: three rows, each ended by a line feed.
pub open spec fn board_text(board: Seq<Cell>) -> Seq<char> {
    row_text("0|1|2  "@, board[0], board[1], board[2]) + row_text(
        "3|4|5  "@,
        board[3],
        board[4],
        board[5],
    ) + row_text("6|7|8  "@, board[6], board[7], board[8])
}

/// The line that closes a finished game. A game that is not finished has
/// none.
pub open spec fn banner_text(status: GameStatus) -> Seq<char> {
    match status {
        GameStatus::Draw => "======== Draw! =======\n"@,
        GameStatus::Settled(Player::User) => "======== You win, nice! =======\n"@,
        GameStatus::Settled(Player::Computer) => "======== You lose, too bad! Try again! =======\n"@,
        GameStatus::NotFinished => Seq::empty(),
    }
}

/// The answer that a line gives to a yes-or-no question: its first
/// character decides, `y` for yes and `n` for no.
pub open spec fn yes_no_answer(input: Option<&str>) -> Option<bool> {
    match input {
        Some(line) => if line@.len() > 0 && line@[0] == 'y' {
            Some(true)
        } else if line@.len() > 0 && line@[0] == 'n' {
            Some(false)
        } else {
            None
        },
        None => None,
    }
}

/// The number that a decimal digit stands for.
pub open spec fn digit_value(c: char) -> Option<usize> {
    if '0' <= c <= '9' {
        Some((c as int - '0' as int) as usize)
    } else {
        None
    }
}

/// The number that a line begins with, if it begins with a digit.
pub open spec fn leading_digit(input: Option<&str>) -> Option<usize> {
    match input {
        Some(line) => if line@.len() > 0 {
            digit_value(line@[0])
        } else {
            None
        },
        None => None,
    }
}

/// The cell that a line chooses: the number it begins with, if that cell is
/// among those on offer.
pub open spec fn move_answer(available: Seq<usize>, input: Option<&str>) -> Option<usize> {
    match leading_digit(input) {
        Some(d) => if available.contains(d) {
            Some(d)
        } else {
            None
        },
        None => None,
    }
}

/// What the user is told before being asked again for a cell. A digit that
/// names a cell not on offer is answered with that digit.
pub open spec fn move_guidance(input: Option<&str>) -> Seq<char> {
    match input {
        Some(line) => if leading_digit(input) is Some {
            "The cell "@ + seq![line@[0]] + " is not available\n"@ + "Please input [0-8] :\n"@
        } else {
            "Please input [0-8] :\n"@
        },
        None => "Please input [0-8] :\n"@,
    }
}

/// What the user is told before being asked again for yes or no. A line
/// that could not be read is passed over in silence.
pub open spec fn yes_no_guidance(input: Option<&str>) -> Seq<char> {
    match input {
        Some(line) => "Please input 'y' or 'n' :\n"@,
        None => Seq::empty(),
    }
}

impl Cell {
    /// The cell as it is shown on the board, one character long.
    pub fn as_str(self) -> (s: &'static str)
        ensures
            s@ == seq![symbol(self)],
    {
        proof {
            reveal_strlit(" ");
            reveal_strlit("o");
            reveal_strlit("x");
        }
        let s = match self {
            Cell::Unfilled => " ",
            Cell::Nought => "o",
            Cell::Cross => "x",
        };
        assert(s@ =~= seq![symbol(self)]);
        s
    }
}

/// Adds one row of the board to `text`.
fn push_row(text: &mut String, label: &str, a: Cell, b: Cell, c: Cell)
    ensures
        final(text)@ == old(text)@ + row_text(label@, a, b, c),
{
    text.append(label);
    text.append(a.as_str());
    text.append("|");
    text.append(b.as_str());
    text.append("|");
    text.append(c.as_str());
    text.append("\n");
    assert(text@ =~= old(text)@ + row_text(label@, a, b, c));
}

/// The board as text: on each of three lines the indices of a row and,
/// after two blanks, what its cells hold.
pub fn render_board(board: &Board) -> (text: String)
    ensures
        text@ == board_text(board@),
{
    let mut text = String::new();
    push_row(&mut text, "0|1|2  ", board[0], board[1], board[2]);
    push_row(&mut text, "3|4|5  ", board[3], board[4], board[5]);
    push_row(&mut text, "6|7|8  ", board[6], board[7], board[8]);
    assert(text@ =~= board_text(board@));
    text
}

/// The first character of a line, if it has one.
fn first_char(line: &str) -> (c: Option<char>)
    ensures
        c == if line@.len() > 0 {
            Some(line@[0])
        } else {
            None
        },
{
    if line.is_empty() {
        None
    } else {
        Some(line.get_char(0))
    }
}

/// The number that a decimal digit stands for.
fn parse_digit(c: char) -> (d: Option<usize>)
    ensures
        d == digit_value(c),
{
    match c {
        '0' => Some(0),
        '1' => Some(1),
        '2' => Some(2),
        '3' => Some(3),
        '4' => Some(4),
        '5' => Some(5),
        '6' => Some(6),
        '7' => Some(7),
        '8' => Some(8),
        '9' => Some(9),
        _ => None,
    }
}

/// What the user's line says to "play first?". `Ok` holds the answer: yes
/// if the line begins with `y`, no if it begins with `n`. Any other line,
/// and a line that could not be read (`None`), is refused: `Err` holds what
/// to show before the next line is read.
pub fn ask_user_to_be_first(input: Option<&str>) -> (reply: Result<bool, String>)
    ensures
        match reply {
            Ok(first) => yes_no_answer(input) == Some(first),
            Err(guidance) => yes_no_answer(input) is None && guidance@ == yes_no_guidance(input),
        },
{
    match input {
        Some(line) => {
            let first_letter = first_char(line);
            match first_letter {
                Some('y') => Ok(true),
                Some('n') => Ok(false),
                _ => Err(String::from_str("Please input 'y' or 'n' :\n")),
            }
        },
        None => Err(String::new()),
    }
}

/// What the user's line says to "your move?". `Ok` holds the chosen cell:
/// the digit that the line begins with, if that cell is among `available`.
/// Any other line, and a line that could not be read (`None`), is refused:
/// `Err` holds what to show before the next line is read.
pub fn ask_move(available: &Vec<usize>, input: Option<&str>) -> (reply: Result<usize, String>)
    ensures
        match reply {
            Ok(i) => move_answer(available@, input) == Some(i),
            Err(guidance) => move_answer(available@, input) is None && guidance@ == move_guidance(
                input,
            ),
        },
{
    if let Some(line) = input {
        let ans = match first_char(line) {
            Some(c) => parse_digit(c),
            None => None,
        };
        if let Some(i) = ans {
            if holds(available, i) {
                return Ok(i);
            } else {
                let mut guidance = String::from_str("The cell ");
                guidance.append(line.substring_char(0, 1));
                guidance.append(" is not available\n");
                guidance.append("Please input [0-8] :\n");
                assert(line@.subrange(0, 1) =~= seq![line@[0]]);
                return Err(guidance);
            }
        }
    }
    Err(String::from_str("Please input [0-8] :\n"))
}

/// The order of play that the user's line asks for, as a message to the
/// rules, or what to show before the next line is read.
pub fn select_first_player_view(input: Option<&str>) -> (reply: Result<Message, String>)
    ensures
        match reply {
            Ok(message) => yes_no_answer(input) matches Some(first) && message
                == (Message::PlayerSelected { user_play_first: first }),
            Err(guidance) => yes_no_answer(input) is None && guidance@ == yes_no_guidance(input),
        },
{
    match ask_user_to_be_first(input) {
        Ok(do_user_play_first) => Ok(Message::PlayerSelected { user_play_first: do_user_play_first }),
        Err(guidance) => Err(guidance),
    }
}

/// What has happened since the view last had its say.
#[derive(Debug, Copy, Clone)]
pub enum Input<'a> {
    /// Nothing yet: the view has just been opened on the game.
    Opened,
    /// The user has typed this line.
    Line(&'a str),
    /// A line was asked for and could not be read.
    Unreadable,
}

impl<'a> Input<'a> {
    /// The line that was read, if one was.
    pub open spec fn line(self) -> Option<&'a str> {
        match self {
            Input::Line(line) => Some(line),
            _ => None,
        }
    }
}

/// What the view answers: the text to show now, and the message for the
/// rules once there is one. While there is none, another line is wanted.
#[derive(Debug, PartialEq, Eq)]
pub struct Screen {
    pub text: String,
    pub message: Option<Message>,
}

/// The message that the view has for the rules. A finished game needs no
/// answer from the user. Otherwise the line that was read decides: on the
/// order of play while that is open, on the user's next cell after that.
pub open spec fn view_message(m: ModelView, input: Input) -> Option<Message> {
    if m.status.is_terminal() {
        Some(Message::NoMessage)
    } else if m.first_player is None {
        match yes_no_answer(input.line()) {
            Some(first) => Some(Message::PlayerSelected { user_play_first: first }),
            None => None,
        }
    } else {
        match leading_digit(input.line()) {
            Some(i) => if is_available(m.board, i as int) {
                Some(Message::CellClicked(i))
            } else {
                None
            },
            None => None,
        }
    }
}

/// The text that the view shows. A finished game is shown with its closing
/// line. Otherwise the view opens with its question, below the board once
/// the game is under way, and answers a line that it cannot accept with
/// guidance; a line that it accepts needs no text.
pub open spec fn view_text(m: ModelView, input: Input) -> Seq<char> {
    if m.status.is_terminal() {
        board_text(m.board) + banner_text(m.status)
    } else if m.first_player is None {
        if input is Opened {
            "Do you want to play first? [y/n]: \n"@
        } else if yes_no_answer(input.line()) is Some {
            Seq::empty()
        } else {
            yes_no_guidance(input.line())
        }
    } else {
        if input is Opened {
            board_text(m.board) + "What's your move? [0-8]: \n"@
        } else if view_message(m, input) is Some {
            Seq::empty()
        } else {
            move_guidance(input.line())
        }
    }
}

/// One pass of the view over `model`: what to show, and the message for the
/// rules if the user's input has settled it. A message that clicks a cell
/// names a cell that is free.
pub fn view(model: &Model, input: Input) -> (screen: Screen)
    ensures
        screen.text@ == view_text(model@, input),
        screen.message == view_message(model@, input),
        screen.message matches Some(Message::CellClicked(i)) ==> is_available(
            model.board@,
            i as int,
        ),
{
    if let GameStatus::Draw = model.status {
        let mut text = render_board(&model.board);
        text.append("======== Draw! =======\n");
        Screen { text, message: Some(Message::NoMessage) }
    } else if let GameStatus::Settled(player) = model.status {
        let mut text = render_board(&model.board);
        match player {
            Player::User => text.append("======== You win, nice! =======\n"),
            Player::Computer => text.append("======== You lose, too bad! Try again! =======\n"),
        }
        Screen { text, message: Some(Message::NoMessage) }
    } else if model.first_player.is_none() {
        let line = match input {
            Input::Opened => {
                return Screen {
                    text: String::from_str("Do you want to play first? [y/n]: \n"),
                    message: None,
                };
            },
            Input::Line(line) => Some(line),
            Input::Unreadable => None,
        };
        match select_first_player_view(line) {
            Ok(message) => Screen { text: String::new(), message: Some(message) },
            Err(text) => Screen { text, message: None },
        }
    } else {
        let line = match input {
            Input::Opened => {
                let mut text = render_board(&model.board);
                text.append("What's your move? [0-8]: \n");
                return Screen { text, message: None };
            },
            Input::Line(line) => Some(line),
            Input::Unreadable => None,
        };
        let available = get_available_cells(&model.board);
        match ask_move(&available, line) {
            Ok(x) => Screen { text: String::new(), message: Some(Message::CellClicked(x)) },
            Err(text) => Screen { text, message: None },
        }
    }
}

} // verus!
