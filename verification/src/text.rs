//! Words in and words out: the names of the moves, and the commands that a
//! player types.

use crate::game::{GameOutcome, GameResult, Move};
use vstd::prelude::*;
use vstd::string::StringExecFns;

verus! {

/// What `str::to_lowercase` makes of a text.
pub uninterp spec fn lowercase_of(text: Seq<char>) -> Seq<char>;

/// What `str::trim` leaves of a text.
pub uninterp spec fn trimmed(text: Seq<char>) -> Seq<char>;

/// What `char::to_uppercase` makes of a character; it can be more than one
/// character.
pub uninterp spec fn uppercase_of(letter: char) -> Seq<char>;

/// Lowercases a text with `str::to_lowercase`.
///
/// Trusted, not proved: the result is a function of the text alone, here
/// called `lowercase_of`. Nothing more is claimed about it.
#[verifier::external_body]
pub(crate) fn lowercase(text: &str) -> (lowered: String)
    ensures
        lowered@ == lowercase_of(text@),
{
    text.to_lowercase()
}

/// Removes white space from both ends of a text with `str::trim`.
///
/// Trusted, not proved: the result is a function of the text alone, here
/// called `trimmed`. Nothing more is claimed about it.
#[verifier::external_body]
pub(crate) fn trim<'a>(text: &'a str) -> (inner: &'a str)
    ensures
        inner@ == trimmed(text@),
{
    text.trim()
}

/// Uppercases one character with `char::to_uppercase` and collects what it
/// yields.
///
/// Trusted, not proved: the result is a function of the character alone,
/// here called `uppercase_of`. Nothing more is claimed about it.
#[verifier::external_body]
pub(crate) fn uppercase(letter: char) -> (upper: String)
    ensures
        upper@ == uppercase_of(letter),
{
    letter.to_uppercase().collect()
}

/// The move that a name stands for. Any name but `rock` and `paper` stands
/// for scissors.
pub open spec fn move_named(name: Seq<char>) -> Move {
    if name == "rock"@ {
        Move::Rock
    } else if name == "paper"@ {
        Move::Paper
    } else {
        Move::Scissors
    }
}

/// The name of a move, in lower case.
pub open spec fn name_of(mv: Move) -> Seq<char> {
    match mv {
        Move::Rock => "rock"@,
        Move::Paper => "paper"@,
        Move::Scissors => "scissors"@,
    }
}

/// Whether two texts hold the same characters.
pub fn same_text(left: &str, right: &str) -> (same: bool)
    ensures
        same == (left@ == right@),
{
    String::from_str(left) == String::from_str(right)
}

/// Reads a move from its exact name.
pub fn move_from_name(name: &str) -> (m: Move)
    ensures
        m == move_named(name@),
{
    if same_text(name, "rock") {
        Move::Rock
    } else if same_text(name, "paper") {
        Move::Paper
    } else {
        Move::Scissors
    }
}

/// Reads a move from what the player typed, whatever its case and the white
/// space around it.
pub fn str_to_move(text: &String) -> (m: Move)
    ensures
        m == move_named(trimmed(lowercase_of(text@))),
{
    let lowered = lowercase(text.as_str());
    move_from_name(trim(lowered.as_str()))
}

/// Gives the name of a move, in lower case.
pub fn move_to_str(mv: &Move) -> (name: String)
    ensures
        name@ == name_of(*mv),
{
    match mv {
        Move::Rock => "rock".to_string(),
        Move::Paper => "paper".to_string(),
        Move::Scissors => "scissors".to_string(),
    }
}

/// A text with its first character in upper case.
pub open spec fn capitalized(text: Seq<char>) -> Seq<char> {
    if text.len() == 0 {
        text
    } else {
        uppercase_of(text.first()) + text.drop_first()
    }
}

/// Returns the text with its first character in upper case. The rest stays
/// as it is, and an empty text stays empty.
pub fn capitalize_first_letter(text: String) -> (capital: String)
    ensures
        capital@ == capitalized(text@),
{
    let whole = text.as_str();
    let length = whole.unicode_len();
    if length == 0 {
        return String::new();
    }
    let first = whole.get_char(0);
    let rest = whole.substring_char(1, length);
    assert(rest@ =~= text@.drop_first());
    uppercase(first).concat(rest)
}

/// The sentence that explains how a round ended: the winning move, with a
/// capital letter, beats the losing one; after a tie both chose the same.
pub open spec fn explanation_of(outcome: GameOutcome) -> Seq<char> {
    match outcome.result {
        GameResult::Win => capitalized(name_of(outcome.player_move)) + " beats "@ + name_of(
            outcome.computer_move,
        ) + "."@,
        GameResult::Loss => capitalized(name_of(outcome.computer_move)) + " beats "@ + name_of(
            outcome.player_move,
        ) + "."@,
        GameResult::Tie => "You both chose "@ + name_of(outcome.player_move) + "."@,
    }
}

/// Writes the sentence that explains how a round ended.
pub fn explain_round(outcome: &GameOutcome) -> (sentence: String)
    ensures
        sentence@ == explanation_of(*outcome),
{
    let player = move_to_str(&outcome.player_move);
    let computer = move_to_str(&outcome.computer_move);
    match outcome.result {
        GameResult::Win => capitalize_first_letter(player).concat(" beats ").concat(
            computer.as_str(),
        ).concat("."),
        GameResult::Loss => capitalize_first_letter(computer).concat(" beats ").concat(
            player.as_str(),
        ).concat("."),
        GameResult::Tie => "You both chose ".to_string().concat(player.as_str()).concat("."),
    }
}

/// What a line typed by the player asks for.
#[derive(Clone, Copy, Debug, PartialEq, Eq, Structural)]
pub enum Command {
    /// Show the rules.
    Help,
    /// End the session.
    Exit,
    /// Play this move.
    Play(Move),
    /// Anything else.
    Unknown,
}

/// The command that a word stands for. Only the five words `help`, `exit`,
/// `rock`, `paper` and `scissors` are commands.
pub open spec fn command_named(word: Seq<char>) -> Command {
    if word == "help"@ {
        Command::Help
    } else if word == "exit"@ {
        Command::Exit
    } else if word == "rock"@ || word == "paper"@ || word == "scissors"@ {
        Command::Play(move_named(word))
    } else {
        Command::Unknown
    }
}

/// Reads a command from its exact word.
pub fn command_from_word(word: &str) -> (command: Command)
    ensures
        command == command_named(word@),
{
    if same_text(word, "help") {
        Command::Help
    } else if same_text(word, "exit") {
        Command::Exit
    } else if same_text(word, "rock") || same_text(word, "paper") || same_text(word, "scissors") {
        Command::Play(move_from_name(word))
    } else {
        Command::Unknown
    }
}

/// Reads a command from a line as the player typed it: white space around
/// it is dropped and its case is ignored.
pub fn parse_command(line: &str) -> (command: Command)
    ensures
        command == command_named(lowercase_of(trimmed(line@))),
{
    let word = lowercase(trim(line));
    command_from_word(word.as_str())
}

} // verus!
