//! What a round of the game yields: how it ended and what the player is told.

use vstd::prelude::*;

verus! {

/// How one round ended.
#[allow(non_camel_case_types)]
#[derive(Clone, Copy, Debug, PartialEq, Eq, Structural)]
pub enum GameResult {
    /// The player asked to leave.
    QUIT,
    /// The guess was the secret number.
    WIN,
    /// The guess missed, or the line was no number: the game goes on.
    LOSE,
}

impl GameResult {
    /// A round that ends the game: the player has won or has left.
    pub open spec fn is_final(self) -> bool {
        self == GameResult::WIN || self == GameResult::QUIT
    }

    /// Whether the game stops after a round with this result.
    pub fn ends_game(&self) -> (stop: bool)
        ensures
            stop == self.is_final(),
            stop <==> *self != GameResult::LOSE,
    {
        match self {
            GameResult::QUIT => true,
            GameResult::WIN => true,
            GameResult::LOSE => false,
        }
    }
}

/// A line of text that the game shows to the player after a round.
#[derive(Clone, Copy, Debug, PartialEq, Eq, Structural)]
pub enum Message {
    /// The guess was right.
    Guessed,
    /// The guess was above the secret number.
    Greater,
    /// The guess was below the secret number.
    Less,
    /// The line could not be read as a number.
    NotANumber,
}

impl Message {
    /// The characters of the message, without a line end.
    pub open spec fn text_spec(self) -> Seq<char> {
        match self {
            Message::Guessed => "You guessed it!"@,
            Message::Greater => "Your guess is greater than secret number"@,
            Message::Less => "Your guess is less than secret number"@,
            Message::NotANumber => "Please type number"@,
        }
    }

    /// The message as text to print, without a line end.
    pub fn text(&self) -> (line: &'static str)
        ensures
            line@ == self.text_spec(),
    {
        match self {
            Message::Guessed => "You guessed it!",
            Message::Greater => "Your guess is greater than secret number",
            Message::Less => "Your guess is less than secret number",
            Message::NotANumber => "Please type number",
        }
    }
}

/// One round of the game: its result, and the message for the player if the
/// round has one.
#[derive(Clone, Copy, Debug, PartialEq, Eq)]
pub struct Round {
    pub result: GameResult,
    pub message: Option<Message>,
}

} // verus!
