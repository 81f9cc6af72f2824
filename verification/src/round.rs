//! Judging one round: a line of input, or a guess, against the secret number.

use vstd::prelude::*;
use crate::number::{chars_of, guess_in, parse_chars};
use crate::outcome::{GameResult, Message, Round};

verus! {

/// The round that a guess gives against the secret number: a win when the two
/// are equal, else a miss that says on which side of the secret the guess lies.
pub open spec fn round_of_guess(user_input: i32, secret_number: i32) -> Round {
    if user_input == secret_number {
        Round { result: GameResult::WIN, message: Some(Message::Guessed) }
    } else if user_input > secret_number {
        Round { result: GameResult::LOSE, message: Some(Message::Greater) }
    } else {
        Round { result: GameResult::LOSE, message: Some(Message::Less) }
    }
}

/// Compares the player's guess with the secret number.
///
/// Equal numbers win the game. Any other guess loses the round, and the
/// message tells the player whether the guess was too high or too low.
pub fn guess(user_input: i32, secret_number: i32) -> (round: Round)
    ensures
        round == round_of_guess(user_input, secret_number),
        user_input == secret_number ==> round.result == GameResult::WIN && round.message == Some(
            Message::Guessed,
        ),
        user_input > secret_number ==> round.result == GameResult::LOSE && round.message == Some(
            Message::Greater,
        ),
        user_input < secret_number ==> round.result == GameResult::LOSE && round.message == Some(
            Message::Less,
        ),
{
    if user_input == secret_number {
        Round { result: GameResult::WIN, message: Some(Message::Guessed) }
    } else if user_input > secret_number {
        Round { result: GameResult::LOSE, message: Some(Message::Greater) }
    } else {
        Round { result: GameResult::LOSE, message: Some(Message::Less) }
    }
}

/// The line is one of the two commands that leave the game: `q` or `quit`,
/// directly followed by a line feed and with nothing before or after.
pub open spec fn is_quit_command(line: Seq<char>) -> bool {
    line == "q\n"@ || line == "quit\n"@
}

/// The round that a line of input gives against the secret number.
///
/// A quit command ends the game and says nothing. Any other line is read as a
/// guess: if it holds one, the guess is judged; if not, the round is lost and
/// the player is asked for a number.
pub open spec fn round_of_input(line: Seq<char>, secret_number: i32) -> Round {
    if is_quit_command(line) {
        Round { result: GameResult::QUIT, message: None }
    } else {
        match guess_in(line) {
            Some(number) => round_of_guess(number, secret_number),
            None => Round { result: GameResult::LOSE, message: Some(Message::NotANumber) },
        }
    }
}

/// Whether the characters are those of a quit command.
fn is_quit(chars: &Vec<char>) -> (yes: bool)
    ensures
        yes == is_quit_command(chars@),
{
    proof {
        reveal_strlit("q\n");
        reveal_strlit("quit\n");
    }
    if chars.len() == 2 {
        let yes = chars[0] == 'q' && chars[1] == '\n';
        assert(yes ==> chars@ =~= "q\n"@);
        yes
    } else if chars.len() == 5 {
        let yes = chars[0] == 'q' && chars[1] == 'u' && chars[2] == 'i' && chars[3] == 't'
            && chars[4] == '\n';
        assert(yes ==> chars@ =~= "quit\n"@);
        yes
    } else {
        false
    }
}

/// Judges one line of the player's input against the secret number.
///
/// The line is taken as it was read, line end included. `q` and `quit` leave
/// the game. A line that holds a number is a guess and is compared with the
/// secret. Anything else loses the round with a request for a number, and the
/// game goes on.
pub fn handle_input(user_input: String, secret_number: i32) -> (round: Round)
    ensures
        round == round_of_input(user_input@, secret_number),
        user_input@ == "q\n"@ || user_input@ == "quit\n"@ ==> round.result == GameResult::QUIT
            && round.message is None,
        !is_quit_command(user_input@) && guess_in(user_input@) is None ==> round.result
            == GameResult::LOSE && round.message == Some(Message::NotANumber),
        !is_quit_command(user_input@) && guess_in(user_input@) is Some ==> round == round_of_guess(
            guess_in(user_input@)->0,
            secret_number,
        ),
{
    let chars = chars_of(user_input.as_str());
    if is_quit(&chars) {
        return Round { result: GameResult::QUIT, message: None };
    }
    match parse_chars(&chars) {
        Some(number) => guess(number, secret_number),
        None => Round { result: GameResult::LOSE, message: Some(Message::NotANumber) },
    }
}

} // verus!
