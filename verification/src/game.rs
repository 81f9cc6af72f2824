//! The course of a game: round after round until one of them ends it.

use vstd::prelude::*;
use crate::outcome::{GameResult, Message, Round};
use crate::round::{handle_input, round_of_guess, round_of_input};
use crate::secret::is_secret;

verus! {

/// The line that opens the game.
pub fn banner() -> (text: &'static str)
    ensures
        text@ == "Guess the number!"@,
{
    "Guess the number!"
}

/// What is shown before each line is read. It has no line end.
pub fn prompt() -> (text: &'static str)
    ensures
        text@ == ">> "@,
{
    ">> "
}

/// Plays the given lines, one round each, against the secret number.
///
/// The rounds are returned in the order they were played. The game stops
/// with the first round that wins or quits, and the lines after it are not
/// looked at; if no round does, every line is played.
pub fn play(lines: &Vec<String>, secret_number: i32) -> (rounds: Vec<Round>)
    ensures
        rounds.len() <= lines.len(),
        forall|i: int|
            0 <= i < rounds.len() ==> #[trigger] rounds[i] == round_of_input(
                lines[i]@,
                secret_number,
            ),
        forall|i: int| 0 <= i < rounds.len() - 1 ==> (#[trigger] rounds[i]).result == GameResult::LOSE,
        rounds.len() < lines.len() ==> rounds.len() > 0 && rounds@.last().result.is_final(),
{
    let mut rounds: Vec<Round> = Vec::new();
    let mut at: usize = 0;
    while at < lines.len()
        invariant
            at <= lines.len(),
            rounds.len() == at,
            forall|i: int|
                0 <= i < at ==> #[trigger] rounds[i] == round_of_input(lines[i]@, secret_number),
            forall|i: int| 0 <= i < at ==> (#[trigger] rounds[i]).result == GameResult::LOSE,
        decreases lines.len() - at,
    {
        let round = handle_input(lines[at].clone(), secret_number);
        rounds.push(round);
        if round.result.ends_game() {
            return rounds;
        }
        at += 1;
    }
    rounds
}

/// Guessing the secret itself wins the game, whichever secret was drawn.
pub proof fn lemma_secret_guessed_wins(secret: i32)
    requires
        is_secret(secret),
    ensures
        round_of_guess(secret, secret).result == GameResult::WIN,
        round_of_guess(secret, secret).message == Some(Message::Guessed),
{
}

} // verus!
