//! A number-guessing game: a secret number is drawn once, each line the player
//! types is judged against it, and the game goes on until the player hits the
//! secret or asks to leave.
//!
//! The library holds the rules. It reads nothing and prints nothing: every
//! function takes the player's text as a value and hands back what is to be
//! shown, so that a front end only has to move text between the terminal and
//! these functions.

pub mod game;
pub mod number;
pub mod outcome;
pub mod round;
pub mod secret;

pub use crate::game::{banner, play, prompt};
pub use crate::number::parse_guess;
pub use crate::outcome::{GameResult, Message, Round};
pub use crate::round::{guess, handle_input};
pub use crate::secret::{new_secret, SECRET_MAX, SECRET_MIN};
