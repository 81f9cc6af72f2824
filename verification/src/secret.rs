//! Drawing the secret number.

use rand::Rng;
use vstd::prelude::*;

verus! {

/// The least number that can be the secret.
pub const SECRET_MIN: i32 = 1;

/// The greatest number that can be the secret.
pub const SECRET_MAX: i32 = 100;

/// A number that the game may have drawn as its secret.
pub open spec fn is_secret(number: i32) -> bool {
    SECRET_MIN <= number <= SECRET_MAX
}

/// A random number from `low` to `high`, both included.
///
/// Trusted: the body calls `gen_range` of the `rand` crate on the generator
/// that `rand::thread_rng` hands out, with the inclusive range `low..=high`.
/// `gen_range` panics on an empty range, which the precondition rules out.
/// For a range that is not empty it returns `low` advanced by an offset less
/// than the number of values in the range, so the result lies in the range.
/// Which number comes back is left open: two calls may differ. The generator
/// is seeded by the operating system when a thread first asks for it.
#[verifier::external_body]
pub(crate) fn gen_random_num(low: i32, high: i32) -> (number: i32)
    requires
        low <= high,
    ensures
        low <= number <= high,
{
    rand::thread_rng().gen_range(low..=high)
}

/// Draws the secret number for a game, from `SECRET_MIN` to `SECRET_MAX`.
pub fn new_secret() -> (secret: i32)
    ensures
        is_secret(secret),
{
    gen_random_num(SECRET_MIN, SECRET_MAX)
}

} // verus!
