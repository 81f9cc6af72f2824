//! Reading a guess from a line of text.
//!
//! A guess is a whole number written in decimal: an optional sign, then one or
//! more of the digits `0` to `9`, with any amount of white space before and
//! after. The number must fit in an `i32`.

use vstd::prelude::*;

verus! {

/// White space: the characters that Unicode classes as `White_Space`.
pub open spec fn is_whitespace(c: char) -> bool {
    let n = c as u32;
    ||| 0x09 <= n <= 0x0D
    ||| n == 0x20
    ||| n == 0x85
    ||| n == 0xA0
    ||| n == 0x1680
    ||| 0x2000 <= n <= 0x200A
    ||| n == 0x2028
    ||| n == 0x2029
    ||| n == 0x202F
    ||| n == 0x205F
    ||| n == 0x3000
}

/// The text without the white space it begins with.
pub open spec fn trim_start(s: Seq<char>) -> Seq<char>
    decreases s.len(),
{
    if s.len() > 0 && is_whitespace(s.first()) {
        trim_start(s.drop_first())
    } else {
        s
    }
}

/// The text without the white space it ends with.
pub open spec fn trim_end(s: Seq<char>) -> Seq<char>
    decreases s.len(),
{
    if s.len() > 0 && is_whitespace(s.last()) {
        trim_end(s.drop_last())
    } else {
        s
    }
}

/// The text without the white space around it.
pub open spec fn trim(s: Seq<char>) -> Seq<char> {
    trim_end(trim_start(s))
}

/// One of the ten decimal digits.
pub open spec fn is_digit(c: char) -> bool {
    0x30 <= c as u32 <= 0x39
}

/// The number that a decimal digit stands for.
pub open spec fn digit_value(c: char) -> int {
    c as u32 - 0x30
}

/// Every character of the text is a decimal digit.
pub open spec fn all_digits(s: Seq<char>) -> bool {
    forall|i: int| 0 <= i < s.len() ==> is_digit(#[trigger] s[i])
}

/// The number that a run of decimal digits writes, the first digit weighing
/// most. The empty run counts as zero.
pub open spec fn digits_value(s: Seq<char>) -> int
    decreases s.len(),
{
    if s.len() == 0 {
        0
    } else {
        digits_value(s.drop_last()) * 10 + digit_value(s.last())
    }
}

/// The text begins with a plus or a minus sign.
pub open spec fn has_sign(s: Seq<char>) -> bool {
    s.len() > 0 && (s.first() == '+' || s.first() == '-')
}

/// What follows the sign, or the whole text if it has none.
pub open spec fn digits_part(s: Seq<char>) -> Seq<char> {
    if has_sign(s) {
        s.drop_first()
    } else {
        s
    }
}

/// The text is an optional sign followed by at least one digit and nothing
/// else.
pub open spec fn is_integer_literal(s: Seq<char>) -> bool {
    digits_part(s).len() > 0 && all_digits(digits_part(s))
}

/// The number that an integer literal writes.
pub open spec fn literal_value(s: Seq<char>) -> int {
    if s.len() > 0 && s.first() == '-' {
        -digits_value(digits_part(s))
    } else {
        digits_value(digits_part(s))
    }
}

/// The `i32` that a text writes, if it is an integer literal whose number fits.
pub open spec fn parse_i32(s: Seq<char>) -> Option<i32> {
    if is_integer_literal(s) && i32::MIN <= literal_value(s) <= i32::MAX {
        Some(literal_value(s) as i32)
    } else {
        None
    }
}

/// The guess that a line of input holds: the number written by the line once
/// the white space around it, the line end included, is taken off.
pub open spec fn guess_in(line: Seq<char>) -> Option<i32> {
    parse_i32(trim(line))
}

/// A run of digits is worth at least as much as any run it begins with, and
/// never less than zero.
proof fn lemma_digits_value_prefix(s: Seq<char>, k: int)
    requires
        all_digits(s),
        0 <= k <= s.len(),
    ensures
        0 <= digits_value(s.take(k)) <= digits_value(s),
    decreases s.len(),
{
    if k == s.len() {
        assert(s.take(k) =~= s);
        if s.len() > 0 {
            lemma_digits_value_prefix(s.drop_last(), k - 1);
            assert(is_digit(s.last()));
        }
    } else {
        lemma_digits_value_prefix(s.drop_last(), k);
        assert(s.drop_last().take(k) =~= s.take(k));
        assert(is_digit(s.last()));
    }
}

/// Whether a character is white space.
fn char_is_whitespace(c: char) -> (yes: bool)
    ensures
        yes == is_whitespace(c),
{
    let n: u32 = c as u32;
    (0x09 <= n && n <= 0x0D) || n == 0x20 || n == 0x85 || n == 0xA0 || n == 0x1680 || (0x2000 <= n
        && n <= 0x200A) || n == 0x2028 || n == 0x2029 || n == 0x202F || n == 0x205F || n == 0x3000
}

/// The characters of a text, in order.
pub(crate) fn chars_of(text: &str) -> (chars: Vec<char>)
    ensures
        chars@ == text@,
{
    let mut chars: Vec<char> = Vec::new();
    for c in it: text.chars()
        invariant
            it.seq() == text@,
            chars@ == text@.take(it.index() as int),
    {
        chars.push(c);
    }
    chars
}

/// Where the text stands once the white space around it is taken off: the
/// index of its first character and the index after its last.
fn trim_bounds(chars: &Vec<char>) -> (bounds: (usize, usize))
    ensures
        bounds.0 <= bounds.1 <= chars.len(),
        chars@.subrange(bounds.0 as int, bounds.1 as int) == trim(chars@),
{
    let len: usize = chars.len();
    let mut from: usize = 0;
    assert(chars@.subrange(0, len as int) =~= chars@);
    while from < len && char_is_whitespace(chars[from])
        invariant
            from <= len == chars.len(),
            trim_start(chars@) == trim_start(chars@.subrange(from as int, len as int)),
        decreases len - from,
    {
        assert(chars@.subrange(from as int, len as int).drop_first() =~= chars@.subrange(
            from + 1,
            len as int,
        ));
        from += 1;
    }
    let mut to: usize = len;
    while to > from && char_is_whitespace(chars[to - 1])
        invariant
            from <= to <= len == chars.len(),
            trim(chars@) == trim_end(chars@.subrange(from as int, to as int)),
        decreases to,
    {
        assert(chars@.subrange(from as int, to as int).drop_last() =~= chars@.subrange(
            from as int,
            to - 1,
        ));
        to -= 1;
    }
    (from, to)
}

/// Reads the characters from `from` up to `to` as an integer literal.
#[verifier::loop_isolation(false)]
fn parse_range(chars: &Vec<char>, from: usize, to: usize) -> (number: Option<i32>)
    requires
        from <= to <= chars.len(),
    ensures
        number == parse_i32(chars@.subrange(from as int, to as int)),
{
    let ghost text = chars@.subrange(from as int, to as int);
    if from == to {
        return None;
    }
    let first: char = chars[from];
    let negative: bool = first == '-';
    let start: usize = if first == '-' || first == '+' {
        from + 1
    } else {
        from
    };
    let ghost digits = digits_part(text);
    if start == to {
        return None;
    }
    // The digits are summed up as a number that is not negative, so the limit
    // is the greatest magnitude that the sign allows.
    let limit: i64 = if negative {
        0x8000_0000
    } else {
        0x7fff_ffff
    };
    let mut value: i64 = 0;
    let mut at: usize = start;
    while at < to
        invariant
            start <= at <= to <= chars.len(),
            digits == chars@.subrange(start as int, to as int),
            all_digits(digits.take(at - start)),
            value == digits_value(digits.take(at - start)),
            0 <= value <= limit <= 0x8000_0000,
        decreases to - at,
    {
        let n: u32 = chars[at] as u32;
        if n < 0x30 || n > 0x39 {
            assert(!is_digit(digits[at - start]));
            return None;
        }
        let ghost read = digits.take(at - start + 1);
        assert(read.drop_last() =~= digits.take(at - start));
        value = value * 10 + (n - 0x30) as i64;
        if value > limit {
            // What was read is already too large, and more digits only add to it.
            proof {
                if all_digits(digits) {
                    lemma_digits_value_prefix(digits, at - start + 1);
                }
            }
            return None;
        }
        at += 1;
    }
    assert(digits.take(to - start) =~= digits);
    if negative {
        Some((-value) as i32)
    } else {
        Some(value as i32)
    }
}

/// Reads the guess that a line of input holds.
///
/// White space around the number, the line end included, is passed over. The
/// rest must be an optional `+` or `-` and then decimal digits only, and the
/// number must fit in an `i32`; otherwise there is no guess in the line.
pub fn parse_guess(text: &str) -> (number: Option<i32>)
    ensures
        number == guess_in(text@),
{
    let chars = chars_of(text);
    parse_chars(&chars)
}

/// Reads the guess that the characters of a line hold.
pub(crate) fn parse_chars(chars: &Vec<char>) -> (number: Option<i32>)
    ensures
        number == guess_in(chars@),
{
    let (from, to) = trim_bounds(chars);
    parse_range(chars, from, to)
}

} // verus!
