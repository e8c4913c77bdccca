//! Reading the user's answer to a numbered listing.
//!
//! The caller prints the prompt and reads the line; what the line means is
//! decided here, and the caller asks again until an answer is accepted.

use vstd::prelude::*;
use vstd::string::*;
use crate::listing::decimal;

verus! {

/// The byte that writes a plus sign.
const PLUS: u8 = 43;

/// The byte that writes the digit zero.
const ZERO: u8 = 48;

/// The byte that writes the digit nine.
const NINE: u8 = 57;

/// Whether `c` is one of the ten decimal digits.
pub open spec fn is_digit(c: char) -> bool {
    '0' <= c <= '9'
}

/// The number that the digit `c` stands for.
pub open spec fn digit_value(c: char) -> nat
    recommends
        is_digit(c),
{
    (c as u32 - '0' as u32) as nat
}

/// The number written by a run of digits, most significant first.
pub open spec fn digits_value(digits: Seq<char>) -> nat
    decreases digits.len(),
{
    if digits.len() == 0 {
        0
    } else {
        digits_value(digits.drop_last()) * 10 + digit_value(digits.last())
    }
}

/// The digits of an answer: the text without a plus sign in front.
pub open spec fn unsigned_part(text: Seq<char>) -> Seq<char> {
    if text.len() > 0 && text[0] == '+' {
        text.drop_first()
    } else {
        text
    }
}

/// The number that an answer writes: one or more decimal digits, with at most
/// a plus sign before them and nothing else around them.
pub open spec fn written_number(text: Seq<char>) -> Option<nat> {
    let digits = unsigned_part(text);
    if digits.len() > 0 && (forall|i: int| 0 <= i < digits.len() ==> is_digit(#[trigger] digits[i])) {
        Some(digits_value(digits))
    } else {
        None
    }
}

/// The index that an answer gives: the number it writes, if that fits.
pub open spec fn written_index(text: Seq<char>) -> Option<usize> {
    match written_number(text) {
        Some(n) => if n <= usize::MAX {
            Some(n as usize)
        } else {
            None
        },
        None => None,
    }
}

/// What became of one answer.
#[derive(Clone, Copy, Debug, PartialEq, Eq, Structural)]
pub enum Reply {
    /// The answer is a number that the validation accepts.
    Accepted(usize),
    /// The answer is a number that the validation turns down.
    Invalid(usize),
    /// The answer is no number.
    Unreadable,
}

/// Reads an answer as an index.
pub fn input(line: &str) -> (r: Option<usize>)
    ensures
        r == written_index(line@),
{
    if !line.is_ascii() {
        proof {
            lemma_digits_are_ascii(line@);
        }
        return None;
    }
    let bytes = line.as_bytes();
    proof {
        is_ascii_spec_bytes(line);
    }
    let n = bytes.len();
    let start: usize = if n > 0 && bytes[0] == PLUS {
        1
    } else {
        0
    };
    let ghost digits = unsigned_part(line@);
    if start == n {
        return None;
    }
    let mut value: usize = 0;
    let mut i: usize = start;
    while i < n
        invariant
            start <= i <= n,
            n == bytes@.len(),
            n == line@.len(),
            digits == unsigned_part(line@),
            digits == line@.subrange(start as int, n as int),
            forall|k: int| 0 <= k < n ==> bytes@[k] == line@[k] as u8,
            forall|k: int| 0 <= k < n ==> '\0' <= #[trigger] line@[k] <= '\u{7f}',
            forall|k: int| 0 <= k < i - start ==> is_digit(#[trigger] digits[k]),
            value == digits_value(digits.take(i - start)),
        decreases n - i,
    {
        let b = bytes[i];
        assert(digits.take(i - start + 1).drop_last() =~= digits.take(i - start));
        if b < ZERO || b > NINE {
            assert(!is_digit(digits[i - start]));
            return None;
        }
        let d: usize = (b - ZERO) as usize;
        if value > (usize::MAX - d) / 10 {
            proof {
                lemma_digits_value_grows(digits, i - start + 1);
            }
            return None;
        }
        value = value * 10 + d;
        i = i + 1;
    }
    assert(digits.take(n - start) =~= digits);
    Some(value)
}

/// Reads an answer as an index and puts it to `validate`.
pub fn input_validated<F: Fn(usize) -> bool>(line: &str, validate: F) -> (r: Reply)
    requires
        forall|index: usize| validate.requires((index,)),
    ensures
        match written_index(line@) {
            Some(index) => (r == Reply::Accepted(index) && validate.ensures((index,), true)) || (r
                == Reply::Invalid(index) && validate.ensures((index,), false)),
            None => r == Reply::Unreadable,
        },
{
    match input(line) {
        Some(index) => {
            if validate(index) {
                Reply::Accepted(index)
            } else {
                Reply::Invalid(index)
            }
        },
        None => Reply::Unreadable,
    }
}

/// A text that holds a character outside ASCII writes no number.
proof fn lemma_digits_are_ascii(text: Seq<char>)
    requires
        !vstd::utf8::is_ascii_chars(text),
    ensures
        written_number(text) is None,
{
    let digits = unsigned_part(text);
    if digits.len() > 0 && (forall|i: int| 0 <= i < digits.len() ==> is_digit(#[trigger] digits[i])) {
        assert forall|i: int| 0 <= i < text.len() implies '\0' <= #[trigger] text[i] <= '\u{7f}' by {
            if text[0] == '+' && i > 0 {
                assert(is_digit(digits[i - 1]));
            }
        }
    }
}

/// The number written by the first `k` digits is no larger than the number
/// written by all of them.
proof fn lemma_digits_value_grows(digits: Seq<char>, k: int)
    requires
        0 <= k <= digits.len(),
    ensures
        digits_value(digits.take(k)) <= digits_value(digits),
    decreases digits.len() - k,
{
    if k < digits.len() {
        lemma_digits_value_grows(digits, k + 1);
        assert(digits.take(k + 1).drop_last() =~= digits.take(k));
    } else {
        assert(digits.take(k) =~= digits);
    }
}

/// Every index is read back from its decimal form as itself.
pub proof fn lemma_decimal_is_read_back(n: nat)
    ensures
        written_number(decimal(n)) == Some(n),
{
    lemma_decimal_digits(n);
}

/// The decimal form of a number is a run of digits, not empty, that writes the number.
proof fn lemma_decimal_digits(n: nat)
    ensures
        decimal(n).len() > 0,
        forall|i: int| 0 <= i < decimal(n).len() ==> is_digit(#[trigger] decimal(n)[i]),
        digits_value(decimal(n)) == n,
    decreases n,
{
    if n < 10 {
        assert(decimal(n).drop_last() =~= Seq::<char>::empty());
        assert(digits_value(decimal(n)) == digits_value(Seq::<char>::empty()) * 10 + n);
    } else {
        lemma_decimal_digits(n / 10);
        assert(decimal(n).drop_last() =~= decimal(n / 10));
    }
}

} // verus!
