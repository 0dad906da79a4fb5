//! Decimal integers written as text.
//!
//! A number is spelled as an optional sign followed by one or more ASCII
//! digits. Leading zeros are accepted; anything else (an empty text, a lone
//! sign, spaces, other characters) spells no number at all. The unsigned form
//! admits only `+` as its sign.

use vstd::prelude::*;
use vstd::string::*;

verus! {

const DIGIT_ZERO: u8 = 0x30;

const DIGIT_NINE: u8 = 0x39;

const PLUS_SIGN: u8 = 0x2b;

const MINUS_SIGN: u8 = 0x2d;

/// Whether `c` is one of the ten ASCII digits.
pub open spec fn is_digit(c: char) -> bool {
    '0' <= c <= '9'
}

/// The value of the digit `c`.
pub open spec fn digit_value(c: char) -> int
    recommends
        is_digit(c),
{
    c as int - '0' as int
}

/// Whether every character of `digits` is a digit.
pub open spec fn all_digits(digits: Seq<char>) -> bool {
    forall|i: int| 0 <= i < digits.len() ==> is_digit(#[trigger] digits[i])
}

/// The number that a run of digits spells, most significant digit first.
pub open spec fn decimal_value(digits: Seq<char>) -> int
    recommends
        all_digits(digits),
    decreases digits.len(),
{
    if digits.len() == 0 {
        0
    } else {
        10 * decimal_value(digits.drop_last()) + digit_value(digits.last())
    }
}

/// The number that `digits` spells, if it is a non-empty run of digits.
pub open spec fn magnitude(digits: Seq<char>) -> Option<int> {
    if digits.len() > 0 && all_digits(digits) {
        Some(decimal_value(digits))
    } else {
        None
    }
}

/// The number that `text` spells in the unsigned form: an optional `+`, then
/// one or more digits.
pub open spec fn unsigned_decimal(text: Seq<char>) -> Option<int> {
    if text.len() > 0 && text[0] == '+' {
        magnitude(text.skip(1))
    } else {
        magnitude(text)
    }
}

/// The number that `text` spells in the signed form: an optional `+` or `-`,
/// then one or more digits.
pub open spec fn signed_decimal(text: Seq<char>) -> Option<int> {
    if text.len() > 0 && text[0] == '-' {
        match magnitude(text.skip(1)) {
            Some(m) => Some(-m),
            None => None,
        }
    } else {
        unsigned_decimal(text)
    }
}

/// What [`parse_u64`] makes of `text`: the number it spells in the unsigned
/// form, provided that it fits in a `u64`.
pub open spec fn u64_of_text(text: Seq<char>) -> Option<u64> {
    match unsigned_decimal(text) {
        Some(v) => if v <= u64::MAX {
            Some(v as u64)
        } else {
            None
        },
        None => None,
    }
}

/// What [`parse_i64`] makes of `text`: the number it spells in the signed
/// form, provided that it fits in an `i64`.
pub open spec fn i64_of_text(text: Seq<char>) -> Option<i64> {
    match signed_decimal(text) {
        Some(v) => if i64::MIN <= v <= i64::MAX {
            Some(v as i64)
        } else {
            None
        },
        None => None,
    }
}

/// A run of digits never spells a negative number, and dropping its last
/// digits never makes the number larger.
pub proof fn lemma_decimal_value_prefix(digits: Seq<char>, k: int)
    requires
        all_digits(digits),
        0 <= k <= digits.len(),
    ensures
        0 <= decimal_value(digits.take(k)) <= decimal_value(digits),
    decreases digits.len(),
{
    if digits.len() == 0 {
    } else if k == digits.len() {
        assert(digits.take(k) =~= digits);
        lemma_decimal_value_prefix(digits.drop_last(), k - 1);
    } else {
        lemma_decimal_value_prefix(digits.drop_last(), k);
        assert(digits.drop_last().take(k) =~= digits.take(k));
    }
}

/// A run of digits never spells a negative number.
pub proof fn lemma_magnitude_nonnegative(digits: Seq<char>)
    ensures
        magnitude(digits) matches Some(m) ==> m >= 0,
{
    if all_digits(digits) {
        lemma_decimal_value_prefix(digits, 0);
    }
}

/// A text with a character outside ASCII spells no number.
pub proof fn lemma_non_ascii_spells_nothing(text: Seq<char>)
    requires
        !vstd::utf8::is_ascii_chars(text),
    ensures
        unsigned_decimal(text) is None,
        signed_decimal(text) is None,
{
    let i = choose|i: int| 0 <= i < text.len() && !('\0' <= #[trigger] text[i] <= '\u{7f}');
    if i > 0 {
        assert(text.skip(1)[i - 1] == text[i]);
    }
}

/// Reads the run of digits that makes up `text` from position `start` on.
///
/// Returns the number it spells when that fits in a `u64`; `None` when the
/// run is empty, holds anything but digits, or spells a larger number.
fn read_magnitude(text: &str, start: usize) -> (r: Option<u64>)
    requires
        text.is_ascii(),
        start <= text@.len(),
    ensures
        r == match magnitude(text@.skip(start as int)) {
            Some(m) => if m <= u64::MAX {
                Some(m as u64)
            } else {
                None
            },
            None => None,
        },
{
    broadcast use is_ascii_spec_bytes;

    let bytes = text.as_bytes();
    let n = bytes.len();
    let ghost digits = text@.skip(start as int);
    if start >= n {
        return None;
    }
    let mut acc: u64 = 0;
    let mut i: usize = start;
    while i < n
        invariant
            start <= i <= n,
            n == text@.len(),
            text.is_ascii(),
            bytes@ == text.spec_bytes(),
            digits == text@.skip(start as int),
            all_digits(digits.take(i - start)),
            acc == decimal_value(digits.take(i - start)),
        decreases n - i,
    {
        let b = bytes[i];
        if b < DIGIT_ZERO || b > DIGIT_NINE {
            assert(!is_digit(digits[i - start]));
            return None;
        }
        let d: u64 = (b - DIGIT_ZERO) as u64;
        let ghost longer = digits.take(i - start + 1);
        proof {
            assert(longer.drop_last() =~= digits.take(i - start));
            if all_digits(digits) {
                lemma_decimal_value_prefix(digits, i - start + 1);
            }
        }
        let scaled = match acc.checked_mul(10) {
            Some(v) => v,
            None => {
                return None;
            },
        };
        acc = match scaled.checked_add(d) {
            Some(v) => v,
            None => {
                return None;
            },
        };
        i = i + 1;
    }
    assert(digits.take(i - start) =~= digits);
    Some(acc)
}

/// Parses `text` as an unsigned decimal integer.
///
/// Accepts an optional `+` followed by one or more digits and returns the
/// number when it fits; every other text gives `None`.
pub fn parse_u64(text: &str) -> (r: Option<u64>)
    ensures
        r == u64_of_text(text@),
{
    broadcast use is_ascii_spec_bytes;

    if !text.is_ascii() {
        proof {
            lemma_non_ascii_spells_nothing(text@);
        }
        return None;
    }
    let bytes = text.as_bytes();
    if bytes.len() > 0 && bytes[0] == PLUS_SIGN {
        read_magnitude(text, 1)
    } else {
        assert(text@.skip(0) =~= text@);
        read_magnitude(text, 0)
    }
}

/// Parses `text` as a signed decimal integer.
///
/// Accepts an optional `+` or `-` followed by one or more digits and returns
/// the number when it fits; every other text gives `None`.
pub fn parse_i64(text: &str) -> (r: Option<i64>)
    ensures
        r == i64_of_text(text@),
{
    broadcast use is_ascii_spec_bytes;

    if !text.is_ascii() {
        proof {
            lemma_non_ascii_spells_nothing(text@);
        }
        return None;
    }
    proof {
        lemma_magnitude_nonnegative(text@);
        lemma_magnitude_nonnegative(text@.skip(1));
    }
    let bytes = text.as_bytes();
    if bytes.len() > 0 && bytes[0] == MINUS_SIGN {
        match read_magnitude(text, 1) {
            Some(m) => {
                if m <= i64::MAX as u64 {
                    Some(0 - (m as i64))
                } else if m == i64::MAX as u64 + 1 {
                    Some(i64::MIN)
                } else {
                    None
                }
            },
            None => None,
        }
    } else {
        let m = if bytes.len() > 0 && bytes[0] == PLUS_SIGN {
            read_magnitude(text, 1)
        } else {
            assert(text@.skip(0) =~= text@);
            read_magnitude(text, 0)
        };
        match m {
            Some(m) => if m <= i64::MAX as u64 {
                Some(m as i64)
            } else {
                None
            },
            None => None,
        }
    }
}

} // verus!
