//! Reading optional integer settings, such as a level or a seed, from text.

use vstd::prelude::*;
use vstd::string::StrSliceExecFns;

verus! {

/// Whether `c` is one of the ten decimal digits.
pub open spec fn is_digit(c: char) -> bool {
    '0' <= c <= '9'
}

/// The value of a decimal digit.
pub open spec fn digit_value(c: char) -> int {
    c as int - '0' as int
}

/// Whether every character of `s` is a decimal digit.
pub open spec fn all_digits(s: Seq<char>) -> bool {
    forall|i: int| 0 <= i < s.len() ==> is_digit(#[trigger] s[i])
}

/// The number that a sequence of decimal digits denotes; leading zeros
/// count for nothing.
pub open spec fn decimal_value(s: Seq<char>) -> int
    decreases s.len(),
{
    if s.len() == 0 {
        0
    } else {
        10 * decimal_value(s.drop_last()) + digit_value(s.last())
    }
}

/// Whether `text` starts with a sign.
pub open spec fn has_sign(text: Seq<char>) -> bool {
    text.len() > 0 && (text[0] == '-' || text[0] == '+')
}

/// The part of `text` after the sign, if it has one.
pub open spec fn digits_of(text: Seq<char>) -> Seq<char> {
    if has_sign(text) {
        text.skip(1)
    } else {
        text
    }
}

/// The integer that `text` denotes: an optional `+` or `-`, then one or
/// more decimal digits, and nothing else. Any other text denotes none.
pub open spec fn integer_of(text: Seq<char>) -> Option<int> {
    let digits = digits_of(text);
    if digits.len() == 0 || !all_digits(digits) {
        None
    } else if text[0] == '-' {
        Some(-decimal_value(digits))
    } else {
        Some(decimal_value(digits))
    }
}

/// The `i32` that `text` denotes, if it denotes an integer in range.
pub open spec fn i32_of(text: Seq<char>) -> Option<i32> {
    match integer_of(text) {
        Some(value) => if i32::MIN <= value <= i32::MAX {
            Some(value as i32)
        } else {
            None
        },
        None => None,
    }
}

/// Digits denote a number that is not negative, and more digits never
/// denote less.
proof fn lemma_decimal_value_grows(s: Seq<char>, n: int)
    requires
        all_digits(s),
        0 <= n <= s.len(),
    ensures
        0 <= decimal_value(s.take(n)) <= decimal_value(s),
    decreases s.len(),
{
    if n == s.len() {
        assert(s.take(n) == s);
        if s.len() > 0 {
            lemma_decimal_value_grows(s.drop_last(), n - 1);
            assert(is_digit(s[s.len() - 1]));
        }
    } else {
        lemma_decimal_value_grows(s.drop_last(), n);
        assert(s.drop_last().take(n) == s.take(n));
        assert(is_digit(s[s.len() - 1]));
    }
}

/// Reads a decimal integer: an optional `+` or `-`, then one or more digits.
/// Returns `None` for any other text, white space included, and for a number
/// that does not fit in an `i32`.
pub fn parse_i32(text: &str) -> (value: Option<i32>)
    ensures
        value == i32_of(text@),
{
    let n = text.unicode_len();
    if n == 0 {
        return None;
    }
    let first = text.get_char(0);
    let negative = first == '-';
    let start: usize = if first == '-' || first == '+' {
        1
    } else {
        0
    };
    if start == n {
        return None;
    }
    let ghost digits = digits_of(text@);
    let mut magnitude: i64 = 0;
    let mut i: usize = start;
    while i < n
        invariant
            start <= i <= n,
            n == text@.len(),
            digits == text@.skip(start as int),
            digits == digits_of(text@),
            all_digits(digits.take(i - start)),
            magnitude == decimal_value(digits.take(i - start)),
            0 <= magnitude <= 2147483648,
        decreases n - i,
    {
        let c = text.get_char(i);
        if !('0' <= c && c <= '9') {
            assert(!is_digit(digits[i - start]));
            return None;
        }
        let digit: i64 = (c as u32 - '0' as u32) as i64;
        proof {
            let longer = digits.take(i - start + 1);
            assert(longer.drop_last() == digits.take(i - start));
            assert(longer.last() == c);
            assert(all_digits(longer));
        }
        magnitude = magnitude * 10 + digit;
        if magnitude > 2147483648 {
            proof {
                if all_digits(digits) {
                    lemma_decimal_value_grows(digits, i - start + 1);
                }
            }
            return None;
        }
        i = i + 1;
    }
    assert(digits.take(i - start) == digits);
    if negative {
        Some((-magnitude) as i32)
    } else if magnitude <= 2147483647 {
        Some(magnitude as i32)
    } else {
        None
    }
}

} // verus!
