//! Mock types for testing.

pub mod serial;

use vstd::prelude::*;

verus! {

/// The port that the bridge listens on in tests, unless another one is asked for.
pub const DEFAULT_TEST_PORT: i32 = 8080;

/// The value of decimal digits.
pub open spec fn decimal_value(digits: Seq<char>) -> int
    decreases digits.len(),
{
    if digits.len() == 0 {
        0
    } else {
        10 * decimal_value(digits.drop_last()) + (digits.last() as u32 - '0' as u32)
    }
}

/// Whether there are digits and nothing else.
pub open spec fn is_decimal(digits: Seq<char>) -> bool {
    digits.len() > 0 && forall|i: int| 0 <= i < digits.len() ==> '0' <= #[trigger] digits[i] <= '9'
}

/// The number that decimal digits with an optional sign stand for, if there is one.
pub open spec fn decimal(text: Seq<char>) -> Option<int> {
    let signed = text.len() > 0 && (text[0] == '+' || text[0] == '-');
    let digits = if signed {
        text.skip(1)
    } else {
        text
    };
    if !is_decimal(digits) {
        None
    } else if signed && text[0] == '-' {
        Some(-decimal_value(digits))
    } else {
        Some(decimal_value(digits))
    }
}

/// Calls `str::parse` for `i32`. The contract claims that it accepts decimal digits with an
/// optional sign, if the number fits, and returns the number.
#[verifier::external_body]
fn parse_i32(text: &str) -> (number: Option<i32>)
    ensures
        number is Some <==> (decimal(text@) matches Some(n) && i32::MIN <= n <= i32::MAX),
        number matches Some(n) ==> decimal(text@) == Some(n as int),
{
    text.parse().ok()
}

/// Returns the listening port to use for bridge tests, given the value of the environment variable
/// that controls it.
pub fn bridge_test_port(variable: Option<&str>) -> (port: i32)
    ensures
        port == (match variable {
            Some(text) => match decimal(text@) {
                Some(n) => if i32::MIN <= n <= i32::MAX {
                    n
                } else {
                    DEFAULT_TEST_PORT as int
                },
                None => DEFAULT_TEST_PORT as int,
            },
            None => DEFAULT_TEST_PORT as int,
        }),
{
    match variable {
        Some(text) => match parse_i32(text) {
            Some(port) => port,
            None => DEFAULT_TEST_PORT,
        },
        None => DEFAULT_TEST_PORT,
    }
}

/// Law: digits are read from the left, each one making the number ten times as large and adding its
/// value. A text with any other character after the sign, or without a digit, is no number.
pub proof fn law_decimal_digits_add_up(text: Seq<char>, c: char)
    ensures
        // A digit by itself
        decimal(seq![c]) == (if '0' <= c <= '9' {
            Some(c as u32 - '0' as u32)
        } else {
            None
        }),
        // A digit after a number
        decimal(text) matches Some(n) ==> ('0' <= c <= '9' ==> decimal(text.push(c)) == Some(
            if text[0] == '-' {
                10 * n - (c as u32 - '0' as u32)
            } else {
                10 * n + (c as u32 - '0' as u32)
            },
        )),
        // A sign before a number without one
        text.len() > 0 && text[0] != '+' && text[0] != '-' ==> {
            &&& decimal(seq!['+'] + text) == decimal(text)
            &&& decimal(seq!['-'] + text) == (match decimal(text) {
                Some(n) => Some(-n),
                None => None,
            })
        },
        // No number
        decimal(Seq::empty()) is None,
        !('0' <= c <= '9') ==> decimal(text.push(c)) is None,
        decimal(text) is None && text.len() > 0 && !(text.len() == 1 && (text[0] == '+' || text[0]
            == '-')) ==> decimal(text.push(c)) is None,
{
    let longer = text.push(c);
    // A character by itself
    let one = seq![c];
    assert(one.drop_last() =~= Seq::<char>::empty());
    if '0' <= c <= '9' {
        assert(decimal_value(one.drop_last()) == 0);
        assert(is_decimal(one));
    } else if c == '+' || c == '-' {
        assert(one.skip(1).len() == 0);
    } else {
        assert(!('0' <= one[0] <= '9'));
    }
    // One more character
    let digits = unsigned(text);
    let more = unsigned(longer);
    if text.len() > 0 {
        assert(more =~= digits.push(c));
        assert(more.drop_last() =~= digits);
        if is_decimal(digits) && '0' <= c <= '9' {
            assert(is_decimal(more));
        }
        if !('0' <= c <= '9') {
            assert(!('0' <= more[digits.len() as int] <= '9'));
        }
        if !is_decimal(digits) && digits.len() > 0 {
            let i = choose|i: int| 0 <= i < digits.len() && !('0' <= #[trigger] digits[i] <= '9');
            assert(more[i] == digits[i]);
        }
    } else {
        assert(longer =~= one);
    }
    // One more sign
    assert((seq!['+'] + text).skip(1) =~= text);
    assert((seq!['-'] + text).skip(1) =~= text);
}

/// The text without its sign.
spec fn unsigned(text: Seq<char>) -> Seq<char> {
    if text.len() > 0 && (text[0] == '+' || text[0] == '-') {
        text.skip(1)
    } else {
        text
    }
}

} // verus!
