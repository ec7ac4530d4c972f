//! The texts of the warnings that fault detection raises.

use vstd::prelude::*;
use vstd::string::StringExecFns;

verus! {

/// The character of a decimal digit.
pub open spec fn spec_digit(d: nat) -> char {
    if d == 0 {
        '0'
    } else if d == 1 {
        '1'
    } else if d == 2 {
        '2'
    } else if d == 3 {
        '3'
    } else if d == 4 {
        '4'
    } else if d == 5 {
        '5'
    } else if d == 6 {
        '6'
    } else if d == 7 {
        '7'
    } else if d == 8 {
        '8'
    } else {
        '9'
    }
}

/// The decimal numeral of `n`: most significant digit first, no leading
/// zeros, and the single digit `0` for zero.
pub open spec fn spec_decimal(n: nat) -> Seq<char>
    decreases n,
{
    if n < 10 {
        seq![spec_digit(n)]
    } else {
        spec_decimal(n / 10).push(spec_digit(n % 10))
    }
}

/// The warning raised for a pedal fault.
pub open spec fn spec_pedal_fault_text() -> Seq<char> {
    "Warning: Recent pedal fault detected!"@
}

/// The warning raised for a motor controller error: a fixed prefix followed
/// by the raw error code in decimal.
pub open spec fn spec_error_code_text(code: u16) -> Seq<char> {
    "Warning: Error code "@ + spec_decimal(code as nat)
}

/// The one-character string of a decimal digit.
fn digit_str(d: u16) -> (s: &'static str)
    requires
        d < 10,
    ensures
        s@ == seq![spec_digit(d as nat)],
{
    proof {
        reveal_strlit("0");
        reveal_strlit("1");
        reveal_strlit("2");
        reveal_strlit("3");
        reveal_strlit("4");
        reveal_strlit("5");
        reveal_strlit("6");
        reveal_strlit("7");
        reveal_strlit("8");
        reveal_strlit("9");
    }
    let s = if d == 0 {
        "0"
    } else if d == 1 {
        "1"
    } else if d == 2 {
        "2"
    } else if d == 3 {
        "3"
    } else if d == 4 {
        "4"
    } else if d == 5 {
        "5"
    } else if d == 6 {
        "6"
    } else if d == 7 {
        "7"
    } else if d == 8 {
        "8"
    } else {
        "9"
    };
    assert(s@ =~= seq![spec_digit(d as nat)]);
    s
}

/// Appends the decimal numeral of `n` to `text`.
pub fn push_decimal(text: &mut String, n: u16)
    ensures
        final(text)@ == old(text)@ + spec_decimal(n as nat),
    decreases n,
{
    if n >= 10 {
        push_decimal(text, n / 10);
    }
    text.append(digit_str(n % 10));
    proof {
        if n >= 10 {
            assert(final(text)@ =~= old(text)@ + spec_decimal(n as nat));
        }
    }
}

/// The warning raised for a pedal fault.
pub fn pedal_fault_text() -> (text: String)
    ensures
        text@ == spec_pedal_fault_text(),
{
    String::from_str("Warning: Recent pedal fault detected!")
}

/// The warning raised for a motor controller error with the given raw code.
pub fn error_code_text(code: u16) -> (text: String)
    ensures
        text@ == spec_error_code_text(code),
{
    let mut text = String::from_str("Warning: Error code ");
    push_decimal(&mut text, code);
    text
}

} // verus!
