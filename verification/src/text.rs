//! Numbers as text.

use vstd::prelude::*;

verus! {

/// `String::push` puts the character `ch` at the end of the string.
pub assume_specification[ String::push ](s: &mut String, ch: char)
    ensures
        final(s)@ == old(s)@.push(ch),
;

/// The character that stands for the digit `digit`.
pub open spec fn digit_char(digit: int) -> char {
    ('0' as int + digit) as char
}

/// The digits of `number` in the decimal system, the highest first.
pub open spec fn decimal(number: nat) -> Seq<char>
    decreases number,
{
    if number < 10 {
        seq![digit_char(number as int)]
    } else {
        decimal(number / 10).push(digit_char((number % 10) as int))
    }
}

/// `number` written in the decimal system, with a minus sign before it
/// where it is below zero.
pub open spec fn signed_decimal(number: int) -> Seq<char> {
    if number < 0 {
        seq!['-'] + decimal((-number) as nat)
    } else {
        decimal(number as nat)
    }
}

/// Writes the digits of `number` at the end of `text`.
pub fn push_decimal(text: &mut String, number: u128)
    ensures
        final(text)@ == old(text)@ + decimal(number as nat),
    decreases number,
{
    if number >= 10 {
        push_decimal(text, number / 10);
    }
    let digit = (number % 10) as u8;
    text.push((48u8 + digit) as char);
    proof {
        assert(text@ =~= old(text)@ + decimal(number as nat));
    }
}

/// Writes `number` at the end of `text`, with a minus sign before it where
/// it is below zero.
pub fn push_signed_decimal(text: &mut String, number: i64)
    ensures
        final(text)@ == old(text)@ + signed_decimal(number as int),
{
    if number < 0 {
        text.push('-');
        push_decimal(text, (-(number as i128)) as u128);
        proof {
            assert(text@ =~= old(text)@ + signed_decimal(number as int));
        }
    } else {
        push_decimal(text, number as u128);
    }
}

} // verus!
