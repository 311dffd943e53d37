//! Integers written in decimal.

use vstd::prelude::*;
use vstd::string::*;
use crate::text::push_char;

verus! {

/// The character of the digit `d`.
pub open spec fn digit(d: nat) -> char {
    ((48 + d) as u8) as char
}

/// The digits of `n`, most significant first; `0` for zero.
pub open spec fn digits(n: nat) -> Seq<char>
    decreases n,
{
    if n < 10 {
        seq![digit(n)]
    } else {
        digits(n / 10).push(digit(n % 10))
    }
}

/// `i` in decimal, with a minus sign where it is negative.
pub open spec fn decimal(i: int) -> Seq<char> {
    if i < 0 {
        seq!['-'] + digits((-i) as nat)
    } else {
        digits(i as nat)
    }
}

/// The character of the digit `d`.
pub fn digit_char(d: u32) -> (c: char)
    requires
        d < 10,
    ensures
        c == digit(d as nat),
{
    ((48 + d) as u8) as char
}

/// The digits of `n`, most significant first.
pub fn digits_text(n: u32) -> (text: String)
    ensures
        text@ == digits(n as nat),
    decreases n,
{
    if n < 10 {
        let mut text = String::new();
        push_char(&mut text, digit_char(n));
        proof {
            assert(text@ =~= seq![digit(n as nat)]);
        }
        text
    } else {
        let mut text = digits_text(n / 10);
        push_char(&mut text, digit_char(n % 10));
        text
    }
}

/// `i` in decimal, with a minus sign where it is negative.
pub fn decimal_text(i: i32) -> (text: String)
    ensures
        text@ == decimal(i as int),
{
    if i < 0 {
        let magnitude: u32 = (-(i as i64)) as u32;
        let tail = digits_text(magnitude);
        let mut text = String::from_str("-");
        text.append(tail.as_str());
        proof {
            reveal_strlit("-");
            assert("-"@ =~= seq!['-']);
        }
        text
    } else {
        digits_text(i as u32)
    }
}

/// The digits of the position or count `n`, most significant first.
pub fn index_text(n: usize) -> (text: String)
    ensures
        text@ == digits(n as nat),
    decreases n,
{
    if n < 10 {
        let mut text = String::new();
        push_char(&mut text, digit_char(n as u32));
        proof {
            assert(text@ =~= seq![digit(n as nat)]);
        }
        text
    } else {
        let mut text = index_text(n / 10);
        push_char(&mut text, digit_char((n % 10) as u32));
        text
    }
}

} // verus!
