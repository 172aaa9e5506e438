//! Numbers as texts.

use vstd::prelude::*;

use crate::text::{chars_of, Text};

verus! {

/// The decimal digit of value `d`.
pub open spec fn digit(d: nat) -> char {
    (48 + d) as char
}

/// A number in decimal digits.
pub open spec fn decimal(n: nat) -> Text
    decreases n,
{
    if n < 10 {
        seq![digit(n)]
    } else {
        decimal(n / 10).push(digit(n % 10))
    }
}

/// An integer in decimal digits, with a sign where it is negative.
pub open spec fn signed(n: int) -> Text {
    if n < 0 {
        "-"@ + decimal((-n) as nat)
    } else {
        decimal(n as nat)
    }
}

/// `n` in decimal digits.
pub fn show(n: u64) -> (text: String)
    ensures
        text@ == decimal(n as nat),
    decreases n,
{
    let last = ((48 + n % 10) as u8) as char;
    let mut text = if n < 10 {
        String::new()
    } else {
        show(n / 10)
    };
    text.push(last);
    assert(text@ =~= decimal(n as nat));
    text
}

/// `n` in decimal digits, with a sign where it is negative.
pub fn show_signed(n: i32) -> (text: String)
    ensures
        text@ == signed(n as int),
{
    if n < 0 {
        let mut text = "-".to_owned();
        text.append(&show((-(n as i64)) as u64));
        text
    } else {
        show(n as u64)
    }
}

/// `n` in at least two decimal digits.
pub open spec fn two_digits(n: nat) -> Text {
    if n < 10 {
        "0"@ + decimal(n)
    } else {
        decimal(n)
    }
}

/// `n` in at least two decimal digits.
pub fn show_two_digits(n: u64) -> (text: String)
    ensures
        text@ == two_digits(n as nat),
{
    if n < 10 {
        let mut text = "0".to_owned();
        text.append(&show(n));
        text
    } else {
        show(n)
    }
}

/// The hexadecimal digit of value `d`.
pub open spec fn hex_digit(d: nat) -> char {
    if d < 10 {
        (48 + d) as char
    } else {
        (87 + d) as char
    }
}

/// The last `width` hexadecimal digits of a number, with leading zeros.
pub open spec fn hex(n: nat, width: nat) -> Text
    decreases width,
{
    if width == 0 {
        Seq::empty()
    } else {
        hex(n / 16, (width - 1) as nat).push(hex_digit(n % 16))
    }
}

/// The last `width` hexadecimal digits of `n`, with leading zeros.
pub fn show_hex(n: u64, width: u8) -> (text: String)
    ensures
        text@ == hex(n as nat, width as nat),
    decreases width,
{
    if width == 0 {
        let text = String::new();
        assert(text@ =~= Seq::<char>::empty());
        text
    } else {
        let mut text = show_hex(n / 16, width - 1);
        let last = n % 16;
        text.push(
            if last < 10 {
                ((48 + last) as u8) as char
            } else {
                ((87 + last) as u8) as char
            },
        );
        text
    }
}

/// Whether a character is a decimal digit.
pub open spec fn is_digit(c: char) -> bool {
    '0' <= c <= '9'
}

/// The value of decimal digits.
pub open spec fn value_of(digits: Text) -> nat
    decreases digits.len(),
{
    if digits.len() == 0 {
        0
    } else {
        value_of(digits.drop_last()) * 10 + ((digits.last() as nat) - 48) as nat
    }
}

/// The digits of a written number: all of it, but for one leading plus sign.
pub open spec fn digits_of(s: Text) -> Text {
    if s.len() > 1 && s[0] == '+' {
        s.drop_first()
    } else {
        s
    }
}

/// The number that a text writes, where it writes one of at most `limit`.
pub open spec fn number_of(s: Text, limit: nat) -> Option<nat> {
    let digits = digits_of(s);
    if digits.len() > 0 && (forall|i: int| 0 <= i < digits.len() ==> is_digit(digits[i]))
        && value_of(digits) <= limit {
        Some(value_of(digits))
    } else {
        None
    }
}

/// More digits never make the value smaller.
proof fn value_grows(digits: Text, shorter: int)
    requires
        0 <= shorter <= digits.len(),
    ensures
        value_of(digits.take(shorter)) <= value_of(digits),
    decreases digits.len() - shorter,
{
    if shorter < digits.len() {
        let more = digits.take(shorter + 1);
        assert(more.drop_last() =~= digits.take(shorter));
        assert(value_of(digits.take(shorter)) <= value_of(more));
        value_grows(digits, shorter + 1);
    } else {
        assert(digits.take(shorter) =~= digits);
    }
}

/// The number that `text` writes, where it writes one of at most `limit`.
pub fn parse(text: &str, limit: u64) -> (number: Option<u64>)
    ensures
        number matches Some(n) ==> number_of(text@, limit as nat) == Some(n as nat),
        number is None ==> number_of(text@, limit as nat) is None,
{
    let chars = chars_of(text);
    let start: usize = if chars.len() > 1 && chars[0] == '+' {
        1
    } else {
        0
    };
    let ghost digits = digits_of(text@);
    assert(digits =~= chars@.skip(start as int));
    if chars.len() == start {
        return None;
    }
    let mut value: u64 = 0;
    let mut i: usize = start;
    while i < chars.len()
        invariant
            start <= i <= chars@.len(),
            digits == digits_of(text@),
            digits == chars@.skip(start as int),
            value == value_of(digits.take(i - start)),
            value <= limit,
            forall|j: int| 0 <= j < i - start ==> is_digit(digits[j]),
        decreases chars@.len() - i,
    {
        let c = chars[i];
        assert(digits[i - start] == c);
        if c < '0' || c > '9' {
            assert(!is_digit(digits[i - start]));
            return None;
        }
        let ghost more = digits.take(i + 1 - start);
        assert(more.drop_last() =~= digits.take(i - start));
        assert(more.last() == c);
        let next = value as u128 * 10 + (c as u32 - 48) as u128;
        assert(next == value_of(more));
        if next > limit as u128 {
            proof {
                value_grows(digits, i + 1 - start);
            }
            return None;
        }
        value = next as u64;
        i = i + 1;
    }
    assert(digits.take(chars@.len() - start) =~= digits);
    Some(value)
}

/// Writing a number and reading it gives the number back.
pub proof fn decimal_reads_back(n: nat, limit: nat)
    requires
        n <= limit,
    ensures
        number_of(decimal(n), limit) == Some(n),
{
    decimal_value(n);
    let s = decimal(n);
    assert(s[0] != '+');
    assert(digits_of(s) == s);
}

/// A number is written in digits whose value is the number.
pub proof fn decimal_value(n: nat)
    ensures
        decimal(n).len() > 0,
        forall|i: int| 0 <= i < decimal(n).len() ==> is_digit(#[trigger] decimal(n)[i]),
        value_of(decimal(n)) == n,
    decreases n,
{
    if n < 10 {
        assert(decimal(n).drop_last() =~= Seq::empty());
        reveal_with_fuel(value_of, 2);
    } else {
        decimal_value(n / 10);
        assert(decimal(n).drop_last() =~= decimal(n / 10));
    }
}

} // verus!
