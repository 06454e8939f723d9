//! Writing numbers as decimal text.

use vstd::prelude::*;
use vstd::string::*;

verus! {

/// The character that stands for the digit `d`.
pub open spec fn digit_char(d: int) -> char {
    if d == 0 {
        '0'
    } else if d == 1 {
        '1'
    } else if d == 2 {
        '2'
    } else if d == 3 {
        '3'
    } else if d == 4 {
        '4'
    } else if d == 5 {
        '5'
    } else if d == 6 {
        '6'
    } else if d == 7 {
        '7'
    } else if d == 8 {
        '8'
    } else {
        '9'
    }
}

/// The decimal digits of `n`, most significant first, without leading zeros.
pub open spec fn decimal(n: nat) -> Seq<char>
    decreases n,
{
    if n < 10 {
        seq![digit_char(n as int)]
    } else {
        decimal(n / 10).push(digit_char((n % 10) as int))
    }
}

/// A number given in tenths, written with one digit after the point, followed by `unit`.
pub open spec fn one_decimal(tenths: nat, unit: Seq<char>) -> Seq<char> {
    decimal(tenths / 10) + seq!['.'] + decimal(tenths % 10) + unit
}

/// The text of one digit.
fn digit_str(d: u8) -> (s: &'static str)
    requires
        d < 10,
    ensures
        s@ == seq![digit_char(d as int)],
{
    proof {
        reveal_strlit("0");
        reveal_strlit("1");
        reveal_strlit("2");
        reveal_strlit("3");
        reveal_strlit("4");
        reveal_strlit("5");
        reveal_strlit("6");
        reveal_strlit("7");
        reveal_strlit("8");
        reveal_strlit("9");
    }
    let s = if d == 0 {
        "0"
    } else if d == 1 {
        "1"
    } else if d == 2 {
        "2"
    } else if d == 3 {
        "3"
    } else if d == 4 {
        "4"
    } else if d == 5 {
        "5"
    } else if d == 6 {
        "6"
    } else if d == 7 {
        "7"
    } else if d == 8 {
        "8"
    } else {
        "9"
    };
    assert(s@ =~= seq![digit_char(d as int)]);
    s
}

/// Appends the decimal digits of `n` to `text`.
fn append_decimal(text: &mut String, n: u128)
    ensures
        final(text)@ == old(text)@ + decimal(n as nat),
    decreases n,
{
    if n >= 10 {
        append_decimal(text, n / 10);
    }
    text.append(digit_str((n % 10) as u8));
    proof {
        let head = if n >= 10 {
            decimal((n / 10) as nat)
        } else {
            Seq::<char>::empty()
        };
        assert(decimal(n as nat) =~= head + seq![digit_char((n % 10) as int)]);
        assert(final(text)@ =~= old(text)@ + decimal(n as nat));
    }
}

/// The number of `tenths`, written with one digit after the point, followed by `unit`.
pub fn format_tenths(tenths: u128, unit: &str) -> (text: String)
    ensures
        text@ == one_decimal(tenths as nat, unit@),
{
    let mut text = String::new();
    append_decimal(&mut text, tenths / 10);
    proof {
        reveal_strlit(".");
    }
    text.append(".");
    append_decimal(&mut text, tenths % 10);
    text.append(unit);
    assert(text@ =~= one_decimal(tenths as nat, unit@));
    text
}

} // verus!
