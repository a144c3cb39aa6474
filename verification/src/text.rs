//! Numbers as decimal text.
//!
//! A balance is a whole number of ten-thousandths; its text has the whole
//! units, a point, and exactly four decimal places.

use vstd::prelude::*;
use vstd::string::StringExecFns;

verus! {

/// The number of ten-thousandths in one unit.
pub const SCALE: u128 = 10_000;

/// The character of a decimal digit.
pub open spec fn digit_char(d: int) -> char
    recommends
        0 <= d < 10,
{
    seq!['0', '1', '2', '3', '4', '5', '6', '7', '8', '9'][d]
}

/// The decimal digits of a natural number, without leading zeros; the number
/// 0 has the one digit `0`.
pub open spec fn digits(n: nat) -> Seq<char>
    decreases n,
{
    if n < 10 {
        seq![digit_char(n as int)]
    } else {
        digits(n / 10).push(digit_char((n % 10) as int))
    }
}

/// The four decimal places of a number of ten-thousandths below one unit.
pub open spec fn places(n: nat) -> Seq<char>
    recommends
        n < SCALE,
{
    seq![
        digit_char((n / 1000) as int),
        digit_char((n / 100 % 10) as int),
        digit_char((n / 10 % 10) as int),
        digit_char((n % 10) as int),
    ]
}

/// The distance of a number from zero.
pub open spec fn magnitude(value: int) -> nat {
    if value < 0 {
        (-value) as nat
    } else {
        value as nat
    }
}

/// The text of a number of ten-thousandths: a minus sign where it is
/// negative, the whole units, a point, and four decimal places.
pub open spec fn fixed_text(value: int) -> Seq<char> {
    (if value < 0 {
        seq!['-']
    } else {
        Seq::empty()
    }) + digits(magnitude(value) / (SCALE as nat)) + seq!['.'] + places(
        magnitude(value) % (SCALE as nat),
    )
}

/// The text of a truth value.
pub open spec fn bool_text(value: bool) -> Seq<char> {
    if value {
        "true"@
    } else {
        "false"@
    }
}

/// The text of one decimal digit.
fn digit_str(d: u128) -> (text: &'static str)
    requires
        d < 10,
    ensures
        text@ == seq![digit_char(d as int)],
{
    proof {
        reveal_strlit("0");
        reveal_strlit("1");
        reveal_strlit("2");
        reveal_strlit("3");
        reveal_strlit("4");
        reveal_strlit("5");
        reveal_strlit("6");
        reveal_strlit("7");
        reveal_strlit("8");
        reveal_strlit("9");
    }
    let text = if d == 0 {
        "0"
    } else if d == 1 {
        "1"
    } else if d == 2 {
        "2"
    } else if d == 3 {
        "3"
    } else if d == 4 {
        "4"
    } else if d == 5 {
        "5"
    } else if d == 6 {
        "6"
    } else if d == 7 {
        "7"
    } else if d == 8 {
        "8"
    } else {
        "9"
    };
    assert(text@ =~= seq![digit_char(d as int)]);
    text
}

/// Appends the decimal digits of `n` to `text`.
pub fn push_digits(text: &mut String, n: u128)
    ensures
        final(text)@ == old(text)@ + digits(n as nat),
    decreases n,
{
    if n >= 10 {
        push_digits(text, n / 10);
    }
    text.append(digit_str(n % 10));
    assert(final(text)@ =~= old(text)@ + digits(n as nat));
}

/// Appends the text of a number of ten-thousandths to `text`.
pub fn push_fixed(text: &mut String, value: i128)
    ensures
        final(text)@ == old(text)@ + fixed_text(value as int),
{
    let size: u128 = if value < 0 {
        text.append("-");
        ((-(value + 1)) as u128) + 1
    } else {
        value as u128
    };
    proof {
        reveal_strlit("-");
        reveal_strlit(".");
    }
    assert(size == magnitude(value as int));
    push_digits(text, size / SCALE);
    text.append(".");
    let rest: u128 = size % SCALE;
    text.append(digit_str(rest / 1000));
    text.append(digit_str(rest / 100 % 10));
    text.append(digit_str(rest / 10 % 10));
    text.append(digit_str(rest % 10));
    assert(final(text)@ =~= old(text)@ + fixed_text(value as int));
}

/// What stands between two columns of a row.
pub open spec fn separator() -> Seq<char> {
    ",\t"@
}

/// Appends the text of a truth value to `text`.
pub fn push_bool(text: &mut String, value: bool)
    ensures
        final(text)@ == old(text)@ + bool_text(value),
{
    if value {
        text.append("true");
    } else {
        text.append("false");
    }
}

/// Appends what stands between two columns to `text`.
pub fn push_separator(text: &mut String)
    ensures
        final(text)@ == old(text)@ + separator(),
{
    text.append(",\t");
}

/// The text of a number of ten-thousandths, such as `25.0000` for 250000.
pub fn format_fixed(value: i128) -> (text: String)
    ensures
        text@ == fixed_text(value as int),
{
    let mut text = String::new();
    push_fixed(&mut text, value);
    assert(text@ =~= fixed_text(value as int));
    text
}

} // verus!
