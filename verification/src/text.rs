//! Numbers and positions as text, for the labels on the screen.

use vstd::prelude::*;
use vstd::string::StringExecFns;
use crate::fixed::Fixed;
use crate::vector::Vec3;

verus! {

/// The character of a decimal digit.
pub open spec fn digit_char(d: int) -> char {
    if d == 0 {
        '0'
    } else if d == 1 {
        '1'
    } else if d == 2 {
        '2'
    } else if d == 3 {
        '3'
    } else if d == 4 {
        '4'
    } else if d == 5 {
        '5'
    } else if d == 6 {
        '6'
    } else if d == 7 {
        '7'
    } else if d == 8 {
        '8'
    } else {
        '9'
    }
}

/// The decimal digits of a number, without leading zeros.
pub open spec fn decimal(n: nat) -> Seq<char>
    decreases n,
{
    if n < 10 {
        seq![digit_char(n as int)]
    } else {
        decimal(n / 10).push(digit_char((n % 10) as int))
    }
}

/// The number of hundredths nearest to a raw magnitude; a half is rounded up.
pub open spec fn hundredths(magnitude: nat) -> nat {
    (magnitude + 5000) / 10000
}

/// A number with two decimal places: a minus sign if it is below zero, the
/// whole part, a point, and two digits. The magnitude is rounded to the
/// nearest hundredth, a half away from zero.
pub open spec fn two_places(value: Fixed) -> Seq<char> {
    let magnitude = if value@ < 0 {
        (-value@) as nat
    } else {
        value@ as nat
    };
    let h = hundredths(magnitude);
    let sign = if value@ < 0 {
        seq!['-']
    } else {
        Seq::<char>::empty()
    };
    sign + decimal(h / 100) + seq!['.', digit_char(((h / 10) % 10) as int), digit_char((h % 10) as int)]
}

/// A position as three numbers with two decimal places, in brackets.
pub open spec fn position_chars(v: Vec3) -> Seq<char> {
    seq!['('] + two_places(v.x) + seq![',', ' '] + two_places(v.y) + seq![',', ' '] + two_places(v.z)
        + seq![')']
}

fn digit_text(d: u64) -> (s: &'static str)
    requires
        d < 10,
    ensures
        s@ == seq![digit_char(d as int)],
{
    proof {
        reveal_strlit("0");
        reveal_strlit("1");
        reveal_strlit("2");
        reveal_strlit("3");
        reveal_strlit("4");
        reveal_strlit("5");
        reveal_strlit("6");
        reveal_strlit("7");
        reveal_strlit("8");
        reveal_strlit("9");
    }
    let s = if d == 0 {
        "0"
    } else if d == 1 {
        "1"
    } else if d == 2 {
        "2"
    } else if d == 3 {
        "3"
    } else if d == 4 {
        "4"
    } else if d == 5 {
        "5"
    } else if d == 6 {
        "6"
    } else if d == 7 {
        "7"
    } else if d == 8 {
        "8"
    } else {
        "9"
    };
    assert(s@ =~= seq![digit_char(d as int)]);
    s
}

/// Writes the decimal digits of `n` at the end of `text`.
pub fn push_decimal(text: &mut String, n: u64)
    ensures
        final(text)@ == old(text)@ + decimal(n as nat),
    decreases n,
{
    if n >= 10 {
        push_decimal(text, n / 10);
    }
    text.append(digit_text(n % 10));
    assert(text@ =~= old(text)@ + decimal(n as nat));
}

/// Writes `value` with two decimal places at the end of `text`.
pub fn push_two_places(text: &mut String, value: Fixed)
    ensures
        final(text)@ == old(text)@ + two_places(value),
{
    proof {
        reveal_strlit("-");
        reveal_strlit(".");
    }
    let magnitude: u64 = if value.raw < 0 {
        (-(value.raw as i128)) as u64
    } else {
        value.raw as u64
    };
    let h: u64 = (magnitude + 5000) / 10000;
    if value.raw < 0 {
        text.append("-");
    }
    push_decimal(text, h / 100);
    text.append(".");
    text.append(digit_text((h / 10) % 10));
    text.append(digit_text(h % 10));
    assert(text@ =~= old(text)@ + two_places(value));
}

/// `value` as text with two decimal places, as the frame rate is shown.
pub fn format_two_places(value: Fixed) -> (text: String)
    ensures
        text@ == two_places(value),
{
    let mut text = String::new();
    push_two_places(&mut text, value);
    assert(text@ =~= two_places(value));
    text
}

/// Writes a position at the end of `text`.
pub fn push_position(text: &mut String, v: Vec3)
    ensures
        final(text)@ == old(text)@ + position_chars(v),
{
    proof {
        reveal_strlit("(");
        reveal_strlit(", ");
        reveal_strlit(")");
    }
    text.append("(");
    push_two_places(text, v.x);
    text.append(", ");
    push_two_places(text, v.y);
    text.append(", ");
    push_two_places(text, v.z);
    text.append(")");
    assert(text@ =~= old(text)@ + position_chars(v));
}

/// A position as text: "(x, y, z)" with two decimal places each.
pub fn position_text(v: Vec3) -> (text: String)
    ensures
        text@ == position_chars(v),
{
    let mut text = String::new();
    push_position(&mut text, v);
    assert(text@ =~= position_chars(v));
    text
}

/// What the label of the blast cursor says: where the cursor is.
pub fn impulse_label(point: Vec3) -> (text: String)
    ensures
        text@ == "┌─ Impulse: "@ + position_chars(point),
{
    let mut text = String::from_str("┌─ Impulse: ");
    push_position(&mut text, point);
    text
}

/// What the label of the wrecking body says: where the body is.
pub fn wrecker_label(position: Vec3) -> (text: String)
    ensures
        text@ == "┌─ Wrecker: "@ + position_chars(position),
{
    let mut text = String::from_str("┌─ Wrecker: ");
    push_position(&mut text, position);
    text
}

} // verus!
