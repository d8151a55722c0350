//! The text of a color in CSS notation.

use vstd::prelude::*;
use vstd::string::*;
use crate::model::{HslModel, HslaModel, RgbModel, RgbaModel};
use crate::ratio::byte_to_percentage;

verus! {

/// The character of the decimal digit `d`.
pub open spec fn digit(d: int) -> char {
    if d == 0 {
        '0'
    } else if d == 1 {
        '1'
    } else if d == 2 {
        '2'
    } else if d == 3 {
        '3'
    } else if d == 4 {
        '4'
    } else if d == 5 {
        '5'
    } else if d == 6 {
        '6'
    } else if d == 7 {
        '7'
    } else if d == 8 {
        '8'
    } else {
        '9'
    }
}

/// The decimal numeral of `n`, for `n` in `0..1000`, without leading zeros.
pub open spec fn decimal(n: int) -> Seq<char> {
    if n < 10 {
        seq![digit(n)]
    } else if n < 100 {
        seq![digit(n / 10), digit(n % 10)]
    } else {
        seq![digit(n / 100), digit((n / 10) % 10), digit(n % 10)]
    }
}

/// The numeral of `n` hundredths with two decimal places, for `n` in `0..1000`.
pub open spec fn hundredths(n: int) -> Seq<char> {
    seq![digit(n / 100), '.', digit((n / 10) % 10), digit(n % 10)]
}

/// The numeral of a magnitude as a whole percentage, with its sign.
pub open spec fn percentage(m: int) -> Seq<char> {
    decimal(byte_to_percentage(m)) + seq!['%']
}

/// The numeral of an alpha magnitude: the fraction of the whole to two places.
pub open spec fn alpha(m: int) -> Seq<char> {
    hundredths(byte_to_percentage(m))
}

/// `rgb(R, G, B)`, each channel as its magnitude.
pub open spec fn rgb_text(c: RgbModel) -> Seq<char> {
    seq!['r', 'g', 'b', '('] + decimal(c.r) + seq![',', ' '] + decimal(c.g) + seq![',', ' ']
        + decimal(c.b) + seq![')']
}

/// `rgba(R, G, B, A.AA)`, each color channel as its magnitude.
pub open spec fn rgba_text(c: RgbaModel) -> Seq<char> {
    seq!['r', 'g', 'b', 'a', '('] + decimal(c.r) + seq![',', ' '] + decimal(c.g) + seq![
        ',',
        ' ',
    ] + decimal(c.b) + seq![',', ' '] + alpha(c.a) + seq![')']
}

/// `hsl(H, S%, L%)`, the hue in degrees.
pub open spec fn hsl_text(c: HslModel) -> Seq<char> {
    seq!['h', 's', 'l', '('] + decimal(c.h) + seq![',', ' '] + percentage(c.s) + seq![',', ' ']
        + percentage(c.l) + seq![')']
}

/// `hsla(H, S%, L%, A.AA)`, the hue in degrees.
pub open spec fn hsla_text(c: HslaModel) -> Seq<char> {
    seq!['h', 's', 'l', 'a', '('] + decimal(c.h) + seq![',', ' '] + percentage(c.s) + seq![
        ',',
        ' ',
    ] + percentage(c.l) + seq![',', ' '] + alpha(c.a) + seq![')']
}

/// The one-character text of the decimal digit `d`.
fn digit_str(d: u16) -> (s: &'static str)
    requires
        d < 10,
    ensures
        s@ == seq![digit(d as int)],
{
    proof {
        reveal_strlit("0");
        reveal_strlit("1");
        reveal_strlit("2");
        reveal_strlit("3");
        reveal_strlit("4");
        reveal_strlit("5");
        reveal_strlit("6");
        reveal_strlit("7");
        reveal_strlit("8");
        reveal_strlit("9");
    }
    let s: &'static str = if d == 0 {
        "0"
    } else if d == 1 {
        "1"
    } else if d == 2 {
        "2"
    } else if d == 3 {
        "3"
    } else if d == 4 {
        "4"
    } else if d == 5 {
        "5"
    } else if d == 6 {
        "6"
    } else if d == 7 {
        "7"
    } else if d == 8 {
        "8"
    } else {
        "9"
    };
    assert(s@ =~= seq![digit(d as int)]);
    s
}

/// Appends the decimal numeral of `n`.
pub(crate) fn push_decimal(text: &mut String, n: u16)
    requires
        n < 1000,
    ensures
        final(text)@ == old(text)@ + decimal(n as int),
{
    if n >= 100 {
        text.append(digit_str(n / 100));
    }
    if n >= 10 {
        text.append(digit_str((n / 10) % 10));
    }
    text.append(digit_str(n % 10));
    assert(final(text)@ =~= old(text)@ + decimal(n as int));
}

/// Appends the numeral of `n` hundredths, with two decimal places.
pub(crate) fn push_hundredths(text: &mut String, n: u16)
    requires
        n < 1000,
    ensures
        final(text)@ == old(text)@ + hundredths(n as int),
{
    proof {
        reveal_strlit(".");
    }
    text.append(digit_str(n / 100));
    text.append(".");
    text.append(digit_str((n / 10) % 10));
    text.append(digit_str(n % 10));
    assert(final(text)@ =~= old(text)@ + hundredths(n as int));
}

/// Appends `", "`.
pub(crate) fn push_separator(text: &mut String)
    ensures
        final(text)@ == old(text)@ + seq![',', ' '],
{
    proof {
        reveal_strlit(", ");
    }
    text.append(", ");
    assert(final(text)@ =~= old(text)@ + seq![',', ' ']);
}

/// Appends the whole percentage `n` with its sign.
pub(crate) fn push_percentage(text: &mut String, n: u8)
    requires
        n <= 100,
    ensures
        final(text)@ == old(text)@ + decimal(n as int) + seq!['%'],
{
    proof {
        reveal_strlit("%");
    }
    push_decimal(text, n as u16);
    text.append("%");
    assert(final(text)@ =~= old(text)@ + decimal(n as int) + seq!['%']);
}

/// Appends `")"`.
pub(crate) fn push_close(text: &mut String)
    ensures
        final(text)@ == old(text)@ + seq![')'],
{
    proof {
        reveal_strlit(")");
    }
    text.append(")");
    assert(final(text)@ =~= old(text)@ + seq![')']);
}

} // verus!
