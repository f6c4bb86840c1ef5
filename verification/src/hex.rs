//! The hex codec: six hexadecimal digits, optionally behind a `#`, read as the three bytes
//! of an RGB-255 color, and the canonical upper-case rendering of such a color.

use vstd::prelude::*;
use std::num::ParseIntError;
use crate::rgb::RGB;
use crate::ColorParseError;

verus! {

/// Whether `c` is one of `0-9`, `a-f`, `A-F`.
pub open spec fn is_hex_digit(c: char) -> bool {
    ('0' <= c && c <= '9') || ('a' <= c && c <= 'f') || ('A' <= c && c <= 'F')
}

/// The number a hexadecimal digit stands for, in either case.
pub open spec fn hex_digit_value(c: char) -> int {
    if '0' <= c && c <= '9' {
        c as int - '0' as int
    } else if 'a' <= c && c <= 'f' {
        c as int - 'a' as int + 10
    } else {
        c as int - 'A' as int + 10
    }
}

/// Whether `s` is exactly two hexadecimal digits.
pub open spec fn is_hex_pair(s: Seq<char>) -> bool {
    s.len() == 2 && is_hex_digit(s[0]) && is_hex_digit(s[1])
}

/// The byte that two hexadecimal digits spell, most significant digit first.
pub open spec fn hex_pair_value(s: Seq<char>) -> int {
    16 * hex_digit_value(s[0]) + hex_digit_value(s[1])
}

/// The input without its optional leading `#`.
pub open spec fn hex_digits_of(s: Seq<char>) -> Seq<char> {
    if s.len() > 0 && s[0] == '#' {
        s.skip(1)
    } else {
        s
    }
}

/// The hex color format: an optional `#`, then exactly six hexadecimal digits, and
/// nothing before, between or after.
pub open spec fn is_hex_color(s: Seq<char>) -> bool {
    let d = hex_digits_of(s);
    d.len() == 6 && forall|i: int| 0 <= i < 6 ==> is_hex_digit(#[trigger] d[i])
}

/// The color that a string in the hex color format spells: its digit pairs are the red,
/// green and blue bytes, in that order.
pub open spec fn hex_color_value(s: Seq<char>) -> RGB {
    let d = hex_digits_of(s);
    RGB {
        r: hex_pair_value(d.subrange(0, 2)) as u8,
        g: hex_pair_value(d.subrange(2, 4)) as u8,
        b: hex_pair_value(d.subrange(4, 6)) as u8,
    }
}

/// The digit for a value below sixteen, with the letters in upper case. Below ten it is
/// the decimal digit.
pub open spec fn digit(v: int) -> char {
    seq!['0', '1', '2', '3', '4', '5', '6', '7', '8', '9', 'A', 'B', 'C', 'D', 'E', 'F'][v]
}

/// A byte as two upper-case hexadecimal digits, zero-padded.
pub open spec fn byte_hex(b: u8) -> Seq<char> {
    seq![digit(b as int / 16), digit(b as int % 16)]
}

/// The canonical text of an RGB color: six upper-case hexadecimal digits, red first, with
/// no prefix and no separator.
pub open spec fn rgb_hex(c: RGB) -> Seq<char> {
    byte_hex(c.r) + byte_hex(c.g) + byte_hex(c.b)
}

/// Every digit below sixteen is a hexadecimal digit that stands for its own value.
pub proof fn lemma_digit_is_hex_digit(v: int)
    requires
        0 <= v < 16,
    ensures
        is_hex_digit(digit(v)),
        hex_digit_value(digit(v)) == v,
        digit(v) != '#',
{
}

/// The codec loses nothing: the canonical text of any RGB color is in the hex color
/// format, and it spells that same color.
pub proof fn lemma_hex_round_trip(c: RGB)
    ensures
        is_hex_color(rgb_hex(c)),
        hex_color_value(rgb_hex(c)) == c,
{
    let text = rgb_hex(c);
    lemma_digit_is_hex_digit(c.r as int / 16);
    lemma_digit_is_hex_digit(c.r as int % 16);
    lemma_digit_is_hex_digit(c.g as int / 16);
    lemma_digit_is_hex_digit(c.g as int % 16);
    lemma_digit_is_hex_digit(c.b as int / 16);
    lemma_digit_is_hex_digit(c.b as int % 16);
    assert(text.len() == 6);
    assert(text[0] == digit(c.r as int / 16));
    assert(hex_digits_of(text) == text);
    assert(text.subrange(0, 2) =~= byte_hex(c.r));
    assert(text.subrange(2, 4) =~= byte_hex(c.g));
    assert(text.subrange(4, 6) =~= byte_hex(c.b));
}

fn is_hex_digit_char(c: char) -> (b: bool)
    ensures
        b == is_hex_digit(c),
{
    (c >= '0' && c <= '9') || (c >= 'a' && c <= 'f') || (c >= 'A' && c <= 'F')
}

/// Splits a hex color into its three digit pairs, red first; `None` when the input is not
/// in the format.
fn hex_groups<'a>(s: &'a str) -> (groups: Option<(&'a str, &'a str, &'a str)>)
    ensures
        groups is Some <==> is_hex_color(s@),
        groups matches Some(g) ==> {
            &&& g.0@ == hex_digits_of(s@).subrange(0, 2)
            &&& g.1@ == hex_digits_of(s@).subrange(2, 4)
            &&& g.2@ == hex_digits_of(s@).subrange(4, 6)
        },
{
    let n: usize = s.unicode_len();
    if n != 6 && n != 7 {
        return None;
    }
    let start: usize = if n == 7 { 1 } else { 0 };
    if n == 7 && s.get_char(0) != '#' {
        return None;
    }
    let ghost d = hex_digits_of(s@);
    let mut i: usize = 0;
    while i < 6
        invariant
            i <= 6,
            start + 6 == n,
            n == s@.len(),
            d == hex_digits_of(s@),
            start == 1 ==> s@[0] == '#',
            forall|j: int| 0 <= j < i ==> is_hex_digit(#[trigger] s@[start + j]),
        decreases 6 - i,
    {
        if !is_hex_digit_char(s.get_char(start + i)) {
            proof {
                if d.len() == 6 {
                    assert(d[i as int] == s@[start + i]);
                }
            }
            return None;
        }
        i += 1;
    }
    proof {
        assert(is_hex_digit(s@[start + 0]));
        assert(d =~= s@.subrange(start as int, start + 6));
        assert forall|j: int| 0 <= j < 6 implies is_hex_digit(#[trigger] d[j]) by {
            assert(d[j] == s@[start + j]);
        }
        assert(d.subrange(0, 2) =~= s@.subrange(start as int, start + 2));
        assert(d.subrange(2, 4) =~= s@.subrange(start + 2, start + 4));
        assert(d.subrange(4, 6) =~= s@.subrange(start + 4, start + 6));
    }
    let red = s.substring_char(start, start + 2);
    let green = s.substring_char(start + 2, start + 4);
    let blue = s.substring_char(start + 4, start + 6);
    Some((red, green, blue))
}

/// `u8::from_str_radix` with radix 16: two hexadecimal digits, in either case, parse to the
/// byte they spell. Nothing is claimed of any other input.
#[verifier::external_body]
fn parse_hex_byte(digits: &str) -> (parsed: Result<u8, ParseIntError>)
    ensures
        is_hex_pair(digits@) ==> parsed is Ok && parsed->Ok_0 == hex_pair_value(digits@),
{
    u8::from_str_radix(digits, 16)
}

/// Parses a hex color string into the RGB color it spells.
pub fn parse_hex(s: &str) -> (r: Result<RGB, ColorParseError>)
    ensures
        is_hex_color(s@) ==> (r matches Ok(color) && color == hex_color_value(s@)),
        !is_hex_color(s@) ==> (r matches Err(e) && e == ColorParseError::BadInput),
{
    let groups = match hex_groups(s) {
        Some(groups) => groups,
        None => {
            return Err(ColorParseError::BadInput);
        },
    };
    let r = match parse_hex_byte(groups.0) {
        Ok(byte) => byte,
        Err(cause) => {
            return Err(ColorParseError::from(cause));
        },
    };
    let g = match parse_hex_byte(groups.1) {
        Ok(byte) => byte,
        Err(cause) => {
            return Err(ColorParseError::from(cause));
        },
    };
    let b = match parse_hex_byte(groups.2) {
        Ok(byte) => byte,
        Err(cause) => {
            return Err(ColorParseError::from(cause));
        },
    };
    Ok(RGB::new(r, g, b))
}

pub(crate) fn digit_str(v: u8) -> (text: &'static str)
    requires
        v < 16,
    ensures
        text@ == seq![digit(v as int)],
{
    proof {
        reveal_strlit("0");
        reveal_strlit("1");
        reveal_strlit("2");
        reveal_strlit("3");
        reveal_strlit("4");
        reveal_strlit("5");
        reveal_strlit("6");
        reveal_strlit("7");
        reveal_strlit("8");
        reveal_strlit("9");
        reveal_strlit("A");
        reveal_strlit("B");
        reveal_strlit("C");
        reveal_strlit("D");
        reveal_strlit("E");
        reveal_strlit("F");
    }
    let text = match v {
        0 => "0",
        1 => "1",
        2 => "2",
        3 => "3",
        4 => "4",
        5 => "5",
        6 => "6",
        7 => "7",
        8 => "8",
        9 => "9",
        10 => "A",
        11 => "B",
        12 => "C",
        13 => "D",
        14 => "E",
        _ => "F",
    };
    assert(text@ =~= seq![digit(v as int)]);
    text
}

fn append_byte_hex(out: &mut String, b: u8)
    ensures
        final(out)@ == old(out)@ + byte_hex(b),
{
    out.append(digit_str(b / 16));
    out.append(digit_str(b % 16));
    assert(out@ =~= old(out)@ + byte_hex(b));
}

/// Renders an RGB color as its canonical hex text.
pub fn format_hex(c: RGB) -> (text: String)
    ensures
        text@ == rgb_hex(c),
{
    let mut text = String::new();
    append_byte_hex(&mut text, c.r);
    append_byte_hex(&mut text, c.g);
    append_byte_hex(&mut text, c.b);
    assert(text@ =~= rgb_hex(c));
    text
}

} // verus!
