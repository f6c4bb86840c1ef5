//! Colors in the CMYK color space. Each component is a fraction in `[0, 1]`, held as a
//! 16-bit fixed-point number: the integer `i` stands for `i / 65535`. Conversions to the
//! RGB-255 color space are therefore potentially lossy.

use vstd::prelude::*;
use crate::hex::{digit, digit_str};
use crate::rgb::RGB;
use crate::scale::{div_nearest, lemma_nearest_is_within_half, lemma_nearest_upper_bound, nearest};
use crate::Color;

verus! {

/// The fixed-point image of 1.0: the largest value of a component.
pub const UNIT: u16 = 65535;

/// A color in the CMYK color space, with `u16` representing each component internally.
#[derive(Copy, Clone, Debug, Eq, PartialEq, Structural)]
pub struct CMYK {
    /// Cyan component
    pub c: u16,
    /// Magenta component
    pub m: u16,
    /// Yellow component
    pub y: u16,
    /// Key (black) component
    pub k: u16,
}

/// The largest of three channels.
pub open spec fn max3(r: u8, g: u8, b: u8) -> u8 {
    if r >= g && r >= b {
        r
    } else if g >= b {
        g
    } else {
        b
    }
}

/// The fixed-point component nearest to the fraction `n / d`.
pub open spec fn component_of(n: int, d: int) -> int {
    nearest(UNIT * n, d)
}

/// The key of an RGB color, in 255ths: `k = 1 - max(r, g, b) / 255`.
pub open spec fn key_255(x: RGB) -> int {
    255 - max3(x.r, x.g, x.b)
}

/// The cyan, magenta or yellow component that goes with the red, green or blue channel
/// `v` under the key `k`: `(1 - v/255 - k) / (1 - k)`, with numerator and denominator
/// both written in 255ths.
pub open spec fn ink_of(v: u8, k255: int) -> int {
    component_of(255 - v - k255, 255 - k255)
}

/// The CMYK color that an RGB color converts to. Pure black has no ink ratio to compute
/// (the denominator `1 - k` is zero) and maps to [`CMYK::black`] directly.
pub open spec fn cmyk_of_rgb(x: RGB) -> CMYK {
    if x == RGB::black() {
        CMYK::black()
    } else {
        let k255 = key_255(x);
        CMYK {
            c: ink_of(x.r, k255) as u16,
            m: ink_of(x.g, k255) as u16,
            y: ink_of(x.b, k255) as u16,
            k: component_of(k255, 255) as u16,
        }
    }
}

/// The RGB channel that an ink component gives under a key: `255 * (1 - ink) * (1 - key)`,
/// rounded once, after the multiplication.
pub open spec fn channel_of(ink: u16, key: u16) -> int {
    nearest(255 * ((UNIT - ink) * (UNIT - key)), UNIT * UNIT)
}

/// The RGB color that a CMYK color converts to.
pub open spec fn rgb_of_cmyk(x: CMYK) -> RGB {
    RGB {
        r: channel_of(x.c, x.k) as u8,
        g: channel_of(x.m, x.k) as u8,
        b: channel_of(x.y, x.k) as u8,
    }
}

/// A component in hundredths, rounded to the nearest: what its two-decimal rendering shows.
pub open spec fn hundredths(i: u16) -> int {
    nearest(100 * i, UNIT as int)
}

/// A component as a decimal fraction with exactly two decimals, such as `0.23` or `1.00`.
pub open spec fn component_text(i: u16) -> Seq<char> {
    let h = hundredths(i);
    seq![digit(h / 100), '.', digit(h / 10 % 10), digit(h % 10)]
}

/// The text of a CMYK color: its four components with two decimals each, separated by
/// commas and enclosed in parentheses, `(c,m,y,k)`.
pub open spec fn cmyk_text(x: CMYK) -> Seq<char> {
    seq!['('] + component_text(x.c) + seq![','] + component_text(x.m) + seq![',']
        + component_text(x.y) + seq![','] + component_text(x.k) + seq![')']
}

/// Every ink and key component of a converted RGB color is a fraction in `[0, 1]`.
pub proof fn lemma_component_in_range(n: int, d: int)
    requires
        0 <= n <= d,
        0 < d,
    ensures
        0 <= component_of(n, d) <= UNIT,
{
    assert(0 <= UNIT * n && UNIT * n <= UNIT * d) by (nonlinear_arith)
        requires
            0 <= n <= d,
    ;
    lemma_nearest_is_within_half(UNIT * n, d);
    lemma_nearest_upper_bound(UNIT * n, d, UNIT as int);
}

/// Every channel of a converted CMYK color fits in a byte.
pub proof fn lemma_channel_in_range(ink: u16, key: u16)
    ensures
        0 <= channel_of(ink, key) <= 255,
{
    let a = UNIT - ink;
    let b = UNIT - key;
    assert(0 <= a * b && a * b <= UNIT * UNIT) by (nonlinear_arith)
        requires
            0 <= a <= UNIT,
            0 <= b <= UNIT,
    ;
    lemma_nearest_is_within_half(255 * (a * b), UNIT * UNIT);
    lemma_nearest_upper_bound(255 * (a * b), UNIT * UNIT, 255);
}

/// One channel survives the trip to CMYK and back: the ink that stands for the channel `v`
/// under the key of a color whose largest channel is `max` converts back to `v`.
proof fn lemma_channel_round_trip(v: u8, max: u8)
    requires
        0 < max,
        v <= max,
    ensures
        0 <= ink_of(v, 255 - max) <= UNIT,
        component_of(255 - max, 255) == 257 * (255 - max),
        channel_of(ink_of(v, 255 - max) as u16, component_of(255 - max, 255) as u16) == v,
{
    let unit = UNIT as int;
    let m = max as int;
    let k255 = 255 - m;
    // The key is exact: 65535 / 255 is the whole number 257.
    assert(unit * k255 == (257 * k255) * 255);
    crate::scale::lemma_nearest_of_multiple(257 * k255, 255);
    let key = component_of(k255, 255);
    assert(key == 257 * k255);
    // The ink is within one half of 65535 * (max - v) / max.
    let ink = ink_of(v, k255);
    assert(ink == nearest(unit * (m - v), m));
    lemma_component_in_range(m - v, m);
    assert(0 <= unit * (m - v)) by (nonlinear_arith)
        requires
            0 <= m - v,
            unit == 65535,
    ;
    lemma_nearest_is_within_half(unit * (m - v), m);
    // What is left of the ink, times what is left of the key, is within max/2 of 65535 * v.
    let a = unit - ink;
    assert(2 * unit * v - m <= 2 * (a * m) < 2 * unit * v + m) by (nonlinear_arith)
        requires
            a == unit - ink,
            2 * m * ink - m <= 2 * (unit * (m - v)) < 2 * m * ink + m,
    ;
    let n = 255 * (a * (unit - key));
    assert(n == unit * (a * m)) by (nonlinear_arith)
        requires
            n == 255 * (a * (unit - key)),
            unit - key == 257 * m,
            unit == 65535,
    ;
    assert(2 * (unit * unit) * v - unit * unit <= 2 * n < 2 * (unit * unit) * v + unit * unit)
        by (nonlinear_arith)
        requires
            n == unit * (a * m),
            2 * unit * v - m <= 2 * (a * m) < 2 * unit * v + m,
            0 < m < unit,
    ;
    crate::scale::lemma_nearest_is_unique(n, unit * unit, v as int);
}

/// Converting an RGB-255 color to CMYK and back gives the same color again, for every
/// RGB-255 color: sixteen bits per component are enough to keep all eight bits of each
/// channel.
pub proof fn lemma_rgb_round_trip(x: RGB)
    ensures
        rgb_of_cmyk(cmyk_of_rgb(x)) == x,
        RGB::from_rgb_value(CMYK::from_rgb_value(x.rgb_value()).rgb_value()) == x,
{
    if x == RGB::black() {
        crate::scale::lemma_nearest_is_unique(0, UNIT * UNIT, 0);
        assert(channel_of(0, UNIT) == 0);
    } else {
        let max = max3(x.r, x.g, x.b);
        lemma_channel_round_trip(x.r, max);
        lemma_channel_round_trip(x.g, max);
        lemma_channel_round_trip(x.b, max);
    }
}

/// Computes the fixed-point component nearest to `n / d`.
fn component(n: u8, d: u8) -> (i: u16)
    requires
        n <= d,
        0 < d,
    ensures
        i == component_of(n as int, d as int),
{
    proof {
        lemma_component_in_range(n as int, d as int);
    }
    let scaled: u64 = 65535 * (n as u64);
    div_nearest(scaled, d as u64) as u16
}

/// Computes the RGB channel for an ink component under a key.
fn channel(ink: u16, key: u16) -> (v: u8)
    ensures
        v == channel_of(ink, key),
{
    let a: u64 = (65535 - ink) as u64;
    let b: u64 = (65535 - key) as u64;
    proof {
        lemma_channel_in_range(ink, key);
        assert(0 <= a * b && a * b <= 65535 * 65535) by (nonlinear_arith)
            requires
                0 <= a <= 65535,
                0 <= b <= 65535,
        ;
    }
    let product: u64 = a * b;
    div_nearest(255 * product, 65535 * 65535) as u8
}

/// Appends the two-decimal rendering of a component.
fn append_component(out: &mut String, i: u16)
    ensures
        final(out)@ == old(out)@ + component_text(i),
{
    proof {
        lemma_nearest_is_within_half(100 * i, UNIT as int);
        lemma_nearest_upper_bound(100 * i, UNIT as int, 100);
        reveal_strlit(".");
    }
    let h: u64 = div_nearest(100 * (i as u64), 65535);
    out.append(digit_str((h / 100) as u8));
    out.append(".");
    out.append(digit_str((h / 10 % 10) as u8));
    out.append(digit_str((h % 10) as u8));
    assert(out@ =~= old(out)@ + component_text(i));
}

impl CMYK {
    /// The color black, as CMYK; a specification value.
    pub open spec fn spec_black() -> CMYK {
        CMYK { c: 0, m: 0, y: 0, k: UNIT }
    }

    /// The color white, as CMYK; a specification value.
    pub open spec fn spec_white() -> CMYK {
        CMYK { c: 0, m: 0, y: 0, k: 0 }
    }

    /// The color black, as CMYK
    #[verifier::when_used_as_spec(spec_black)]
    pub fn black() -> (c: CMYK)
        ensures
            c == CMYK::spec_black(),
    {
        CMYK::from_parts([0, 0, 0, UNIT])
    }

    /// The color white, as CMYK
    #[verifier::when_used_as_spec(spec_white)]
    pub fn white() -> (c: CMYK)
        ensures
            c == CMYK::spec_white(),
    {
        CMYK::from_parts([0, 0, 0, 0])
    }

    /// Creates a CMYK color from the raw `u16` components, in the order cyan, magenta,
    /// yellow, key.
    pub fn from_parts(parts: [u16; 4]) -> (color: CMYK)
        ensures
            color.c == parts[0],
            color.m == parts[1],
            color.y == parts[2],
            color.k == parts[3],
    {
        CMYK { c: parts[0], m: parts[1], y: parts[2], k: parts[3] }
    }

    /// Returns the raw integer components, in the order cyan, magenta, yellow, key.
    pub fn as_int_parts(&self) -> (parts: [u16; 4])
        ensures
            parts@ == seq![self.c, self.m, self.y, self.k],
    {
        [self.c, self.m, self.y, self.k]
    }
}

impl Color for CMYK {
    open spec fn rgb_value(&self) -> RGB {
        rgb_of_cmyk(*self)
    }

    open spec fn from_rgb_value(c: RGB) -> CMYK {
        cmyk_of_rgb(c)
    }

    open spec fn text(&self) -> Seq<char> {
        cmyk_text(*self)
    }

    fn as_rgb(&self) -> (c: RGB) {
        let r = channel(self.c, self.k);
        let g = channel(self.m, self.k);
        let b = channel(self.y, self.k);
        RGB { r, g, b }
    }

    fn from_rgb(c: RGB) -> (color: CMYK) {
        if c.is_black() {
            return CMYK::black();
        }
        let max: u8 = if c.r >= c.g && c.r >= c.b {
            c.r
        } else if c.g >= c.b {
            c.g
        } else {
            c.b
        };
        let k: u8 = 255 - max;
        let rest: u8 = 255 - k;
        let cyan = component(255 - c.r - k, rest);
        let magenta = component(255 - c.g - k, rest);
        let yellow = component(255 - c.b - k, rest);
        let key = component(k, 255);
        CMYK::from_parts([cyan, magenta, yellow, key])
    }

    fn to_string(&self) -> (text: String) {
        proof {
            reveal_strlit("(");
            reveal_strlit(",");
            reveal_strlit(")");
        }
        let mut text = String::new();
        text.append("(");
        append_component(&mut text, self.c);
        text.append(",");
        append_component(&mut text, self.m);
        text.append(",");
        append_component(&mut text, self.y);
        text.append(",");
        append_component(&mut text, self.k);
        text.append(")");
        assert(text@ =~= cmyk_text(*self));
        text
    }
}

} // verus!
