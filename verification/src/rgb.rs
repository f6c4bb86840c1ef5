//! RGB-255 colors: three independent 8-bit channels.

use vstd::prelude::*;
use crate::hex::{format_hex, rgb_hex};
use crate::Color;

verus! {

/// An RGB-255 color.
#[derive(Copy, Debug, Clone, Eq, PartialEq, Structural)]
pub struct RGB {
    /// The red component
    pub r: u8,
    /// The green component
    pub g: u8,
    /// The blue component
    pub b: u8,
}

impl RGB {
    /// Black (`#000000`), as a specification value.
    pub open spec fn spec_black() -> RGB {
        RGB { r: 0, g: 0, b: 0 }
    }

    /// White (`#FFFFFF`), as a specification value.
    pub open spec fn spec_white() -> RGB {
        RGB { r: 0xFF, g: 0xFF, b: 0xFF }
    }

    /// Black (`#000000`)
    #[verifier::when_used_as_spec(spec_black)]
    pub fn black() -> (c: RGB)
        ensures
            c == RGB::spec_black(),
    {
        RGB { r: 0, g: 0, b: 0 }
    }

    /// White (`#FFFFFF`)
    #[verifier::when_used_as_spec(spec_white)]
    pub fn white() -> (c: RGB)
        ensures
            c == RGB::spec_white(),
    {
        RGB { r: 0xFF, g: 0xFF, b: 0xFF }
    }

    /// Creates an RGB-255 color from raw components.
    pub fn new(r: u8, g: u8, b: u8) -> (c: RGB)
        ensures
            c.r == r,
            c.g == g,
            c.b == b,
    {
        RGB { r, g, b }
    }

    /// Returns the channels as an array, in the order red, green, blue.
    pub fn as_parts(&self) -> (parts: [u8; 3])
        ensures
            parts@ == seq![self.r, self.g, self.b],
    {
        [self.r, self.g, self.b]
    }

    /// Returns whether this color is [`RGB::black()`].
    pub fn is_black(&self) -> (black: bool)
        ensures
            black <==> *self == RGB::black(),
    {
        self.r == 0 && self.g == 0 && self.b == 0
    }
}

impl Color for RGB {
    open spec fn rgb_value(&self) -> RGB {
        *self
    }

    open spec fn from_rgb_value(c: RGB) -> RGB {
        c
    }

    /// Six upper-case hexadecimal digits, zero-padded per channel, without a leading `#`.
    open spec fn text(&self) -> Seq<char> {
        rgb_hex(*self)
    }

    fn into_rgb(self) -> (c: RGB) {
        self
    }

    fn as_rgb(&self) -> (c: RGB) {
        *self
    }

    fn from_rgb(c: RGB) -> (color: RGB) {
        c
    }

    fn to_string(&self) -> (text: String) {
        format_hex(*self)
    }
}

} // verus!
