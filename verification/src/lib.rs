//! Conversions between color representations, i.e. `RGB <-> CMYK`, with RGB-255 as the
//! pivot format and six-digit hex strings as the textual form.

use vstd::prelude::*;
use crate::hex::{format_hex, hex_color_value, is_hex_color, parse_hex, rgb_hex};
use crate::rgb::RGB;
pub use crate::error::ColorParseError;

pub mod cmyk;
pub mod error;
pub mod hex;
pub mod rgb;
pub mod scale;

verus! {

/// A color representation. RGB-255 is the common format: a type says how it converts to
/// RGB-255 and how it is built from RGB-255, and [`ColorExt`] derives every other
/// conversion from those two.
pub trait Color: Sized {
    /// The RGB-255 color that this value converts to.
    spec fn rgb_value(&self) -> RGB;

    /// The value of this type that an RGB-255 color converts to.
    spec fn from_rgb_value(c: RGB) -> Self;

    /// The human-readable text of this value.
    spec fn text(&self) -> Seq<char>;

    /// Converts this color into RGB-255, without consuming `self`.
    fn as_rgb(&self) -> (c: RGB)
        ensures
            c == self.rgb_value(),
    ;

    /// Creates a color from its RGB-255 representation.
    fn from_rgb(c: RGB) -> (color: Self)
        ensures
            color == Self::from_rgb_value(c),
    ;

    /// Renders this color as human-readable text.
    fn to_string(&self) -> (text: String)
        ensures
            text@ == self.text(),
    ;

    /// Converts this color into RGB-255.
    fn into_rgb(self) -> (c: RGB)
        ensures
            c == self.rgb_value(),
    {
        self.as_rgb()
    }
}

/// What every [`Color`] can do once it has its two conversions to and from RGB-255. Each
/// conversion between two color types goes through RGB-255; there is no direct path from
/// one type to another.
pub trait ColorExt: Color {
    /// Converts into any other color type.
    fn into_color<U: Color>(self) -> (color: U)
        ensures
            color == U::from_rgb_value(self.rgb_value()),
    ;

    /// Converts into any other color type, without consuming `self`.
    fn as_color<U: Color>(&self) -> (color: U)
        ensures
            color == U::from_rgb_value(self.rgb_value()),
    ;

    /// Converts from any other color type.
    fn from_color<U: Color>(c: U) -> (color: Self)
        ensures
            color == Self::from_rgb_value(c.rgb_value()),
    ;

    /// The hex string of this color's RGB-255 representation. May be lossy.
    fn as_hex(&self) -> (text: String)
        ensures
            text@ == rgb_hex(self.rgb_value()),
    ;

    /// Parses a hex string (six hexadecimal digits, optionally behind a `#`) into this
    /// color type. Any other input is rejected as [`ColorParseError::BadInput`].
    fn from_hex(s: &str) -> (r: Result<Self, ColorParseError>)
        ensures
            is_hex_color(s@) ==> (r matches Ok(color) && color == Self::from_rgb_value(
                hex_color_value(s@),
            )),
            !is_hex_color(s@) ==> (r matches Err(e) && e == ColorParseError::BadInput),
    ;
}

impl<C: Color> ColorExt for C {
    fn into_color<U: Color>(self) -> (color: U) {
        U::from_rgb(self.into_rgb())
    }

    fn as_color<U: Color>(&self) -> (color: U) {
        U::from_rgb(self.as_rgb())
    }

    fn from_color<U: Color>(c: U) -> (color: Self) {
        Self::from_rgb(c.into_rgb())
    }

    fn as_hex(&self) -> (text: String) {
        format_hex(self.as_rgb())
    }

    fn from_hex(s: &str) -> (r: Result<Self, ColorParseError>) {
        match parse_hex(s) {
            Ok(rgb) => Ok(Self::from_rgb(rgb)),
            Err(e) => Err(e),
        }
    }
}

} // verus!
