//! Why a hex string may fail to parse.

use vstd::prelude::*;
use std::num::ParseIntError;

verus! {

/// The standard library's integer parse error, carried through as an opaque cause.
#[verifier::external_type_specification]
#[verifier::external_body]
pub struct ExParseIntError(std::num::ParseIntError);

/// `Clone::clone` of the standard library's integer parse error: the copy equals the value
/// it was made from.
pub assume_specification[ <std::num::ParseIntError as std::clone::Clone>::clone ](
    cause: &std::num::ParseIntError,
) -> (copy: std::num::ParseIntError)
    ensures
        copy == *cause,
;

/// The reasons parsing a hex string into a color can fail.
#[derive(Clone, Debug)]
pub enum ColorParseError {
    /// The input is not in the hex color format, like `"#FFABCD"` or `"ABFFED"`.
    BadInput,
    /// A pair of digits did not parse as a byte; the cause is attached.
    ParseFailure(ParseIntError),
}

impl From<ParseIntError> for ColorParseError {
    fn from(cause: ParseIntError) -> (e: ColorParseError) {
        ColorParseError::ParseFailure(cause)
    }
}

impl vstd::std_specs::convert::FromSpecImpl<ParseIntError> for ColorParseError {
    open spec fn obeys_from_spec() -> bool {
        true
    }

    open spec fn from_spec(cause: ParseIntError) -> ColorParseError {
        ColorParseError::ParseFailure(cause)
    }
}

} // verus!
