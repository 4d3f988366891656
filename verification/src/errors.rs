//! What the conversions report when they cannot give a result.

use crate::degrees::Degrees;
use std::num::ParseIntError;
use vstd::prelude::*;
use vstd::string::to_string_from_display_ensures;

verus! {

/// Why a two's complement conversion failed.
#[derive(Debug, PartialEq)]
pub enum TwosComplementError {
    /// The input is empty or holds a character other than `'0'` and `'1'`.
    InvalidInput,
    /// The digits are binary, but the number they spell does not fit in 32
    /// bits. Carries the error of the integer parser.
    ParseError(ParseIntError),
    /// The requested width is zero.
    InvalidSize,
    /// The number does not fit in the requested width.
    OverflowError,
}

impl TwosComplementError {
    /// The text that belongs to the kind of error. For a `ParseError` it is
    /// the start of the message, and the parser's own words follow it; for
    /// every other kind it is the whole message.
    pub open spec fn fixed_text(self) -> Seq<char> {
        match self {
            TwosComplementError::InvalidInput => "Invalid input: Enter only 0s and 1s."@,
            TwosComplementError::ParseError(_) => "Error parsing binary input: "@,
            TwosComplementError::InvalidSize => "Error: Size must be greater than 0."@,
            TwosComplementError::OverflowError => "Error: Number does not fit in the specified size."@,
        }
    }

    /// The message for a reader: the text of the kind, and behind it, for a
    /// `ParseError`, what the parser's error displays as.
    pub fn message(&self) -> (r: String)
        ensures
            self.fixed_text().is_prefix_of(r@),
            !(self is ParseError) ==> r@ == self.fixed_text(),
            self matches TwosComplementError::ParseError(cause) ==> exists|shown: String|
                #[trigger] to_string_from_display_ensures::<ParseIntError>(&cause, shown) && r@
                    == self.fixed_text() + shown@,
    {
        match self {
            TwosComplementError::InvalidInput => String::from_str(
                "Invalid input: Enter only 0s and 1s.",
            ),
            TwosComplementError::ParseError(cause) => {
                let mut text = String::from_str("Error parsing binary input: ");
                text.append(cause.to_string().as_str());
                text
            },
            TwosComplementError::InvalidSize => String::from_str(
                "Error: Size must be greater than 0.",
            ),
            TwosComplementError::OverflowError => String::from_str(
                "Error: Number does not fit in the specified size.",
            ),
        }
    }
}

impl From<ParseIntError> for TwosComplementError {
    /// Wraps the parser's error as a `ParseError`.
    fn from(cause: ParseIntError) -> (r: TwosComplementError) {
        TwosComplementError::ParseError(cause)
    }
}

impl vstd::std_specs::convert::FromSpecImpl<ParseIntError> for TwosComplementError {
    open spec fn obeys_from_spec() -> bool {
        true
    }

    open spec fn from_spec(cause: ParseIntError) -> TwosComplementError {
        TwosComplementError::ParseError(cause)
    }
}

/// Why a zone lookup failed. The first two variants carry the coordinate that
/// was refused.
#[derive(Debug, PartialEq)]
pub enum UTMZoneError {
    /// The longitude lies outside -180 to 180 degrees.
    InvalidLongitude(Degrees),
    /// The latitude lies outside the range that the step at hand accepts.
    InvalidLatitude(Degrees),
    /// A failure of some other kind. No function of this library returns it.
    CalculationError(String),
}

} // verus!
