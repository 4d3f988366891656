//! Contracts for the pieces of the standard library that the conversions call
//! and that come without a specification. Nothing in this file is proved: each
//! item says what the standard library documents.

use crate::bits::{is_binary, unsigned_value};
use std::num::ParseIntError;
use vstd::prelude::*;

verus! {

/// The error of the standard library's integer parsing. Its inside is not
/// looked at.
#[verifier::external_type_specification]
#[verifier::external_body]
pub struct ExParseIntError(ParseIntError);

/// `String::push` appends the given character to the end of the string.
pub assume_specification[ String::push ](s: &mut String, c: char)
    ensures
        final(s)@ == old(s)@.push(c),
;

/// Calls `i32::from_str_radix` with radix 2. Of a binary string it returns
/// the number that the digits spell where that number fits in an `i32`, and an
/// error where it does not. Of any other string nothing is claimed.
#[verifier::external_body]
pub(crate) fn parse_binary(digits: &str) -> (r: Result<i32, ParseIntError>)
    ensures
        is_binary(digits@) ==> match r {
            Ok(v) => v == unsigned_value(digits@),
            Err(_) => unsigned_value(digits@) > i32::MAX,
        },
{
    i32::from_str_radix(digits, 2)
}

} // verus!
