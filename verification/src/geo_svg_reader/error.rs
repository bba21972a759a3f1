//! What can go wrong when a drawing is read.

use std::num::ParseFloatError;
use vstd::prelude::*;
use vstd::std_specs::convert::FromSpecImpl;

verus! {

/// `std::num::ParseFloatError`, which `str::parse` hands out for a text that
/// is no double. It is carried as it comes: nothing is said of what it holds.
#[verifier::external_type_specification]
#[verifier::external_body]
pub struct ExParseFloatError(ParseFloatError);

/// Why an element or its path data could not be read.
#[derive(Debug, PartialEq, Eq)]
pub enum SvgError {
    /// A text that should be a number is none.
    ParseError(ParseFloatError),
    /// No element of a supported kind was found.
    SvgInvalidType(SvgUnsupportedGeometryTypeError),
    /// One geometry was asked for and the input holds another number of them.
    SvgGeomCollectionForGeometry(SvgGeometryCollectionForGeometryError),
    /// The input draws nothing.
    InvalidSvgError(InvalidSvgError),
}

/// The markup holds no element from which a shape can be read.
#[derive(Clone, Copy, Debug, PartialEq, Eq, Structural)]
pub struct SvgUnsupportedGeometryTypeError;

/// The input is read as a collection that does not hold exactly one shape.
#[derive(Clone, Copy, Debug, PartialEq, Eq, Structural)]
pub struct SvgGeometryCollectionForGeometryError;

/// The input draws nothing: path data without a subpath, a list without
/// points, an element without one of its numbers, a rectangle that ends
/// before it begins.
#[derive(Clone, Copy, Debug, PartialEq, Eq, Structural)]
pub struct InvalidSvgError;

impl From<ParseFloatError> for SvgError {
    fn from(error: ParseFloatError) -> (r: SvgError) {
        SvgError::ParseError(error)
    }
}

impl FromSpecImpl<ParseFloatError> for SvgError {
    open spec fn obeys_from_spec() -> bool {
        true
    }

    open spec fn from_spec(error: ParseFloatError) -> SvgError {
        SvgError::ParseError(error)
    }
}

impl SvgUnsupportedGeometryTypeError {
    /// The message shown to a user.
    pub fn to_string(&self) -> (text: String)
        ensures
            text@ == "The SVG could not be parsed to a valid Geometry type"@,
    {
        String::from_str("The SVG could not be parsed to a valid Geometry type")
    }
}

impl SvgGeometryCollectionForGeometryError {
    /// The message shown to a user.
    pub fn to_string(&self) -> (text: String)
        ensures
            text@ == "The SVG could only be parsed as a GEOMETRYCOLLECTION"@,
    {
        String::from_str("The SVG could only be parsed as a GEOMETRYCOLLECTION")
    }
}

impl InvalidSvgError {
    /// The message shown to a user.
    pub fn to_string(&self) -> (text: String)
        ensures
            text@ == "The SVG input is invalid"@,
    {
        String::from_str("The SVG input is invalid")
    }
}

} // verus!
