//! Error types.

use vstd::prelude::*;

verus! {

/// The input is malformed: an unknown or reserved header, a partition value
/// that the standard does not assign, too few bits for a field, or an item
/// field that holds no item reference.
#[derive(Debug, Clone, Copy, PartialEq, Eq, Structural)]
pub struct ParseError();

/// The header names a layout of the standard that this crate does not decode.
#[derive(Debug, Clone, Copy, PartialEq, Eq, Structural)]
pub struct UnimplementedError();

/// Why a payload could not be decoded.
#[derive(Debug, Clone, Copy, PartialEq, Eq, Structural)]
pub enum Error {
    /// The payload is malformed.
    Parse(ParseError),
    /// The payload is well-formed but its layout is not supported.
    Unimplemented(UnimplementedError),
}

impl ParseError {
    /// The text that describes this error.
    pub fn message(&self) -> (text: String)
        ensures
            text@ == "parse error"@,
    {
        "parse error".to_string()
    }
}

impl UnimplementedError {
    /// The text that describes this error.
    pub fn message(&self) -> (text: String)
        ensures
            text@ == "unimplemented"@,
    {
        "unimplemented".to_string()
    }
}

impl Error {
    /// The text that describes this error.
    pub fn message(&self) -> (text: String)
        ensures
            text@ == match *self {
                Error::Parse(_) => "parse error"@,
                Error::Unimplemented(_) => "unimplemented"@,
            },
    {
        match self {
            Error::Parse(e) => e.message(),
            Error::Unimplemented(e) => e.message(),
        }
    }
}

} // verus!
