//! Why a value could not be had from a source.

use vstd::prelude::*;

verus! {

/// Why a block of text could not be turned into a value.
#[derive(Clone, Copy, Debug, PartialEq, Eq, Structural)]
pub enum ParseError {
    /// No line carries the label that was looked for.
    FieldNotFound,
    /// A record holds fewer fields than its format asks for.
    FieldCount,
    /// A token is not written as a number.
    Malformed,
    /// A number is written correctly but does not fit its field.
    OutOfRange,
}

/// Why one collector has no new value in a poll. Neither case is fatal: the
/// field that the collector feeds keeps the value it had.
#[derive(Clone, Copy, Debug, PartialEq, Eq, Structural)]
pub enum CollectError {
    /// The command or file could not be read.
    SourceUnavailable,
    /// The source was read, but its content has not the expected shape.
    ParseFailure(ParseError),
}

/// The outcome of a collector that has read its source: the failure of the
/// parser becomes a `ParseFailure`.
pub open spec fn collected<T>(parsed: Result<T, ParseError>) -> Result<T, CollectError> {
    match parsed {
        Ok(value) => Ok(value),
        Err(e) => Err(CollectError::ParseFailure(e)),
    }
}

} // verus!
