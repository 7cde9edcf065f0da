//! The ways in which reading a file can fail.

use vstd::prelude::*;

verus! {

/// Why a single line could not be decoded as a record.
#[derive(Clone, Copy, Debug, PartialEq, Eq, Structural)]
pub enum DecodeError {
    /// The line ends before the last column of a field.
    FieldRange,
    /// A numeric field holds something other than a non-negative integer.
    FieldFormat,
}

/// A record that arrived before the record it belongs to.
#[derive(Clone, Copy, Debug, PartialEq, Eq, Structural)]
pub enum StructuralError {
    /// A detail entry or a batch control with no batch open.
    MissingBatchHeader,
    /// An addendum with no detail entry in the open batch.
    MissingDetailEntry,
}

/// What went wrong on a line of the file.
#[derive(Clone, Copy, Debug, PartialEq, Eq, Structural)]
pub enum ErrorKind {
    /// The line ends before the last column of a field.
    FieldRange,
    /// A numeric field holds something other than a non-negative integer.
    FieldFormat,
    /// The record is out of place.
    Structure(StructuralError),
}

impl ErrorKind {
    /// The kind under which a line's decoding error is reported.
    pub open spec fn of_decode(e: DecodeError) -> ErrorKind {
        match e {
            DecodeError::FieldRange => ErrorKind::FieldRange,
            DecodeError::FieldFormat => ErrorKind::FieldFormat,
        }
    }

    /// The kind under which a line's decoding error is reported.
    pub fn from_decode(e: DecodeError) -> (k: ErrorKind)
        ensures
            k == Self::of_decode(e),
    {
        match e {
            DecodeError::FieldRange => ErrorKind::FieldRange,
            DecodeError::FieldFormat => ErrorKind::FieldFormat,
        }
    }
}

/// A fatal error, with the place where it was met.
#[derive(Debug)]
pub struct ParseError {
    pub kind: ErrorKind,
    /// The number of the offending line, counted from one.
    pub line_number: usize,
    /// The offending line as it was read.
    pub line: String,
}

/// A decoding result with the record replaced by its view.
pub open spec fn decoded<T: View>(r: Result<T, DecodeError>) -> Result<T::V, DecodeError> {
    match r {
        Ok(x) => Ok(x@),
        Err(e) => Err(e),
    }
}

} // verus!
