//! Decode failures: a kind from the error taxonomy plus the offending
//! remainder of the input, kept for diagnostics.
use vstd::prelude::*;

verus! {

/// The kinds of decode failure. Every failure is terminal for the current
/// call: no partial recovery, no placeholder output.
#[derive(Clone, Copy, Debug, PartialEq, Eq, Structural)]
pub enum ErrorKind {
    /// The input does not start with the `?` marker.
    MissingPrefixMarker,
    /// A byte was needed and the input was exhausted.
    UnexpectedEndOfInput,
    /// A hex-digit number run ended without its `@` terminator, or held a
    /// byte outside `A`-`P`.
    UnterminatedNumber,
    /// An array dimension decoded to zero or a negative count.
    InvalidArrayDimension,
    /// An operator code that the operator table does not know.
    UnknownOperatorCode,
    /// A function-class byte outside the known table.
    UnknownFunctionClassByte,
    /// A calling-convention byte outside the known table.
    UnknownCallingConventionByte,
    /// A storage-class byte outside the known table.
    UnknownStorageClassByte,
    /// A primitive-type byte outside the known table.
    UnknownPrimitiveTypeByte,
    /// A back-reference digit at or beyond the number of memorized entries.
    InvalidBackReferenceIndex,
    /// The printed output was not valid UTF-8 text; its offender field
    /// carries the printed bytes.
    TextDecodingFailure,
    /// A required terminator byte was missing.
    UnexpectedByte,
}

/// A decode failure: its kind, and the remainder of the input at the point
/// the failure was noticed.
#[derive(Clone, Debug)]
pub struct Error {
    pub kind: ErrorKind,
    pub offender: Vec<u8>,
}

/// The ghost image of an `Error`: what the decoding model says a failure is.
pub struct SpErr {
    pub kind: ErrorKind,
    pub off: Seq<u8>,
}

impl Error {
    /// Whether this error is the one the decoding model describes.
    pub open spec fn matches(&self, e: SpErr) -> bool {
        self.kind == e.kind && self.offender@ == e.off
    }

    pub fn new(kind: ErrorKind, offender: Vec<u8>) -> (r: Error)
        ensures
            r.kind == kind,
            r.offender@ == offender@,
    {
        Error { kind, offender }
    }
}

} // verus!
