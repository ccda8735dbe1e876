//! Error taxonomy: malformed line shapes and field-level failures.

use vstd::prelude::*;

verus! {

/// A raw line whose shape is malformed.  Always surfaced to the caller; a
/// malformed frame has no safe default.
#[derive(Debug, Clone, PartialEq, Eq, Structural)]
pub enum FrameError {
    /// After trimming and splitting there are no fields at all.
    Empty,
    /// The line has no `*` checksum delimiter.
    MissingChecksum,
    /// The first comma-delimited field is shorter than the 3-character
    /// talker identifier.
    IntroducerTooShort,
    /// The text after the last `*` is not a 2-digit hexadecimal byte.
    InvalidChecksumFormat,
}

/// A parameter that could not be delivered as the requested value.
#[derive(Debug, Clone, PartialEq, Eq)]
pub enum FieldError {
    /// The index lies at or beyond the end of the parameter list.
    MissingField,
    /// The text at the index (carried here verbatim) does not parse as the
    /// requested type or format.
    ParseFailure(String),
}

/// Whether `r` failed as a `ParseFailure` carrying exactly `text`.
pub open spec fn parse_failed<T>(r: Result<T, FieldError>, text: Seq<char>) -> bool {
    r is Err && r->Err_0 is ParseFailure && r->Err_0->ParseFailure_0@ == text
}

impl FieldError {
    /// Whether this is the `MissingField` condition.
    pub fn is_missing(&self) -> (r: bool)
        ensures
            r == (self is MissingField),
    {
        match self {
            FieldError::MissingField => true,
            FieldError::ParseFailure(_) => false,
        }
    }
}

} // verus!
