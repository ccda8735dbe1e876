//! `VDM` — AIS VHF data-link message transport.

use vstd::prelude::*;

use crate::base::{Nmea0183Base, UsizeError, param_spec};
use crate::errors::FieldError;

verus! {

/// A typed view over a framed `VDM` sentence.
#[derive(Debug)]
pub struct Vdm {
    base: Nmea0183Base,
}

impl Vdm {
    /// The framed sentence this view reads.
    pub closed spec fn base_spec(self) -> Nmea0183Base {
        self.base
    }

    /// Wraps a framed sentence.
    pub fn new(base: Nmea0183Base) -> (r: Vdm)
        ensures
            r.base_spec() == base,
    {
        Vdm { base }
    }

    /// How many sentences the message spans, parameter 0.
    pub fn total_sentences(&self) -> (r: UsizeError)
        ensures
            param_spec::<usize>(self.base_spec(), 0, r),
    {
        self.base.parameter(0)
    }

    /// This sentence's number in the message, parameter 1.
    pub fn sentence_number(&self) -> (r: UsizeError)
        ensures
            param_spec::<usize>(self.base_spec(), 1, r),
    {
        self.base.parameter(1)
    }

    /// Sequential message identifier, parameter 2.
    pub fn sentence_id(&self) -> (r: UsizeError)
        ensures
            param_spec::<usize>(self.base_spec(), 2, r),
    {
        self.base.parameter(2)
    }

    /// Radio channel, the first character of parameter 3.
    pub fn channel(&self) -> (r: Result<char, FieldError>)
        ensures
            3 >= self.base_spec().parameters@.len() ==> r == Err::<char, FieldError>(
                FieldError::MissingField,
            ),
            3 < self.base_spec().parameters@.len() ==> if self.base_spec().parameters@[3]@.len()
                > 0 {
                r == Ok::<char, FieldError>(self.base_spec().parameters@[3]@[0])
            } else {
                r is Err && r->Err_0 is ParseFailure && r->Err_0->ParseFailure_0@
                    == self.base_spec().parameters@[3]@
            },
    {
        self.base.first_char(3)
    }

    /// The encoded payload, parameter 4.
    pub fn message(&self) -> (r: Result<String, FieldError>)
        ensures
            4 >= self.base_spec().parameters@.len() ==> r == Err::<String, FieldError>(
                FieldError::MissingField,
            ),
            4 < self.base_spec().parameters@.len() ==> r is Ok && r->Ok_0@
                == self.base_spec().parameters@[4]@,
    {
        self.base.parameter_text(4)
    }
}

} // verus!
