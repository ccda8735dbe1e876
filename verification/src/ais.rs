//! Typed views over the AIS family of sentences.

pub mod vdm;

use vstd::prelude::*;

use crate::base::{Nmea0183Base, UsizeError, param_spec};
use crate::errors::FieldError;

verus! {

/// A typed view over a framed AIS transport sentence.
#[derive(Debug)]
pub struct Ais {
    base: Nmea0183Base,
}

impl Ais {
    /// The framed sentence this view reads.
    pub closed spec fn base_spec(self) -> Nmea0183Base {
        self.base
    }

    /// Wraps a framed sentence.
    pub fn new(base: Nmea0183Base) -> (r: Ais)
        ensures
            r.base_spec() == base,
    {
        Ais { base }
    }

    /// How many sentences the message spans, parameter 0.
    pub fn sentence_total(&self) -> (r: UsizeError)
        ensures
            param_spec::<usize>(self.base_spec(), 0, r),
    {
        self.base.parameter(0)
    }

    /// This sentence's number in the message, parameter 1.
    pub fn sentence_number(&self) -> (r: UsizeError)
        ensures
            param_spec::<usize>(self.base_spec(), 1, r),
    {
        self.base.parameter(1)
    }

    /// Sequential message identifier, parameter 2.
    pub fn message_identifier(&self) -> (r: UsizeError)
        ensures
            param_spec::<usize>(self.base_spec(), 2, r),
    {
        self.base.parameter(2)
    }

    /// Radio channel, the first character of parameter 4.
    pub fn channel(&self) -> (r: Result<char, FieldError>)
        ensures
            4 >= self.base_spec().parameters@.len() ==> r == Err::<char, FieldError>(
                FieldError::MissingField,
            ),
            4 < self.base_spec().parameters@.len() ==> if self.base_spec().parameters@[4]@.len()
                > 0 {
                r == Ok::<char, FieldError>(self.base_spec().parameters@[4]@[0])
            } else {
                r is Err && r->Err_0 is ParseFailure && r->Err_0->ParseFailure_0@
                    == self.base_spec().parameters@[4]@
            },
    {
        self.base.first_char(4)
    }
}

} // verus!
