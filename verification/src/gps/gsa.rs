//! `GSA` — GNSS DOP and active satellites.

use vstd::prelude::*;

use crate::base::{DecimalError, Nmea0183Base, U8Error, param_spec};
use crate::errors::FieldError;
use crate::fields::Decimal;

verus! {

/// A typed view over a framed `GSA` sentence.
#[derive(Debug)]
pub struct Gsa {
    base: Nmea0183Base,
}

impl Gsa {
    /// The framed sentence this view reads.
    pub closed spec fn base_spec(self) -> Nmea0183Base {
        self.base
    }

    /// Wraps a framed sentence.
    pub fn new(base: Nmea0183Base) -> (r: Gsa)
        ensures
            r.base_spec() == base,
    {
        Gsa { base }
    }

    /// Selection mode letter: first character of parameter 0.
    pub fn mode(&self) -> (r: Result<char, FieldError>)
        ensures
            0 >= self.base_spec().parameters@.len() ==> r == Err::<char, FieldError>(
                FieldError::MissingField,
            ),
            0 < self.base_spec().parameters@.len() ==> if self.base_spec().parameters@[0]@.len()
                > 0 {
                r == Ok::<char, FieldError>(self.base_spec().parameters@[0]@[0])
            } else {
                r is Err && r->Err_0 is ParseFailure && r->Err_0->ParseFailure_0@
                    == self.base_spec().parameters@[0]@
            },
    {
        self.base.first_char(0)
    }

    /// Fix type digit: first character of parameter 1.
    pub fn fix_type(&self) -> (r: Result<char, FieldError>)
        ensures
            1 >= self.base_spec().parameters@.len() ==> r == Err::<char, FieldError>(
                FieldError::MissingField,
            ),
            1 < self.base_spec().parameters@.len() ==> if self.base_spec().parameters@[1]@.len()
                > 0 {
                r == Ok::<char, FieldError>(self.base_spec().parameters@[1]@[0])
            } else {
                r is Err && r->Err_0 is ParseFailure && r->Err_0->ParseFailure_0@
                    == self.base_spec().parameters@[1]@
            },
    {
        self.base.first_char(1)
    }

    /// PRN number of the first satellite used, parameter 2.
    pub fn prn_number(&self) -> (r: U8Error)
        ensures
            param_spec::<u8>(self.base_spec(), 2, r),
    {
        self.base.parameter(2)
    }

    /// Position dilution of precision, parameter 3.
    pub fn pdop(&self) -> (r: DecimalError)
        ensures
            param_spec::<Decimal>(self.base_spec(), 3, r),
    {
        self.base.parameter(3)
    }

    /// Horizontal dilution of precision, parameter 4.
    pub fn hdop(&self) -> (r: DecimalError)
        ensures
            param_spec::<Decimal>(self.base_spec(), 4, r),
    {
        self.base.parameter(4)
    }

    /// Vertical dilution of precision, parameter 5.
    pub fn vdop(&self) -> (r: DecimalError)
        ensures
            param_spec::<Decimal>(self.base_spec(), 5, r),
    {
        self.base.parameter(5)
    }
}

} // verus!
