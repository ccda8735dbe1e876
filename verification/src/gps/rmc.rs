//! `RMC` — recommended minimum navigation information.

use vstd::prelude::*;

use crate::base::{DecimalError, Nmea0183Base, param_spec, position_param_spec};
use crate::errors::{FieldError, parse_failed};
use crate::fields::{Decimal, dec_neg, decimal_text_val};
use crate::geo::GeoPosition;
use crate::rational::Rational;
use crate::timedate::{DateTimeValue, date_text_val, time_text_val};
use crate::units::{MPS_TO_KNOTS_DEN, MPS_TO_KNOTS_NUM, Speed};

verus! {

/// A typed view over a framed `RMC` sentence.
#[derive(Debug)]
pub struct Rmc {
    base: Nmea0183Base,
}

impl Rmc {
    /// The framed sentence this view reads.
    pub closed spec fn base_spec(self) -> Nmea0183Base {
        self.base
    }

    /// Wraps a framed sentence.
    pub fn new(base: Nmea0183Base) -> (r: Rmc)
        ensures
            r.base_spec() == base,
    {
        Rmc { base }
    }

    /// UTC date and time: time of day from parameter 0, date from
    /// parameter 8.
    pub fn timestamp(&self) -> (r: Result<DateTimeValue, FieldError>)
        ensures
            ({
                let p = self.base_spec().parameters;
                if p@.len() == 0 {
                    r == Err::<DateTimeValue, FieldError>(FieldError::MissingField)
                } else {
                    match time_text_val(p@[0]@) {
                        None => parse_failed(r, p@[0]@),
                        Some(t) => if 8 >= p@.len() {
                            r == Err::<DateTimeValue, FieldError>(FieldError::MissingField)
                        } else {
                            match date_text_val(p@[8]@) {
                                None => parse_failed(r, p@[8]@),
                                Some(d) => r == Ok::<DateTimeValue, FieldError>(
                                    DateTimeValue { date: d, time: t },
                                ),
                            }
                        },
                    }
                }
            }),
    {
        let time = match self.base.naive_time(0) {
            Ok(t) => t,
            Err(e) => {
                return Err(e);
            },
        };
        let date = match self.base.naive_date(8) {
            Ok(d) => d,
            Err(e) => {
                return Err(e);
            },
        };
        Ok(DateTimeValue { date, time })
    }

    /// Whether the status flag (parameter 1) reads `A`.
    pub fn is_valid(&self) -> (r: bool)
        ensures
            r == (1 < self.base_spec().parameters@.len() && self.base_spec().parameters@[1]@
                == seq!['A']),
    {
        self.base.param_is(1, 'A')
    }

    /// Position from parameters 2 through 5.
    pub fn position(&self) -> (r: Result<GeoPosition, FieldError>)
        ensures
            position_param_spec(self.base_spec(), 2, r),
    {
        self.base.position(2)
    }

    /// Speed over ground: parameter 6, in knots.
    pub fn sog(&self) -> (r: Result<Speed, FieldError>)
        ensures
            ({
                let p = self.base_spec().parameters;
                if 6 >= p@.len() {
                    r == Err::<Speed, FieldError>(FieldError::MissingField)
                } else {
                    match decimal_text_val(p@[6]@) {
                        None => parse_failed(r, p@[6]@),
                        Some(v) => {
                            &&& r is Ok
                            &&& r->Ok_0.mps.num == v.num() * MPS_TO_KNOTS_DEN
                            &&& r->Ok_0.mps.den == v.den() * MPS_TO_KNOTS_NUM
                        },
                    }
                }
            }),
    {
        match self.base.parameter::<Decimal>(6) {
            Ok(v) => Ok(Speed::from_knots(Rational::from_decimal(v))),
            Err(e) => Err(e),
        }
    }

    /// Track made good, parameter 7, in degrees.
    pub fn track_made_good(&self) -> (r: DecimalError)
        ensures
            param_spec::<Decimal>(self.base_spec(), 7, r),
    {
        self.base.parameter(7)
    }

    /// Magnetic variation: parameter 9, positive when parameter 10 reads
    /// `E`, negated when it reads `W`; any other letter is a typed
    /// failure, not a guessed hemisphere.
    pub fn magnetic_variation(&self) -> (r: DecimalError)
        ensures
            ({
                let p = self.base_spec().parameters;
                if 10 >= p@.len() {
                    r == Err::<Decimal, FieldError>(FieldError::MissingField)
                } else {
                    match decimal_text_val(p@[9]@) {
                        None => parse_failed(r, p@[9]@),
                        Some(v) => if p@[10]@ == seq!['E'] {
                            r == Ok::<Decimal, FieldError>(v)
                        } else if p@[10]@ == seq!['W'] {
                            r == Ok::<Decimal, FieldError>(dec_neg(v))
                        } else {
                            parse_failed(r, p@[10]@)
                        },
                    }
                }
            }),
    {
        if self.base.parameters.len() <= 10 {
            return Err(FieldError::MissingField);
        }
        let v = match self.base.parameter::<Decimal>(9) {
            Ok(v) => v,
            Err(e) => {
                return Err(e);
            },
        };
        if self.base.param_is(10, 'E') {
            Ok(v)
        } else if self.base.param_is(10, 'W') {
            Ok(Decimal { negative: !v.negative, mantissa: v.mantissa, scale: v.scale })
        } else {
            Err(FieldError::ParseFailure(self.base.parameters[10].clone()))
        }
    }

    /// FAA mode indicator, parameter 11, where present and non-empty.
    pub fn faa_mode(&self) -> (r: Option<char>)
        ensures
            match r {
                Some(c) => 11 < self.base_spec().parameters@.len()
                    && self.base_spec().parameters@[11]@.len() > 0 && c
                    == self.base_spec().parameters@[11]@[0],
                None => 11 >= self.base_spec().parameters@.len()
                    || self.base_spec().parameters@[11]@.len() == 0,
            },
    {
        self.base.opt_first_char(11)
    }

    /// Navigation status, parameter 12, where present and non-empty.
    pub fn nav_status(&self) -> (r: Option<char>)
        ensures
            match r {
                Some(c) => 12 < self.base_spec().parameters@.len()
                    && self.base_spec().parameters@[12]@.len() > 0 && c
                    == self.base_spec().parameters@[12]@[0],
                None => 12 >= self.base_spec().parameters@.len()
                    || self.base_spec().parameters@[12]@.len() == 0,
            },
    {
        self.base.opt_first_char(12)
    }
}

} // verus!
