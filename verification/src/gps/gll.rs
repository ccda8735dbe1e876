//! `GLL` — geographic position, latitude and longitude.

use vstd::prelude::*;

use crate::base::{Nmea0183Base, position_param_spec, time_param_spec};
use crate::errors::FieldError;
use crate::geo::GeoPosition;
use crate::timedate::LocalTime;

verus! {

/// A typed view over a framed `GLL` sentence.
#[derive(Debug)]
pub struct Gll {
    base: Nmea0183Base,
}

impl Gll {
    /// The framed sentence this view reads.
    pub closed spec fn base_spec(self) -> Nmea0183Base {
        self.base
    }

    /// Wraps a framed sentence.
    pub fn new(base: Nmea0183Base) -> (r: Gll)
        ensures
            r.base_spec() == base,
    {
        Gll { base }
    }

    /// Position from parameters 0 through 3.
    pub fn position(&self) -> (r: Result<GeoPosition, FieldError>)
        ensures
            position_param_spec(self.base_spec(), 0, r),
    {
        self.base.position(0)
    }

    /// UTC time of position, parameter 4.
    pub fn timestamp(&self) -> (r: Result<LocalTime, FieldError>)
        ensures
            time_param_spec(self.base_spec(), 4, r),
    {
        self.base.naive_time(4)
    }

    /// Whether the data-valid flag (parameter 5) reads `A`.
    pub fn is_valid(&self) -> (r: bool)
        ensures
            r == (5 < self.base_spec().parameters@.len() && self.base_spec().parameters@[5]@
                == seq!['A']),
    {
        self.base.param_is(5, 'A')
    }

    /// FAA mode indicator, parameter 6, where present and non-empty.
    pub fn faa_mode(&self) -> (r: Option<char>)
        ensures
            match r {
                Some(c) => 6 < self.base_spec().parameters@.len()
                    && self.base_spec().parameters@[6]@.len() > 0 && c
                    == self.base_spec().parameters@[6]@[0],
                None => 6 >= self.base_spec().parameters@.len()
                    || self.base_spec().parameters@[6]@.len() == 0,
            },
    {
        self.base.opt_first_char(6)
    }
}

} // verus!
