//! `ZFO` — UTC and elapsed time from origin waypoint.

use vstd::prelude::*;

use crate::base::{Nmea0183Base, plen, ptext, time_param_spec};
use crate::errors::FieldError;
use crate::timedate::{LocalTime, time_nanos, time_text_val, time_to_nanos};

verus! {

/// A typed view over a framed `ZFO` sentence.
#[derive(Debug)]
pub struct Zfo {
    base: Nmea0183Base,
}

impl Zfo {
    /// The framed sentence this view reads.
    pub closed spec fn base_spec(self) -> Nmea0183Base {
        self.base
    }

    /// Wraps a framed sentence.
    pub fn new(base: Nmea0183Base) -> (r: Zfo)
        ensures
            r.base_spec() == base,
    {
        Zfo { base }
    }

    /// UTC time of observation, parameter 0.
    pub fn timestamp(&self) -> (r: Result<LocalTime, FieldError>)
        ensures
            time_param_spec(self.base_spec(), 0, r),
    {
        self.base.naive_time(0)
    }

    /// Elapsed time from the origin waypoint, parameter 1, as
    /// nanoseconds since midnight of the time written there.
    pub fn elapsed_time(&self) -> (r: Result<u64, FieldError>)
        ensures
            ({
                let b = self.base_spec();
                if 1 >= plen(b) {
                    r == Err::<u64, FieldError>(FieldError::MissingField)
                } else {
                    match time_text_val(ptext(b, 1)) {
                        Some(t) => r is Ok && r->Ok_0 as int == time_nanos(t),
                        None => r is Err && r->Err_0 is ParseFailure
                            && r->Err_0->ParseFailure_0@ == ptext(b, 1),
                    }
                }
            }),
    {
        match self.base.naive_time(1) {
            Ok(t) => Ok(time_to_nanos(&t)),
            Err(e) => Err(e),
        }
    }

    /// Origin waypoint name, parameter 2.
    pub fn waypoint_id(&self) -> (r: Result<String, FieldError>)
        ensures
            2 >= self.base_spec().parameters@.len() ==> r == Err::<String, FieldError>(
                FieldError::MissingField,
            ),
            2 < self.base_spec().parameters@.len() ==> r is Ok && r->Ok_0@
                == self.base_spec().parameters@[2]@,
    {
        self.base.parameter_text(2)
    }
}

} // verus!
