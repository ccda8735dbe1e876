//! `GBS` — satellite fault detection.

use vstd::prelude::*;

use crate::base::{Nmea0183Base, time_param_spec};
use crate::errors::FieldError;
use crate::timedate::LocalTime;

verus! {

/// A typed view over a framed `GBS` sentence.
#[derive(Debug)]
pub struct Gbs {
    base: Nmea0183Base,
}

impl Gbs {
    /// The framed sentence this view reads.
    pub closed spec fn base_spec(self) -> Nmea0183Base {
        self.base
    }

    /// Wraps a framed sentence.
    pub fn new(base: Nmea0183Base) -> (r: Gbs)
        ensures
            r.base_spec() == base,
    {
        Gbs { base }
    }

    /// UTC time of day, parameter 0.
    pub fn timestamp(&self) -> (r: Result<LocalTime, FieldError>)
        ensures
            time_param_spec(self.base_spec(), 0, r),
    {
        self.base.naive_time(0)
    }
}

} // verus!
