//! `BWC` — bearing and distance to waypoint, great circle.

use vstd::prelude::*;

use crate::base::{Nmea0183Base, time_param_spec};
use crate::errors::FieldError;
use crate::timedate::LocalTime;

verus! {

/// A typed view over a framed `BWC` sentence.
#[derive(Debug)]
pub struct Bwc {
    base: Nmea0183Base,
}

impl Bwc {
    /// The framed sentence this view reads.
    pub closed spec fn base_spec(self) -> Nmea0183Base {
        self.base
    }

    /// Wraps a framed sentence.
    pub fn new(base: Nmea0183Base) -> (r: Bwc)
        ensures
            r.base_spec() == base,
    {
        Bwc { base }
    }

    /// UTC time of day, parameter 0.
    pub fn timestamp(&self) -> (r: Result<LocalTime, FieldError>)
        ensures
            time_param_spec(self.base_spec(), 0, r),
    {
        self.base.naive_time(0)
    }
}

} // verus!
