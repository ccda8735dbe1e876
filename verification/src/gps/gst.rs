//! `GST` — pseudorange error statistics.

use vstd::prelude::*;

use crate::base::{Nmea0183Base, time_param_spec};
use crate::errors::FieldError;
use crate::timedate::LocalTime;

verus! {

/// A typed view over a framed `GST` sentence.
#[derive(Debug)]
pub struct Gst {
    base: Nmea0183Base,
}

impl Gst {
    /// The framed sentence this view reads.
    pub closed spec fn base_spec(self) -> Nmea0183Base {
        self.base
    }

    /// Wraps a framed sentence.
    pub fn new(base: Nmea0183Base) -> (r: Gst)
        ensures
            r.base_spec() == base,
    {
        Gst { base }
    }

    /// UTC time of day, parameter 0.
    pub fn timestamp(&self) -> (r: Result<LocalTime, FieldError>)
        ensures
            time_param_spec(self.base_spec(), 0, r),
    {
        self.base.naive_time(0)
    }
}

} // verus!
