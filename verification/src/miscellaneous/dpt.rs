//! `DPT` — depth of water.

use vstd::prelude::*;

use crate::base::Nmea0183Base;
use crate::errors::FieldError;
use crate::units::{Distance, dist_param_spec, dist_parameter};

verus! {

/// A typed view over a framed `DPT` sentence.
#[derive(Debug)]
pub struct Dpt {
    base: Nmea0183Base,
}

impl Dpt {
    /// The framed sentence this view reads.
    pub closed spec fn base_spec(self) -> Nmea0183Base {
        self.base
    }

    /// Wraps a framed sentence.
    pub fn new(base: Nmea0183Base) -> (r: Dpt)
        ensures
            r.base_spec() == base,
    {
        Dpt { base }
    }

    /// Depth in meters, slot 0.
    pub fn depth(&self) -> (r: Result<Distance, FieldError>)
        ensures
            dist_param_spec(self.base_spec(), 0, 1, 1, r),
    {
        dist_parameter(&self.base, 0, 1, 1)
    }

    /// Keel offset in meters, slot 1.
    pub fn offset(&self) -> (r: Result<Distance, FieldError>)
        ensures
            dist_param_spec(self.base_spec(), 1, 1, 1, r),
    {
        dist_parameter(&self.base, 1, 1, 1)
    }

    /// Maximum range scale in meters, slot 2.
    pub fn maximum_range(&self) -> (r: Result<Distance, FieldError>)
        ensures
            dist_param_spec(self.base_spec(), 2, 1, 1, r),
    {
        dist_parameter(&self.base, 2, 1, 1)
    }
}

} // verus!
