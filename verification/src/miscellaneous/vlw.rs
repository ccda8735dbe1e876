//! `VLW` — distance traveled through the water and over ground.

use vstd::prelude::*;

use crate::base::Nmea0183Base;
use crate::errors::FieldError;
use crate::units::{Distance, dist_mkn, dist_mkn_spec};

verus! {

/// A typed view over a framed `VLW` sentence.
#[derive(Debug)]
pub struct Vlw {
    base: Nmea0183Base,
}

impl Vlw {
    /// The framed sentence this view reads.
    pub closed spec fn base_spec(self) -> Nmea0183Base {
        self.base
    }

    /// Wraps a framed sentence.
    pub fn new(base: Nmea0183Base) -> (r: Vlw)
        ensures
            r.base_spec() == base,
    {
        Vlw { base }
    }

    /// Cumulative distance through the water, slot 0 with its unit at
    /// slot 1.
    pub fn cumulative_dtw(&self) -> (r: Result<Distance, FieldError>)
        ensures
            dist_mkn_spec(self.base_spec(), 0, r),
    {
        dist_mkn(&self.base, 0)
    }

    /// Distance through the water since reset, slot 2 with its unit at
    /// slot 3.
    pub fn dtw_since_reset(&self) -> (r: Result<Distance, FieldError>)
        ensures
            dist_mkn_spec(self.base_spec(), 2, r),
    {
        dist_mkn(&self.base, 2)
    }

    /// Cumulative distance over ground, slot 4 with its unit at slot 5.
    pub fn dog_cumulative(&self) -> (r: Result<Distance, FieldError>)
        ensures
            dist_mkn_spec(self.base_spec(), 4, r),
    {
        dist_mkn(&self.base, 4)
    }

    /// Distance over ground since reset, slot 6 with its unit at slot 7.
    pub fn dog_since_reset(&self) -> (r: Result<Distance, FieldError>)
        ensures
            dist_mkn_spec(self.base_spec(), 6, r),
    {
        dist_mkn(&self.base, 6)
    }
}

} // verus!
