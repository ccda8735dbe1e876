//! `DBS` — depth below surface.

use vstd::prelude::*;

use crate::base::Nmea0183Base;
use crate::errors::FieldError;
use crate::units::{Distance, depth_table, depth_table_spec, dist_param_spec, dist_parameter};

verus! {

/// A typed view over a framed `DBS` sentence.
#[derive(Debug)]
pub struct Dbs {
    base: Nmea0183Base,
}

impl Dbs {
    /// The framed sentence this view reads.
    pub closed spec fn base_spec(self) -> Nmea0183Base {
        self.base
    }

    /// Wraps a framed sentence.
    pub fn new(base: Nmea0183Base) -> (r: Dbs)
        ensures
            r.base_spec() == base,
    {
        Dbs { base }
    }

    /// Depth from the meters- or feet-tagged pairs at slots 0 through 5.
    pub fn depth(&self) -> (r: Result<Distance, FieldError>)
        ensures
            depth_table_spec(self.base_spec(), r),
    {
        depth_table(&self.base)
    }

    /// Keel offset in meters, slot 1.
    pub fn offset(&self) -> (r: Result<Distance, FieldError>)
        ensures
            dist_param_spec(self.base_spec(), 1, 1, 1, r),
    {
        dist_parameter(&self.base, 1, 1, 1)
    }

    /// Maximum range scale in meters, slot 2.
    pub fn maximum_range(&self) -> (r: Result<Distance, FieldError>)
        ensures
            dist_param_spec(self.base_spec(), 2, 1, 1, r),
    {
        dist_parameter(&self.base, 2, 1, 1)
    }
}

} // verus!
