//! `DBT` — depth below transducer.

use vstd::prelude::*;

use crate::base::Nmea0183Base;
use crate::errors::FieldError;
use crate::units::{Distance, depth_table, depth_table_spec};

verus! {

/// A typed view over a framed `DBT` sentence.
#[derive(Debug)]
pub struct Dbt {
    base: Nmea0183Base,
}

impl Dbt {
    /// The framed sentence this view reads.
    pub closed spec fn base_spec(self) -> Nmea0183Base {
        self.base
    }

    /// Wraps a framed sentence.
    pub fn new(base: Nmea0183Base) -> (r: Dbt)
        ensures
            r.base_spec() == base,
    {
        Dbt { base }
    }

    /// Depth from the meters- or feet-tagged pairs at slots 0 through 5.
    pub fn depth(&self) -> (r: Result<Distance, FieldError>)
        ensures
            depth_table_spec(self.base_spec(), r),
    {
        depth_table(&self.base)
    }
}

} // verus!
