//! `VHW` — water speed and heading.

use vstd::prelude::*;

use crate::base::{DecimalError, Nmea0183Base, tagged_pair, tagged_pair_spec};
use crate::errors::FieldError;
use crate::units::{Speed, speed_table, speed_table_spec};

verus! {

/// A typed view over a framed `VHW` sentence.
#[derive(Debug)]
pub struct Vhw {
    base: Nmea0183Base,
}

impl Vhw {
    /// The framed sentence this view reads.
    pub closed spec fn base_spec(self) -> Nmea0183Base {
        self.base
    }

    /// Wraps a framed sentence.
    pub fn new(base: Nmea0183Base) -> (r: Vhw)
        ensures
            r.base_spec() == base,
    {
        Vhw { base }
    }

    /// Heading, true degrees: the value tagged `T`.
    pub fn heading_true(&self) -> (r: DecimalError)
        ensures
            tagged_pair_spec(self.base_spec(), 'T', r),
    {
        tagged_pair(&self.base, 'T')
    }

    /// Heading, magnetic degrees: the value tagged `M`.
    pub fn heading_magnetic(&self) -> (r: DecimalError)
        ensures
            tagged_pair_spec(self.base_spec(), 'M', r),
    {
        tagged_pair(&self.base, 'M')
    }

    /// Water speed from the tagged pairs at slots 4 through 7.
    pub fn water_speed(&self) -> (r: Result<Speed, FieldError>)
        ensures
            speed_table_spec(self.base_spec(), 4, r),
    {
        speed_table(&self.base, 4)
    }
}

} // verus!
