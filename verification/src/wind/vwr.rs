//! `VWR` — relative wind speed and angle.

use vstd::prelude::*;

use crate::base::{DecimalError, Nmea0183Base, lr_direction, lr_direction_spec};

verus! {

/// A typed view over a framed `VWR` sentence.
#[derive(Debug)]
pub struct Vwr {
    base: Nmea0183Base,
}

impl Vwr {
    /// The framed sentence this view reads.
    pub closed spec fn base_spec(self) -> Nmea0183Base {
        self.base
    }

    /// Wraps a framed sentence.
    pub fn new(base: Nmea0183Base) -> (r: Vwr)
        ensures
            r.base_spec() == base,
    {
        Vwr { base }
    }

    /// Wind direction in degrees off the bow: slot 0, negative to port
    /// (`L`), positive to starboard (`R`).
    pub fn wind_direction(&self) -> (r: DecimalError)
        ensures
            lr_direction_spec(self.base_spec(), r),
    {
        lr_direction(&self.base)
    }
}

} // verus!
