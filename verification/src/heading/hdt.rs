//! `HDT` — true heading.

use vstd::prelude::*;

use crate::base::{DecimalError, Nmea0183Base, param_spec};
use crate::fields::Decimal;

verus! {

/// A typed view over a framed `HDT` sentence.
#[derive(Debug)]
pub struct Hdt {
    base: Nmea0183Base,
}

impl Hdt {
    /// The framed sentence this view reads.
    pub closed spec fn base_spec(self) -> Nmea0183Base {
        self.base
    }

    /// Wraps a framed sentence.
    pub fn new(base: Nmea0183Base) -> (r: Hdt)
        ensures
            r.base_spec() == base,
    {
        Hdt { base }
    }

    /// Heading in degrees, parameter 0.
    pub fn heading(&self) -> (r: DecimalError)
        ensures
            param_spec::<Decimal>(self.base_spec(), 0, r),
    {
        self.base.parameter(0)
    }
}

} // verus!
