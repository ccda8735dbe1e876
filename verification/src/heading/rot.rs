//! `ROT` — rate of turn.

use vstd::prelude::*;

use crate::base::{DecimalError, Nmea0183Base, param_spec};
use crate::fields::Decimal;

verus! {

/// A typed view over a framed `ROT` sentence.
#[derive(Debug)]
pub struct Rot {
    base: Nmea0183Base,
}

impl Rot {
    /// The framed sentence this view reads.
    pub closed spec fn base_spec(self) -> Nmea0183Base {
        self.base
    }

    /// Wraps a framed sentence.
    pub fn new(base: Nmea0183Base) -> (r: Rot)
        ensures
            r.base_spec() == base,
    {
        Rot { base }
    }

    /// Rate of turn in degrees per minute, parameter 0.
    pub fn rate_of_turn(&self) -> (r: DecimalError)
        ensures
            param_spec::<Decimal>(self.base_spec(), 0, r),
    {
        self.base.parameter(0)
    }

    /// Whether the status flag (parameter 1) reads `A`.
    pub fn is_valid(&self) -> (r: bool)
        ensures
            r == (1 < self.base_spec().parameters@.len() && self.base_spec().parameters@[1]@
                == seq!['A']),
    {
        self.base.param_is(1, 'A')
    }
}

} // verus!
