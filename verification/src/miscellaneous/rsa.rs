//! `RSA` — rudder sensor angle.

use vstd::prelude::*;

use crate::base::{DecimalError, Nmea0183Base, param_spec, plen, ptext};
use crate::errors::FieldError;
use crate::fields::Decimal;

verus! {

/// A typed view over a framed `RSA` sentence.
#[derive(Debug)]
pub struct Rsa {
    base: Nmea0183Base,
}

/// What a flagged angle read yields: the decimal at `n` where the status
/// at `n + 1` reads `A`.
pub open spec fn rsa_angle_spec(b: Nmea0183Base, n: int, r: Result<Decimal, FieldError>) -> bool {
    if plen(b) <= n + 1 {
        r == Err::<Decimal, FieldError>(FieldError::MissingField)
    } else if ptext(b, n + 1) == seq!['A'] {
        param_spec::<Decimal>(b, n, r)
    } else {
        r is Err && r->Err_0 is ParseFailure && r->Err_0->ParseFailure_0@ == ptext(b, n + 1)
    }
}

/// The angle at slot `n` under the status flag after it.
fn rsa_angle(b: &Nmea0183Base, n: usize) -> (r: Result<Decimal, FieldError>)
    requires
        n + 1 < usize::MAX,
    ensures
        rsa_angle_spec(*b, n as int, r),
{
    if b.parameters.len() <= n + 1 {
        Err(FieldError::MissingField)
    } else if b.param_is(n + 1, 'A') {
        b.parameter(n)
    } else {
        Err(FieldError::ParseFailure(b.parameters[n + 1].clone()))
    }
}

impl Rsa {
    /// The framed sentence this view reads.
    pub closed spec fn base_spec(self) -> Nmea0183Base {
        self.base
    }

    /// Wraps a framed sentence.
    pub fn new(base: Nmea0183Base) -> (r: Rsa)
        ensures
            r.base_spec() == base,
    {
        Rsa { base }
    }

    /// Starboard (or single) rudder angle, slot 0 under the flag at
    /// slot 1.
    pub fn angle(&self) -> (r: DecimalError)
        ensures
            rsa_angle_spec(self.base_spec(), 0, r),
    {
        rsa_angle(&self.base, 0)
    }

    /// Starboard rudder angle; the same read as [`Rsa::angle`].
    pub fn starboard_rudder(&self) -> (r: DecimalError)
        ensures
            rsa_angle_spec(self.base_spec(), 0, r),
    {
        rsa_angle(&self.base, 0)
    }

    /// Port rudder angle, slot 2 under the flag at slot 3.
    pub fn port_rudder(&self) -> (r: DecimalError)
        ensures
            rsa_angle_spec(self.base_spec(), 2, r),
    {
        rsa_angle(&self.base, 2)
    }
}

} // verus!
