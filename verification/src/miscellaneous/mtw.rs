//! `MTW` — water temperature.

use vstd::prelude::*;

use crate::base::{Nmea0183Base, pis, plen, ptext};
use crate::errors::FieldError;
use crate::units::{Temperature, temp_param_spec, temp_parameter};

verus! {

/// A typed view over a framed `MTW` sentence.
#[derive(Debug)]
pub struct Mtw {
    base: Nmea0183Base,
}

/// What a temperature read dispatched on a `C`/`F` letter at slot
/// `n + 1` yields.
pub open spec fn temp_cf_spec(b: Nmea0183Base, n: int, r: Result<Temperature, FieldError>) -> bool {
    if pis(b, n + 1, 'C') {
        temp_param_spec(b, n, false, r)
    } else if pis(b, n + 1, 'F') {
        temp_param_spec(b, n, true, r)
    } else if plen(b) <= n + 1 {
        r == Err::<Temperature, FieldError>(FieldError::MissingField)
    } else {
        r is Err && r->Err_0 is ParseFailure && r->Err_0->ParseFailure_0@ == ptext(b, n + 1)
    }
}

/// Reads the temperature at slot `n` in the scale tagged after it.
pub fn temp_cf(b: &Nmea0183Base, n: usize) -> (r: Result<Temperature, FieldError>)
    requires
        n + 1 < usize::MAX,
    ensures
        temp_cf_spec(*b, n as int, r),
{
    if b.param_is(n + 1, 'C') {
        temp_parameter(b, n, false)
    } else if b.param_is(n + 1, 'F') {
        temp_parameter(b, n, true)
    } else if b.parameters.len() <= n + 1 {
        Err(FieldError::MissingField)
    } else {
        Err(FieldError::ParseFailure(b.parameters[n + 1].clone()))
    }
}

impl Mtw {
    /// The framed sentence this view reads.
    pub closed spec fn base_spec(self) -> Nmea0183Base {
        self.base
    }

    /// Wraps a framed sentence.
    pub fn new(base: Nmea0183Base) -> (r: Mtw)
        ensures
            r.base_spec() == base,
    {
        Mtw { base }
    }

    /// Water temperature at slot 0, Celsius or Fahrenheit as tagged at
    /// slot 1.
    pub fn temperature(&self) -> (r: Result<Temperature, FieldError>)
        ensures
            temp_cf_spec(self.base_spec(), 0, r),
    {
        temp_cf(&self.base, 0)
    }
}

} // verus!
