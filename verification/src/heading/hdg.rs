//! `HDG` — heading, deviation and variation.

use vstd::prelude::*;

use crate::base::{DecimalError, Nmea0183Base, param_spec, plen, ptext};
use crate::errors::{FieldError, parse_failed};
use crate::fields::{Decimal, dec_neg, decimal_text_val};

verus! {

/// A typed view over a framed `HDG` sentence.
#[derive(Debug)]
pub struct Hdg {
    base: Nmea0183Base,
}

impl Hdg {
    /// The framed sentence this view reads.
    pub closed spec fn base_spec(self) -> Nmea0183Base {
        self.base
    }

    /// Wraps a framed sentence.
    pub fn new(base: Nmea0183Base) -> (r: Hdg)
        ensures
            r.base_spec() == base,
    {
        Hdg { base }
    }

    /// Magnetic sensor heading in degrees, parameter 0.
    pub fn magnetic_heading(&self) -> (r: DecimalError)
        ensures
            param_spec::<Decimal>(self.base_spec(), 0, r),
    {
        self.base.parameter(0)
    }

    /// Magnetic deviation: parameter 1, negated unless parameter 2 reads
    /// `E`.
    pub fn magnetic_deviation(&self) -> (r: DecimalError)
        ensures
            signed_pair_spec(self.base_spec(), 1, 2, r),
    {
        signed_pair(&self.base, 1, 2)
    }

    /// Magnetic variation: parameter 3, negated unless parameter 4 reads
    /// `E`.
    pub fn magnetic_variation(&self) -> (r: DecimalError)
        ensures
            signed_pair_spec(self.base_spec(), 3, 4, r),
    {
        signed_pair(&self.base, 3, 4)
    }
}

/// What reading a magnitude at `n` signed by an `E`/`W` letter at `u`
/// yields: the value as written for `E`, its negation for `W`, a typed
/// failure carrying the letter otherwise — never a guessed hemisphere.
pub open spec fn signed_pair_spec(
    b: Nmea0183Base,
    n: int,
    u: int,
    r: Result<Decimal, FieldError>,
) -> bool {
    &&& u >= plen(b) ==> r == Err::<Decimal, FieldError>(FieldError::MissingField)
    &&& 0 <= n < u < plen(b) ==> match decimal_text_val(ptext(b, n)) {
        None => parse_failed(r, ptext(b, n)),
        Some(v) => if ptext(b, u) == seq!['E'] {
            r == Ok::<Decimal, FieldError>(v)
        } else if ptext(b, u) == seq!['W'] {
            r == Ok::<Decimal, FieldError>(dec_neg(v))
        } else {
            parse_failed(r, ptext(b, u))
        },
    }
}

/// Reads the magnitude at `n` and applies the sign letter at `u`.
fn signed_pair(b: &Nmea0183Base, n: usize, u: usize) -> (r: Result<Decimal, FieldError>)
    requires
        n < u,
    ensures
        signed_pair_spec(*b, n as int, u as int, r),
{
    if b.parameters.len() <= u {
        return Err(FieldError::MissingField);
    }
    let v = match b.parameter::<Decimal>(n) {
        Ok(v) => v,
        Err(e) => {
            return Err(e);
        },
    };
    if b.param_is(u, 'E') {
        Ok(v)
    } else if b.param_is(u, 'W') {
        Ok(Decimal { negative: !v.negative, mantissa: v.mantissa, scale: v.scale })
    } else {
        Err(FieldError::ParseFailure(b.parameters[u].clone()))
    }
}

} // verus!
