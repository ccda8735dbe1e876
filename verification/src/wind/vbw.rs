//! `VBW` — dual ground and water speed.

use vstd::prelude::*;

use crate::base::{DecimalError, Nmea0183Base, param_spec, pis, plen, ptext};
use crate::errors::{FieldError, parse_failed};
use crate::fields::Decimal;
use crate::units::{MPS_TO_KNOTS_DEN, MPS_TO_KNOTS_NUM, Speed, speed_param_spec, speed_parameter};

verus! {

/// A typed view over a framed `VBW` sentence.
#[derive(Debug)]
pub struct Vbw {
    base: Nmea0183Base,
}

/// What a knots read under a validity flag yields: the value at `n` in
/// knots where the flag at `f` reads `A`.
pub open spec fn flagged_knots_spec(
    b: Nmea0183Base,
    n: int,
    f: int,
    r: Result<Speed, FieldError>,
) -> bool {
    if plen(b) <= f {
        r == Err::<Speed, FieldError>(FieldError::MissingField)
    } else if ptext(b, f) == seq!['A'] {
        speed_param_spec(b, n, MPS_TO_KNOTS_DEN as int, MPS_TO_KNOTS_NUM as int, r)
    } else {
        r is Err && r->Err_0 is ParseFailure && r->Err_0->ParseFailure_0@ == ptext(b, f)
    }
}

/// The knots value at `n` under the validity flag at `f`.
fn flagged_knots(b: &Nmea0183Base, n: usize, f: usize) -> (r: Result<Speed, FieldError>)
    requires
        n < f,
    ensures
        flagged_knots_spec(*b, n as int, f as int, r),
{
    if b.parameters.len() <= f {
        Err(FieldError::MissingField)
    } else if b.param_is(f, 'A') {
        speed_parameter(b, n, MPS_TO_KNOTS_DEN, MPS_TO_KNOTS_NUM)
    } else {
        Err(FieldError::ParseFailure(b.parameters[f].clone()))
    }
}

impl Vbw {
    /// The framed sentence this view reads.
    pub closed spec fn base_spec(self) -> Nmea0183Base {
        self.base
    }

    /// Wraps a framed sentence.
    pub fn new(base: Nmea0183Base) -> (r: Vbw)
        ensures
            r.base_spec() == base,
    {
        Vbw { base }
    }

    /// Longitudinal water speed in knots, slot 0, under the flag at
    /// slot 2.
    pub fn water_speed(&self) -> (r: Result<Speed, FieldError>)
        ensures
            flagged_knots_spec(self.base_spec(), 0, 2, r),
    {
        flagged_knots(&self.base, 0, 2)
    }

    /// Transverse water speed in knots, slot 1, under the flag at slot 2.
    pub fn transverse_water_speed(&self) -> (r: Result<Speed, FieldError>)
        ensures
            flagged_knots_spec(self.base_spec(), 1, 2, r),
    {
        flagged_knots(&self.base, 1, 2)
    }

    /// Longitudinal ground speed in knots as written at slot 3, under the
    /// flag at slot 5; a flag other than `A` is a typed failure, not a
    /// silent zero.
    pub fn ground_speed(&self) -> (r: DecimalError)
        ensures
            ({
                let b = self.base_spec();
                if plen(b) <= 5 {
                    r == Err::<Decimal, FieldError>(FieldError::MissingField)
                } else if ptext(b, 5) == seq!['A'] {
                    param_spec::<Decimal>(b, 3, r)
                } else {
                    parse_failed(r, ptext(b, 5))
                }
            }),
    {
        if self.base.parameters.len() <= 5 {
            Err(FieldError::MissingField)
        } else if self.base.param_is(5, 'A') {
            self.base.parameter(3)
        } else {
            Err(FieldError::ParseFailure(self.base.parameters[5].clone()))
        }
    }

    /// Transverse ground speed in knots, slot 4, under the flag at
    /// slot 5.
    pub fn transverse_ground_speed(&self) -> (r: Result<Speed, FieldError>)
        ensures
            flagged_knots_spec(self.base_spec(), 4, 5, r),
    {
        flagged_knots(&self.base, 4, 5)
    }
}

} // verus!
