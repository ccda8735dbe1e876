//! `MWV` — wind speed and angle, with a trailing validity flag.

use vstd::prelude::*;

use crate::base::{DecimalError, Nmea0183Base, param_spec, pis, plen, ptext};
use crate::errors::FieldError;
use crate::fields::Decimal;
use crate::units::{MPS_TO_KNOTS_DEN, MPS_TO_KNOTS_NUM, MPS_TO_MPH_DEN, MPS_TO_MPH_NUM, Speed,
    speed_param_spec, speed_parameter};

verus! {

/// A typed view over a framed `MWV` sentence.
#[derive(Debug)]
pub struct Mwv {
    base: Nmea0183Base,
}

/// What an angle accessor yields: the decimal at slot 0 where the
/// validity flag (slot 4) reads `A` and the reference tag (slot 1) is the
/// wanted letter; failures carry the flag or tag that refused.
pub open spec fn mwv_angle_spec(
    b: Nmea0183Base,
    reference: char,
    r: Result<Decimal, FieldError>,
) -> bool {
    if plen(b) <= 4 {
        r == Err::<Decimal, FieldError>(FieldError::MissingField)
    } else if ptext(b, 4) != seq!['A'] {
        r is Err && r->Err_0 is ParseFailure && r->Err_0->ParseFailure_0@ == ptext(b, 4)
    } else if ptext(b, 1) == seq![reference] {
        param_spec::<Decimal>(b, 0, r)
    } else {
        r is Err && r->Err_0 is ParseFailure && r->Err_0->ParseFailure_0@ == ptext(b, 1)
    }
}

impl Mwv {
    /// The framed sentence this view reads.
    pub closed spec fn base_spec(self) -> Nmea0183Base {
        self.base
    }

    /// Wraps a framed sentence.
    pub fn new(base: Nmea0183Base) -> (r: Mwv)
        ensures
            r.base_spec() == base,
    {
        Mwv { base }
    }

    /// Wind angle relative to the bow: slot 0 where the reference tag
    /// reads `R` and the data is flagged valid.
    pub fn angle_relative(&self) -> (r: DecimalError)
        ensures
            mwv_angle_spec(self.base_spec(), 'R', r),
    {
        mwv_angle(&self.base, 'R')
    }

    /// True wind angle: slot 0 where the reference tag reads `T` and the
    /// data is flagged valid.
    pub fn angle_true(&self) -> (r: DecimalError)
        ensures
            mwv_angle_spec(self.base_spec(), 'T', r),
    {
        mwv_angle(&self.base, 'T')
    }

    /// Wind speed: slot 2 in the unit tagged at slot 3 (`M` mph, `N`
    /// knots, `K` km/h), where the data is flagged valid.
    pub fn wind_speed(&self) -> (r: Result<Speed, FieldError>)
        ensures
            ({
                let b = self.base_spec();
                if plen(b) <= 4 {
                    r == Err::<Speed, FieldError>(FieldError::MissingField)
                } else if ptext(b, 4) != seq!['A'] {
                    r is Err && r->Err_0 is ParseFailure && r->Err_0->ParseFailure_0@ == ptext(
                        b,
                        4,
                    )
                } else if pis(b, 3, 'M') {
                    speed_param_spec(b, 2, MPS_TO_MPH_DEN as int, MPS_TO_MPH_NUM as int, r)
                } else if pis(b, 3, 'N') {
                    speed_param_spec(b, 2, MPS_TO_KNOTS_DEN as int, MPS_TO_KNOTS_NUM as int, r)
                } else if pis(b, 3, 'K') {
                    speed_param_spec(b, 2, 1000, 3600, r)
                } else {
                    r is Err && r->Err_0 is ParseFailure && r->Err_0->ParseFailure_0@ == ptext(
                        b,
                        3,
                    )
                }
            }),
    {
        if self.base.parameters.len() <= 4 {
            Err(FieldError::MissingField)
        } else if !self.base.param_is(4, 'A') {
            Err(FieldError::ParseFailure(self.base.parameters[4].clone()))
        } else if self.base.param_is(3, 'M') {
            speed_parameter(&self.base, 2, MPS_TO_MPH_DEN, MPS_TO_MPH_NUM)
        } else if self.base.param_is(3, 'N') {
            speed_parameter(&self.base, 2, MPS_TO_KNOTS_DEN, MPS_TO_KNOTS_NUM)
        } else if self.base.param_is(3, 'K') {
            speed_parameter(&self.base, 2, 1000, 3600)
        } else {
            Err(FieldError::ParseFailure(self.base.parameters[3].clone()))
        }
    }
}

/// The angle at slot 0 under the validity flag and reference tag.
fn mwv_angle(b: &Nmea0183Base, reference: char) -> (r: Result<Decimal, FieldError>)
    ensures
        mwv_angle_spec(*b, reference, r),
{
    if b.parameters.len() <= 4 {
        Err(FieldError::MissingField)
    } else if !b.param_is(4, 'A') {
        Err(FieldError::ParseFailure(b.parameters[4].clone()))
    } else if b.param_is(1, reference) {
        b.parameter(0)
    } else {
        Err(FieldError::ParseFailure(b.parameters[1].clone()))
    }
}

} // verus!
