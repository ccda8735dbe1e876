//! `VWT` — true wind speed and angle.

use vstd::prelude::*;

use crate::base::{DecimalError, Nmea0183Base, lr_direction, lr_direction_spec, pis, plen, ptext};
use crate::errors::FieldError;
use crate::units::{Speed, speed_param_spec, speed_parameter};

verus! {

/// A typed view over a framed `VWT` sentence.
#[derive(Debug)]
pub struct Vwt {
    base: Nmea0183Base,
}

impl Vwt {
    /// The framed sentence this view reads.
    pub closed spec fn base_spec(self) -> Nmea0183Base {
        self.base
    }

    /// Wraps a framed sentence.
    pub fn new(base: Nmea0183Base) -> (r: Vwt)
        ensures
            r.base_spec() == base,
    {
        Vwt { base }
    }

    /// Wind direction in degrees off the bow: slot 0, negative to port
    /// (`L`), positive to starboard (`R`).
    pub fn wind_direction(&self) -> (r: DecimalError)
        ensures
            lr_direction_spec(self.base_spec(), r),
    {
        lr_direction(&self.base)
    }

    /// Wind speed: the value tagged `M` (meters per second) at slot 3, 5
    /// or 7, else the value tagged `K` (km/h) there.
    pub fn wind_speed(&self) -> (r: Result<Speed, FieldError>)
        ensures
            ({
                let b = self.base_spec();
                if pis(b, 3, 'M') {
                    speed_param_spec(b, 2, 1, 1, r)
                } else if pis(b, 5, 'M') {
                    speed_param_spec(b, 4, 1, 1, r)
                } else if pis(b, 7, 'M') {
                    speed_param_spec(b, 6, 1, 1, r)
                } else if pis(b, 3, 'K') {
                    speed_param_spec(b, 2, 1000, 3600, r)
                } else if pis(b, 5, 'K') {
                    speed_param_spec(b, 4, 1000, 3600, r)
                } else if pis(b, 7, 'K') {
                    speed_param_spec(b, 6, 1000, 3600, r)
                } else if plen(b) <= 7 {
                    r == Err::<Speed, FieldError>(FieldError::MissingField)
                } else {
                    r is Err && r->Err_0 is ParseFailure && r->Err_0->ParseFailure_0@ == ptext(
                        b,
                        3,
                    )
                }
            }),
    {
        if self.base.param_is(3, 'M') {
            speed_parameter(&self.base, 2, 1, 1)
        } else if self.base.param_is(5, 'M') {
            speed_parameter(&self.base, 4, 1, 1)
        } else if self.base.param_is(7, 'M') {
            speed_parameter(&self.base, 6, 1, 1)
        } else if self.base.param_is(3, 'K') {
            speed_parameter(&self.base, 2, 1000, 3600)
        } else if self.base.param_is(5, 'K') {
            speed_parameter(&self.base, 4, 1000, 3600)
        } else if self.base.param_is(7, 'K') {
            speed_parameter(&self.base, 6, 1000, 3600)
        } else if self.base.parameters.len() <= 7 {
            Err(FieldError::MissingField)
        } else {
            Err(FieldError::ParseFailure(self.base.parameters[3].clone()))
        }
    }
}

} // verus!
