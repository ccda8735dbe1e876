//! `MDA` — meteorological composite.

use vstd::prelude::*;

use crate::base::{DecimalError, Nmea0183Base, param_spec, pis, plen, ptext, tagged_at,
    tagged_at_spec};
use crate::errors::FieldError;
use crate::fields::Decimal;
use crate::miscellaneous::mtw::{temp_cf, temp_cf_spec};
use crate::units::{INCHES_MERCURY_TO_BAR_DEN, INCHES_MERCURY_TO_BAR_NUM,
    MPS_TO_KNOTS_DEN, MPS_TO_KNOTS_NUM, Pressure, Speed, Temperature,
    pressure_param_spec, pressure_parameter, speed_param_spec, speed_parameter};

verus! {

/// A typed view over a framed `MDA` sentence.
#[derive(Debug)]
pub struct Mda {
    base: Nmea0183Base,
}

impl Mda {
    /// The framed sentence this view reads.
    pub closed spec fn base_spec(self) -> Nmea0183Base {
        self.base
    }

    /// Wraps a framed sentence.
    pub fn new(base: Nmea0183Base) -> (r: Mda)
        ensures
            r.base_spec() == base,
    {
        Mda { base }
    }

    /// Barometric pressure: the value tagged `B` (bar) at slot 1 or 3,
    /// else inches of mercury tagged `I` there, each unit letter paired
    /// with the value slot before it.
    pub fn pressure(&self) -> (r: Result<Pressure, FieldError>)
        ensures
            ({
                let b = self.base_spec();
                if pis(b, 1, 'B') {
                    pressure_param_spec(b, 0, 1, 1, r)
                } else if pis(b, 3, 'B') {
                    pressure_param_spec(b, 2, 1, 1, r)
                } else if pis(b, 1, 'I') {
                    pressure_param_spec(b, 0, INCHES_MERCURY_TO_BAR_NUM as int, INCHES_MERCURY_TO_BAR_DEN as int, r)
                } else if pis(b, 3, 'I') {
                    pressure_param_spec(b, 2, INCHES_MERCURY_TO_BAR_NUM as int, INCHES_MERCURY_TO_BAR_DEN as int, r)
                } else if plen(b) <= 3 {
                    r == Err::<Pressure, FieldError>(FieldError::MissingField)
                } else {
                    r is Err && r->Err_0 is ParseFailure && r->Err_0->ParseFailure_0@ == ptext(
                        b,
                        1,
                    )
                }
            }),
    {
        if self.base.param_is(1, 'B') {
            pressure_parameter(&self.base, 0, 1, 1)
        } else if self.base.param_is(3, 'B') {
            pressure_parameter(&self.base, 2, 1, 1)
        } else if self.base.param_is(1, 'I') {
            pressure_parameter(&self.base, 0, INCHES_MERCURY_TO_BAR_NUM, INCHES_MERCURY_TO_BAR_DEN)
        } else if self.base.param_is(3, 'I') {
            pressure_parameter(&self.base, 2, INCHES_MERCURY_TO_BAR_NUM, INCHES_MERCURY_TO_BAR_DEN)
        } else if self.base.parameters.len() <= 3 {
            Err(FieldError::MissingField)
        } else {
            Err(FieldError::ParseFailure(self.base.parameters[1].clone()))
        }
    }

    /// Air temperature at slot 4, Celsius or Fahrenheit as tagged at
    /// slot 5.
    pub fn air_temperature(&self) -> (r: Result<Temperature, FieldError>)
        ensures
            temp_cf_spec(self.base_spec(), 4, r),
    {
        temp_cf(&self.base, 4)
    }

    /// Water temperature at slot 6, Celsius or Fahrenheit as tagged at
    /// slot 7.
    pub fn water_temperature(&self) -> (r: Result<Temperature, FieldError>)
        ensures
            temp_cf_spec(self.base_spec(), 6, r),
    {
        temp_cf(&self.base, 6)
    }

    /// Relative humidity in percent, slot 8.
    pub fn relative_humidity(&self) -> (r: DecimalError)
        ensures
            param_spec::<Decimal>(self.base_spec(), 8, r),
    {
        self.base.parameter(8)
    }

    /// Absolute humidity, slot 9.
    pub fn absolute_humidity(&self) -> (r: DecimalError)
        ensures
            param_spec::<Decimal>(self.base_spec(), 9, r),
    {
        self.base.parameter(9)
    }

    /// Dew point at slot 10, Celsius or Fahrenheit as tagged at slot 11.
    pub fn dew_point(&self) -> (r: Result<Temperature, FieldError>)
        ensures
            temp_cf_spec(self.base_spec(), 10, r),
    {
        temp_cf(&self.base, 10)
    }

    /// True wind direction: the value tagged `T` at slot 13 or 15.
    pub fn wind_direction_true(&self) -> (r: DecimalError)
        ensures
            tagged_at_spec(self.base_spec(), 12, 'T', r),
    {
        tagged_at(&self.base, 12, 'T')
    }

    /// Magnetic wind direction: the value tagged `M` at slot 13 or 15.
    pub fn wind_direction_magnetic(&self) -> (r: DecimalError)
        ensures
            tagged_at_spec(self.base_spec(), 12, 'M', r),
    {
        tagged_at(&self.base, 12, 'M')
    }

    /// Wind speed: the value tagged `M` (meters per second) at slot 17
    /// or 19, else knots `N` or km/h `K` there.
    pub fn wind_speed(&self) -> (r: Result<Speed, FieldError>)
        ensures
            ({
                let b = self.base_spec();
                if pis(b, 17, 'M') {
                    speed_param_spec(b, 16, 1, 1, r)
                } else if pis(b, 19, 'M') {
                    speed_param_spec(b, 18, 1, 1, r)
                } else if pis(b, 17, 'N') {
                    speed_param_spec(b, 16, MPS_TO_KNOTS_DEN as int, MPS_TO_KNOTS_NUM as int, r)
                } else if pis(b, 17, 'K') {
                    speed_param_spec(b, 16, 1000, 3600, r)
                } else if pis(b, 19, 'N') {
                    speed_param_spec(b, 18, MPS_TO_KNOTS_DEN as int, MPS_TO_KNOTS_NUM as int, r)
                } else if pis(b, 19, 'K') {
                    speed_param_spec(b, 18, 1000, 3600, r)
                } else if plen(b) <= 19 {
                    r == Err::<Speed, FieldError>(FieldError::MissingField)
                } else {
                    r is Err && r->Err_0 is ParseFailure && r->Err_0->ParseFailure_0@ == ptext(
                        b,
                        17,
                    )
                }
            }),
    {
        if self.base.param_is(17, 'M') {
            speed_parameter(&self.base, 16, 1, 1)
        } else if self.base.param_is(19, 'M') {
            speed_parameter(&self.base, 18, 1, 1)
        } else if self.base.param_is(17, 'N') {
            speed_parameter(&self.base, 16, MPS_TO_KNOTS_DEN, MPS_TO_KNOTS_NUM)
        } else if self.base.param_is(17, 'K') {
            speed_parameter(&self.base, 16, 1000, 3600)
        } else if self.base.param_is(19, 'N') {
            speed_parameter(&self.base, 18, MPS_TO_KNOTS_DEN, MPS_TO_KNOTS_NUM)
        } else if self.base.param_is(19, 'K') {
            speed_parameter(&self.base, 18, 1000, 3600)
        } else if self.base.parameters.len() <= 19 {
            Err(FieldError::MissingField)
        } else {
            Err(FieldError::ParseFailure(self.base.parameters[17].clone()))
        }
    }
}

} // verus!
