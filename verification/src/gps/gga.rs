//! `GGA` — global positioning system fix data.

use vstd::prelude::*;

use crate::base::{DecimalError, Nmea0183Base, U8Error, UsizeError, param_spec,
    position_param_spec, time_param_spec};
use crate::errors::FieldError;
use crate::fields::Decimal;
use crate::geo::GeoPosition;
use crate::timedate::LocalTime;

verus! {

/// A typed view over a framed `GGA` sentence.
#[derive(Debug)]
pub struct Gga {
    base: Nmea0183Base,
}

impl Gga {
    /// The framed sentence this view reads.
    pub closed spec fn base_spec(self) -> Nmea0183Base {
        self.base
    }

    /// Wraps a framed sentence.
    pub fn new(base: Nmea0183Base) -> (r: Gga)
        ensures
            r.base_spec() == base,
    {
        Gga { base }
    }

    /// UTC time of fix, parameter 0.
    pub fn timestamp(&self) -> (r: Result<LocalTime, FieldError>)
        ensures
            time_param_spec(self.base_spec(), 0, r),
    {
        self.base.naive_time(0)
    }

    /// Position from parameters 1 through 4.
    pub fn position(&self) -> (r: Result<GeoPosition, FieldError>)
        ensures
            position_param_spec(self.base_spec(), 1, r),
    {
        self.base.position(1)
    }

    /// Fix quality indicator, parameter 5.
    pub fn quality(&self) -> (r: U8Error)
        ensures
            param_spec::<u8>(self.base_spec(), 5, r),
    {
        self.base.parameter(5)
    }

    /// Number of satellites in use, parameter 6.
    pub fn number_of_satellites(&self) -> (r: U8Error)
        ensures
            param_spec::<u8>(self.base_spec(), 6, r),
    {
        self.base.parameter(6)
    }

    /// Horizontal dilution of precision, parameter 7.
    pub fn hdop(&self) -> (r: DecimalError)
        ensures
            param_spec::<Decimal>(self.base_spec(), 7, r),
    {
        self.base.parameter(7)
    }

    /// Antenna height above mean sea level, parameter 8.
    pub fn height(&self) -> (r: DecimalError)
        ensures
            param_spec::<Decimal>(self.base_spec(), 8, r),
    {
        self.base.parameter(8)
    }

    /// Geoid separation, parameter 10.
    pub fn geoid_separation(&self) -> (r: DecimalError)
        ensures
            param_spec::<Decimal>(self.base_spec(), 10, r),
    {
        self.base.parameter(10)
    }

    /// Age of differential data, parameter 12.
    pub fn differential_age(&self) -> (r: DecimalError)
        ensures
            param_spec::<Decimal>(self.base_spec(), 12, r),
    {
        self.base.parameter(12)
    }

    /// Differential reference station, parameter 13.
    pub fn reference_station(&self) -> (r: UsizeError)
        ensures
            param_spec::<usize>(self.base_spec(), 13, r),
    {
        self.base.parameter(13)
    }
}

} // verus!
