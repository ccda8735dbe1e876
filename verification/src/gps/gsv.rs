//! `GSV` — GNSS satellites in view.

use vstd::prelude::*;

use crate::base::{Nmea0183Base, UsizeError, param_spec};
use crate::errors::{FieldError, parse_failed};
use crate::fields::FieldParse;

verus! {

/// One satellite's block of four fields.
#[derive(Debug, Clone, Copy, PartialEq, Eq, Structural)]
pub struct SatelliteData {
    pub id: usize,
    pub elevation: usize,
    pub azimuth: usize,
    pub snr: usize,
}

/// A typed view over a framed `GSV` sentence.
#[derive(Debug)]
pub struct Gsv {
    base: Nmea0183Base,
}

impl Gsv {
    /// The framed sentence this view reads.
    pub closed spec fn base_spec(self) -> Nmea0183Base {
        self.base
    }

    /// Wraps a framed sentence.
    pub fn new(base: Nmea0183Base) -> (r: Gsv)
        ensures
            r.base_spec() == base,
    {
        Gsv { base }
    }

    /// How many sentences this cycle spans, parameter 0.
    pub fn sentence_total(&self) -> (r: UsizeError)
        ensures
            param_spec::<usize>(self.base_spec(), 0, r),
    {
        self.base.parameter(0)
    }

    /// This sentence's number in the cycle, parameter 1.
    pub fn sentence_number(&self) -> (r: UsizeError)
        ensures
            param_spec::<usize>(self.base_spec(), 1, r),
    {
        self.base.parameter(1)
    }

    /// Satellites in view, parameter 2.
    pub fn number_of_satellites(&self) -> (r: UsizeError)
        ensures
            param_spec::<usize>(self.base_spec(), 2, r),
    {
        self.base.parameter(2)
    }

    /// The `n`th satellite block: id, elevation, azimuth and
    /// signal-to-noise ratio from the four parameters starting at
    /// `4 * n + 3`.  `MissingField` where the block runs past the end of
    /// the parameter list; the first unparsable field fails the read.
    pub fn satellite(&self, n: usize) -> (r: Result<SatelliteData, FieldError>)
        ensures
            ({
                let p = self.base_spec().parameters;
                let k = 4 * (n as int) + 3;
                if k + 3 >= p@.len() {
                    r == Err::<SatelliteData, FieldError>(FieldError::MissingField)
                } else {
                    match <usize as FieldParse>::parse_text(p@[k]@) {
                        None => parse_failed(r, p@[k]@),
                        Some(id) => match <usize as FieldParse>::parse_text(p@[k + 1]@) {
                            None => parse_failed(r, p@[k + 1]@),
                            Some(elevation) => match <usize as FieldParse>::parse_text(
                                p@[k + 2]@,
                            ) {
                                None => parse_failed(r, p@[k + 2]@),
                                Some(azimuth) => match <usize as FieldParse>::parse_text(
                                    p@[k + 3]@,
                                ) {
                                    None => parse_failed(r, p@[k + 3]@),
                                    Some(snr) => r == Ok::<SatelliteData, FieldError>(
                                        SatelliteData { id, elevation, azimuth, snr },
                                    ),
                                },
                            },
                        },
                    }
                }
            }),
    {
        let len: usize = self.base.parameters.len();
        if n > usize::MAX / 4 || 4 * n > usize::MAX - 6 || 4 * n + 6 >= len {
            return Err(FieldError::MissingField);
        }
        let k: usize = 4 * n + 3;
        let id: usize = match self.base.parameter::<usize>(k) {
            Ok(v) => v,
            Err(e) => {
                return Err(e);
            },
        };
        let elevation: usize = match self.base.parameter::<usize>(k + 1) {
            Ok(v) => v,
            Err(e) => {
                return Err(e);
            },
        };
        let azimuth: usize = match self.base.parameter::<usize>(k + 2) {
            Ok(v) => v,
            Err(e) => {
                return Err(e);
            },
        };
        let snr: usize = match self.base.parameter::<usize>(k + 3) {
            Ok(v) => v,
            Err(e) => {
                return Err(e);
            },
        };
        Ok(SatelliteData { id, elevation, azimuth, snr })
    }
}

} // verus!
