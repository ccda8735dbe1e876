//! `VTG` — track made good and ground speed.  The sentence carries course
//! and speed in several units, each value tagged by a following unit
//! letter; each accessor searches the tagged pairs and converts where a
//! different unit is all the sentence offers.

use vstd::prelude::*;

use crate::base::{DecimalError, KPH_TO_KNOTS_DEN, KPH_TO_KNOTS_NUM, KPH_TO_MPH_DEN,
    KPH_TO_MPH_NUM, MPH_TO_KNOTS_DEN, MPH_TO_KNOTS_NUM, Nmea0183Base, pis, plen,
    ptext, scaled_param_spec, tagged_pair, tagged_pair_spec};
use crate::errors::FieldError;
use crate::fields::Decimal;
use crate::rational::Rational;

verus! {

/// A typed view over a framed `VTG` sentence.
#[derive(Debug)]
pub struct Vtg {
    base: Nmea0183Base,
}

impl Vtg {
    /// The framed sentence this view reads.
    pub closed spec fn base_spec(self) -> Nmea0183Base {
        self.base
    }

    /// Wraps a framed sentence.
    pub fn new(base: Nmea0183Base) -> (r: Vtg)
        ensures
            r.base_spec() == base,
    {
        Vtg { base }
    }

    /// Course over ground, true degrees: the value tagged `T`.
    pub fn cog_true(&self) -> (r: DecimalError)
        ensures
            tagged_pair_spec(self.base_spec(), 'T', r),
    {
        tagged_pair(&self.base, 'T')
    }

    /// Course over ground, magnetic degrees: the value tagged `M`.
    pub fn cog_mag(&self) -> (r: DecimalError)
        ensures
            tagged_pair_spec(self.base_spec(), 'M', r),
    {
        tagged_pair(&self.base, 'M')
    }

    /// Speed over ground in knots: the value tagged `N` as written, a
    /// km/h or mph value converted through the fixed factors otherwise.
    pub fn sog_knots(&self) -> (r: Result<Rational, FieldError>)
        ensures
            ({
                let b = self.base_spec();
                if pis(b, 5, 'N') {
                    scaled_param_spec(b, 4, 1, 1, r)
                } else if pis(b, 7, 'N') {
                    scaled_param_spec(b, 6, 1, 1, r)
                } else if pis(b, 5, 'K') {
                    scaled_param_spec(b, 4, KPH_TO_KNOTS_NUM as int, KPH_TO_KNOTS_DEN as int, r)
                } else if pis(b, 7, 'K') {
                    scaled_param_spec(b, 6, KPH_TO_KNOTS_NUM as int, KPH_TO_KNOTS_DEN as int, r)
                } else if pis(b, 5, 'M') {
                    scaled_param_spec(b, 4, MPH_TO_KNOTS_NUM as int, MPH_TO_KNOTS_DEN as int, r)
                } else if pis(b, 7, 'M') {
                    scaled_param_spec(b, 6, MPH_TO_KNOTS_NUM as int, MPH_TO_KNOTS_DEN as int, r)
                } else if plen(b) <= 7 {
                    r == Err::<Rational, FieldError>(FieldError::MissingField)
                } else {
                    r is Err && r->Err_0 is ParseFailure && r->Err_0->ParseFailure_0@ == ptext(
                        b,
                        5,
                    )
                }
            }),
    {
        if self.base.param_is(5, 'N') {
            self.base.scaled_parameter(4, 1, 1)
        } else if self.base.param_is(7, 'N') {
            self.base.scaled_parameter(6, 1, 1)
        } else if self.base.param_is(5, 'K') {
            self.base.scaled_parameter(4, KPH_TO_KNOTS_NUM, KPH_TO_KNOTS_DEN)
        } else if self.base.param_is(7, 'K') {
            self.base.scaled_parameter(6, KPH_TO_KNOTS_NUM, KPH_TO_KNOTS_DEN)
        } else if self.base.param_is(5, 'M') {
            self.base.scaled_parameter(4, MPH_TO_KNOTS_NUM, MPH_TO_KNOTS_DEN)
        } else if self.base.param_is(7, 'M') {
            self.base.scaled_parameter(6, MPH_TO_KNOTS_NUM, MPH_TO_KNOTS_DEN)
        } else if self.base.parameters.len() <= 7 {
            Err(FieldError::MissingField)
        } else {
            Err(FieldError::ParseFailure(self.base.parameters[5].clone()))
        }
    }

    /// Speed over ground in km/h: the value tagged `K` as written, a
    /// knots value divided by the knots-per-km/h factor, an mph value
    /// multiplied by the km/h-per-mph factor.
    pub fn sog_kph(&self) -> (r: Result<Rational, FieldError>)
        ensures
            ({
                let b = self.base_spec();
                if pis(b, 5, 'K') {
                    scaled_param_spec(b, 4, 1, 1, r)
                } else if pis(b, 7, 'K') {
                    scaled_param_spec(b, 6, 1, 1, r)
                } else if pis(b, 5, 'N') {
                    scaled_param_spec(b, 4, KPH_TO_KNOTS_DEN as int, KPH_TO_KNOTS_NUM as int, r)
                } else if pis(b, 7, 'N') {
                    scaled_param_spec(b, 6, KPH_TO_KNOTS_DEN as int, KPH_TO_KNOTS_NUM as int, r)
                } else if pis(b, 5, 'M') {
                    scaled_param_spec(b, 4, KPH_TO_MPH_NUM as int, KPH_TO_MPH_DEN as int, r)
                } else if pis(b, 7, 'M') {
                    scaled_param_spec(b, 6, KPH_TO_MPH_NUM as int, KPH_TO_MPH_DEN as int, r)
                } else if plen(b) <= 7 {
                    r == Err::<Rational, FieldError>(FieldError::MissingField)
                } else {
                    r is Err && r->Err_0 is ParseFailure && r->Err_0->ParseFailure_0@ == ptext(
                        b,
                        5,
                    )
                }
            }),
    {
        if self.base.param_is(5, 'K') {
            self.base.scaled_parameter(4, 1, 1)
        } else if self.base.param_is(7, 'K') {
            self.base.scaled_parameter(6, 1, 1)
        } else if self.base.param_is(5, 'N') {
            self.base.scaled_parameter(4, KPH_TO_KNOTS_DEN, KPH_TO_KNOTS_NUM)
        } else if self.base.param_is(7, 'N') {
            self.base.scaled_parameter(6, KPH_TO_KNOTS_DEN, KPH_TO_KNOTS_NUM)
        } else if self.base.param_is(5, 'M') {
            self.base.scaled_parameter(4, KPH_TO_MPH_NUM, KPH_TO_MPH_DEN)
        } else if self.base.param_is(7, 'M') {
            self.base.scaled_parameter(6, KPH_TO_MPH_NUM, KPH_TO_MPH_DEN)
        } else if self.base.parameters.len() <= 7 {
            Err(FieldError::MissingField)
        } else {
            Err(FieldError::ParseFailure(self.base.parameters[5].clone()))
        }
    }

    /// Speed over ground in mph: the value tagged `M` as written, a km/h
    /// value divided by the km/h-per-mph factor, a knots value divided by
    /// the knots-per-mph factor.
    pub fn sog_mph(&self) -> (r: Result<Rational, FieldError>)
        ensures
            ({
                let b = self.base_spec();
                if pis(b, 5, 'M') {
                    scaled_param_spec(b, 4, 1, 1, r)
                } else if pis(b, 7, 'M') {
                    scaled_param_spec(b, 6, 1, 1, r)
                } else if pis(b, 5, 'K') {
                    scaled_param_spec(b, 4, KPH_TO_MPH_DEN as int, KPH_TO_MPH_NUM as int, r)
                } else if pis(b, 7, 'K') {
                    scaled_param_spec(b, 6, KPH_TO_MPH_DEN as int, KPH_TO_MPH_NUM as int, r)
                } else if pis(b, 5, 'N') {
                    scaled_param_spec(b, 4, MPH_TO_KNOTS_DEN as int, MPH_TO_KNOTS_NUM as int, r)
                } else if pis(b, 7, 'N') {
                    scaled_param_spec(b, 6, MPH_TO_KNOTS_DEN as int, MPH_TO_KNOTS_NUM as int, r)
                } else if plen(b) <= 7 {
                    r == Err::<Rational, FieldError>(FieldError::MissingField)
                } else {
                    r is Err && r->Err_0 is ParseFailure && r->Err_0->ParseFailure_0@ == ptext(
                        b,
                        5,
                    )
                }
            }),
    {
        if self.base.param_is(5, 'M') {
            self.base.scaled_parameter(4, 1, 1)
        } else if self.base.param_is(7, 'M') {
            self.base.scaled_parameter(6, 1, 1)
        } else if self.base.param_is(5, 'K') {
            self.base.scaled_parameter(4, KPH_TO_MPH_DEN, KPH_TO_MPH_NUM)
        } else if self.base.param_is(7, 'K') {
            self.base.scaled_parameter(6, KPH_TO_MPH_DEN, KPH_TO_MPH_NUM)
        } else if self.base.param_is(5, 'N') {
            self.base.scaled_parameter(4, MPH_TO_KNOTS_DEN, MPH_TO_KNOTS_NUM)
        } else if self.base.param_is(7, 'N') {
            self.base.scaled_parameter(6, MPH_TO_KNOTS_DEN, MPH_TO_KNOTS_NUM)
        } else if self.base.parameters.len() <= 7 {
            Err(FieldError::MissingField)
        } else {
            Err(FieldError::ParseFailure(self.base.parameters[5].clone()))
        }
    }

    /// FAA mode indicator, parameter 8, where present and non-empty.
    pub fn faa_mode(&self) -> (r: Option<char>)
        ensures
            match r {
                Some(c) => 8 < self.base_spec().parameters@.len()
                    && self.base_spec().parameters@[8]@.len() > 0 && c
                    == self.base_spec().parameters@[8]@[0],
                None => 8 >= self.base_spec().parameters@.len()
                    || self.base_spec().parameters@[8]@.len() == 0,
            },
    {
        self.base.opt_first_char(8)
    }
}

} // verus!
