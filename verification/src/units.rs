//! Unit-carrying value types.  Each stores one canonical unit — meters per
//! second, meters, Celsius, bar — and converts through fixed multiplicative
//! constants, exactly: a conversion multiplies the stored rational by a
//! fixed fraction, so nothing is rounded and round trips cancel.

use vstd::prelude::*;

use crate::base::{Nmea0183Base, pis, plen, ptext};
use crate::errors::FieldError;
use crate::fields::{Decimal, decimal_text_val};
use crate::rational::Rational;

verus! {

/// Meters per mile, as the fraction `num / den` (0.000621371192 inverted:
/// a mile is `den / num` meters).
pub const METERS_TO_MILES_NUM: u64 = 621_371_192;

pub const METERS_TO_MILES_DEN: u64 = 1_000_000_000_000;

/// Meters per nautical mile, as the fraction `num / den`.
pub const METERS_TO_NM_NUM: u64 = 539_956_803;

pub const METERS_TO_NM_DEN: u64 = 1_000_000_000_000;

/// Meters-per-second per mile-per-hour: miles factor times 3600 seconds.
pub const MPS_TO_MPH_NUM: u64 = 621_371_192 * 3_600;

pub const MPS_TO_MPH_DEN: u64 = 1_000_000_000_000;

/// Meters-per-second per knot: nautical-miles factor times 3600 seconds.
pub const MPS_TO_KNOTS_NUM: u64 = 539_956_803 * 3_600;

pub const MPS_TO_KNOTS_DEN: u64 = 1_000_000_000_000;

/// Bar per inch of mercury: 0.03386.
pub const INCHES_MERCURY_TO_BAR_NUM: u64 = 3_386;

pub const INCHES_MERCURY_TO_BAR_DEN: u64 = 100_000;

/// Bar per pound-per-square-inch: 0.0689475729.
pub const PSI_TO_BAR_NUM: u64 = 689_475_729;

pub const PSI_TO_BAR_DEN: u64 = 10_000_000_000;

/// A speed, canonically in meters per second.
#[derive(Debug, Clone, Copy, PartialEq, Eq, Structural)]
pub struct Speed {
    pub mps: Rational,
}

impl Speed {
    /// Meters per second, as given.
    pub fn from_mps(v: Rational) -> (r: Speed)
        ensures
            r.mps == v,
    {
        Speed { mps: v }
    }

    /// Kilometers per hour: one km/h is 1000/3600 m/s.
    pub fn from_kph(v: Rational) -> (r: Speed)
        requires
            v.wf(),
            v.bounded(),
        ensures
            r.mps.num == v.num * 1000,
            r.mps.den == v.den * 3600,
            r.mps.wf(),
    {
        Speed { mps: v.times_frac(1000, 3600) }
    }

    /// Miles per hour: one mph is `den / num` of [`MPS_TO_MPH_NUM`] m/s.
    pub fn from_mph(v: Rational) -> (r: Speed)
        requires
            v.wf(),
            v.bounded(),
        ensures
            r.mps.num == v.num * MPS_TO_MPH_DEN,
            r.mps.den == v.den * MPS_TO_MPH_NUM,
            r.mps.wf(),
    {
        Speed { mps: v.times_frac(MPS_TO_MPH_DEN, MPS_TO_MPH_NUM) }
    }

    /// Knots: one knot is `den / num` of [`MPS_TO_KNOTS_NUM`] m/s.
    pub fn from_knots(v: Rational) -> (r: Speed)
        requires
            v.wf(),
            v.bounded(),
        ensures
            r.mps.num == v.num * MPS_TO_KNOTS_DEN,
            r.mps.den == v.den * MPS_TO_KNOTS_NUM,
            r.mps.wf(),
    {
        Speed { mps: v.times_frac(MPS_TO_KNOTS_DEN, MPS_TO_KNOTS_NUM) }
    }

    /// Meters per second.
    pub fn as_mps(&self) -> (r: Rational)
        ensures
            r == self.mps,
    {
        self.mps
    }

    /// Kilometers per hour.
    pub fn as_kph(&self) -> (r: Rational)
        requires
            self.mps.wf(),
            self.mps.bounded(),
        ensures
            r.num == self.mps.num * 3600,
            r.den == self.mps.den * 1000,
            r.wf(),
    {
        self.mps.times_frac(3600, 1000)
    }

    /// Miles per hour.
    pub fn as_mph(&self) -> (r: Rational)
        requires
            self.mps.wf(),
            self.mps.bounded(),
        ensures
            r.num == self.mps.num * MPS_TO_MPH_NUM,
            r.den == self.mps.den * MPS_TO_MPH_DEN,
            r.wf(),
    {
        self.mps.times_frac(MPS_TO_MPH_NUM, MPS_TO_MPH_DEN)
    }

    /// Knots.
    pub fn as_knots(&self) -> (r: Rational)
        requires
            self.mps.wf(),
            self.mps.bounded(),
        ensures
            r.num == self.mps.num * MPS_TO_KNOTS_NUM,
            r.den == self.mps.den * MPS_TO_KNOTS_DEN,
            r.wf(),
    {
        self.mps.times_frac(MPS_TO_KNOTS_NUM, MPS_TO_KNOTS_DEN)
    }
}

/// A distance, canonically in meters.
#[derive(Debug, Clone, Copy, PartialEq, Eq, Structural)]
pub struct Distance {
    pub meters: Rational,
}

impl Distance {
    /// Meters, as given.
    pub fn from_meters(v: Rational) -> (r: Distance)
        ensures
            r.meters == v,
    {
        Distance { meters: v }
    }

    /// Kilometers: a thousand meters each.
    pub fn from_kilometers(v: Rational) -> (r: Distance)
        requires
            v.wf(),
            v.bounded(),
        ensures
            r.meters.num == v.num * 1000,
            r.meters.den == v.den,
            r.meters.wf(),
    {
        Distance { meters: v.times_frac(1000, 1) }
    }

    /// Miles: one mile is `den / num` of [`METERS_TO_MILES_NUM`] meters.
    pub fn from_miles(v: Rational) -> (r: Distance)
        requires
            v.wf(),
            v.bounded(),
        ensures
            r.meters.num == v.num * METERS_TO_MILES_DEN,
            r.meters.den == v.den * METERS_TO_MILES_NUM,
            r.meters.wf(),
    {
        Distance { meters: v.times_frac(METERS_TO_MILES_DEN, METERS_TO_MILES_NUM) }
    }

    /// Nautical miles: one is `den / num` of [`METERS_TO_NM_NUM`] meters.
    pub fn from_nautical_miles(v: Rational) -> (r: Distance)
        requires
            v.wf(),
            v.bounded(),
        ensures
            r.meters.num == v.num * METERS_TO_NM_DEN,
            r.meters.den == v.den * METERS_TO_NM_NUM,
            r.meters.wf(),
    {
        Distance { meters: v.times_frac(METERS_TO_NM_DEN, METERS_TO_NM_NUM) }
    }

    /// Meters.
    pub fn as_meters(&self) -> (r: Rational)
        ensures
            r == self.meters,
    {
        self.meters
    }

    /// Kilometers.
    pub fn as_kilometers(&self) -> (r: Rational)
        requires
            self.meters.wf(),
            self.meters.bounded(),
        ensures
            r.num == self.meters.num,
            r.den == self.meters.den * 1000,
            r.wf(),
    {
        self.meters.times_frac(1, 1000)
    }

    /// Centimeters.
    pub fn as_centimeters(&self) -> (r: Rational)
        requires
            self.meters.wf(),
            self.meters.bounded(),
        ensures
            r.num == self.meters.num * 100,
            r.den == self.meters.den,
            r.wf(),
    {
        self.meters.times_frac(100, 1)
    }

    /// Miles.
    pub fn as_miles(&self) -> (r: Rational)
        requires
            self.meters.wf(),
            self.meters.bounded(),
        ensures
            r.num == self.meters.num * METERS_TO_MILES_NUM,
            r.den == self.meters.den * METERS_TO_MILES_DEN,
            r.wf(),
    {
        self.meters.times_frac(METERS_TO_MILES_NUM, METERS_TO_MILES_DEN)
    }

    /// Feet: 5280 per mile.
    pub fn as_feet(&self) -> (r: Rational)
        requires
            self.meters.wf(),
            self.meters.bounded(),
        ensures
            r.num == self.meters.num * (METERS_TO_MILES_NUM * 5280),
            r.den == self.meters.den * METERS_TO_MILES_DEN,
            r.wf(),
    {
        self.meters.times_frac(METERS_TO_MILES_NUM * 5280, METERS_TO_MILES_DEN)
    }

    /// Nautical miles.
    pub fn as_nautical_mile(&self) -> (r: Rational)
        requires
            self.meters.wf(),
            self.meters.bounded(),
        ensures
            r.num == self.meters.num * METERS_TO_NM_NUM,
            r.den == self.meters.den * METERS_TO_NM_DEN,
            r.wf(),
    {
        self.meters.times_frac(METERS_TO_NM_NUM, METERS_TO_NM_DEN)
    }
}

/// A temperature, canonically in degrees Celsius.
#[derive(Debug, Clone, Copy, PartialEq, Eq, Structural)]
pub struct Temperature {
    pub celsius: Rational,
}

impl Temperature {
    /// Degrees Celsius, as given.
    pub fn from_celsius(v: Rational) -> (r: Temperature)
        ensures
            r.celsius == v,
    {
        Temperature { celsius: v }
    }

    /// Degrees Fahrenheit: Celsius is `(F - 32) * 5 / 9`.
    pub fn from_fahrenheit(v: Rational) -> (r: Temperature)
        requires
            v.wf(),
            v.bounded(),
        ensures
            r.celsius.num == (v.num - 32 * v.den) * 5,
            r.celsius.den == v.den * 9,
            r.celsius.wf(),
    {
        Temperature { celsius: Rational { num: (v.num - 32 * v.den) * 5, den: v.den * 9 } }
    }

    /// Degrees Celsius.
    pub fn as_celsius(&self) -> (r: Rational)
        ensures
            r == self.celsius,
    {
        self.celsius
    }

    /// Degrees Fahrenheit: `C * 9 / 5 + 32`.
    pub fn as_fahrenheit(&self) -> (r: Rational)
        requires
            self.celsius.wf(),
            self.celsius.bounded(),
        ensures
            r.num == 9 * self.celsius.num + 160 * self.celsius.den,
            r.den == 5 * self.celsius.den,
            r.wf(),
    {
        Rational { num: 9 * self.celsius.num + 160 * self.celsius.den, den: 5 * self.celsius.den }
    }
}

/// A pressure, canonically in bar.
#[derive(Debug, Clone, Copy, PartialEq, Eq, Structural)]
pub struct Pressure {
    pub bar: Rational,
}

impl Pressure {
    /// Bar, as given.
    pub fn from_bar(v: Rational) -> (r: Pressure)
        ensures
            r.bar == v,
    {
        Pressure { bar: v }
    }

    /// Inches of mercury: one is 0.03386 bar.
    pub fn from_inches_mercury(v: Rational) -> (r: Pressure)
        requires
            v.wf(),
            v.bounded(),
        ensures
            r.bar.num == v.num * INCHES_MERCURY_TO_BAR_NUM,
            r.bar.den == v.den * INCHES_MERCURY_TO_BAR_DEN,
            r.bar.wf(),
    {
        Pressure { bar: v.times_frac(INCHES_MERCURY_TO_BAR_NUM, INCHES_MERCURY_TO_BAR_DEN) }
    }

    /// Pounds per square inch: one is 0.0689475729 bar.
    pub fn from_psi(v: Rational) -> (r: Pressure)
        requires
            v.wf(),
            v.bounded(),
        ensures
            r.bar.num == v.num * PSI_TO_BAR_NUM,
            r.bar.den == v.den * PSI_TO_BAR_DEN,
            r.bar.wf(),
    {
        Pressure { bar: v.times_frac(PSI_TO_BAR_NUM, PSI_TO_BAR_DEN) }
    }

    /// Kilopascals: one is 0.01 bar.
    pub fn from_kilo_pascals(v: Rational) -> (r: Pressure)
        requires
            v.wf(),
            v.bounded(),
        ensures
            r.bar.num == v.num,
            r.bar.den == v.den * 100,
            r.bar.wf(),
    {
        Pressure { bar: v.times_frac(1, 100) }
    }

    /// Bar.
    pub fn as_bar(&self) -> (r: Rational)
        ensures
            r == self.bar,
    {
        self.bar
    }

    /// Inches of mercury.
    pub fn as_inches_mercury(&self) -> (r: Rational)
        requires
            self.bar.wf(),
            self.bar.bounded(),
        ensures
            r.num == self.bar.num * INCHES_MERCURY_TO_BAR_DEN,
            r.den == self.bar.den * INCHES_MERCURY_TO_BAR_NUM,
            r.wf(),
    {
        self.bar.times_frac(INCHES_MERCURY_TO_BAR_DEN, INCHES_MERCURY_TO_BAR_NUM)
    }

    /// Pounds per square inch.
    pub fn as_psi(&self) -> (r: Rational)
        requires
            self.bar.wf(),
            self.bar.bounded(),
        ensures
            r.num == self.bar.num * PSI_TO_BAR_DEN,
            r.den == self.bar.den * PSI_TO_BAR_NUM,
            r.wf(),
    {
        self.bar.times_frac(PSI_TO_BAR_DEN, PSI_TO_BAR_NUM)
    }

    /// Kilopascals.
    pub fn as_kpa(&self) -> (r: Rational)
        requires
            self.bar.wf(),
            self.bar.bounded(),
        ensures
            r.num == self.bar.num * 100,
            r.den == self.bar.den,
            r.wf(),
    {
        self.bar.times_frac(100, 1)
    }
}

/// What reading parameter `n` of `b` as a speed, through a unit whose
/// meters-per-second value is the fraction `fnum / fden`, yields.
pub open spec fn speed_param_spec(
    b: Nmea0183Base,
    n: int,
    fnum: int,
    fden: int,
    r: Result<Speed, FieldError>,
) -> bool {
    &&& n >= plen(b) ==> r == Err::<Speed, FieldError>(FieldError::MissingField)
    &&& 0 <= n < plen(b) ==> match decimal_text_val(ptext(b, n)) {
        Some(v) => {
            &&& r is Ok
            &&& r->Ok_0.mps.num == v.num() * fnum
            &&& r->Ok_0.mps.den == v.den() * fden
            &&& r->Ok_0.mps.wf()
        },
        None => {
            &&& r is Err
            &&& r->Err_0 is ParseFailure
            &&& r->Err_0->ParseFailure_0@ == ptext(b, n)
        },
    }
}

/// Reads parameter `n` as a decimal in a unit worth `fnum / fden` meters
/// per second.
pub fn speed_parameter(b: &Nmea0183Base, n: usize, fnum: u64, fden: u64) -> (r: Result<
    Speed,
    FieldError,
>)
    requires
        1 <= fnum <= 4_000_000_000_000u64,
        1 <= fden <= 4_000_000_000_000u64,
    ensures
        speed_param_spec(*b, n as int, fnum as int, fden as int, r),
{
    match b.parameter::<Decimal>(n) {
        Ok(v) => Ok(Speed { mps: Rational::from_decimal(v).times_frac(fnum, fden) }),
        Err(e) => Err(e),
    }
}

/// What reading parameter `n` of `b` as a distance, through a unit worth
/// `fnum / fden` meters, yields.
pub open spec fn dist_param_spec(
    b: Nmea0183Base,
    n: int,
    fnum: int,
    fden: int,
    r: Result<Distance, FieldError>,
) -> bool {
    &&& n >= plen(b) ==> r == Err::<Distance, FieldError>(FieldError::MissingField)
    &&& 0 <= n < plen(b) ==> match decimal_text_val(ptext(b, n)) {
        Some(v) => {
            &&& r is Ok
            &&& r->Ok_0.meters.num == v.num() * fnum
            &&& r->Ok_0.meters.den == v.den() * fden
            &&& r->Ok_0.meters.wf()
        },
        None => {
            &&& r is Err
            &&& r->Err_0 is ParseFailure
            &&& r->Err_0->ParseFailure_0@ == ptext(b, n)
        },
    }
}

/// Reads parameter `n` as a decimal in a unit worth `fnum / fden` meters.
pub fn dist_parameter(b: &Nmea0183Base, n: usize, fnum: u64, fden: u64) -> (r: Result<
    Distance,
    FieldError,
>)
    requires
        1 <= fnum <= 4_000_000_000_000u64,
        1 <= fden <= 4_000_000_000_000u64,
    ensures
        dist_param_spec(*b, n as int, fnum as int, fden as int, r),
{
    match b.parameter::<Decimal>(n) {
        Ok(v) => Ok(Distance { meters: Rational::from_decimal(v).times_frac(fnum, fden) }),
        Err(e) => Err(e),
    }
}

/// What reading parameter `n` of `b` as a temperature yields: Celsius as
/// written, or Fahrenheit sent through `(F - 32) * 5 / 9`.
pub open spec fn temp_param_spec(
    b: Nmea0183Base,
    n: int,
    fahrenheit: bool,
    r: Result<Temperature, FieldError>,
) -> bool {
    &&& n >= plen(b) ==> r == Err::<Temperature, FieldError>(FieldError::MissingField)
    &&& 0 <= n < plen(b) ==> match decimal_text_val(ptext(b, n)) {
        Some(v) => {
            &&& r is Ok
            &&& if fahrenheit {
                r->Ok_0.celsius.num == (v.num() - 32 * v.den()) * 5 && r->Ok_0.celsius.den
                    == v.den() * 9
            } else {
                r->Ok_0.celsius.num == v.num() && r->Ok_0.celsius.den == v.den()
            }
            &&& r->Ok_0.celsius.wf()
        },
        None => {
            &&& r is Err
            &&& r->Err_0 is ParseFailure
            &&& r->Err_0->ParseFailure_0@ == ptext(b, n)
        },
    }
}

/// Reads parameter `n` as a Celsius or Fahrenheit decimal.
pub fn temp_parameter(b: &Nmea0183Base, n: usize, fahrenheit: bool) -> (r: Result<
    Temperature,
    FieldError,
>)
    ensures
        temp_param_spec(*b, n as int, fahrenheit, r),
{
    match b.parameter::<Decimal>(n) {
        Ok(v) => {
            let raw = Rational::from_decimal(v);
            if fahrenheit {
                Ok(Temperature::from_fahrenheit(raw))
            } else {
                Ok(Temperature::from_celsius(raw))
            }
        },
        Err(e) => Err(e),
    }
}

/// What reading parameter `n` of `b` as a pressure, through a unit worth
/// `fnum / fden` bar, yields.
pub open spec fn pressure_param_spec(
    b: Nmea0183Base,
    n: int,
    fnum: int,
    fden: int,
    r: Result<Pressure, FieldError>,
) -> bool {
    &&& n >= plen(b) ==> r == Err::<Pressure, FieldError>(FieldError::MissingField)
    &&& 0 <= n < plen(b) ==> match decimal_text_val(ptext(b, n)) {
        Some(v) => {
            &&& r is Ok
            &&& r->Ok_0.bar.num == v.num() * fnum
            &&& r->Ok_0.bar.den == v.den() * fden
            &&& r->Ok_0.bar.wf()
        },
        None => {
            &&& r is Err
            &&& r->Err_0 is ParseFailure
            &&& r->Err_0->ParseFailure_0@ == ptext(b, n)
        },
    }
}

/// Reads parameter `n` as a decimal in a unit worth `fnum / fden` bar.
pub fn pressure_parameter(b: &Nmea0183Base, n: usize, fnum: u64, fden: u64) -> (r: Result<
    Pressure,
    FieldError,
>)
    requires
        1 <= fnum <= 4_000_000_000_000u64,
        1 <= fden <= 4_000_000_000_000u64,
    ensures
        pressure_param_spec(*b, n as int, fnum as int, fden as int, r),
{
    match b.parameter::<Decimal>(n) {
        Ok(v) => Ok(Pressure { bar: Rational::from_decimal(v).times_frac(fnum, fden) }),
        Err(e) => Err(e),
    }
}

/// What the common wind- and water-speed table yields: a km/h value tagged
/// `K` at slot `i + 1` or `i + 3`, else an mph value tagged `M`, else a
/// knots value tagged `N`, converted to canonical meters per second.
pub open spec fn speed_table_spec(b: Nmea0183Base, i: int, r: Result<Speed, FieldError>) -> bool {
    if pis(b, i + 1, 'K') {
        speed_param_spec(b, i, 1000, 3600, r)
    } else if pis(b, i + 3, 'K') {
        speed_param_spec(b, i + 2, 1000, 3600, r)
    } else if pis(b, i + 1, 'M') {
        speed_param_spec(b, i, MPS_TO_MPH_DEN as int, MPS_TO_MPH_NUM as int, r)
    } else if pis(b, i + 1, 'N') {
        speed_param_spec(b, i, MPS_TO_KNOTS_DEN as int, MPS_TO_KNOTS_NUM as int, r)
    } else if pis(b, i + 3, 'M') {
        speed_param_spec(b, i + 2, MPS_TO_MPH_DEN as int, MPS_TO_MPH_NUM as int, r)
    } else if pis(b, i + 3, 'N') {
        speed_param_spec(b, i + 2, MPS_TO_KNOTS_DEN as int, MPS_TO_KNOTS_NUM as int, r)
    } else if plen(b) <= i + 3 {
        r == Err::<Speed, FieldError>(FieldError::MissingField)
    } else {
        r is Err && r->Err_0 is ParseFailure && r->Err_0->ParseFailure_0@ == ptext(b, i + 1)
    }
}

/// Reads the common wind- and water-speed table rooted at slot `i`.
pub fn speed_table(b: &Nmea0183Base, i: usize) -> (r: Result<Speed, FieldError>)
    requires
        i + 3 < usize::MAX,
    ensures
        speed_table_spec(*b, i as int, r),
{
    if b.param_is(i + 1, 'K') {
        speed_parameter(b, i, 1000, 3600)
    } else if b.param_is(i + 3, 'K') {
        speed_parameter(b, i + 2, 1000, 3600)
    } else if b.param_is(i + 1, 'M') {
        speed_parameter(b, i, MPS_TO_MPH_DEN, MPS_TO_MPH_NUM)
    } else if b.param_is(i + 1, 'N') {
        speed_parameter(b, i, MPS_TO_KNOTS_DEN, MPS_TO_KNOTS_NUM)
    } else if b.param_is(i + 3, 'M') {
        speed_parameter(b, i + 2, MPS_TO_MPH_DEN, MPS_TO_MPH_NUM)
    } else if b.param_is(i + 3, 'N') {
        speed_parameter(b, i + 2, MPS_TO_KNOTS_DEN, MPS_TO_KNOTS_NUM)
    } else if b.parameters.len() <= i + 3 {
        Err(FieldError::MissingField)
    } else {
        Err(FieldError::ParseFailure(b.parameters[i + 1].clone()))
    }
}

/// Meters per foot-scaled mile: feet arrive divided by 5280 before the
/// miles conversion, so the combined denominator is `5280` miles factors.
pub const FEET_TO_METERS_DEN: u64 = 5_280 * 621_371_192;

/// What the depth table shared by the depth sentences yields: the value
/// tagged `M` (meters) at slot 1, 3 or 5, else the value tagged `f`
/// (feet) there, in canonical meters.
pub open spec fn depth_table_spec(b: Nmea0183Base, r: Result<Distance, FieldError>) -> bool {
    if pis(b, 1, 'M') {
        dist_param_spec(b, 0, 1, 1, r)
    } else if pis(b, 3, 'M') {
        dist_param_spec(b, 2, 1, 1, r)
    } else if pis(b, 5, 'M') {
        dist_param_spec(b, 4, 1, 1, r)
    } else if pis(b, 1, 'f') {
        dist_param_spec(b, 0, METERS_TO_MILES_DEN as int, FEET_TO_METERS_DEN as int, r)
    } else if pis(b, 3, 'f') {
        dist_param_spec(b, 2, METERS_TO_MILES_DEN as int, FEET_TO_METERS_DEN as int, r)
    } else if pis(b, 5, 'f') {
        dist_param_spec(b, 4, METERS_TO_MILES_DEN as int, FEET_TO_METERS_DEN as int, r)
    } else if plen(b) <= 5 {
        r == Err::<Distance, FieldError>(FieldError::MissingField)
    } else {
        r is Err && r->Err_0 is ParseFailure && r->Err_0->ParseFailure_0@ == ptext(b, 1)
    }
}

/// Reads the depth table: meters as written, feet through the fixed
/// factors.
pub fn depth_table(b: &Nmea0183Base) -> (r: Result<Distance, FieldError>)
    ensures
        depth_table_spec(*b, r),
{
    if b.param_is(1, 'M') {
        dist_parameter(b, 0, 1, 1)
    } else if b.param_is(3, 'M') {
        dist_parameter(b, 2, 1, 1)
    } else if b.param_is(5, 'M') {
        dist_parameter(b, 4, 1, 1)
    } else if b.param_is(1, 'f') {
        dist_parameter(b, 0, METERS_TO_MILES_DEN, FEET_TO_METERS_DEN)
    } else if b.param_is(3, 'f') {
        dist_parameter(b, 2, METERS_TO_MILES_DEN, FEET_TO_METERS_DEN)
    } else if b.param_is(5, 'f') {
        dist_parameter(b, 4, METERS_TO_MILES_DEN, FEET_TO_METERS_DEN)
    } else if b.parameters.len() <= 5 {
        Err(FieldError::MissingField)
    } else {
        Err(FieldError::ParseFailure(b.parameters[1].clone()))
    }
}

/// What a distance read dispatched on an `M`/`K`/`N` unit letter at slot
/// `n + 1` yields: meters, kilometers or nautical miles at slot `n`,
/// in canonical meters.
pub open spec fn dist_mkn_spec(b: Nmea0183Base, n: int, r: Result<Distance, FieldError>) -> bool {
    if plen(b) <= n + 1 {
        r == Err::<Distance, FieldError>(FieldError::MissingField)
    } else if ptext(b, n + 1) == seq!['M'] {
        dist_param_spec(b, n, 1, 1, r)
    } else if ptext(b, n + 1) == seq!['K'] {
        dist_param_spec(b, n, 1000, 1, r)
    } else if ptext(b, n + 1) == seq!['N'] {
        dist_param_spec(b, n, METERS_TO_NM_DEN as int, METERS_TO_NM_NUM as int, r)
    } else {
        r is Err && r->Err_0 is ParseFailure && r->Err_0->ParseFailure_0@ == ptext(b, n + 1)
    }
}

/// Reads the distance at slot `n` in the unit tagged at the slot after
/// it (`M` meters, `K` kilometers, `N` nautical miles).
pub fn dist_mkn(b: &Nmea0183Base, n: usize) -> (r: Result<Distance, FieldError>)
    requires
        n + 1 < usize::MAX,
    ensures
        dist_mkn_spec(*b, n as int, r),
{
    if b.parameters.len() <= n + 1 {
        Err(FieldError::MissingField)
    } else if b.param_is(n + 1, 'M') {
        dist_parameter(b, n, 1, 1)
    } else if b.param_is(n + 1, 'K') {
        dist_parameter(b, n, 1000, 1)
    } else if b.param_is(n + 1, 'N') {
        dist_parameter(b, n, METERS_TO_NM_DEN, METERS_TO_NM_NUM)
    } else {
        Err(FieldError::ParseFailure(b.parameters[n + 1].clone()))
    }
}

/// Speed round trip: a knots value sent through km/h — built as a speed
/// from knots, read as km/h, rebuilt from km/h, read back as knots —
/// denotes exactly the number it started from.  The four hypotheses are the
/// conversions' contracts; `d` and `x` then have equal cross products.
pub proof fn lemma_knots_kph_round_trip(
    x: Rational,
    a: Rational,
    b: Rational,
    c: Rational,
    d: Rational,
)
    requires
        x.wf(),
        a.num == x.num * MPS_TO_KNOTS_DEN && a.den == x.den * MPS_TO_KNOTS_NUM,
        b.num == a.num * 3600 && b.den == a.den * 1000,
        c.num == b.num * 1000 && c.den == b.den * 3600,
        d.num == c.num * MPS_TO_KNOTS_NUM && d.den == c.den * MPS_TO_KNOTS_DEN,
    ensures
        d.same_value(x),
{
    assert(d.num * x.den == x.num * d.den) by (nonlinear_arith)
        requires
            a.num == x.num * MPS_TO_KNOTS_DEN && a.den == x.den * MPS_TO_KNOTS_NUM,
            b.num == a.num * 3600 && b.den == a.den * 1000,
            c.num == b.num * 1000 && c.den == b.den * 3600,
            d.num == c.num * MPS_TO_KNOTS_NUM && d.den == c.den * MPS_TO_KNOTS_DEN,
    ;
}

/// The same cancellation for every conversion pair: multiplying a value by
/// `p/q` and the result by `q/p` denotes the original number.
pub proof fn lemma_frac_round_trip(x: Rational, y: Rational, z: Rational, p: u64, q: u64)
    requires
        x.wf(),
        y.num == x.num * p && y.den == x.den * q,
        z.num == y.num * q && z.den == y.den * p,
    ensures
        z.same_value(x),
{
    assert(z.num * x.den == x.num * z.den) by (nonlinear_arith)
        requires
            y.num == x.num * p && y.den == x.den * q,
            z.num == y.num * q && z.den == y.den * p,
    ;
}

} // verus!
