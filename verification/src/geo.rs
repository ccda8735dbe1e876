//! Geographic positions.  A coordinate arrives on the wire as a magnitude
//! in degrees-minutes encoding (`DDDMM.mmmm`: whole degrees, then decimal
//! minutes) and a hemisphere letter; it is carried here as an exact
//! rational number of decimal degrees, negative in the southern or western
//! hemisphere.

use vstd::prelude::*;

use crate::fields::{Decimal, lemma_pow10_bound, pow10, pow10_u64};
use crate::rational::Rational;
use vstd::arithmetic::div_mod::lemma_fundamental_div_mod;

verus! {

/// Latitude and longitude in signed decimal degrees, exact.
#[derive(Debug, Clone, Copy, PartialEq, Eq, Structural)]
pub struct GeoPosition {
    pub latitude: Rational,
    pub longitude: Rational,
}

impl GeoPosition {
    /// Both coordinates are well-formed rationals.
    pub open spec fn wf(self) -> bool {
        self.latitude.wf() && self.longitude.wf()
    }
}

/// Numerator of the decimal degrees a magnitude and hemisphere denote, over
/// the denominator [`coord_den`]: the magnitude's whole-degree part is
/// `mantissa / (100 * 10^scale)`, the remainder is decimal minutes, decimal
/// degrees are `degrees + minutes / 60`, and the sign is negative exactly
/// when the magnitude's sign and a south/west hemisphere disagree.
pub open spec fn coord_num(v: Decimal, southwest: bool) -> int {
    let m = v.mantissa as int;
    let p = pow10(v.scale as nat);
    let whole = m / (100 * p);
    let rem = m % (100 * p);
    let mag = 60 * whole * p + rem;
    if v.negative != southwest {
        -mag
    } else {
        mag
    }
}

/// Denominator of the decimal degrees a magnitude denotes: sixty times the
/// magnitude's power-of-ten scale.
pub open spec fn coord_den(v: Decimal) -> int {
    60 * pow10(v.scale as nat)
}

/// Builds one coordinate from its magnitude and hemisphere.
pub fn coord_from(v: Decimal, southwest: bool) -> (r: Rational)
    requires
        v.wf(),
    ensures
        r.num == coord_num(v, southwest),
        r.den == coord_den(v),
        r.wf(),
{
    let p: u64 = pow10_u64(v.scale);
    proof {
        lemma_pow10_bound(v.scale as nat);
    }
    let pi: u128 = p as u128;
    let hp: u128 = 100u128 * pi;
    let m: u128 = v.mantissa as u128;
    let d: u128 = m / hp;
    let rem: u128 = m % hp;
    proof {
        lemma_fundamental_div_mod(m as int, hp as int);
        assert(m as int == (hp as int) * (d as int) + (rem as int));
        assert(60 * (d as int) * (pi as int) <= m as int) by (nonlinear_arith)
            requires
                m as int == (hp as int) * (d as int) + (rem as int),
                hp as int == 100 * (pi as int),
                rem >= 0,
                d >= 0,
                pi >= 1,
        ;
        assert(60 * (d as int) * (pi as int) >= 0) by (nonlinear_arith)
            requires
                d >= 0,
                pi >= 1,
        ;
    }
    let mag: u128 = 60u128 * d * pi + rem;
    let num: i128 = if v.negative != southwest {
        -(mag as i128)
    } else {
        mag as i128
    };
    let den: i128 = (60u128 * pi) as i128;
    Rational { num, den }
}

} // verus!
