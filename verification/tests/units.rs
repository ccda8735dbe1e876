use nmea0183::rational::Rational;
use nmea0183::units::Distance;
use nmea0183::units::Pressure;
use nmea0183::units::Speed;
use nmea0183::units::Temperature;

fn unit_f64(r: Rational) -> f64 {
    r.num as f64 / r.den as f64
}

fn ten() -> Rational {
    Rational::from_integer(10)
}

#[test]
fn knots_to_kph_and_back_is_exactly_ten() {
    let kph = Speed::from_knots(ten()).as_kph();
    let knots = Speed::from_kph(kph).as_knots();
    assert_eq!(knots.num, 10 * knots.den);
    assert!((unit_f64(knots) - 10.0).abs() < 1e-3);
    assert!((unit_f64(kph) - 18.52).abs() < 1e-2);
}

#[test]
fn speed_conversions_match_the_fixed_factors() {
    let s = Speed::from_kph(Rational::from_integer(36));
    assert!((unit_f64(s.as_mps()) - 10.0).abs() < 1e-9);
    let s = Speed::from_mps(ten());
    assert!((unit_f64(s.as_kph()) - 36.0).abs() < 1e-9);
    assert!((unit_f64(s.as_mph()) - 22.369_363).abs() < 1e-4);
    assert!((unit_f64(s.as_knots()) - 19.438_445).abs() < 1e-4);
}

#[test]
fn distance_conversions_match_the_fixed_factors() {
    let d = Distance::from_meters(Rational::from_integer(1609));
    assert!((unit_f64(d.as_miles()) - 0.999_786).abs() < 1e-4);
    assert!((unit_f64(d.as_kilometers()) - 1.609).abs() < 1e-9);
    assert!((unit_f64(d.as_centimeters()) - 160_900.0).abs() < 1e-6);
    assert!((unit_f64(d.as_feet()) - 5278.87).abs() < 1e-1);
    assert!((unit_f64(d.as_nautical_mile()) - 0.868_790).abs() < 1e-4);
    let m = Distance::from_miles(Rational::from_integer(1));
    assert!((unit_f64(m.as_meters()) - 1609.344).abs() < 1e-3);
    let n = Distance::from_nautical_miles(Rational::from_integer(1));
    assert!((unit_f64(n.as_meters()) - 1852.0).abs() < 1e-3);
    let k = Distance::from_kilometers(Rational::from_integer(2));
    assert_eq!(k.as_meters().num, 2000 * k.as_meters().den);
}

#[test]
fn fahrenheit_round_trip_is_exact() {
    let t = Temperature::from_fahrenheit(Rational::from_integer(212));
    let c = t.as_celsius();
    assert_eq!(c.num, 100 * c.den);
    let f = Temperature::from_celsius(Rational::from_integer(100)).as_fahrenheit();
    assert_eq!(f.num, 212 * f.den);
    let freezing = Temperature::from_celsius(Rational::from_integer(0)).as_fahrenheit();
    assert_eq!(freezing.num, 32 * freezing.den);
}

#[test]
fn pressure_conversions_invert_exactly() {
    let p = Pressure::from_psi(ten());
    let psi = p.as_psi();
    assert_eq!(psi.num, 10 * psi.den);
    assert!((unit_f64(p.as_bar()) - 0.689_475_729).abs() < 1e-6);
    let i = Pressure::from_inches_mercury(ten());
    assert!((unit_f64(i.as_bar()) - 0.3386).abs() < 1e-9);
    let back = i.as_inches_mercury();
    assert_eq!(back.num, 10 * back.den);
    let k = Pressure::from_kilo_pascals(Rational::from_integer(100));
    assert_eq!(k.as_bar().num, 1 * k.as_bar().den);
    assert_eq!(k.as_kpa().num, 100 * k.as_kpa().den);
}
