use nmea0183::base::Nmea0183Base;
use nmea0183::errors::FieldError;
use nmea0183::rational::Rational;

fn geo_sentence(params: &[&str]) -> Nmea0183Base {
    let mut base = Nmea0183Base::new();
    base.sender = String::from("GPG");
    base.message = String::from("GA");
    base.parameters = params.iter().map(|p| String::from(*p)).collect();
    base
}

fn as_f64(r: Rational) -> f64 {
    r.num as f64 / r.den as f64
}

#[test]
fn times_parse_with_and_without_fractions() {
    let base = geo_sentence(&["123519", "123519.5", "235959.999999999", "243519", "125960", "12351"]);
    let t = base.naive_time(0).unwrap();
    assert_eq!((t.hour, t.minute, t.second, t.nanosecond), (12, 35, 19, 0));
    let t = base.naive_time(1).unwrap();
    assert_eq!((t.hour, t.minute, t.second, t.nanosecond), (12, 35, 19, 500_000_000));
    let t = base.naive_time(2).unwrap();
    assert_eq!((t.hour, t.minute, t.second, t.nanosecond), (23, 59, 59, 999_999_999));
    assert!(base.naive_time(3).is_err());
    assert!(base.naive_time(4).is_err());
    assert!(base.naive_time(5).is_err());
    assert_eq!(base.naive_time(6).unwrap_err(), FieldError::MissingField);
}

#[test]
fn dates_parse_with_range_checks() {
    let base = geo_sentence(&["230394", "010100", "320394", "231394", "2303941"]);
    let d = base.naive_date(0).unwrap();
    assert_eq!((d.day, d.month, d.year), (23, 3, 94));
    let d = base.naive_date(1).unwrap();
    assert_eq!((d.day, d.month, d.year), (1, 1, 0));
    assert!(base.naive_date(2).is_err());
    assert!(base.naive_date(3).is_err());
    assert!(base.naive_date(4).is_err());
    assert_eq!(base.naive_date(5).unwrap_err(), FieldError::MissingField);
}

#[test]
fn dates_respect_month_lengths() {
    let base = geo_sentence(&["310494", "300494", "300294", "290294", "311294"]);
    assert_eq!(
        base.naive_date(0).unwrap_err(),
        FieldError::ParseFailure(String::from("310494"))
    );
    assert_eq!(base.naive_date(1).unwrap().day, 30);
    assert!(base.naive_date(2).is_err());
    let d = base.naive_date(3).unwrap();
    assert_eq!((d.day, d.month, d.year), (29, 2, 94));
    assert_eq!(base.naive_date(4).unwrap().day, 31);
}

#[test]
fn positions_decompose_degrees_and_minutes() {
    let base = geo_sentence(&["4807.038", "N", "01131.000", "E"]);
    let p = base.position(0).unwrap();
    assert_eq!((p.latitude.num, p.latitude.den), (2_887_038, 60_000));
    assert_eq!((p.longitude.num, p.longitude.den), (691_000, 60_000));
    assert!((as_f64(p.latitude) - 48.1173).abs() < 1e-4);
    assert!((as_f64(p.longitude) - 11.516_666).abs() < 1e-4);
}

#[test]
fn southern_and_western_hemispheres_negate_exactly() {
    let north = geo_sentence(&["4807.038", "N", "01131.000", "E"]).position(0).unwrap();
    let south = geo_sentence(&["4807.038", "S", "01131.000", "W"]).position(0).unwrap();
    assert_eq!(south.latitude.num, -north.latitude.num);
    assert_eq!(south.latitude.den, north.latitude.den);
    assert_eq!(south.longitude.num, -north.longitude.num);
    assert_eq!(south.longitude.den, north.longitude.den);
}

#[test]
fn position_errors_name_the_failing_field() {
    let base = geo_sentence(&["4807.038", "N", "01131.000"]);
    assert_eq!(base.position(0).unwrap_err(), FieldError::MissingField);
    let base = geo_sentence(&["4807.038", "Q", "01131.000", "E"]);
    assert_eq!(base.position(0).unwrap_err(), FieldError::ParseFailure(String::from("Q")));
    let base = geo_sentence(&["4807.038", "N", "bad", "E"]);
    assert_eq!(base.position(0).unwrap_err(), FieldError::ParseFailure(String::from("bad")));
    let base = geo_sentence(&["4807.038", "N", "01131.000", "X"]);
    assert_eq!(base.position(0).unwrap_err(), FieldError::ParseFailure(String::from("X")));
}

#[test]
fn position_reads_from_an_offset() {
    let base = geo_sentence(&["x", "y", "0000.600", "S", "00030.000", "W"]);
    let p = base.position(2).unwrap();
    assert!((as_f64(p.latitude) + 0.01).abs() < 1e-9);
    assert!((as_f64(p.longitude) + 0.5).abs() < 1e-9);
}
