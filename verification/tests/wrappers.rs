use nmea0183::base::Nmea0183Base;
use nmea0183::errors::FieldError;
use nmea0183::gps::gga::Gga;
use nmea0183::gps::gsv::Gsv;
use nmea0183::gps::rmc::Rmc;
use nmea0183::heading::vtg::Vtg;
use nmea0183::miscellaneous::dbt::Dbt;
use nmea0183::miscellaneous::mtw::Mtw;
use nmea0183::miscellaneous::xdr::Xdr;
use nmea0183::miscellaneous::zda::Zda;
use nmea0183::miscellaneous::zfo::Zfo;
use nmea0183::rational::Rational;
use nmea0183::wind::mwv::Mwv;
use nmea0183::wind::vwr::Vwr;

fn view_sentence(params: &[&str]) -> Nmea0183Base {
    let mut base = Nmea0183Base::new();
    base.sender = String::from("GPG");
    base.message = String::from("GA");
    base.parameters = params.iter().map(|p| String::from(*p)).collect();
    base
}

fn ratio_f64(r: Rational) -> f64 {
    r.num as f64 / r.den as f64
}

#[test]
fn gga_reads_its_fixed_slots() {
    let gga = Gga::new(view_sentence(&[
        "123519", "4807.038", "N", "01131.000", "E", "1", "08", "0.9", "545.4", "M", "46.9", "M",
        "", "",
    ]));
    let t = gga.timestamp().unwrap();
    assert_eq!((t.hour, t.minute, t.second), (12, 35, 19));
    let p = gga.position().unwrap();
    assert!((ratio_f64(p.latitude) - 48.1173).abs() < 1e-4);
    assert_eq!(gga.quality().unwrap(), 1);
    assert_eq!(gga.number_of_satellites().unwrap(), 8);
    let hdop = gga.hdop().unwrap();
    assert_eq!((hdop.negative, hdop.mantissa, hdop.scale), (false, 9, 1));
    let h = gga.height().unwrap();
    assert_eq!((h.mantissa, h.scale), (5454, 1));
    assert!(gga.reference_station().is_err());
}

#[test]
fn rmc_combines_date_and_time() {
    let rmc = Rmc::new(view_sentence(&[
        "123519", "A", "4807.038", "N", "01131.000", "E", "022.4", "084.4", "230394", "003.1",
        "W", "A", "V",
    ]));
    let ts = rmc.timestamp().unwrap();
    assert_eq!((ts.date.day, ts.date.month, ts.date.year), (23, 3, 94));
    assert_eq!((ts.time.hour, ts.time.minute, ts.time.second), (12, 35, 19));
    assert!(rmc.is_valid());
    let sog = rmc.sog().unwrap();
    assert!((ratio_f64(sog.mps) - 11.523_446).abs() < 1e-3);
    let var = rmc.magnetic_variation().unwrap();
    assert_eq!((var.negative, var.mantissa, var.scale), (true, 31, 1));
    assert_eq!(rmc.faa_mode(), Some('A'));
    assert_eq!(rmc.nav_status(), Some('V'));
    let odd = Rmc::new(view_sentence(&[
        "123519", "A", "4807.038", "N", "01131.000", "E", "022.4", "084.4", "230394", "003.1",
        "X",
    ]));
    assert_eq!(
        odd.magnetic_variation().unwrap_err(),
        FieldError::ParseFailure(String::from("X"))
    );
}

#[test]
fn gsv_reads_satellite_blocks() {
    let gsv = Gsv::new(view_sentence(&[
        "2", "1", "08", "01", "40", "083", "46", "02", "17", "308", "41",
    ]));
    assert_eq!(gsv.sentence_total().unwrap(), 2);
    assert_eq!(gsv.sentence_number().unwrap(), 1);
    assert_eq!(gsv.number_of_satellites().unwrap(), 8);
    let s = gsv.satellite(0).unwrap();
    assert_eq!((s.id, s.elevation, s.azimuth, s.snr), (1, 40, 83, 46));
    let s = gsv.satellite(1).unwrap();
    assert_eq!((s.id, s.elevation, s.azimuth, s.snr), (2, 17, 308, 41));
    assert_eq!(gsv.satellite(2).unwrap_err(), FieldError::MissingField);
}

#[test]
fn vtg_converts_between_speed_units() {
    let vtg = Vtg::new(view_sentence(&["054.7", "T", "034.4", "M", "005.5", "N", "010.2", "K", "A"]));
    let cog = vtg.cog_true().unwrap();
    assert_eq!((cog.mantissa, cog.scale), (547, 1));
    let knots = vtg.sog_knots().unwrap();
    assert!((ratio_f64(knots) - 5.5).abs() < 1e-9);
    let kph = vtg.sog_kph().unwrap();
    assert!((ratio_f64(kph) - 10.2).abs() < 1e-9);
    let mph = vtg.sog_mph().unwrap();
    assert!((ratio_f64(mph) - 10.2 / 1.60934).abs() < 1e-6);
    assert_eq!(vtg.faa_mode(), Some('A'));
}

#[test]
fn vtg_prefers_the_tagged_unit() {
    let vtg = Vtg::new(view_sentence(&["054.7", "T", "034.4", "M", "", "x", "010.2", "K"]));
    let kph = vtg.sog_kph().unwrap();
    assert!((ratio_f64(kph) - 10.2).abs() < 1e-9);
    let knots = vtg.sog_knots().unwrap();
    assert!((ratio_f64(knots) - 10.2 * 0.539957).abs() < 1e-6);
}

#[test]
fn vtg_converts_statute_miles_per_hour() {
    let vtg = Vtg::new(view_sentence(&["054.7", "T", "034.4", "M", "5.0", "M", "", ""]));
    let mph = vtg.sog_mph().unwrap();
    assert!((ratio_f64(mph) - 5.0).abs() < 1e-9);
    let kph = vtg.sog_kph().unwrap();
    assert!((ratio_f64(kph) - 5.0 * 1.60934).abs() < 1e-6);
    let knots = vtg.sog_knots().unwrap();
    assert!((ratio_f64(knots) - 5.0 * 0.868976).abs() < 1e-6);
}

#[test]
fn dbt_reads_meters_or_feet() {
    let meters = Dbt::new(view_sentence(&["12.3", "f", "3.7", "M", "2.0", "F"]));
    let d = meters.depth().unwrap();
    assert!((ratio_f64(d.meters) - 3.7).abs() < 1e-9);
    let feet = Dbt::new(view_sentence(&["12.3", "f", "", "x", "", "x"]));
    let d = feet.depth().unwrap();
    assert!((ratio_f64(d.meters) - 3.749).abs() < 1e-3);
}

#[test]
fn mtw_reads_celsius_or_fahrenheit() {
    let c = Mtw::new(view_sentence(&["26.8", "C"]));
    assert!((ratio_f64(c.temperature().unwrap().as_celsius()) - 26.8).abs() < 1e-9);
    let f = Mtw::new(view_sentence(&["212", "F"]));
    let t = f.temperature().unwrap().as_celsius();
    assert_eq!(t.num, 100 * t.den);
    let bad = Mtw::new(view_sentence(&["26.8", "X"]));
    assert_eq!(bad.temperature().unwrap_err(), FieldError::ParseFailure(String::from("X")));
}

#[test]
fn mwv_checks_the_validity_flag() {
    let mwv = Mwv::new(view_sentence(&["084.0", "R", "10.4", "N", "A"]));
    let a = mwv.angle_relative().unwrap();
    assert_eq!((a.mantissa, a.scale), (840, 1));
    assert!(mwv.angle_true().is_err());
    let s = mwv.wind_speed().unwrap();
    assert!((ratio_f64(s.mps) - 5.350_313).abs() < 1e-3);
    let invalid = Mwv::new(view_sentence(&["084.0", "R", "10.4", "N", "V"]));
    assert_eq!(
        invalid.wind_speed().unwrap_err(),
        FieldError::ParseFailure(String::from("V"))
    );
}

#[test]
fn vwr_signs_the_direction_by_board() {
    let port = Vwr::new(view_sentence(&["30.5", "L"]));
    let v = port.wind_direction().unwrap();
    assert_eq!((v.negative, v.mantissa, v.scale), (true, 305, 1));
    let starboard = Vwr::new(view_sentence(&["30.5", "R"]));
    let v = starboard.wind_direction().unwrap();
    assert_eq!((v.negative, v.mantissa, v.scale), (false, 305, 1));
}

#[test]
fn xdr_reads_measurement_blocks() {
    let xdr = Xdr::new(view_sentence(&["C", "19.52", "C", "TempAir", "P", "1.02481", "B", "Baro"]));
    let t = xdr.measurements::<nmea0183::fields::Decimal>(0).unwrap();
    assert_eq!(t.xdr_type, 'C');
    assert_eq!((t.xdr_data.mantissa, t.xdr_data.scale), (1952, 2));
    assert_eq!(t.xdr_units, 'C');
    assert_eq!(t.xdr_name, "TempAir");
    let b = xdr.measurements::<nmea0183::fields::Decimal>(1).unwrap();
    assert_eq!(b.xdr_name, "Baro");
    assert_eq!(
        xdr.measurements::<nmea0183::fields::Decimal>(2).unwrap_err(),
        FieldError::MissingField
    );
}

#[test]
fn zda_reads_time_and_full_date() {
    let zda = Zda::new(view_sentence(&["160012.71", "11", "03", "2004", "-05", "00"]));
    let ts = zda.timestamp().unwrap();
    assert_eq!((ts.time.hour, ts.time.minute, ts.time.second), (16, 0, 12));
    assert_eq!(ts.time.nanosecond, 710_000_000);
    assert_eq!((ts.day, ts.month, ts.year), (11, 3, 2004));
    let local = zda.local_time().unwrap();
    assert_eq!((local.time.hour, local.time.minute, local.time.second), (11, 0, 12));
    assert_eq!((local.day, local.month, local.year), (11, 3, 2004));
}

#[test]
fn zda_local_time_carries_the_date() {
    let east = Zda::new(view_sentence(&["233012", "31", "12", "2004", "01", "00"]));
    let local = east.local_time().unwrap();
    assert_eq!((local.time.hour, local.time.minute), (0, 30));
    assert_eq!((local.day, local.month, local.year), (1, 1, 2005));
    let leap = Zda::new(view_sentence(&["233012", "28", "02", "2004", "01", "00"]));
    let local = leap.local_time().unwrap();
    assert_eq!((local.day, local.month, local.year), (29, 2, 2004));
    let plain = Zda::new(view_sentence(&["233012", "28", "02", "2003", "01", "00"]));
    let local = plain.local_time().unwrap();
    assert_eq!((local.day, local.month, local.year), (1, 3, 2003));
    let west = Zda::new(view_sentence(&["003012", "01", "01", "2005", "-01", "00"]));
    let local = west.local_time().unwrap();
    assert_eq!((local.time.hour, local.time.minute), (23, 30));
    assert_eq!((local.day, local.month, local.year), (31, 12, 2004));
}

#[test]
fn zfo_exposes_elapsed_time_in_nanoseconds() {
    let zfo = Zfo::new(view_sentence(&["123519", "000130.5", "WPT01"]));
    assert_eq!(zfo.elapsed_time().unwrap(), 90_500_000_000);
    assert_eq!(zfo.waypoint_id().unwrap(), "WPT01");
}
