use nmea0183::ais::Ais;
use nmea0183::ais::vdm::Vdm;
use nmea0183::base::Nmea0183Base;
use nmea0183::errors::FieldError;
use nmea0183::gps::bwc::Bwc;
use nmea0183::gps::gll::Gll;
use nmea0183::gps::gsa::Gsa;
use nmea0183::heading::hdg::Hdg;
use nmea0183::heading::hdm::Hdm;
use nmea0183::heading::rot::Rot;
use nmea0183::miscellaneous::dbs::Dbs;
use nmea0183::miscellaneous::dpt::Dpt;
use nmea0183::miscellaneous::mda::Mda;
use nmea0183::miscellaneous::rsa::Rsa;
use nmea0183::miscellaneous::vlw::Vlw;
use nmea0183::miscellaneous::ztg::Ztg;
use nmea0183::rational::Rational;
use nmea0183::wind::mwd::Mwd;
use nmea0183::wind::vbw::Vbw;
use nmea0183::wind::vhw::Vhw;
use nmea0183::wind::vwt::Vwt;

fn more_sentence(params: &[&str]) -> Nmea0183Base {
    let mut base = Nmea0183Base::new();
    base.sender = String::from("GPG");
    base.message = String::from("GA");
    base.parameters = params.iter().map(|p| String::from(*p)).collect();
    base
}

fn value_f64(r: Rational) -> f64 {
    r.num as f64 / r.den as f64
}

#[test]
fn gll_flags_and_position() {
    let gll = Gll::new(more_sentence(&["4916.45", "N", "12311.12", "W", "225444", "A", "D"]));
    let p = gll.position().unwrap();
    assert!((value_f64(p.latitude) - 49.274_166).abs() < 1e-4);
    assert!((value_f64(p.longitude) + 123.185_333).abs() < 1e-4);
    let t = gll.timestamp().unwrap();
    assert_eq!((t.hour, t.minute, t.second), (22, 54, 44));
    assert!(gll.is_valid());
    assert_eq!(gll.faa_mode(), Some('D'));
}

#[test]
fn gsa_reads_mode_and_dilutions() {
    let gsa = Gsa::new(more_sentence(&["A", "3", "04", "1.8", "1.0", "1.5"]));
    assert_eq!(gsa.mode().unwrap(), 'A');
    assert_eq!(gsa.fix_type().unwrap(), '3');
    assert_eq!(gsa.prn_number().unwrap(), 4);
    let pdop = gsa.pdop().unwrap();
    assert_eq!((pdop.mantissa, pdop.scale), (18, 1));
    assert!(gsa.hdop().is_ok() && gsa.vdop().is_ok());
}

#[test]
fn bwc_reads_the_leading_time() {
    let bwc = Bwc::new(more_sentence(&["081837"]));
    let t = bwc.timestamp().unwrap();
    assert_eq!((t.hour, t.minute, t.second), (8, 18, 37));
}

#[test]
fn hdg_signs_deviation_and_variation() {
    let hdg = Hdg::new(more_sentence(&["98.3", "1.5", "E", "3.2", "W"]));
    let h = hdg.magnetic_heading().unwrap();
    assert_eq!((h.mantissa, h.scale), (983, 1));
    let dev = hdg.magnetic_deviation().unwrap();
    assert_eq!((dev.negative, dev.mantissa), (false, 15));
    let var = hdg.magnetic_variation().unwrap();
    assert_eq!((var.negative, var.mantissa), (true, 32));
    let odd = Hdg::new(more_sentence(&["98.3", "1.5", "E", "3.2", "Q"]));
    assert_eq!(
        odd.magnetic_variation().unwrap_err(),
        FieldError::ParseFailure(String::from("Q"))
    );
}

#[test]
fn plain_heading_sentences_read_slot_zero() {
    let hdm = Hdm::new(more_sentence(&["143.2"]));
    assert_eq!(hdm.heading().unwrap().mantissa, 1432);
    let rot = Rot::new(more_sentence(&["-2.5", "A"]));
    let v = rot.rate_of_turn().unwrap();
    assert_eq!((v.negative, v.mantissa, v.scale), (true, 25, 1));
    assert!(rot.is_valid());
    let invalid = Rot::new(more_sentence(&["-2.5", "V"]));
    assert!(!invalid.is_valid());
}

#[test]
fn dbs_offset_and_range_are_meters() {
    let dbs = Dbs::new(more_sentence(&["10.2", "M", "3.4", "x", "5.6", "x"]));
    assert!((value_f64(dbs.depth().unwrap().meters) - 10.2).abs() < 1e-9);
    let slots = Dbs::new(more_sentence(&["1.0", "2.2", "3.3"]));
    assert!((value_f64(slots.offset().unwrap().meters) - 2.2).abs() < 1e-9);
    assert!((value_f64(slots.maximum_range().unwrap().meters) - 3.3).abs() < 1e-9);
    assert_eq!(slots.depth().unwrap_err(), FieldError::MissingField);
}

#[test]
fn dpt_reads_three_meter_slots() {
    let dpt = Dpt::new(more_sentence(&["12.1", "0.4", "99"]));
    assert!((value_f64(dpt.depth().unwrap().meters) - 12.1).abs() < 1e-9);
    assert!((value_f64(dpt.offset().unwrap().meters) - 0.4).abs() < 1e-9);
    assert_eq!(dpt.maximum_range().unwrap().meters.num, 99 * dpt.maximum_range().unwrap().meters.den);
}

#[test]
fn vlw_dispatches_on_distance_units() {
    let vlw = Vlw::new(more_sentence(&["10.5", "N", "2.5", "K", "7", "M", "1", "x"]));
    assert!((value_f64(vlw.cumulative_dtw().unwrap().meters) - 19446.0).abs() < 1.0);
    assert!((value_f64(vlw.dtw_since_reset().unwrap().meters) - 2500.0).abs() < 1e-6);
    assert!((value_f64(vlw.dog_cumulative().unwrap().meters) - 7.0).abs() < 1e-9);
    assert_eq!(
        vlw.dog_since_reset().unwrap_err(),
        FieldError::ParseFailure(String::from("x"))
    );
}

#[test]
fn mda_reads_pressure_and_temperatures() {
    let mda = Mda::new(more_sentence(&[
        "30.1", "I", "1.02", "B", "26.8", "C", "18.5", "C", "54.5", "17.2", "12.5", "C", "310",
        "T", "305", "M", "5.1", "N", "2.6", "M",
    ]));
    let p = mda.pressure().unwrap();
    assert!((value_f64(p.bar) - 1.02).abs() < 1e-9);
    assert!((value_f64(mda.air_temperature().unwrap().celsius) - 26.8).abs() < 1e-9);
    assert!((value_f64(mda.water_temperature().unwrap().celsius) - 18.5).abs() < 1e-9);
    assert_eq!(mda.relative_humidity().unwrap().mantissa, 545);
    assert_eq!(mda.wind_direction_true().unwrap().mantissa, 310);
    assert_eq!(mda.wind_direction_magnetic().unwrap().mantissa, 305);
    assert!((value_f64(mda.wind_speed().unwrap().mps) - 2.6).abs() < 1e-9);
    let inches = Mda::new(more_sentence(&["1.0", "x", "30.1", "I"]));
    let p = inches.pressure().unwrap();
    assert!((value_f64(p.bar) - 30.1 * 0.03386).abs() < 1e-9);
}

#[test]
fn rsa_reads_both_rudders() {
    let rsa = Rsa::new(more_sentence(&["10.5", "A", "-3.2", "A"]));
    assert_eq!(rsa.angle().unwrap().mantissa, 105);
    assert_eq!(rsa.starboard_rudder().unwrap().mantissa, 105);
    let port = rsa.port_rudder().unwrap();
    assert_eq!((port.negative, port.mantissa), (true, 32));
    let invalid = Rsa::new(more_sentence(&["10.5", "V"]));
    assert_eq!(invalid.angle().unwrap_err(), FieldError::ParseFailure(String::from("V")));
}

#[test]
fn mwd_and_vhw_share_the_speed_table() {
    let mwd = Mwd::new(more_sentence(&["054.7", "T", "034.4", "M", "10.1", "N", "18.7", "K"]));
    assert_eq!(mwd.direction_true().unwrap().mantissa, 547);
    assert_eq!(mwd.direction_magnetic().unwrap().mantissa, 344);
    assert!((value_f64(mwd.wind_speed().unwrap().mps) - 18.7 / 3.6).abs() < 1e-9);
    let vhw = Vhw::new(more_sentence(&["227.0", "T", "220.0", "M", "4.2", "N", "7.8", "K"]));
    assert!((value_f64(vhw.water_speed().unwrap().mps) - 7.8 / 3.6).abs() < 1e-9);
}

#[test]
fn vwt_takes_meters_per_second_first() {
    let vwt = Vwt::new(more_sentence(&["045.0", "R", "6.1", "M", "21.9", "K", "11.8", "N"]));
    let d = vwt.wind_direction().unwrap();
    assert_eq!((d.negative, d.mantissa), (false, 450));
    assert!((value_f64(vwt.wind_speed().unwrap().mps) - 6.1).abs() < 1e-9);
    let port = Vwt::new(more_sentence(&["045.0", "L"]));
    assert!(port.wind_direction().unwrap().negative);
}

#[test]
fn vbw_reads_flagged_knots_and_checks_the_flags() {
    let vbw = Vbw::new(more_sentence(&["12.3", "0.5", "A", "11.9", "0.7", "A"]));
    assert!((value_f64(vbw.water_speed().unwrap().mps) - 12.3 * 0.514_444).abs() < 1e-3);
    assert!((value_f64(vbw.transverse_water_speed().unwrap().mps) - 0.5 * 0.514_444).abs() < 1e-3);
    assert_eq!(vbw.ground_speed().unwrap().mantissa, 119);
    assert!((value_f64(vbw.transverse_ground_speed().unwrap().mps) - 0.7 * 0.514_444).abs() < 1e-3);
    let unflagged = Vbw::new(more_sentence(&["12.3", "0.5", "V", "11.9", "0.7", "V"]));
    assert_eq!(
        unflagged.ground_speed().unwrap_err(),
        FieldError::ParseFailure(String::from("V"))
    );
    assert!(unflagged.water_speed().is_err());
}

#[test]
fn ais_transport_views_read_their_slots() {
    let vdm = Vdm::new(more_sentence(&["1", "1", "", "B", "177KQJ5000G?tO`K>RA1wUbN0TKH", "0"]));
    assert_eq!(vdm.total_sentences().unwrap(), 1);
    assert_eq!(vdm.sentence_number().unwrap(), 1);
    assert!(vdm.sentence_id().is_err());
    assert_eq!(vdm.channel().unwrap(), 'B');
    assert_eq!(vdm.message().unwrap(), "177KQJ5000G?tO`K>RA1wUbN0TKH");
    let ais = Ais::new(more_sentence(&["2", "1", "5", "x", "A"]));
    assert_eq!(ais.sentence_total().unwrap(), 2);
    assert_eq!(ais.message_identifier().unwrap(), 5);
    assert_eq!(ais.channel().unwrap(), 'A');
}

#[test]
fn ztg_reads_time_remaining() {
    let ztg = Ztg::new(more_sentence(&["123519", "013000", "DEST"]));
    assert_eq!(ztg.time_remaining().unwrap(), 5_400_000_000_000);
    assert_eq!(ztg.waypoint_id().unwrap(), "DEST");
}
