use nmea0183::Nmea0183;
use nmea0183::base::Nmea0183Base;
use nmea0183::classify;
use nmea0183::errors::FrameError;
use nmea0183::message;
use nmea0183::sender;

fn with_message(message: &str) -> Nmea0183Base {
    let mut base = Nmea0183Base::new();
    base.sender = String::from("GPG");
    base.message = String::from(message);
    base.parameters = vec![String::from("123519"), String::from("A")];
    base
}

#[test]
fn rmc_classifies_in_any_case() {
    assert!(matches!(classify(with_message("RMC")), Nmea0183::RMC(_)));
    assert!(matches!(classify(with_message("rmc")), Nmea0183::RMC(_)));
    assert!(matches!(classify(with_message("Rmc")), Nmea0183::RMC(_)));
}

#[test]
fn every_table_code_reaches_its_variant() {
    assert!(matches!(classify(with_message("DBS")), Nmea0183::DBS(_)));
    assert!(matches!(classify(with_message("DBT")), Nmea0183::DBT(_)));
    assert!(matches!(classify(with_message("DPT")), Nmea0183::DPT(_)));
    assert!(matches!(classify(with_message("GGA")), Nmea0183::GGA(_)));
    assert!(matches!(classify(with_message("GLL")), Nmea0183::GLL(_)));
    assert!(matches!(classify(with_message("GSA")), Nmea0183::GSA(_)));
    assert!(matches!(classify(with_message("GSV")), Nmea0183::GSV(_)));
    assert!(matches!(classify(with_message("HDG")), Nmea0183::HDG(_)));
    assert!(matches!(classify(with_message("HDM")), Nmea0183::HDM(_)));
    assert!(matches!(classify(with_message("HDT")), Nmea0183::HDT(_)));
    assert!(matches!(classify(with_message("MDA")), Nmea0183::MDA(_)));
    assert!(matches!(classify(with_message("MTW")), Nmea0183::MTW(_)));
    assert!(matches!(classify(with_message("MWD")), Nmea0183::MWD(_)));
    assert!(matches!(classify(with_message("MWV")), Nmea0183::MWV(_)));
    assert!(matches!(classify(with_message("ROT")), Nmea0183::ROT(_)));
    assert!(matches!(classify(with_message("RSA")), Nmea0183::RSA(_)));
    assert!(matches!(classify(with_message("VDM")), Nmea0183::VDM(_)));
    assert!(matches!(classify(with_message("VHW")), Nmea0183::VHW(_)));
    assert!(matches!(classify(with_message("VLW")), Nmea0183::VLW(_)));
    assert!(matches!(classify(with_message("VTG")), Nmea0183::VTG(_)));
    assert!(matches!(classify(with_message("VWR")), Nmea0183::VWR(_)));
    assert!(matches!(classify(with_message("VWT")), Nmea0183::VWT(_)));
    assert!(matches!(classify(with_message("XDR")), Nmea0183::XDR(_)));
    assert!(matches!(classify(with_message("ZDA")), Nmea0183::ZDA(_)));
}

#[test]
fn unknown_codes_keep_the_sentence_unchanged() {
    match classify(with_message("ZZZ")) {
        Nmea0183::Unknown(base) => {
            assert_eq!(base.sender, "GPG");
            assert_eq!(base.message, "ZZZ");
            assert_eq!(base.parameters, vec![String::from("123519"), String::from("A")]);
        },
        _ => panic!("ZZZ must stay unknown"),
    }
}

#[test]
fn from_string_frames_then_classifies() {
    let line = String::from("GPXTE,1,2*5D");
    match Nmea0183::from_string(&line) {
        Ok(Nmea0183::Unknown(base)) => {
            assert_eq!(base.sender, "GPX");
            assert_eq!(base.message, "TE");
        },
        _ => panic!("a two-letter identifier is not in the table"),
    }
    assert_eq!(
        Nmea0183::from_string(&String::from("no delimiter")).unwrap_err(),
        FrameError::MissingChecksum
    );
}

#[test]
fn classified_accessors_read_through_the_wrapper() {
    match classify(with_message("ROT")) {
        Nmea0183::ROT(rot) => {
            let v = rot.rate_of_turn().unwrap();
            assert_eq!((v.negative, v.mantissa, v.scale), (false, 123519, 0));
            assert!(rot.is_valid());
        },
        _ => panic!("ROT must classify"),
    }
}

#[test]
fn top_level_lookups_are_unimplemented() {
    let c = classify(with_message("RMC"));
    assert!(sender(&c).is_err());
    assert!(message(&c).is_err());
}
