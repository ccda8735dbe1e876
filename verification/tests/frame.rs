use nmea0183::base::Nmea0183Base;
use nmea0183::errors::FrameError;

const GGA_LINE: &str = "GPGGA,123519,4807.038,N,01131.000,E,1,08,0.9,545.4,M,46.9,M,,*47";

#[test]
fn frames_a_full_line() {
    let base = Nmea0183Base::from_string(&String::from(GGA_LINE)).unwrap();
    assert_eq!(base.sender, "GPG");
    assert_eq!(base.message, "GA");
    assert_eq!(base.parameters.len(), 14);
    assert_eq!(base.parameters[0], "123519");
    assert_eq!(base.parameters[1], "4807.038");
    assert_eq!(base.parameters[12], "");
    assert_eq!(base.parameters[13], "");
    assert_eq!(base.checksum, 0x47);
    assert_eq!(base.calculate_checksum(), 0x47);
    assert!(base.is_valid());
}

#[test]
fn round_trips_a_valid_line() {
    let base = Nmea0183Base::from_string(&String::from(GGA_LINE)).unwrap();
    let out = base.to_string().unwrap();
    assert_eq!(out, GGA_LINE);
    let again = Nmea0183Base::from_string(&out).unwrap();
    assert_eq!(again.sender, base.sender);
    assert_eq!(again.message, base.message);
    assert_eq!(again.parameters, base.parameters);
    assert_eq!(again.checksum, base.checksum);
    assert_eq!(again.to_string().unwrap(), out);
}

#[test]
fn canonicalizes_spacing_and_hex_case() {
    let line = format!("  {} \r\n", GGA_LINE.to_lowercase());
    let base = Nmea0183Base::from_string(&line).unwrap();
    assert_eq!(base.sender, "gpg");
    assert_eq!(base.checksum, 0x47);
}

#[test]
fn checksum_is_deterministic() {
    let base = Nmea0183Base::from_string(&String::from(GGA_LINE)).unwrap();
    assert_eq!(base.calculate_checksum(), base.calculate_checksum());
    let copy = Nmea0183Base {
        sender: base.sender.clone(),
        message: base.message.clone(),
        parameters: base.parameters.clone(),
        checksum: 0,
    };
    assert_eq!(copy.calculate_checksum(), base.calculate_checksum());
}

#[test]
fn missing_checksum_delimiter_is_refused() {
    let r = Nmea0183Base::from_string(&String::from("GPGGA,123519,4807.038"));
    assert_eq!(r.unwrap_err(), FrameError::MissingChecksum);
}

#[test]
fn empty_payload_is_refused() {
    let r = Nmea0183Base::from_string(&String::from("*47"));
    assert_eq!(r.unwrap_err(), FrameError::Empty);
    let r = Nmea0183Base::from_string(&String::from("   *47"));
    assert_eq!(r.unwrap_err(), FrameError::Empty);
}

#[test]
fn short_introducer_is_refused() {
    let r = Nmea0183Base::from_string(&String::from("GP*47"));
    assert_eq!(r.unwrap_err(), FrameError::IntroducerTooShort);
}

#[test]
fn malformed_checksum_text_is_refused() {
    assert_eq!(
        Nmea0183Base::from_string(&String::from("GPGGA,1*4")).unwrap_err(),
        FrameError::InvalidChecksumFormat
    );
    assert_eq!(
        Nmea0183Base::from_string(&String::from("GPGGA,1*4G")).unwrap_err(),
        FrameError::InvalidChecksumFormat
    );
    assert_eq!(
        Nmea0183Base::from_string(&String::from("GPGGA,1*471")).unwrap_err(),
        FrameError::InvalidChecksumFormat
    );
}

#[test]
fn wrong_checksum_still_frames_but_refuses_to_serialize() {
    let base = Nmea0183Base::from_string(&String::from("GPGGA,123519*FF")).unwrap();
    assert!(!base.is_valid());
    assert!(base.to_string().is_none());
}

#[test]
fn unstamped_checksum_is_stamped_on_serialize() {
    let mut base = Nmea0183Base::new();
    base.sender = String::from("GPG");
    base.message = String::from("GA");
    base.parameters = vec![String::from("123519")];
    assert_eq!(base.checksum, 0);
    let out = base.to_string().unwrap();
    assert_eq!(out, format!("GPGGA,123519*{:02X}", base.calculate_checksum()));
}

#[test]
fn lowercase_hex_checksum_is_read() {
    let base = Nmea0183Base::from_string(&String::from("GPGGA,1*4a")).unwrap();
    assert_eq!(base.checksum, 0x4A);
}

#[test]
fn payload_star_splits_on_the_last_star() {
    let base = Nmea0183Base::from_string(&String::from("GPXTE,a*b,c*55")).unwrap();
    assert_eq!(base.parameters, vec![String::from("a*b"), String::from("c")]);
    assert_eq!(base.checksum, 0x55);
}
