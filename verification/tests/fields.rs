use nmea0183::base::Nmea0183Base;
use nmea0183::errors::FieldError;
use nmea0183::fields::Decimal;

fn field_sentence(params: &[&str]) -> Nmea0183Base {
    let mut base = Nmea0183Base::new();
    base.sender = String::from("GPG");
    base.message = String::from("GA");
    base.parameters = params.iter().map(|p| String::from(*p)).collect();
    base
}

#[test]
fn index_past_the_end_is_missing_for_every_type() {
    let base = field_sentence(&["12", "x"]);
    assert_eq!(base.parameter::<u8>(2).unwrap_err(), FieldError::MissingField);
    assert_eq!(base.parameter::<usize>(2).unwrap_err(), FieldError::MissingField);
    assert_eq!(base.parameter::<i64>(100).unwrap_err(), FieldError::MissingField);
    assert_eq!(base.parameter::<char>(2).unwrap_err(), FieldError::MissingField);
    assert_eq!(base.parameter::<Decimal>(usize::MAX).unwrap_err(), FieldError::MissingField);
    let empty = field_sentence(&[]);
    assert_eq!(empty.parameter::<u8>(0).unwrap_err(), FieldError::MissingField);
}

#[test]
fn unsigned_values_parse_and_overflow_is_refused() {
    let base = field_sentence(&["255", "256", "08", "+17", ""]);
    assert_eq!(base.parameter::<u8>(0).unwrap(), 255u8);
    assert_eq!(
        base.parameter::<u8>(1).unwrap_err(),
        FieldError::ParseFailure(String::from("256"))
    );
    assert_eq!(base.parameter::<u8>(2).unwrap(), 8u8);
    assert_eq!(base.parameter::<u64>(3).unwrap(), 17u64);
    assert_eq!(
        base.parameter::<usize>(4).unwrap_err(),
        FieldError::ParseFailure(String::from(""))
    );
}

#[test]
fn signed_values_parse_across_the_whole_range() {
    let base = field_sentence(&["-128", "127", "-129", "-9223372036854775808", "+0"]);
    assert_eq!(base.parameter::<i8>(0).unwrap(), -128i8);
    assert_eq!(base.parameter::<i8>(1).unwrap(), 127i8);
    assert!(base.parameter::<i8>(2).is_err());
    assert_eq!(base.parameter::<i64>(3).unwrap(), i64::MIN);
    assert_eq!(base.parameter::<i32>(4).unwrap(), 0i32);
}

#[test]
fn single_characters_parse() {
    let base = field_sentence(&["A", "", "AB"]);
    assert_eq!(base.parameter::<char>(0).unwrap(), 'A');
    assert!(base.parameter::<char>(1).is_err());
    assert!(base.parameter::<char>(2).is_err());
}

#[test]
fn decimals_parse_exactly() {
    let base = field_sentence(&["4807.038", "-0.5", "10", "4807.", ".25", "1.2.3", "x"]);
    let v = base.parameter::<Decimal>(0).unwrap();
    assert_eq!((v.negative, v.mantissa, v.scale), (false, 4807038, 3));
    let v = base.parameter::<Decimal>(1).unwrap();
    assert_eq!((v.negative, v.mantissa, v.scale), (true, 5, 1));
    let v = base.parameter::<Decimal>(2).unwrap();
    assert_eq!((v.negative, v.mantissa, v.scale), (false, 10, 0));
    let v = base.parameter::<Decimal>(3).unwrap();
    assert_eq!((v.negative, v.mantissa, v.scale), (false, 4807, 0));
    let v = base.parameter::<Decimal>(4).unwrap();
    assert_eq!((v.negative, v.mantissa, v.scale), (false, 25, 2));
    assert!(base.parameter::<Decimal>(5).is_err());
    assert!(base.parameter::<Decimal>(6).is_err());
}

#[test]
fn raw_text_and_first_characters_are_reachable() {
    let base = field_sentence(&["", "hello"]);
    assert_eq!(base.parameter_text(1).unwrap(), "hello");
    assert_eq!(base.parameter_text(2).unwrap_err(), FieldError::MissingField);
    assert_eq!(base.first_char(1).unwrap(), 'h');
    assert!(base.first_char(0).is_err());
    assert_eq!(base.opt_first_char(0), None);
    assert_eq!(base.opt_first_char(1), Some('h'));
    assert_eq!(base.opt_first_char(9), None);
}
