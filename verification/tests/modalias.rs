use blurz::errors::ErrorKind;
use blurz::modalias::parse_modalias;

#[test]
fn modalias_reads_source_vendor_product_device() {
    let (source, vendor, product, device) = parse_modalias("bluetooth:v1234p5678dABCD").unwrap();
    assert_eq!(source, "bluetooth");
    assert_eq!(vendor, 0x1234);
    assert_eq!(product, 0x5678);
    assert_eq!(device, 0xABCD);
}

#[test]
fn modalias_takes_lower_case_digits() {
    let (source, vendor, product, device) = parse_modalias("usb:v1d6bp0246d05ff").unwrap();
    assert_eq!(source, "usb");
    assert_eq!(vendor, 0x1d6b);
    assert_eq!(product, 0x0246);
    assert_eq!(device, 0x05ff);
}

#[test]
fn modalias_value_is_high_byte_times_256_plus_low_byte() {
    let (_, vendor, product, device) = parse_modalias("usb:v0100p00FFdFFFF").unwrap();
    assert_eq!(vendor, 256);
    assert_eq!(product, 255);
    assert_eq!(device, 65535);
}

#[test]
fn modalias_with_short_second_segment_is_a_type_mismatch() {
    let e = parse_modalias("bluetooth:v1234p5678dABC").unwrap_err();
    assert_eq!(e.kind, ErrorKind::TypeMismatch);
    assert_eq!(e.message, "unexpected value type");
}

#[test]
fn modalias_without_colon_is_a_type_mismatch() {
    let e = parse_modalias("bluetooth").unwrap_err();
    assert_eq!(e.kind(), ErrorKind::TypeMismatch);
}

#[test]
fn modalias_of_empty_text_is_a_type_mismatch() {
    assert_eq!(parse_modalias("").unwrap_err().kind, ErrorKind::TypeMismatch);
    assert_eq!(parse_modalias(":").unwrap_err().kind, ErrorKind::TypeMismatch);
}

#[test]
fn modalias_with_a_digit_that_is_none_is_a_type_mismatch() {
    assert_eq!(
        parse_modalias("bluetooth:v12G4p5678dABCD").unwrap_err().kind,
        ErrorKind::TypeMismatch
    );
    assert_eq!(
        parse_modalias("bluetooth:v1234p56 8dABCD").unwrap_err().kind,
        ErrorKind::TypeMismatch
    );
    assert_eq!(
        parse_modalias("bluetooth:v1234p5678dAB\u{e9}D").unwrap_err().kind,
        ErrorKind::TypeMismatch
    );
}

#[test]
fn modalias_with_a_wide_character_does_not_panic() {
    let (_, vendor, product, device) = parse_modalias("bluetooth:\u{e9}1234p5678dABCD").unwrap();
    assert_eq!((vendor, product, device), (0x1234, 0x5678, 0xABCD));
    assert_eq!(
        parse_modalias("bluetooth:v\u{e9}234p5678dABCD").unwrap_err().kind,
        ErrorKind::TypeMismatch
    );
    let (source, vendor, _, _) = parse_modalias("bl\u{fc}e:v1234p5678dABCD").unwrap();
    assert_eq!(source, "bl\u{fc}e");
    assert_eq!(vendor, 0x1234);
}

#[test]
fn modalias_ignores_what_follows_the_fields() {
    let (source, vendor, product, device) =
        parse_modalias("usb:v1D6Bp0246d0540extra:more").unwrap();
    assert_eq!(source, "usb");
    assert_eq!((vendor, product, device), (0x1D6B, 0x0246, 0x0540));
}

#[test]
fn modalias_stops_the_second_segment_at_the_next_colon() {
    assert_eq!(
        parse_modalias("usb:v1D6Bp0246:d0540").unwrap_err().kind,
        ErrorKind::TypeMismatch
    );
}

#[test]
fn modalias_with_empty_source() {
    let (source, vendor, product, device) = parse_modalias(":v0001p0002d0003").unwrap();
    assert_eq!(source, "");
    assert_eq!((vendor, product, device), (1, 2, 3));
}
