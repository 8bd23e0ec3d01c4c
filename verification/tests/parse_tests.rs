use coordinate_transformer::parse_u8_decimal;
use coordinate_transformer::JprOrigin;
use coordinate_transformer::ZoomLv;

#[test]
fn jpr_origin_parse_accepts_the_whole_range() {
    assert_eq!(JprOrigin::parse(1), Ok(JprOrigin::One));
    assert_eq!(JprOrigin::parse(9), Ok(JprOrigin::Nine));
    assert_eq!(JprOrigin::parse(13), Ok(JprOrigin::Thirteen));
    assert_eq!(JprOrigin::parse(19), Ok(JprOrigin::Nineteen));
}

#[test]
fn jpr_origin_parse_rejects_out_of_range() {
    assert_eq!(JprOrigin::parse(0), Err(()));
    assert_eq!(JprOrigin::parse(20), Err(()));
    assert_eq!(JprOrigin::parse(255), Err(()));
}

#[test]
fn jpr_origin_number_inverts_parse() {
    assert_eq!(JprOrigin::One.number(), 1);
    assert_eq!(JprOrigin::Nine.number(), 9);
    assert_eq!(JprOrigin::Nineteen.number(), 19);
    for n in 1u8..=19 {
        assert_eq!(JprOrigin::parse(n).unwrap().number(), n);
    }
}

#[test]
fn jpr_origin_parse_str_accepts_decimal_strings() {
    assert_eq!(JprOrigin::parse_str("9"), Ok(JprOrigin::Nine));
    assert_eq!(JprOrigin::parse_str("+9"), Ok(JprOrigin::Nine));
    assert_eq!(JprOrigin::parse_str("019"), Ok(JprOrigin::Nineteen));
    assert_eq!("7".parse::<JprOrigin>(), Ok(JprOrigin::Seven));
}

#[test]
fn jpr_origin_parse_str_rejects_bad_strings() {
    assert_eq!(JprOrigin::parse_str(""), Err(()));
    assert_eq!(JprOrigin::parse_str("abc"), Err(()));
    assert_eq!(JprOrigin::parse_str(" 9"), Err(()));
    assert_eq!(JprOrigin::parse_str("9 "), Err(()));
    assert_eq!(JprOrigin::parse_str("-9"), Err(()));
    assert_eq!(JprOrigin::parse_str("-0"), Err(()));
    assert_eq!(JprOrigin::parse_str("0"), Err(()));
    assert_eq!(JprOrigin::parse_str("20"), Err(()));
    assert_eq!(JprOrigin::parse_str("256"), Err(()));
    assert_eq!(JprOrigin::parse_str("1.5"), Err(()));
}

#[test]
fn zoom_lv_parse_accepts_the_whole_range() {
    assert_eq!(ZoomLv::parse(0), Ok(ZoomLv::Lv0));
    assert_eq!(ZoomLv::parse(9), Ok(ZoomLv::Lv9));
    assert_eq!(ZoomLv::parse(21), Ok(ZoomLv::Lv21));
    assert_eq!(ZoomLv::parse(24), Ok(ZoomLv::Lv24));
}

#[test]
fn zoom_lv_parse_rejects_out_of_range() {
    assert_eq!(ZoomLv::parse(25), Err(()));
    assert_eq!(ZoomLv::parse(255), Err(()));
}

#[test]
fn zoom_lv_level_inverts_parse() {
    assert_eq!(ZoomLv::Lv0.level(), 0);
    assert_eq!(ZoomLv::Lv17.level(), 17);
    assert_eq!(ZoomLv::Lv24.level(), 24);
    for n in 0u8..=24 {
        assert_eq!(ZoomLv::parse(n).unwrap().level(), n);
    }
}

#[test]
fn zoom_lv_parse_str_accepts_decimal_strings() {
    assert_eq!(ZoomLv::parse_str("21"), Ok(ZoomLv::Lv21));
    assert_eq!(ZoomLv::parse_str("+0"), Ok(ZoomLv::Lv0));
    assert_eq!("24".parse::<ZoomLv>(), Ok(ZoomLv::Lv24));
}

#[test]
fn zoom_lv_parse_str_rejects_bad_strings() {
    assert_eq!(ZoomLv::parse_str(""), Err(()));
    assert_eq!(ZoomLv::parse_str("25"), Err(()));
    assert_eq!(ZoomLv::parse_str("2a"), Err(()));
    assert_eq!(ZoomLv::parse_str("-1"), Err(()));
    assert_eq!(ZoomLv::parse_str("-0"), Err(()));
    assert_eq!(ZoomLv::parse_str("+"), Err(()));
    assert_eq!(ZoomLv::parse_str("-"), Err(()));
}

#[test]
fn parse_u8_decimal_matches_u8_string_parsing() {
    assert_eq!(parse_u8_decimal("0"), Some(0));
    assert_eq!(parse_u8_decimal("00"), Some(0));
    assert_eq!(parse_u8_decimal("42"), Some(42));
    assert_eq!(parse_u8_decimal("255"), Some(255));
    assert_eq!(parse_u8_decimal("+255"), Some(255));
    assert_eq!(parse_u8_decimal("256"), None);
    assert_eq!(parse_u8_decimal("999999999999999999999"), None);
    assert_eq!(parse_u8_decimal("+"), None);
    assert_eq!(parse_u8_decimal("-"), None);
    assert_eq!(parse_u8_decimal("++1"), None);
    assert_eq!(parse_u8_decimal("1-"), None);
}

#[test]
fn parse_u8_decimal_agrees_with_std_on_samples() {
    let samples = [
        "", "0", "00", "007", "42", "255", "256", "300", "+1", "-1", "-0", "+", "-", "abc", "1a",
        "a1", " 1", "1 ", "++0", "--0", "1.0", "999999999999999999999",
    ];
    for s in samples {
        assert_eq!(parse_u8_decimal(s), s.parse::<u8>().ok(), "on input {:?}", s);
    }
}
