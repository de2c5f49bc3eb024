use serveit::parse_u16;
use serveit::u16_to_decimal;

#[test]
fn parses_plain_decimal() {
    assert_eq!(parse_u16("4000"), Some(4000));
    assert_eq!(parse_u16("0"), Some(0));
    assert_eq!(parse_u16("65535"), Some(65535));
    assert_eq!(parse_u16("8123"), Some(8123));
    assert_eq!(parse_u16("007"), Some(7));
}

#[test]
fn rejects_non_digits() {
    assert_eq!(parse_u16("abc"), None);
    assert_eq!(parse_u16(""), None);
    assert_eq!(parse_u16("-1"), None);
    assert_eq!(parse_u16("+80"), None);
    assert_eq!(parse_u16(" 80"), None);
    assert_eq!(parse_u16("80 "), None);
    assert_eq!(parse_u16("8_0"), None);
}

#[test]
fn rejects_too_large() {
    assert_eq!(parse_u16("65536"), None);
    assert_eq!(parse_u16("70000"), None);
    assert_eq!(parse_u16("99999999999999999999"), None);
}

#[test]
fn renders_decimal() {
    assert_eq!(u16_to_decimal(0), "0");
    assert_eq!(u16_to_decimal(9), "9");
    assert_eq!(u16_to_decimal(10), "10");
    assert_eq!(u16_to_decimal(4000), "4000");
    assert_eq!(u16_to_decimal(65535), "65535");
}

#[test]
fn rendering_parses_back() {
    for n in [0u16, 1, 9, 10, 99, 100, 4000, 8123, 65535] {
        assert_eq!(parse_u16(&u16_to_decimal(n)), Some(n));
    }
}
