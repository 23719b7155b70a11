use cosmic_caffeine::decimal::{parse_u32, push_decimal, to_decimal};

#[test]
fn prints_zero_and_extremes() {
    assert_eq!(to_decimal(0), "0");
    assert_eq!(to_decimal(9), "9");
    assert_eq!(to_decimal(10), "10");
    assert_eq!(to_decimal(5), "5");
    assert_eq!(to_decimal(4294967295), "4294967295");
}

#[test]
fn prints_like_to_string() {
    for n in [0u32, 1, 7, 10, 42, 99, 100, 1000, 9999, 65536, 123456789, u32::MAX - 1, u32::MAX] {
        assert_eq!(to_decimal(n), n.to_string());
    }
}

#[test]
fn push_decimal_appends() {
    let mut s = String::from("for ");
    push_decimal(&mut s, 30);
    assert_eq!(s, "for 30");
}

#[test]
fn parses_digits() {
    assert_eq!(parse_u32("42"), Some(42));
    assert_eq!(parse_u32("0042"), Some(42));
    assert_eq!(parse_u32("+7"), Some(7));
    assert_eq!(parse_u32("0"), Some(0));
    assert_eq!(parse_u32("4294967295"), Some(u32::MAX));
}

#[test]
fn rejects_what_u32_from_str_rejects() {
    assert_eq!(parse_u32(""), None);
    assert_eq!(parse_u32("+"), None);
    assert_eq!(parse_u32("-"), None);
    assert_eq!(parse_u32("-1"), None);
    assert_eq!(parse_u32("-0"), None);
    assert_eq!(parse_u32("4294967296"), None);
    assert_eq!(parse_u32("99999999999"), None);
    assert_eq!(parse_u32("12a"), None);
    assert_eq!(parse_u32(" 1"), None);
    assert_eq!(parse_u32("++1"), None);
    assert_eq!(parse_u32("１"), None);
}

#[test]
fn agrees_with_std_parse() {
    let cases = [
        "", "+", "-", "0", "00", "+0", "-0", "1", "+1", "-1", "42", "0042", "9999", "10000",
        "4294967295", "4294967296", "42949672950", "12a", "a12", " 12", "12 ", "1_000", "٣",
        "+-1", "++1", "00000000000000000000001", "4294967295000",
    ];
    for s in cases {
        assert_eq!(parse_u32(s), s.parse::<u32>().ok(), "text {:?}", s);
    }
}

#[test]
fn printing_then_parsing_gives_the_value_back() {
    for n in [0u32, 3, 60, 1440, 4294967295] {
        assert_eq!(parse_u32(&to_decimal(n)), Some(n));
    }
}
