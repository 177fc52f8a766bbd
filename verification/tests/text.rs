use crabby_proxy::text::{decimal_string, parse_u16, str_chars};

#[test]
fn decimal_formatting() {
    assert_eq!(decimal_string(0), "0");
    assert_eq!(decimal_string(7), "7");
    assert_eq!(decimal_string(10), "10");
    assert_eq!(decimal_string(65535), "65535");
    assert_eq!(decimal_string(u64::MAX), "18446744073709551615");
}

#[test]
fn port_parsing_matches_std() {
    for s in ["0", "80", "+80", "0080", "65535", "65536", "", "+", "-1", " 1", "1 ", "99999999999", "12a"] {
        assert_eq!(parse_u16(&str_chars(s)), s.parse::<u16>().ok(), "input {:?}", s);
    }
}

#[test]
fn port_decimal_round_trip() {
    for p in [0u16, 1, 9, 10, 443, 8080, 65535] {
        assert_eq!(parse_u16(&str_chars(&decimal_string(p as u64))), Some(p));
    }
}
