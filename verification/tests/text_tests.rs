use paper_api::text::{format_u64, parse_u64};

#[test]
fn parse_plain_digits() {
    assert_eq!(parse_u64("42"), Some(42));
    assert_eq!(parse_u64("0"), Some(0));
}

#[test]
fn parse_accepts_plus_sign_and_leading_zeros() {
    assert_eq!(parse_u64("+7"), Some(7));
    assert_eq!(parse_u64("007"), Some(7));
}

#[test]
fn parse_rejects_what_std_rejects() {
    assert_eq!(parse_u64(""), None);
    assert_eq!(parse_u64("+"), None);
    assert_eq!(parse_u64("-1"), None);
    assert_eq!(parse_u64("12a"), None);
    assert_eq!(parse_u64(" 1"), None);
    assert_eq!(parse_u64("١٢"), None);
}

#[test]
fn parse_limits_of_u64() {
    assert_eq!(parse_u64("18446744073709551615"), Some(u64::MAX));
    assert_eq!(parse_u64("18446744073709551616"), None);
    assert_eq!(parse_u64("99999999999999999999x"), None);
}

#[test]
fn parse_agrees_with_std() {
    for s in ["1", "+1", "-0", "00", "123456789012", "18446744073709551615", "18446744073709551616", "+", "", "1_000"] {
        assert_eq!(parse_u64(s), s.parse::<u64>().ok(), "text {:?}", s);
    }
}

#[test]
fn format_writes_shortest_decimal() {
    assert_eq!(format_u64(0), "0");
    assert_eq!(format_u64(9), "9");
    assert_eq!(format_u64(10), "10");
    assert_eq!(format_u64(1234567890), "1234567890");
    assert_eq!(format_u64(u64::MAX), "18446744073709551615");
}

#[test]
fn format_then_parse_gives_the_number() {
    for n in [0u64, 1, 9, 10, 99, 100, 4242, 1 << 40, u64::MAX - 1, u64::MAX] {
        assert_eq!(parse_u64(&format_u64(n)), Some(n));
        assert_eq!(format_u64(n), n.to_string());
    }
}

#[test]
fn canonical_id_is_echoed() {
    for s in ["0", "7", "215849302", "18446744073709551615"] {
        assert_eq!(format_u64(parse_u64(s).unwrap()), s);
    }
    assert_eq!(format_u64(parse_u64("+0042").unwrap()), "42");
}
