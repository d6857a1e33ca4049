use osd_overlay::percent::parse_i32;

#[test]
fn plain_numbers_parse() {
    assert_eq!(parse_i32("0"), Some(0));
    assert_eq!(parse_i32("50"), Some(50));
    assert_eq!(parse_i32("100"), Some(100));
    assert_eq!(parse_i32("007"), Some(7));
}

#[test]
fn signs_are_honored() {
    assert_eq!(parse_i32("+42"), Some(42));
    assert_eq!(parse_i32("-42"), Some(-42));
}

#[test]
fn the_i32_bounds_are_exact() {
    assert_eq!(parse_i32("2147483647"), Some(i32::MAX));
    assert_eq!(parse_i32("2147483648"), None);
    assert_eq!(parse_i32("-2147483648"), Some(i32::MIN));
    assert_eq!(parse_i32("-2147483649"), None);
    assert_eq!(parse_i32("99999999999999999999"), None);
}

#[test]
fn malformed_tokens_are_rejected() {
    assert_eq!(parse_i32(""), None);
    assert_eq!(parse_i32("abc"), None);
    assert_eq!(parse_i32("-"), None);
    assert_eq!(parse_i32("+"), None);
    assert_eq!(parse_i32("4 2"), None);
    assert_eq!(parse_i32("42x"), None);
    assert_eq!(parse_i32("x42"), None);
    assert_eq!(parse_i32("4.2"), None);
    assert_eq!(parse_i32("--4"), None);
}

#[test]
fn agrees_with_the_standard_parser() {
    for s in ["0", "-0", "+17", "junk", "  5", "5 ", "2147483647", "-2147483648", "10e3"] {
        assert_eq!(parse_i32(s), s.parse::<i32>().ok(), "token {:?}", s);
    }
}
