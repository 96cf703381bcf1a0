use kbr_api_rust::text::parse_u32;
use kbr_api_rust::text::{
    str_concat, i64_to_string, parse_i32, parse_i64, starts_with, strip_prefix, trim, u64_to_string,
};

#[test]
fn decimal_writing() {
    assert_eq!(u64_to_string(0), "0");
    assert_eq!(u64_to_string(1234567890), "1234567890");
    assert_eq!(u64_to_string(u64::MAX), u64::MAX.to_string());
    assert_eq!(i64_to_string(-42), "-42");
    assert_eq!(i64_to_string(i64::MIN), i64::MIN.to_string());
}

#[test]
fn decimal_reading_matches_std() {
    for s in ["0", "+7", "-7", "", "-", "+", "12a", "9223372036854775807", "9223372036854775808",
        "-9223372036854775808", "-9223372036854775809", "007", " 1", "1 ", "٣"] {
        assert_eq!(parse_i64(s), s.parse::<i64>().ok(), "{:?}", s);
        assert_eq!(parse_i32(s), s.parse::<i32>().ok(), "{:?}", s);
    }
    assert_eq!(parse_i32("2147483648"), None);
    assert_eq!(parse_i32("-2147483648"), Some(i32::MIN));
}

#[test]
fn trimming_matches_std() {
    for s in ["", "  ", " a ", "\u{3000}x\u{a0}", "\t\n mid dle \r", "x"] {
        assert_eq!(trim(s), s.trim());
    }
}

#[test]
fn prefixes() {
    assert!(starts_with("sha256=abc", "sha256="));
    assert!(!starts_with("sha25", "sha256="));
    assert_eq!(strip_prefix("Bearer t", "Bearer "), Some("t".to_string()));
    assert_eq!(strip_prefix("bearer t", "Bearer "), None);
    assert_eq!(str_concat("a", "b"), "ab");
}

#[test]
fn unsigned_parse_matches_std() {
    for s in ["0", "7", "+7", "-0", "-7", "", "+", "4294967295", "4294967296", "12a", " 1"] {
        assert_eq!(parse_u32(s), s.parse::<u32>().ok(), "{}", s);
    }
}
