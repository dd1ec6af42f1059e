use juicebox_plus::pairing::pairing_body;
use juicebox_plus::text::{
    after, before, contains_str, find_first, hex_padded, i64_to_decimal, join, parse_u64,
    starts_with, str_eq, trim, trim_end_char, u64_to_decimal,
};

#[test]
fn decimal_round_trip() {
    for n in [0u64, 7, 10, 99, 100, 12345, u64::MAX] {
        let s = u64_to_decimal(n);
        assert_eq!(s, n.to_string());
        assert_eq!(parse_u64(&s), Some(n));
    }
    assert_eq!(i64_to_decimal(i64::MIN), i64::MIN.to_string());
    assert_eq!(i64_to_decimal(-1), "-1");
}

#[test]
fn parse_matches_std() {
    for s in ["", "+", "-0", "0", "+0", "007", "12 ", "1_0", "18446744073709551615", "18446744073709551616", "99999999999999999999"] {
        assert_eq!(parse_u64(s), s.parse::<u64>().ok(), "input {s:?}");
    }
}

#[test]
fn trims_and_searches() {
    assert_eq!(trim("\u{3000} a b \u{85}\n"), "a b");
    assert_eq!(trim("   "), "");
    assert_eq!(trim_end_char("x///", '/'), "x");
    assert!(str_eq("abc", "abc"));
    assert!(!str_eq("abc", "abd"));
    assert!(starts_with("https://x", "https"));
    assert!(contains_str("hello world", "o w"));
    assert!(contains_str("x", ""));
    assert!(!contains_str("abc", "abcd"));
    assert_eq!(find_first("a://b://c", "://"), Some(1));
    assert_eq!(before("a:b:c", ":"), "a");
    assert_eq!(after("a://b://c", "://").as_deref(), Some("b://c"));
    assert_eq!(after("abc", "://"), None);
    assert_eq!(hex_padded(255, 4), "00ff");
    assert_eq!(hex_padded(0x12345, 4), "12345");
    assert_eq!(join(&vec!["a".to_string(), "b".to_string(), "c".to_string()], ", "), "a, b, c");
    assert_eq!(join(&vec![], ", "), "");
}

#[test]
fn json_strings_are_escaped() {
    assert_eq!(pairing_body("ABCD-1234", "plain"), "{\"code\":\"ABCD-1234\",\"device_name\":\"plain\"}");
    assert_eq!(
        pairing_body("q\"b\\\t\u{1}\u{e9}", ""),
        "{\"code\":\"q\\\"b\\\\\\t\\u0001\u{e9}\",\"device_name\":\"\"}"
    );
}
