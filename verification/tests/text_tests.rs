use biliticket::text::{chars_of, decimal_string, is_whitespace_char, parse_i64, same_text, text_contains, trim_ws_range, strip_char_range, string_from_range};

#[test]
fn parse_accepts_signed_decimal() {
    assert_eq!(parse_i64("42"), Some(42));
    assert_eq!(parse_i64("-42"), Some(-42));
    assert_eq!(parse_i64("+7"), Some(7));
    assert_eq!(parse_i64("0000123"), Some(123));
    assert_eq!(parse_i64("-0"), Some(0));
}

#[test]
fn parse_limits() {
    assert_eq!(parse_i64("9223372036854775807"), Some(i64::MAX));
    assert_eq!(parse_i64("-9223372036854775808"), Some(i64::MIN));
    assert_eq!(parse_i64("9223372036854775808"), None);
    assert_eq!(parse_i64("-9223372036854775809"), None);
    assert_eq!(parse_i64("99999999999999999999999"), None);
}

#[test]
fn parse_rejects_other_text() {
    for t in ["", "-", "+", "12a", " 1", "1 ", "--1", "+-1", "١٢"] {
        assert_eq!(parse_i64(t), None, "{t:?}");
        assert_eq!(parse_i64(t), t.parse::<i64>().ok(), "{t:?}");
    }
}

#[test]
fn parse_agrees_with_std() {
    for t in ["0", "17", "-17", "+0", "007", "9223372036854775807", "-9223372036854775808", "18446744073709551616"] {
        assert_eq!(parse_i64(t), t.parse::<i64>().ok(), "{t:?}");
    }
}

#[test]
fn decimal_text_round_trips() {
    for n in [0i64, 1, 9, 10, 99, 100, -1, -10, 1234567890, i64::MAX, i64::MIN] {
        let s = decimal_string(n);
        assert_eq!(s, n.to_string());
        assert_eq!(parse_i64(&s), Some(n));
    }
}

#[test]
fn whitespace_matches_std() {
    for c in ['\t', '\n', '\u{b}', '\u{c}', '\r', ' ', '\u{85}', '\u{a0}', '\u{1680}', '\u{2000}', '\u{200a}', '\u{2028}', '\u{2029}', '\u{202f}', '\u{205f}', '\u{3000}', 'a', '\u{200b}', '\u{feff}', '\u{180e}', '0'] {
        assert_eq!(is_whitespace_char(c), c.is_whitespace(), "{c:?}");
    }
}

#[test]
fn trim_and_strip_ranges() {
    let v = chars_of("  ab c \t");
    let (a, b) = trim_ws_range(&v, 0, v.len());
    assert_eq!(string_from_range(&v, a, b), "ab c");
    let v = chars_of("\"\"x\"y\"");
    let (a, b) = strip_char_range(&v, 0, v.len(), '"');
    assert_eq!(string_from_range(&v, a, b), "x\"y");
    let v = chars_of("    ");
    let (a, b) = trim_ws_range(&v, 0, v.len());
    assert_eq!(a, b);
}

#[test]
fn contains_and_equality() {
    let s = chars_of("an ERROR: here");
    assert!(text_contains(&s, &chars_of("ERROR:")));
    assert!(!text_contains(&s, &chars_of("error:")));
    assert!(text_contains(&s, &chars_of("")));
    assert!(!text_contains(&chars_of("ab"), &chars_of("abc")));
    assert!(same_text("抢票", "抢票"));
    assert!(!same_text("a", "ab"));
    assert!(!same_text("ab", "ac"));
}
