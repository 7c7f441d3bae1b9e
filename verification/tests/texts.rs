use ceph_cmd::text::{
    chars_of, decimal, first_line_of, number_literal, parse_i64, parse_scalar_u64, parse_u64,
    same_text,
};

#[test]
fn decimal_spells_without_sign_or_leading_zero() {
    assert_eq!(decimal(0), "0");
    assert_eq!(decimal(7), "7");
    assert_eq!(decimal(10), "10");
    assert_eq!(decimal(42), "42");
    assert_eq!(decimal(1000), "1000");
    assert_eq!(decimal(u64::MAX), "18446744073709551615");
}

#[test]
fn decimal_reads_back() {
    for n in [0u64, 1, 9, 10, 99, 100, 12345, u64::MAX - 1, u64::MAX] {
        assert_eq!(parse_u64(&decimal(n)), Some(n));
        assert_eq!(parse_scalar_u64(&decimal(n)), Some(n));
        assert_eq!(decimal(n), n.to_string());
    }
}

#[test]
fn unsigned_numbers_are_runs_of_digits_that_fit() {
    assert_eq!(parse_u64("42"), Some(42));
    assert_eq!(parse_u64("0"), Some(0));
    assert_eq!(parse_u64("007"), Some(7));
    assert_eq!(parse_u64("18446744073709551615"), Some(u64::MAX));
    assert_eq!(parse_u64("18446744073709551616"), None);
    assert_eq!(parse_u64("99999999999999999999999"), None);
    assert_eq!(parse_u64(""), None);
    assert_eq!(parse_u64("+42"), None);
    assert_eq!(parse_u64("-1"), None);
    assert_eq!(parse_u64("4 2"), None);
    assert_eq!(parse_u64("42 "), None);
    assert_eq!(parse_u64("4.2"), None);
    assert_eq!(parse_u64("\u{0664}\u{0662}"), None);
}

#[test]
fn scalars_may_begin_with_one_plus() {
    assert_eq!(parse_scalar_u64("42"), Some(42));
    assert_eq!(parse_scalar_u64("+42"), Some(42));
    assert_eq!(parse_scalar_u64("++42"), None);
    assert_eq!(parse_scalar_u64("+"), None);
    assert_eq!(parse_scalar_u64(""), None);
    assert_eq!(parse_scalar_u64("-42"), None);
    assert_eq!(parse_scalar_u64("no quota"), None);
    assert_eq!(parse_scalar_u64("18446744073709551616"), None);
    for text in ["42", "+42", "", "+", "-0", "0x10", " 1", "18446744073709551615", "18446744073709551616"] {
        assert_eq!(parse_scalar_u64(text), text.parse::<u64>().ok());
    }
}

#[test]
fn signed_numbers_may_begin_with_one_minus() {
    assert_eq!(parse_i64("0"), Some(0));
    assert_eq!(parse_i64("-1"), Some(-1));
    assert_eq!(parse_i64("-0"), Some(0));
    assert_eq!(parse_i64("9223372036854775807"), Some(i64::MAX));
    assert_eq!(parse_i64("9223372036854775808"), None);
    assert_eq!(parse_i64("-9223372036854775808"), Some(i64::MIN));
    assert_eq!(parse_i64("-9223372036854775809"), None);
    assert_eq!(parse_i64("-"), None);
    assert_eq!(parse_i64(""), None);
    assert_eq!(parse_i64("+1"), None);
    assert_eq!(parse_i64("--1"), None);
    assert_eq!(parse_i64("1.0"), None);
}

#[test]
fn first_line_stops_at_the_first_line_feed() {
    assert_eq!(first_line_of("one\ntwo\nthree"), Some("one".to_string()));
    assert_eq!(first_line_of("one\n"), Some("one".to_string()));
    assert_eq!(first_line_of("one"), Some("one".to_string()));
    assert_eq!(first_line_of("one\r\ntwo"), Some("one".to_string()));
    assert_eq!(first_line_of("one\r"), Some("one\r".to_string()));
    assert_eq!(first_line_of("one\rtwo\n"), Some("one\rtwo".to_string()));
    assert_eq!(first_line_of("\n"), Some(String::new()));
    assert_eq!(first_line_of("\r\n"), Some(String::new()));
    assert_eq!(first_line_of("\nrest"), Some(String::new()));
    assert_eq!(first_line_of(""), None);
    assert_eq!(first_line_of("gr\u{00fc}n\nblau"), Some("gr\u{00fc}n".to_string()));
}

#[test]
fn first_line_is_the_first_of_the_lines() {
    for text in ["", "\n", "a", "a\n", "a\nb", "a\r\nb", "\r", "\r\n", "a\r", "\n\n", "a\r\r\nb", "x\u{1F600}\r\ny"] {
        assert_eq!(first_line_of(text), text.lines().next().map(|l| l.to_string()));
    }
}

#[test]
fn number_literals_are_told_from_other_texts() {
    for good in ["0", "1", "-1", "10", "1.5", "0.25", "-0.0", "1e5", "1E5", "1e+5", "1e-5", "12.5e10", "0e0"] {
        assert!(number_literal(good), "{}", good);
    }
    for bad in ["", "-", "01", "1.", ".5", "1e", "1e+", "+1", "1.5.2", "1 ", " 1", "0x10", "NaN", "inf", "1,5", "--1", "1e5.0", "one"] {
        assert!(!number_literal(bad), "{}", bad);
    }
}

#[test]
fn texts_are_compared_character_by_character() {
    assert!(same_text("", ""));
    assert!(same_text("osd", "osd"));
    assert!(!same_text("osd", "osd "));
    assert!(!same_text("osd", "osD"));
    assert!(!same_text("nodeep-scrub", "nodeep_scrub"));
    assert!(same_text("gr\u{00fc}n", "gr\u{00fc}n"));
    assert!(!same_text("gr\u{00fc}n", "grun"));
    assert_eq!(chars_of("a\u{00fc}\n"), vec!['a', '\u{00fc}', '\n']);
    assert_eq!(chars_of(""), Vec::<char>::new());
}
