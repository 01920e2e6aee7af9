use unity_web_server::text::{chars_end_with, decimal_u32, digit_text, parse_u32, text_chars};

#[test]
fn parse_reads_plain_digits() {
    assert_eq!(parse_u32("0"), Some(0));
    assert_eq!(parse_u32("42"), Some(42));
    assert_eq!(parse_u32("007"), Some(7));
    assert_eq!(parse_u32("1600"), Some(1600));
}

#[test]
fn parse_accepts_one_leading_plus() {
    assert_eq!(parse_u32("+7"), Some(7));
    assert_eq!(parse_u32("++7"), None);
    assert_eq!(parse_u32("+"), None);
}

#[test]
fn parse_rejects_non_numbers() {
    assert_eq!(parse_u32(""), None);
    assert_eq!(parse_u32("-1"), None);
    assert_eq!(parse_u32("-0"), None);
    assert_eq!(parse_u32("12a"), None);
    assert_eq!(parse_u32(" 12"), None);
    assert_eq!(parse_u32("\u{0663}"), None);
}

#[test]
fn parse_bounds_at_u32_max() {
    assert_eq!(parse_u32("4294967295"), Some(u32::MAX));
    assert_eq!(parse_u32("4294967296"), None);
    assert_eq!(parse_u32("99999999999999999999"), None);
    assert_eq!(parse_u32("99999999999x"), None);
}

#[test]
fn parse_agrees_with_std() {
    for s in ["", "+", "0", "+0", "-0", "12", "+12", "1.5", "4294967295", "4294967296", "00000000000000000001", "٣"] {
        assert_eq!(parse_u32(s), s.parse::<u32>().ok(), "input {:?}", s);
    }
}

#[test]
fn decimal_writes_like_to_string() {
    for n in [0u32, 7, 9, 10, 40, 99, 100, 1600, 123456789, u32::MAX] {
        assert_eq!(decimal_u32(n), n.to_string());
    }
}

#[test]
fn decimal_reads_back() {
    for n in [0u32, 1, 10, 900, 65535, 4000000000, u32::MAX] {
        assert_eq!(parse_u32(&decimal_u32(n)), Some(n));
    }
}

#[test]
fn digit_text_is_the_digit() {
    assert_eq!(digit_text(0), "0");
    assert_eq!(digit_text(5), "5");
    assert_eq!(digit_text(9), "9");
}

#[test]
fn chars_follow_the_text() {
    assert_eq!(text_chars("a×b"), vec!['a', '×', 'b']);
    assert!(text_chars("").is_empty());
}

#[test]
fn suffix_test_by_characters() {
    let p = text_chars("Build/game.wasm.br");
    assert!(chars_end_with(&p, ".br"));
    assert!(chars_end_with(&p, ".wasm.br"));
    assert!(chars_end_with(&p, ""));
    assert!(!chars_end_with(&p, ".wasm"));
    assert!(!chars_end_with(&text_chars("br"), ".br"));
}
