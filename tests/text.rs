use favicon_rover::text::{decimal_text, has_substring, is_white_space, parse_decimal, squeeze_and_lower};

#[test]
fn decimal_numbers() {
    assert_eq!(parse_decimal("0", u32::MAX as u64), Some(0));
    assert_eq!(parse_decimal("256", u32::MAX as u64), Some(256));
    assert_eq!(parse_decimal("+7", u32::MAX as u64), Some(7));
    assert_eq!(parse_decimal("4294967295", u32::MAX as u64), Some(4294967295));
    assert_eq!(parse_decimal("4294967296", u32::MAX as u64), None);
    assert_eq!(parse_decimal("", u32::MAX as u64), None);
    assert_eq!(parse_decimal("+", u32::MAX as u64), None);
    assert_eq!(parse_decimal("-1", u32::MAX as u64), None);
    assert_eq!(parse_decimal("12a", u32::MAX as u64), None);
    assert_eq!(parse_decimal(" 1", u32::MAX as u64), None);
}

#[test]
fn decimal_texts() {
    assert_eq!(decimal_text(0), "0");
    assert_eq!(decimal_text(404), "404");
    assert_eq!(decimal_text(65535), "65535");
}

#[test]
fn squeezing_and_searching() {
    let s = squeeze_and_lower("A b\tC ");
    assert_eq!(s, vec!['a', 'b', 'c']);
    assert!(has_substring(&s, "bc"));
    assert!(has_substring(&s, ""));
    assert!(has_substring(&s, "abc"));
    assert!(!has_substring(&s, "ac"));
    assert!(!has_substring(&vec![], "a"));
}

#[test]
fn white_space_of_every_kind_is_dropped() {
    let s = squeeze_and_lower("A\tB\nC\rD\u{c}E\u{b}F\u{a0}G\u{3000}H");
    assert_eq!(s, vec!['a', 'b', 'c', 'd', 'e', 'f', 'g', 'h']);
    for c in ['\t', '\n', ' ', '\u{85}', '\u{2009}', '\u{2028}'] {
        assert_eq!(is_white_space(c), c.is_whitespace());
    }
    assert!(!is_white_space('x'));
    assert!(!is_white_space('\u{200b}'));
}
