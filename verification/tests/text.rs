use froggi_ocr::status::HttpStatus;
use froggi_ocr::text::{render_decimal, same_text, starts_with, trim};

#[test]
fn trim_removes_whitespace_at_both_ends_only() {
    assert_eq!(trim("  a b \n"), "a b");
    assert_eq!(trim("example.com\r\n"), "example.com");
    assert_eq!(trim("\t\tx"), "x");
    assert_eq!(trim("x"), "x");
}

#[test]
fn trim_of_blank_text_is_empty() {
    assert_eq!(trim(""), "");
    assert_eq!(trim(" \n\t "), "");
}

#[test]
fn trim_knows_whitespace_beyond_ascii() {
    assert_eq!(trim("\u{a0}x\u{3000}"), "x");
    assert_eq!(trim("\u{2028}é \u{2003}"), "é");
}

#[test]
fn trim_agrees_with_the_standard_library() {
    for s in ["", " ", "a", " a", "a ", " a b ", "\n\n", "ü \u{85}", "\u{200b}a\u{200b}"] {
        assert_eq!(trim(s), s.trim());
    }
}

#[test]
fn starts_with_compares_characters() {
    assert!(starts_with("https://a", "https://"));
    assert!(starts_with("https://", "https://"));
    assert!(starts_with("abc", ""));
    assert!(!starts_with("http://a", "https://"));
    assert!(!starts_with("http", "http://"));
    assert!(!starts_with("", "a"));
    assert!(starts_with("éa", "é"));
}

#[test]
fn same_text_is_equality() {
    assert!(same_text("n", "n"));
    assert!(same_text("", ""));
    assert!(!same_text("n", "no"));
    assert!(!same_text("no", "n"));
    assert!(!same_text("n", "N"));
}

#[test]
fn decimal_has_no_leading_zeros() {
    assert_eq!(render_decimal(0), "0");
    assert_eq!(render_decimal(7), "7");
    assert_eq!(render_decimal(10), "10");
    assert_eq!(render_decimal(12_345), "12345");
    assert_eq!(render_decimal(1_000_000), "1000000");
    assert_eq!(render_decimal(u64::MAX), "18446744073709551615");
}

#[test]
fn status_exists_for_three_digit_codes_only() {
    assert!(HttpStatus::new(0).is_none());
    assert!(HttpStatus::new(99).is_none());
    assert!(HttpStatus::new(100).is_some());
    assert!(HttpStatus::new(999).is_some());
    assert!(HttpStatus::new(1000).is_none());
    assert!(HttpStatus::new(u16::MAX).is_none());
    assert_eq!(HttpStatus::new(204).unwrap().as_u16(), 204);
}

#[test]
fn only_200_counts_as_ok() {
    assert!(HttpStatus::new(200).unwrap().is_ok());
    assert!(!HttpStatus::new(201).unwrap().is_ok());
    assert!(!HttpStatus::new(404).unwrap().is_ok());
    assert!(!HttpStatus::new(100).unwrap().is_ok());
}

#[test]
fn status_text_is_number_and_reason() {
    assert_eq!(HttpStatus::new(200).unwrap().text(), "200 OK");
    assert_eq!(HttpStatus::new(404).unwrap().text(), "404 Not Found");
    assert_eq!(HttpStatus::new(500).unwrap().text(), "500 Internal Server Error");
}

#[test]
fn status_text_of_a_code_without_reason() {
    assert_eq!(HttpStatus::new(999).unwrap().text(), "999 <unknown status code>");
}

#[test]
fn status_text_begins_with_the_decimal_code() {
    for code in 100..=999u16 {
        let text = HttpStatus::new(code).unwrap().text();
        let head = format!("{} ", render_decimal(u64::from(code)));
        assert!(text.starts_with(&head));
    }
}
