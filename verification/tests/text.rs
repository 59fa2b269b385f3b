use filesearcherv5_web::reply::safe_filename;
use filesearcherv5_web::text::{
    char_is_control, char_is_white_space, contains_char, contains_control_char, header_text,
    parse_i64, trims_to_empty,
};

#[test]
fn control_chars_agree_with_std() {
    for u in 0u32..0x3100 {
        if let Some(c) = char::from_u32(u) {
            assert_eq!(char_is_control(c), c.is_control(), "{:#x}", u);
            assert_eq!(char_is_white_space(c), c.is_whitespace(), "{:#x}", u);
        }
    }
}

#[test]
fn blank_and_control_scans() {
    assert!(trims_to_empty(""));
    assert!(trims_to_empty(" \t\u{3000} "));
    assert!(!trims_to_empty(" a "));
    assert!(contains_char("a\0b", '\0'));
    assert!(!contains_char("ab", '\0'));
    assert!(contains_control_char("a\tb"));
    assert!(contains_control_char("a\u{85}b"));
    assert!(!contains_control_char("plain name.txt"));
}

#[test]
fn header_text_reads_visible_ascii_only() {
    assert_eq!(header_text(b"hello.txt"), Some("hello.txt".to_string()));
    assert_eq!(header_text(b"a\tb"), Some("a\tb".to_string()));
    assert_eq!(header_text(b""), Some(String::new()));
    assert_eq!(header_text(b"caf\xc3\xa9"), None);
    assert_eq!(header_text(b"a\x7fb"), None);
    assert_eq!(header_text(b"a\nb"), None);
}

#[test]
fn parse_i64_agrees_with_std() {
    let samples = [
        "", "0", "-0", "+0", "+", "-", "12", "-12", "+12", " 12", "12 ", "1_000", "2025-01-01",
        "9223372036854775807", "9223372036854775808", "-9223372036854775808",
        "-9223372036854775809", "00000000000000000000000042", "99999999999999999999999999",
        "1700000000", "0x10", "--1", "+-1", "١٢",
    ];
    for s in samples {
        assert_eq!(parse_i64(s), s.parse::<i64>().ok(), "{:?}", s);
    }
}

#[test]
fn safe_filename_drops_controls_and_quotes() {
    assert_eq!(safe_filename("test.txt"), "test.txt");
    assert_eq!(safe_filename("a\"b\u{7}c\u{9f}d"), "abcd");
    assert_eq!(safe_filename("\"\""), "");
    assert_eq!(safe_filename("naïve file.txt"), "naïve file.txt");
}
