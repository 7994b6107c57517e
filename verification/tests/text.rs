use rust_scraping::text::contains;
use rust_scraping::text::decimal_text;
use rust_scraping::text::format_string;
use rust_scraping::text::is_space_char;
use rust_scraping::text::strip_affixes;
use rust_scraping::text::trim;

#[test]
fn trim_removes_white_space_at_both_ends() {
    assert_eq!(trim("  Senior Engineer \n\t"), "Senior Engineer");
    assert_eq!(trim("inner  space"), "inner  space");
    assert_eq!(trim(""), "");
    assert_eq!(trim(" \n "), "");
    assert_eq!(trim("\u{a0}\u{3000}x\u{2003}"), "x");
}

#[test]
fn trim_agrees_with_std() {
    for s in ["", " ", "a", " a", "a ", "\u{85}a\u{1680}", "\u{200b}a", "  \u{e9}t\u{e9}  "] {
        assert_eq!(trim(s), s.trim());
    }
}

#[test]
fn white_space_agrees_with_std() {
    for n in 0u32..0x3100 {
        if let Some(c) = char::from_u32(n) {
            assert_eq!(is_space_char(c), c.is_whitespace());
        }
    }
}

#[test]
fn contains_finds_a_needle_anywhere() {
    assert!(contains("/jobs/1", "/jobs/"));
    assert!(contains("https://x.io/a/jobs/1", "/jobs/"));
    assert!(contains("abc", ""));
    assert!(contains("", ""));
    assert!(!contains("/careers/team", "/jobs/"));
    assert!(!contains("/jobs", "/jobs/"));
    assert!(!contains("", "a"));
}

#[test]
fn strip_affixes_removes_repeated_affixes() {
    assert_eq!(strip_affixes("xxabcyy", "x", "y"), "abc");
    assert_eq!(strip_affixes("abc", "x", "y"), "abc");
    assert_eq!(strip_affixes("abab", "ab", "ab"), "");
    assert_eq!(strip_affixes("aba", "ab", "a"), "");
    assert_eq!(strip_affixes("xay", "xa", "ay"), "y");
    assert_eq!(strip_affixes("abc", "", ""), "abc");
    assert_eq!(strip_affixes("aab", "a", ""), "b");
}

#[test]
fn decimal_text_writes_numbers() {
    assert_eq!(decimal_text(0), "0");
    assert_eq!(decimal_text(7), "7");
    assert_eq!(decimal_text(10), "10");
    assert_eq!(decimal_text(1234567890), "1234567890");
    assert_eq!(decimal_text(usize::MAX), usize::MAX.to_string());
}

#[test]
fn format_string_pads_a_short_text() {
    assert_eq!(format_string("abc", 6), "abc   ");
    assert_eq!(format_string("", 2), "  ");
}

#[test]
fn format_string_keeps_a_text_of_the_width() {
    assert_eq!(format_string("abcdef", 6), "abcdef");
    assert_eq!(format_string("", 0), "");
}

#[test]
fn format_string_cuts_a_long_text() {
    assert_eq!(format_string("abcdefghij", 6), "abc...");
    assert_eq!(format_string("abcd", 3), "...");
    assert_eq!(
        format_string("https://boards.greenhouse.io/radiant/jobs/4012345678", 40),
        "https://boards.greenhouse.io/radiant/..."
    );
}

#[test]
fn format_string_counts_characters() {
    assert_eq!(format_string("\u{e9}t\u{e9}", 5), "\u{e9}t\u{e9}  ");
    assert_eq!(format_string("\u{e9}\u{e9}\u{e9}\u{e9}\u{e9}", 4), "\u{e9}...");
}
