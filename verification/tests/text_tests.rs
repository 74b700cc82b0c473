use hstack::text::{
    concat2, concat3, concat4, concat5, contains, eq_ignore_ascii_case, has_blank,
    i64_text, is_blank, join_strings, lines_of, split_char, starts_with, text_less,
    to_ascii_lowercase, trim, trim_start_matches, u64_text,
};

#[test]
fn trims_and_spots_blanks() {
    assert_eq!(trim("  a b \n\t"), "a b");
    assert_eq!(trim(""), "");
    assert!(is_blank(" \t\n"));
    assert!(!is_blank(" x "));
    assert!(has_blank(&vec!["a".to_string(), "  ".to_string()]));
    assert!(!has_blank(&vec!["a".to_string()]));
}

#[test]
fn numbers_in_decimal() {
    assert_eq!(u64_text(0), "0");
    assert_eq!(u64_text(18446744073709551615), "18446744073709551615");
    assert_eq!(i64_text(-42), "-42");
    assert_eq!(i64_text(i64::MIN), "-9223372036854775808");
    assert_eq!(i64_text(7), "7");
}

#[test]
fn splitting_and_joining() {
    assert_eq!(split_char("a,,b", ','), vec!["a", "", "b"]);
    assert_eq!(split_char("", ','), vec![""]);
    assert_eq!(lines_of("a\r\nb\nc"), vec!["a", "b", "c"]);
    assert_eq!(lines_of("a\n"), vec!["a"]);
    assert_eq!(join_strings(&vec!["x".to_string(), "y".to_string(), "z".to_string()], ", "), "x, y, z");
    assert_eq!(join_strings(&vec![], "-"), "");
}

#[test]
fn case_and_comparison() {
    assert_eq!(to_ascii_lowercase("ÉCOLE Ab"), "École ab");
    assert!(eq_ignore_ascii_case("Hello", "hELLO"));
    assert!(!eq_ignore_ascii_case("Hello", "Hell"));
    assert!(text_less("abc", "abd"));
    assert!(text_less("ab", "abc"));
    assert!(!text_less("abc", "abc"));
    assert!(!text_less("b", "abc"));
}

#[test]
fn searching_and_concatenating() {
    assert!(contains("hello world", "o w"));
    assert!(contains("x", ""));
    assert!(!contains("hello", "hello!"));
    assert!(starts_with("DTSTART:2026", "DTSTART:"));
    assert!(!starts_with("DT", "DTSTART:"));
    assert_eq!(trim_start_matches("///a/b", "/"), "a/b");
    assert_eq!(trim_start_matches("abab-c", "ab"), "-c");
    assert_eq!(concat2("a", "b"), "ab");
    assert_eq!(concat3("a", "b", "c"), "abc");
    assert_eq!(concat4("a", "b", "c", "d"), "abcd");
    assert_eq!(concat5("a", "b", "c", "d", "e"), "abcde");
}

#[test]
fn unicode_white_space_counts_as_blank() {
    assert!(is_blank("\u{3000}\u{2003}\u{a0}\u{85}"));
    assert_eq!(trim("\u{3000} Gare du Nord \u{2029}"), "Gare du Nord");
    assert!(!is_blank("\u{200b}"));
}
