use rog_quickswitch::text::{
    chars_of, decimal_string, parse_u32_str, split_words, str_eq, str_eq_ignore_ascii_case,
    trim_str, trimmed_string,
};

#[test]
fn decimal_of_zero_and_extremes() {
    assert_eq!(decimal_string(0), "0");
    assert_eq!(decimal_string(7), "7");
    assert_eq!(decimal_string(10), "10");
    assert_eq!(decimal_string(2400), "2400");
    assert_eq!(decimal_string(u32::MAX), "4294967295");
}

#[test]
fn decimal_matches_std_formatting() {
    for n in [0u32, 1, 9, 10, 99, 100, 101, 65535, 1_000_000, 123_456_789, u32::MAX] {
        assert_eq!(decimal_string(n), format!("{n}"));
    }
}

#[test]
fn parse_accepts_what_std_accepts() {
    assert_eq!(parse_u32_str("42"), Some(42));
    assert_eq!(parse_u32_str("+42"), Some(42));
    assert_eq!(parse_u32_str("007"), Some(7));
    assert_eq!(parse_u32_str("4294967295"), Some(u32::MAX));
}

#[test]
fn parse_rejects_what_std_rejects() {
    assert_eq!(parse_u32_str(""), None);
    assert_eq!(parse_u32_str("+"), None);
    assert_eq!(parse_u32_str("-1"), None);
    assert_eq!(parse_u32_str("12a"), None);
    assert_eq!(parse_u32_str(" 12"), None);
    assert_eq!(parse_u32_str("4294967296"), None);
    assert_eq!(parse_u32_str("99999999999999999999"), None);
    assert_eq!(parse_u32_str("++1"), None);
}

#[test]
fn parse_agrees_with_std_on_samples() {
    for s in ["", "+", "0", "+0", "-0", "1x", "x1", "4294967295", "4294967296", "٣", "00000000000042"] {
        assert_eq!(parse_u32_str(s), s.parse::<u32>().ok(), "input {s:?}");
    }
}

#[test]
fn decimal_then_parse_gives_the_number_back() {
    for n in [0u32, 5, 10, 4096, 99_999, u32::MAX] {
        assert_eq!(parse_u32_str(&decimal_string(n)), Some(n));
    }
}

#[test]
fn trim_removes_unicode_whitespace_at_both_ends() {
    assert_eq!(trim_str("  quiet\n"), "quiet");
    assert_eq!(trim_str("\u{3000}x y\u{a0}\t"), "x y");
    assert_eq!(trim_str(" \n\t "), "");
    assert_eq!(trim_str(""), "");
    for s in ["\r\nabc\r\n", "\u{85}a\u{2029}", "no-space", "\u{200b}z"] {
        assert_eq!(trim_str(s), s.trim());
    }
    assert_eq!(trimmed_string(" a "), "a".to_string());
}

#[test]
fn case_insensitive_comparison_is_ascii_only() {
    assert!(str_eq_ignore_ascii_case("cpu", "CPU"));
    assert!(str_eq_ignore_ascii_case("Tctl", "TCTL"));
    assert!(!str_eq_ignore_ascii_case("CPU ", "CPU"));
    assert!(!str_eq_ignore_ascii_case("GPU", "CPU"));
    assert!(!str_eq_ignore_ascii_case("É", "é"));
    assert!(str_eq_ignore_ascii_case("é", "é"));
}

#[test]
fn exact_comparison() {
    assert!(str_eq("quiet", "quiet"));
    assert!(!str_eq("quiet", "Quiet"));
    assert!(!str_eq("quiet", "quiet "));
    assert!(str_eq("", ""));
}

#[test]
fn chars_follow_the_text() {
    assert_eq!(chars_of("a→b"), vec!['a', '→', 'b']);
    assert!(chars_of("").is_empty());
}

#[test]
fn words_split_on_any_whitespace() {
    assert_eq!(split_words("quiet balanced performance\n"), vec!["quiet", "balanced", "performance"]);
    assert_eq!(split_words("  a\t\tb \u{3000}c  "), vec!["a", "b", "c"]);
    assert!(split_words("   ").is_empty());
    assert!(split_words("").is_empty());
    let s = "low-power  quiet\nbalanced";
    let std_words: Vec<String> = s.split_whitespace().map(String::from).collect();
    assert_eq!(split_words(s), std_words);
}
