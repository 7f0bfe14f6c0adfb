use mediaplan::text::has_substring;
use mediaplan::text::parse_u64_digits;
use mediaplan::text::split_ws;
use mediaplan::text::str_eq;
use mediaplan::text::trim_str;

#[test]
fn substring_search_edges() {
    assert!(has_substring("Requested format is not available", "format is not available"));
    assert!(has_substring("abc", ""));
    assert!(has_substring("", ""));
    assert!(!has_substring("", "a"));
    assert!(!has_substring("abc", "abcd"));
    assert!(has_substring("aaab", "aab"));
}

#[test]
fn string_equality_is_character_wise() {
    assert!(str_eq("copy", "copy"));
    assert!(!str_eq("copy", "Copy"));
    assert!(!str_eq("copy", "cop"));
    assert!(str_eq("", ""));
}

#[test]
fn whitespace_split_exact() {
    let toks = split_ws("  --newline \t -ciw \n");
    assert_eq!(toks, vec!["--newline".to_string(), "-ciw".to_string()]);
    assert!(split_ws("").is_empty());
    assert!(split_ws("   \t ").is_empty());
    assert_eq!(split_ws("one"), vec!["one".to_string()]);
}

#[test]
fn trim_removes_only_outer_whitespace() {
    assert_eq!(trim_str(" \t2024.08.06\r\n"), "2024.08.06");
    assert_eq!(trim_str("a b"), "a b");
    assert_eq!(trim_str("   "), "");
}

#[test]
fn digit_parsing_at_the_limits() {
    assert_eq!(parse_u64_digits("0"), Some(0));
    assert_eq!(parse_u64_digits("18446744073709551615"), Some(u64::MAX));
    assert_eq!(parse_u64_digits("18446744073709551616"), None);
    assert_eq!(parse_u64_digits(""), None);
    assert_eq!(parse_u64_digits("12a"), None);
    assert_eq!(parse_u64_digits("+12"), None);
}
