use activity_agent::text::contains_sub;
use activity_agent::text::trim_to_string;

#[test]
fn substring_found_in_middle() {
    assert!(contains_sub("Google Chrome Beta", "Chrome"));
}

#[test]
fn substring_found_at_ends() {
    assert!(contains_sub("Chrome", "Chrome"));
    assert!(contains_sub("Chrome Beta", "Chrome"));
    assert!(contains_sub("Google Chrome", "Chrome"));
}

#[test]
fn substring_absent() {
    assert!(!contains_sub("Notepad", "Chrome"));
    assert!(!contains_sub("Chrom", "Chrome"));
}

#[test]
fn empty_needle_always_matches() {
    assert!(contains_sub("", ""));
    assert!(contains_sub("abc", ""));
}

#[test]
fn needle_longer_than_haystack_never_matches() {
    assert!(!contains_sub("ab", "abc"));
}

#[test]
fn substring_with_multibyte_characters() {
    assert!(contains_sub("héllo wörld", "wör"));
    assert!(!contains_sub("héllo", "wör"));
}

#[test]
fn trim_removes_ascii_whitespace_at_both_ends() {
    assert_eq!(trim_to_string(" \t\r\nurl \n"), "url");
}

#[test]
fn trim_keeps_inner_whitespace() {
    assert_eq!(trim_to_string("  a b  "), "a b");
}

#[test]
fn trim_of_all_whitespace_is_empty() {
    assert_eq!(trim_to_string(" \u{a0}\u{2003}\t\n"), "");
}

#[test]
fn trim_removes_unicode_whitespace() {
    assert_eq!(trim_to_string("\u{a0}x\u{3000}"), "x");
}

#[test]
fn trim_of_empty_is_empty() {
    assert_eq!(trim_to_string(""), "");
}
