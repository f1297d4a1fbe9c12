use ktx::text::{contains_str, matches_filter, starts_with_str, str_eq};

#[test]
fn substring_containment_basics() {
    assert!(contains_str("hello world", "world"));
    assert!(contains_str("hello world", ""));
    assert!(contains_str("abc", "abc"));
    assert!(!contains_str("abc", "abcd"));
    assert!(!contains_str("abc", "ac"));
    assert!(contains_str("", ""));
    assert!(!contains_str("", "a"));
}

#[test]
fn matching_is_case_insensitive() {
    // would fail if lowercasing handed its argument back unchanged
    assert!(matches_filter("PROD-cluster", "prod"));
    assert!(matches_filter("prod-cluster", "PROD"));
    assert!(matches_filter("Staging", "TAG"));
    assert!(!matches_filter("prod", "dev"));
}

#[test]
fn empty_filter_matches_everything() {
    assert!(matches_filter("anything", ""));
    assert!(matches_filter("", ""));
}

#[test]
fn prefix_test_is_exact() {
    assert!(starts_with_str("sys-123", "sys-"));
    assert!(!starts_with_str("system", "sys-"));
    assert!(starts_with_str("abc", ""));
    assert!(!starts_with_str("sy", "sys-"));
}

#[test]
fn string_equality_by_characters() {
    assert!(str_eq("aws", "aws"));
    assert!(!str_eq("aws", "gcp"));
    assert!(!str_eq("aws", "aws "));
}
