use plugin_registry::version::{compare_text, compare_versions, semver_greater};
use std::cmp::Ordering;

#[test]
fn numeric_fields_compare_as_numbers() {
    assert_eq!(compare_versions("1.2.3", "1.10.0"), Ordering::Less);
    assert_eq!(compare_versions("1.10.0", "1.2.3"), Ordering::Greater);
    assert!(semver_greater("1.10.0", "1.2.3"));
    assert!(!semver_greater("1.2.3", "1.10.0"));
}

#[test]
fn major_then_minor_then_patch() {
    assert_eq!(compare_versions("2.0.0", "1.99.99"), Ordering::Greater);
    assert_eq!(compare_versions("1.3.0", "1.2.9"), Ordering::Greater);
    assert_eq!(compare_versions("1.2.4", "1.2.3"), Ordering::Greater);
    assert_eq!(compare_versions("1.2.3", "1.2.3"), Ordering::Equal);
}

#[test]
fn prerelease_precedes_release() {
    assert_eq!(compare_versions("1.0.0-alpha", "1.0.0"), Ordering::Less);
    assert_eq!(compare_versions("1.0.0", "1.0.0-alpha"), Ordering::Greater);
    assert_eq!(compare_versions("1.0.0-alpha", "1.0.0-beta"), Ordering::Less);
    assert_eq!(compare_versions("1.0.0-alpha.2", "1.0.0-alpha.10"), Ordering::Less);
}

#[test]
fn build_metadata_orders_last() {
    assert_eq!(compare_versions("1.0.0+a", "1.0.0+b"), Ordering::Less);
    assert_eq!(compare_versions("1.0.1+a", "1.0.0+b"), Ordering::Greater);
}

#[test]
fn fallback_is_bytewise_and_antisymmetric() {
    assert_eq!(compare_versions("bad-version", "1.0.0"), Ordering::Greater);
    assert_eq!(compare_versions("1.0.0", "bad-version"), Ordering::Less);
    assert_eq!(
        compare_versions("bad-version", "1.0.0"),
        "bad-version".cmp("1.0.0")
    );
    assert!(semver_greater("bad-version", "1.0.0"));
    assert!(!semver_greater("1.0.0", "bad-version"));
}

#[test]
fn fallback_equal_only_for_same_text() {
    assert_eq!(compare_versions("abc", "abc"), Ordering::Equal);
    assert_eq!(compare_versions("abc", "abcd"), Ordering::Less);
    assert_eq!(compare_versions("v1.0", "v1.0.0"), Ordering::Less);
}

#[test]
fn text_comparison_is_bytewise() {
    assert_eq!(compare_text("", ""), Ordering::Equal);
    assert_eq!(compare_text("", "a"), Ordering::Less);
    assert_eq!(compare_text("b", "a"), Ordering::Greater);
    assert_eq!(compare_text("1.10.0", "1.2.3"), Ordering::Less);
    assert_eq!(compare_text("é", "z"), Ordering::Greater);
}
