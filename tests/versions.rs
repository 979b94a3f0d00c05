use std::cmp::Ordering;

use opencode_cli::sync::{decide_versions, SkipReason, SyncDecision};
use opencode_cli::version::{compare_versions, parse_version, Version};

fn v(text: &str) -> Version {
    parse_version(text).unwrap()
}

#[test]
fn parse_reads_fields() {
    let p = v("1.2.3-beta.1+build.7");
    assert_eq!((p.major, p.minor, p.patch), (1, 2, 3));
    assert_eq!(p.pre, "beta.1");
}

#[test]
fn parse_rejects_garbage() {
    assert!(parse_version("garbage").is_err());
    assert!(parse_version("").is_err());
    assert!(parse_version("1.2").is_err());
}

#[test]
fn release_is_not_older_than_its_prerelease() {
    assert_eq!(compare_versions(&v("1.2.0"), &v("1.2.0-beta")), Ordering::Greater);
    assert_eq!(compare_versions(&v("1.2.0-beta"), &v("1.2.0")), Ordering::Less);
}

#[test]
fn numeric_fields_compare_numerically() {
    assert_eq!(compare_versions(&v("1.9.0"), &v("1.10.0")), Ordering::Less);
    assert_eq!(compare_versions(&v("2.0.0"), &v("1.99.99")), Ordering::Greater);
    assert_eq!(compare_versions(&v("0.9.0"), &v("1.0.0")), Ordering::Less);
}

#[test]
fn prerelease_tags_by_precedence() {
    assert_eq!(compare_versions(&v("1.0.0-alpha"), &v("1.0.0-beta")), Ordering::Less);
    assert_eq!(compare_versions(&v("1.0.0-beta.2"), &v("1.0.0-beta.11")), Ordering::Less);
    assert_eq!(compare_versions(&v("1.0.0-alpha"), &v("1.0.0-alpha.1")), Ordering::Less);
}

#[test]
fn build_metadata_takes_no_part() {
    assert_eq!(compare_versions(&v("1.0.0+abc"), &v("1.0.0")), Ordering::Equal);
}

#[test]
fn decide_installs_only_when_older() {
    assert_eq!(decide_versions(&v("0.9.0"), &v("1.0.0")), SyncDecision::Install);
    assert_eq!(decide_versions(&v("1.2.0-beta"), &v("1.2.0")), SyncDecision::Install);
    assert_eq!(decide_versions(&v("1.2.0"), &v("1.2.0-beta")), SyncDecision::Skip(SkipReason::UpToDate));
    assert_eq!(decide_versions(&v("1.0.0"), &v("1.0.0")), SyncDecision::Skip(SkipReason::UpToDate));
    assert_eq!(decide_versions(&v("1.1.0"), &v("1.0.0")), SyncDecision::Skip(SkipReason::UpToDate));
}
