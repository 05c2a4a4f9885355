//! Paths of attributes and entries.

use dissolve_derive::syntax::MetaPath;

fn path(leading_colon: bool, segments: &[&str]) -> MetaPath {
    MetaPath { leading_colon, segments: segments.iter().map(|s| s.to_string()).collect() }
}

#[test]
fn single_identifier_is_ident() {
    assert!(path(false, &["skip"]).is_ident("skip"));
    assert!(!path(false, &["skip"]).is_ident("rename"));
    assert!(!path(false, &["skip"]).is_ident("ski"));
    assert!(!path(false, &["skip"]).is_ident(""));
}

#[test]
fn leading_colon_or_more_segments_is_no_ident() {
    assert!(!path(true, &["skip"]).is_ident("skip"));
    assert!(!path(false, &["a", "skip"]).is_ident("skip"));
    assert!(!path(false, &["skip", "a"]).is_ident("skip"));
    assert!(!path(false, &[]).is_ident(""));
}

#[test]
fn ident_or_empty_gives_the_only_segment() {
    assert_eq!(path(false, &["visibility"]).ident_or_empty(), "visibility");
    assert_eq!(path(true, &["visibility"]).ident_or_empty(), "");
    assert_eq!(path(false, &["a", "b"]).ident_or_empty(), "");
    assert_eq!(path(false, &[]).ident_or_empty(), "");
}

#[test]
fn joined_puts_colons_between_segments() {
    assert_eq!(path(false, &[]).joined(), "");
    assert_eq!(path(false, &["a"]).joined(), "a");
    assert_eq!(path(false, &["a", "b"]).joined(), "a::b");
    assert_eq!(path(true, &["a", "b", "c"]).joined(), "a::b::c");
}

#[test]
fn duplicate_is_equal() {
    let original = path(true, &["crate", "inner", "x"]);
    assert_eq!(original.duplicate(), original);
    assert_eq!(path(false, &[]).duplicate(), path(false, &[]));
}
