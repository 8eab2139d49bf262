use std::path::PathBuf;

use nobs::text::{join, starts_with, trim_start_matches};
use nobs::Access;

#[test]
fn prefixes() {
    assert!(starts_with("/+static/x", "/+static"));
    assert!(starts_with("abc", ""));
    assert!(!starts_with("ab", "abc"));
    assert!(starts_with("héllo", "hé"));
    assert_eq!(trim_start_matches("ababc", "ab"), "c");
    assert_eq!(trim_start_matches("abc", ""), "abc");
    assert_eq!(trim_start_matches("xab", "ab"), "xab");
}

#[test]
fn trimming_twice_changes_nothing() {
    let once = trim_start_matches("/+static//+static/x/+static/", "/+static/");
    assert_eq!(once, "x/+static/");
    assert_eq!(trim_start_matches(&once, "/+static/"), once);
    assert!(!starts_with(&once, "/+static/"));
}

#[test]
fn joining() {
    assert_eq!(join(&vec![], ", "), "");
    assert_eq!(join(&vec!["a".to_string()], ", "), "a");
    assert_eq!(join(&vec!["a".to_string(), "b".to_string(), "c".to_string()], ", "), "a, b, c");
}

#[test]
fn access_lists_nothing_yet() {
    let a = Access::new(PathBuf::from("/srv/git"));
    assert!(a.list_repositories().ok().unwrap().is_empty());
}
