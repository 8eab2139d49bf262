use std::path::PathBuf;

use nobs::state::Repositories;
use nobs::views::{
    find_requested, log_entry_listed, log_title, log_walk_continues, requested_rev, rev_title, ViewFailure,
    LOG_LIMIT,
};
use nobs::RepoInfo;

#[test]
fn requested_repository() {
    let mut r = Repositories::new();
    r.insert("a".to_string(), RepoInfo { name: "a".to_string(), path: PathBuf::from("/a") });
    assert!(matches!(find_requested(Some(&r), None), Err(ViewFailure::MissingRepository)));
    assert!(matches!(find_requested(None, None), Err(ViewFailure::MissingRepository)));
    assert!(matches!(find_requested(None, Some("a")), Err(ViewFailure::LockFailed)));
    assert!(matches!(find_requested(Some(&r), Some("b")), Err(ViewFailure::RepositoryNotFound)));
    assert_eq!(find_requested(Some(&r), Some("a")).ok().unwrap().path, PathBuf::from("/a"));
}

#[test]
fn requested_revision() {
    assert!(matches!(requested_rev(None), Err(ViewFailure::MissingRev)));
    assert_eq!(requested_rev(Some("master")).ok().unwrap(), "master");
}

#[test]
fn titles() {
    assert_eq!(rev_title("master", "nobs"), "master - nobs");
    assert_eq!(log_title("v1", "tools/x"), "Log - v1 - tools/x");
}

#[test]
fn log_walk_limit() {
    assert!(log_walk_continues(1, true));
    assert!(log_walk_continues(LOG_LIMIT, true));
    assert!(!log_walk_continues(LOG_LIMIT + 1, true));
    assert!(!log_walk_continues(1, false));
}

#[test]
fn failure_answers() {
    assert_eq!(ViewFailure::MissingRepository.status(), 400);
    assert_eq!(ViewFailure::MissingRepository.message(), "Did not specify a repository.");
    assert_eq!(ViewFailure::LockFailed.status(), 500);
    assert_eq!(ViewFailure::LockFailed.message(), "Could not acquire lock on repositories.");
    assert_eq!(ViewFailure::RepositoryNotFound.status(), 404);
    assert_eq!(ViewFailure::RepositoryNotFound.message(), "Repository not found.");
    assert_eq!(ViewFailure::OpenFailed("e".to_string()).status(), 500);
    assert_eq!(ViewFailure::OpenFailed("e".to_string()).message(), "Couldn't find repository: e");
    assert_eq!(ViewFailure::DetailsFailed("e".to_string()).status(), 500);
    assert_eq!(
        ViewFailure::DetailsFailed("e".to_string()).message(),
        "Failed to retrieve details: e"
    );
    assert_eq!(ViewFailure::MissingRev.status(), 400);
    assert_eq!(ViewFailure::MissingRev.message(), "Did not specify a rev.");
    assert_eq!(ViewFailure::BadRev("e".to_string()).status(), 400);
    assert_eq!(ViewFailure::BadRev("e".to_string()).message(), "Could not parse rev: e");
    assert_eq!(ViewFailure::Template("e".to_string()).status(), 500);
    assert_eq!(ViewFailure::Template("e".to_string()).message(), "Template error: e");
}

#[test]
fn log_entries_listed() {
    assert!(log_entry_listed(true, true));
    assert!(!log_entry_listed(true, false));
    assert!(!log_entry_listed(false, true));
    assert!(!log_entry_listed(false, false));
}
