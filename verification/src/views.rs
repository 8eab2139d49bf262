//! The decisions of the repository pages: which repository and revision a
//! request names, how each failure is answered, the page titles, and how
//! far the log page walks back through history.

use vstd::prelude::*;
use vstd::string::*;

use crate::repo::RepoInfo;
use crate::state::Repositories;

verus! {

/// Why a page could not be produced.
pub enum ViewFailure {
    /// The request named no repository.
    MissingRepository,
    /// The repository list could not be locked.
    LockFailed,
    /// No repository has the requested name.
    RepositoryNotFound,
    /// The repository could not be opened; the text says why.
    OpenFailed(String),
    /// The repository's details could not be read; the text says why.
    DetailsFailed(String),
    /// The request named no revision.
    MissingRev,
    /// The requested revision could not be resolved; the text says why.
    BadRev(String),
    /// The page template could not be rendered; the text says why.
    Template(String),
}

/// The HTTP status a failure is answered with.
pub open spec fn failure_status(f: ViewFailure) -> u16 {
    match f {
        ViewFailure::MissingRepository => 400,
        ViewFailure::LockFailed => 500,
        ViewFailure::RepositoryNotFound => 404,
        ViewFailure::OpenFailed(_) => 500,
        ViewFailure::DetailsFailed(_) => 500,
        ViewFailure::MissingRev => 400,
        ViewFailure::BadRev(_) => 400,
        ViewFailure::Template(_) => 500,
    }
}

/// The text a failure is answered with.
pub open spec fn failure_message(f: ViewFailure) -> Seq<char> {
    match f {
        ViewFailure::MissingRepository => "Did not specify a repository."@,
        ViewFailure::LockFailed => "Could not acquire lock on repositories."@,
        ViewFailure::RepositoryNotFound => "Repository not found."@,
        ViewFailure::OpenFailed(d) => "Couldn't find repository: "@ + d@,
        ViewFailure::DetailsFailed(d) => "Failed to retrieve details: "@ + d@,
        ViewFailure::MissingRev => "Did not specify a rev."@,
        ViewFailure::BadRev(d) => "Could not parse rev: "@ + d@,
        ViewFailure::Template(d) => "Template error: "@ + d@,
    }
}

fn prefixed(prefix: &str, detail: &String) -> (r: String)
    ensures
        r@ == prefix@ + detail@,
{
    let mut m = String::from_str(prefix);
    m.append(detail.as_str());
    m
}

impl ViewFailure {
    /// The HTTP status this failure is answered with.
    pub fn status(&self) -> (r: u16)
        ensures
            r == failure_status(*self),
    {
        match self {
            ViewFailure::MissingRepository => 400,
            ViewFailure::LockFailed => 500,
            ViewFailure::RepositoryNotFound => 404,
            ViewFailure::OpenFailed(_) => 500,
            ViewFailure::DetailsFailed(_) => 500,
            ViewFailure::MissingRev => 400,
            ViewFailure::BadRev(_) => 400,
            ViewFailure::Template(_) => 500,
        }
    }

    /// The text this failure is answered with.
    pub fn message(&self) -> (r: String)
        ensures
            r@ == failure_message(*self),
    {
        match self {
            ViewFailure::MissingRepository => String::from_str("Did not specify a repository."),
            ViewFailure::LockFailed => String::from_str("Could not acquire lock on repositories."),
            ViewFailure::RepositoryNotFound => String::from_str("Repository not found."),
            ViewFailure::OpenFailed(d) => prefixed("Couldn't find repository: ", d),
            ViewFailure::DetailsFailed(d) => prefixed("Failed to retrieve details: ", d),
            ViewFailure::MissingRev => String::from_str("Did not specify a rev."),
            ViewFailure::BadRev(d) => prefixed("Could not parse rev: ", d),
            ViewFailure::Template(d) => prefixed("Template error: ", d),
        }
    }
}

/// The repository a request names, given the repositories if their list
/// could be locked: an error when the request names none, when the list
/// could not be locked, or when no repository has the name; else the
/// repository known under that name.
pub fn find_requested(repositories: Option<&Repositories>, name: Option<&str>) -> (r: Result<
    RepoInfo,
    ViewFailure,
>)
    ensures
        match (name, repositories) {
            (None, _) => r matches Err(ViewFailure::MissingRepository),
            (Some(_), None) => r matches Err(ViewFailure::LockFailed),
            (Some(n), Some(repos)) => if repos@.contains_key(n@) {
                r == Ok::<RepoInfo, ViewFailure>(repos@[n@])
            } else {
                r matches Err(ViewFailure::RepositoryNotFound)
            },
        },
{
    match name {
        None => Err(ViewFailure::MissingRepository),
        Some(n) => match repositories {
            None => Err(ViewFailure::LockFailed),
            Some(repos) => match repos.get(n) {
                Some(info) => Ok(info),
                None => Err(ViewFailure::RepositoryNotFound),
            },
        },
    }
}

/// The revision a request names, or an error when it names none.
pub fn requested_rev(rev: Option<&str>) -> (r: Result<String, ViewFailure>)
    ensures
        match rev {
            None => r matches Err(ViewFailure::MissingRev),
            Some(v) => r matches Ok(s) && s@ == v@,
        },
{
    match rev {
        None => Err(ViewFailure::MissingRev),
        Some(v) => Ok(String::from_str(v)),
    }
}

/// The title of a revision's page: `"<rev> - <repository>"`.
pub fn rev_title(rev: &str, repo_name: &str) -> (r: String)
    ensures
        r@ == rev@ + " - "@ + repo_name@,
{
    let mut t = String::from_str(rev);
    t.append(" - ");
    t.append(repo_name);
    t
}

/// The title of a revision's log page: `"Log - <rev> - <repository>"`.
pub fn log_title(rev: &str, repo_name: &str) -> (r: String)
    ensures
        r@ == "Log - "@ + rev@ + " - "@ + repo_name@,
{
    let mut t = String::from_str("Log - ");
    t.append(rev);
    t.append(" - ");
    t.append(repo_name);
    t
}

/// Whether the log page lists the next entry of its walk: only when the walk
/// yielded an entry without error and that entry's object was found; else
/// the walk ends there.
pub fn log_entry_listed(walked: bool, found: bool) -> (r: bool)
    ensures
        r == (walked && found),
{
    walked && found
}

/// How many listed entries the log page may hold before it stops walking
/// (it stops once it holds more than this many).
pub const LOG_LIMIT: usize = 100;

/// Whether the log page walks on to the next entry, having just listed an
/// entry (`listed` entries in all) that was a commit or not: it goes on
/// only past commits, and only while it holds at most `LOG_LIMIT` entries.
pub open spec fn walks_on(listed: nat, was_commit: bool) -> bool {
    was_commit && listed <= LOG_LIMIT
}

/// The log walk goes on past every commit while it holds at most 100
/// entries, and stops at anything that is not a commit or once it holds
/// more than 100; so a walk that lists one entry per step never lists more
/// than 101 entries.
pub proof fn lemma_log_length_bounded(listed: nat, was_commit: bool)
    ensures
        walks_on(listed, was_commit) ==> listed + 1 <= LOG_LIMIT + 1,
        walks_on(listed, was_commit) ==> listed + 1 <= 101,
        was_commit && listed <= 100 ==> walks_on(listed, was_commit),
        !was_commit ==> !walks_on(listed, was_commit),
        listed > 100 ==> !walks_on(listed, was_commit),
{
}

/// Whether the log page walks on to the next entry (see `walks_on`).
pub fn log_walk_continues(listed: usize, was_commit: bool) -> (r: bool)
    ensures
        r == walks_on(listed as nat, was_commit),
{
    was_commit && listed <= LOG_LIMIT
}

} // verus!
