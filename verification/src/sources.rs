//! The decisions taken while scanning the configured source directories
//! for repositories, and the verdict on the scan as a whole.

use vstd::prelude::*;
use vstd::string::*;

use crate::text::{join, joined};

verus! {

/// What the scan does with a directory entry.
pub enum WalkStep {
    /// Nothing: it walks on (into it, if it is a directory).
    Continue,
    /// It does not descend into this directory.
    SkipDir,
    /// It tries to open this directory as a repository.
    ProbeRepository,
}

/// The name of directories the scan never enters.
pub open spec fn skipped_dir_name() -> Seq<char> {
    ".virtualenv"@
}

/// What the scan does with an entry: files are passed over, directories
/// named `.virtualenv` are not entered, and every other directory is
/// tried as a repository.
pub fn walk_step(is_dir: bool, file_name: &str) -> (r: WalkStep)
    ensures
        !is_dir ==> r is Continue,
        is_dir && file_name@ == skipped_dir_name() ==> r is SkipDir,
        is_dir && file_name@ != skipped_dir_name() ==> r is ProbeRepository,
{
    if !is_dir {
        WalkStep::Continue
    } else {
        let name = String::from_str(file_name);
        let skipped = String::from_str(".virtualenv");
        if name == skipped {
            WalkStep::SkipDir
        } else {
            WalkStep::ProbeRepository
        }
    }
}

/// What the scan does with a directory it tried as a repository.
pub enum ProbeStep {
    /// It is no repository: the scan walks into it.
    Descend,
    /// It is a repository whose details could not be read: the scan notes
    /// the failure and does not descend into it.
    RecordFailure,
    /// It is a repository whose details were read: the scan records it and
    /// does not descend into it.
    Register,
}

/// What the scan does with a directory it tried as a repository, given
/// whether it opened as one and, if so, whether its details could be read.
pub fn probe_step(opened: bool, details_read: bool) -> (r: ProbeStep)
    ensures
        !opened ==> r is Descend,
        opened && !details_read ==> r is RecordFailure,
        opened && details_read ==> r is Register,
{
    if !opened {
        ProbeStep::Descend
    } else if !details_read {
        ProbeStep::RecordFailure
    } else {
        ProbeStep::Register
    }
}

/// The message when the scan of the sources failed.
pub open spec fn failures_message(failed: Seq<Seq<char>>) -> Seq<char> {
    "Failed to add sources: \n"@ + joined(failed, "\n"@)
}

/// The verdict on a scan of all sources, given one line for each source
/// that failed: the scan fails only when more than one source failed,
/// with a message listing them one per line.
pub fn failures_report(failed: &Vec<String>) -> (r: Result<(), String>)
    ensures
        failed@.len() <= 1 ==> r is Ok,
        failed@.len() > 1 ==> (r matches Err(m) && m@ == failures_message(
            failed@.map_values(|s: String| s@),
        )),
{
    if failed.len() > 1 {
        let mut m = String::from_str("Failed to add sources: \n");
        let lines = join(failed, "\n");
        m.append(lines.as_str());
        Err(m)
    } else {
        Ok(())
    }
}

} // verus!
