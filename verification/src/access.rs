//! Access to the repositories below a base directory.

use std::path::PathBuf;

use vstd::prelude::*;

use crate::error::Error;

verus! {

/// `git2::Repository`, an open repository, carried through opaquely.
#[verifier::external_type_specification]
#[verifier::external_body]
pub struct ExRepository(git2::Repository);

/// Access to the repositories below a base directory.
pub struct Access {
    base_path: PathBuf,
}

impl Access {
    /// The directory below which repositories are looked for.
    pub closed spec fn base(&self) -> PathBuf {
        self.base_path
    }

    /// Access below `base_path`.
    pub fn new(base_path: PathBuf) -> (r: Self)
        ensures
            r.base() == base_path,
    {
        Access { base_path }
    }

    /// The repositories below the base directory; none are listed yet.
    pub fn list_repositories(&self) -> (r: Result<Vec<git2::Repository>, Error>)
        ensures
            r matches Ok(v) && v@.len() == 0,
    {
        let results: Vec<git2::Repository> = Vec::new();
        Ok(results)
    }
}

} // verus!
