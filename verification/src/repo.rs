//! What the viewer knows of a repository: where it lives, and the details
//! shown on its page (local branches, description, latest commits).

use std::path::PathBuf;

use vstd::prelude::*;

use crate::config::strings_view;

verus! {

/// `std::path::PathBuf`, carried through opaquely.
#[verifier::external_type_specification]
#[verifier::external_body]
pub struct ExPathBuf(PathBuf);

/// `PathBuf::clone`: a copy of the path.  Stated: the copy is the same path.
#[verifier::external_body]
fn clone_path(p: &PathBuf) -> (r: PathBuf)
    ensures
        r == *p,
{
    p.clone()
}

/// A repository found under one of the configured sources.
pub struct RepoInfo {
    /// Its path relative to the source it was found under.
    pub name: String,
    /// Where it lives on disk.
    pub path: PathBuf,
}

impl Clone for RepoInfo {
    /// The same name and path.
    fn clone(&self) -> (r: Self)
        ensures
            r == *self,
    {
        RepoInfo { name: self.name.clone(), path: clone_path(&self.path) }
    }
}

/// One commit as listed on a page.
pub struct CommitDetails {
    pub hash: String,
    pub author: String,
    pub summary: String,
}

impl Clone for CommitDetails {
    /// The same hash, author and summary.
    fn clone(&self) -> (r: Self)
        ensures
            r == *self,
    {
        CommitDetails {
            hash: self.hash.clone(),
            author: self.author.clone(),
            summary: self.summary.clone(),
        }
    }
}

/// The details shown on a repository's page.
pub struct RepoDetails {
    pub branches: Vec<String>,
    pub description: String,
    pub commits: Vec<CommitDetails>,
}

/// A branch of a repository: its name, and whether it is local (as opposed
/// to remote-tracking).
pub struct BranchEntry {
    pub name: String,
    pub local: bool,
}

/// The branch a repository's page is shown from: its local `master` branch
/// when there is one, else the first branch listed.
pub fn shown_branch<B>(master: Option<B>, first: Option<B>) -> (r: Option<B>)
    ensures
        r == (if master is Some {
            master
        } else {
            first
        }),
{
    match master {
        Some(b) => Some(b),
        None => first,
    }
}

/// How many of the latest commits a repository's page lists.
pub const RECENT_COMMITS: usize = 5;

/// The names of the local branches among `branches`, in order.
pub open spec fn local_branch_names(branches: Seq<BranchEntry>) -> Seq<Seq<char>>
    decreases branches.len(),
{
    if branches.len() == 0 {
        Seq::empty()
    } else {
        let rest = local_branch_names(branches.drop_last());
        if branches.last().local {
            rest.push(branches.last().name@)
        } else {
            rest
        }
    }
}

/// The commits that were read, of the entries `walk`, in order (an entry
/// is `None` where the commit could not be read).
pub open spec fn read_commits(walk: Seq<Option<CommitDetails>>) -> Seq<CommitDetails>
    decreases walk.len(),
{
    if walk.len() == 0 {
        Seq::empty()
    } else {
        let rest = read_commits(walk.drop_last());
        match walk.last() {
            Some(c) => rest.push(c),
            None => rest,
        }
    }
}

/// The first `RECENT_COMMITS` entries of a walk (all of them if fewer).
pub open spec fn recent_entries(walk: Seq<Option<CommitDetails>>) -> Seq<Option<CommitDetails>> {
    if walk.len() <= RECENT_COMMITS {
        walk
    } else {
        walk.take(RECENT_COMMITS as int)
    }
}

/// No more commits are read than there are entries in the walk.
pub proof fn lemma_read_commits_len(walk: Seq<Option<CommitDetails>>)
    ensures
        read_commits(walk).len() <= walk.len(),
    decreases walk.len(),
{
    if walk.len() > 0 {
        lemma_read_commits_len(walk.drop_last());
    }
}

/// A repository's page lists at most `RECENT_COMMITS` commits.
pub proof fn lemma_recent_commits_bounded(walk: Seq<Option<CommitDetails>>)
    ensures
        read_commits(recent_entries(walk)).len() <= RECENT_COMMITS,
{
    lemma_read_commits_len(recent_entries(walk));
}

proof fn lemma_read_commits_shape(w: Seq<Option<CommitDetails>>)
    ensures
        read_commits(w) == w.filter_map(|e: Option<CommitDetails>| e),
        forall|j: int|
            0 <= j < read_commits(w).len() ==> exists|i: int|
                0 <= i < w.len() && #[trigger] w[i] == Some(#[trigger] read_commits(w)[j]),
        forall|i: int|
            0 <= i < w.len() && (#[trigger] w[i]) is Some ==> read_commits(w).contains(w[i]->0),
    decreases w.len(),
{
    if w.len() > 0 {
        let rest = w.drop_last();
        lemma_read_commits_shape(rest);
        let r = read_commits(w);
        let rr = read_commits(rest);
        assert(r =~= w.filter_map(|e: Option<CommitDetails>| e));
        assert forall|j: int| 0 <= j < r.len() implies exists|i: int|
            0 <= i < w.len() && #[trigger] w[i] == Some(#[trigger] r[j]) by {
            if j < rr.len() {
                assert(r[j] == rr[j]);
                let i = choose|i: int| 0 <= i < rest.len() && #[trigger] rest[i] == Some(rr[j]);
                assert(w[i] == rest[i]);
            } else {
                assert(w[w.len() - 1] == Some(r[j]));
            }
        }
        assert forall|i: int| 0 <= i < w.len() && (#[trigger] w[i]) is Some implies r.contains(
            w[i]->0,
        ) by {
            if i < w.len() - 1 {
                assert(rest[i] == w[i]);
                let k = choose|k: int| 0 <= k < rr.len() && rr[k] == w[i]->0;
                assert(r[k] == rr[k]);
            } else {
                assert(r[r.len() - 1] == w[i]->0);
            }
        }
    }
}

/// The first five entries of `walk` (all of them if fewer).
pub open spec fn first_five(walk: Seq<Option<CommitDetails>>) -> Seq<Option<CommitDetails>> {
    walk.take(if walk.len() <= 5 { walk.len() as int } else { 5 })
}

/// The commits a repository's page lists are exactly the commits that
/// were read among the first five entries of the walk: unchanged, in the
/// walk's order, each listed one taken from such an entry, and every such
/// entry listed.
pub proof fn lemma_listed_commits_are_read_entries(walk: Seq<Option<CommitDetails>>)
    ensures
        read_commits(recent_entries(walk)) == first_five(walk).filter_map(
            |e: Option<CommitDetails>| e,
        ),
        forall|j: int|
            0 <= j < read_commits(recent_entries(walk)).len() ==> exists|i: int|
                0 <= i < walk.len() && i < 5 && #[trigger] walk[i] == Some(
                    #[trigger] read_commits(recent_entries(walk))[j],
                ),
        forall|i: int|
            0 <= i < walk.len() && i < 5 && (#[trigger] walk[i]) is Some ==> read_commits(
                recent_entries(walk),
            ).contains(walk[i]->0),
{
    let window = first_five(walk);
    assert(recent_entries(walk) =~= window);
    lemma_read_commits_shape(window);
    let listed = read_commits(window);
    assert forall|j: int| 0 <= j < listed.len() implies exists|i: int|
        0 <= i < walk.len() && i < 5 && #[trigger] walk[i] == Some(#[trigger] listed[j]) by {
        let i = choose|i: int| 0 <= i < window.len() && #[trigger] window[i] == Some(listed[j]);
        assert(walk[i] == window[i]);
    }
    assert forall|i: int| 0 <= i < walk.len() && i < 5 && (#[trigger] walk[i]) is Some implies listed.contains(
        walk[i]->0,
    ) by {
        assert(window[i] == walk[i]);
    }
}

/// Whether `name` is the name of a local branch among `branches`.
pub open spec fn is_local_branch_name(branches: Seq<BranchEntry>, name: Seq<char>) -> bool {
    exists|i: int| 0 <= i < branches.len() && (#[trigger] branches[i]).local && branches[i].name@ == name
}

proof fn lemma_local_branch_names_shape(bs: Seq<BranchEntry>)
    ensures
        local_branch_names(bs) == bs.filter_map(
            |b: BranchEntry|
                if b.local {
                    Some(b.name@)
                } else {
                    None
                },
        ),
        forall|i: int|
            0 <= i < bs.len() && (#[trigger] bs[i]).local ==> local_branch_names(bs).contains(
                bs[i].name@,
            ),
        forall|j: int|
            0 <= j < local_branch_names(bs).len() ==> is_local_branch_name(
                bs,
                #[trigger] local_branch_names(bs)[j],
            ),
    decreases bs.len(),
{
    if bs.len() > 0 {
        let rest = bs.drop_last();
        lemma_local_branch_names_shape(rest);
        let r = local_branch_names(bs);
        let rr = local_branch_names(rest);
        assert(r =~= bs.filter_map(
            |b: BranchEntry|
                if b.local {
                    Some(b.name@)
                } else {
                    None
                },
        ));
        assert forall|i: int| 0 <= i < bs.len() && (#[trigger] bs[i]).local implies r.contains(
            bs[i].name@,
        ) by {
            if i < bs.len() - 1 {
                assert(rest[i] == bs[i]);
                let k = choose|k: int| 0 <= k < rr.len() && rr[k] == bs[i].name@;
                assert(r[k] == rr[k]);
            } else {
                assert(r[r.len() - 1] == bs[i].name@);
            }
        }
        assert forall|j: int| 0 <= j < r.len() implies is_local_branch_name(bs, #[trigger] r[j]) by {
            if j < rr.len() {
                assert(r[j] == rr[j]);
                assert(is_local_branch_name(rest, rr[j]));
                let i = choose|i: int|
                    0 <= i < rest.len() && (#[trigger] rest[i]).local && rest[i].name@ == rr[j];
                assert(bs[i] == rest[i]);
            } else {
                assert(bs[bs.len() - 1].local && bs[bs.len() - 1].name@ == r[j]);
            }
        }
    }
}

/// A repository's page lists a branch exactly when it is local, whatever
/// its name: the name of every local branch is listed, every listed name is
/// the name of a local branch, and the listed names are the local branches'
/// names in order.
pub proof fn lemma_listed_branches_are_local(branches: Seq<BranchEntry>)
    ensures
        local_branch_names(branches) == branches.filter_map(
            |b: BranchEntry|
                if b.local {
                    Some(b.name@)
                } else {
                    None
                },
        ),
        forall|i: int|
            0 <= i < branches.len() && (#[trigger] branches[i]).local ==> local_branch_names(
                branches,
            ).contains(branches[i].name@),
        forall|j: int|
            0 <= j < local_branch_names(branches).len() ==> is_local_branch_name(
                branches,
                #[trigger] local_branch_names(branches)[j],
            ),
{
    lemma_local_branch_names_shape(branches);
}

impl RepoDetails {
    /// The details of a repository from its branches, its description and
    /// the walk of its history from the shown branch, newest first: the
    /// names of the local branches in order, the description, and the
    /// commits read among the first `RECENT_COMMITS` entries of the walk.
    pub fn assemble(
        branches: &Vec<BranchEntry>,
        description: String,
        walk: &Vec<Option<CommitDetails>>,
    ) -> (r: RepoDetails)
        ensures
            strings_view(r.branches@) == local_branch_names(branches@),
            r.description == description,
            r.commits@ == read_commits(recent_entries(walk@)),
    {
        let mut names: Vec<String> = Vec::new();
        let mut i: usize = 0;
        while i < branches.len()
            invariant
                i <= branches.len(),
                strings_view(names@) == local_branch_names(branches@.take(i as int)),
            decreases branches.len() - i,
        {
            proof {
                assert(branches@.take(i + 1).drop_last() =~= branches@.take(i as int));
            }
            if branches[i].local {
                names.push(branches[i].name.clone());
            }
            assert(strings_view(names@) =~= local_branch_names(branches@.take(i + 1)));
            i = i + 1;
        }
        assert(branches@.take(branches.len() as int) =~= branches@);

        let end: usize = if walk.len() <= RECENT_COMMITS {
            walk.len()
        } else {
            RECENT_COMMITS
        };
        let ghost window = recent_entries(walk@);
        assert(window =~= walk@.take(end as int));
        let mut commits: Vec<CommitDetails> = Vec::new();
        let mut j: usize = 0;
        while j < end
            invariant
                end <= walk.len(),
                j <= end,
                window == walk@.take(end as int),
                commits@ == read_commits(window.take(j as int)),
            decreases end - j,
        {
            proof {
                assert(window.take(j + 1).drop_last() =~= window.take(j as int));
                assert(window.take(j + 1).last() == walk@[j as int]);
            }
            match &walk[j] {
                Some(c) => {
                    commits.push(c.clone());
                },
                None => {},
            }
            j = j + 1;
        }
        assert(window.take(end as int) =~= window);
        RepoDetails { branches: names, description, commits }
    }
}

} // verus!
