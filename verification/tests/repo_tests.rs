use nobs::repo::{shown_branch, BranchEntry, RECENT_COMMITS};
use nobs::{CommitDetails, RepoDetails};

fn commit(n: u32) -> CommitDetails {
    CommitDetails {
        hash: format!("h{}", n),
        author: "a".to_string(),
        summary: format!("s{}", n),
    }
}

#[test]
fn details_keep_local_branches_and_recent_commits() {
    let branches = vec![
        BranchEntry { name: "master".to_string(), local: true },
        BranchEntry { name: "origin/master".to_string(), local: false },
        BranchEntry { name: "dev".to_string(), local: true },
    ];
    let walk = vec![
        Some(commit(1)),
        None,
        Some(commit(2)),
        Some(commit(3)),
        Some(commit(4)),
        Some(commit(5)),
        Some(commit(6)),
    ];
    let d = RepoDetails::assemble(&branches, "desc\n".to_string(), &walk);
    assert_eq!(d.branches, vec!["master", "dev"]);
    assert_eq!(d.description, "desc\n");
    let hashes: Vec<&str> = d.commits.iter().map(|c| c.hash.as_str()).collect();
    assert_eq!(hashes, vec!["h1", "h2", "h3", "h4"]);
    assert_eq!(RECENT_COMMITS, 5);
}

#[test]
fn short_walks_are_kept_whole() {
    let d = RepoDetails::assemble(&vec![], String::new(), &vec![Some(commit(9))]);
    assert!(d.branches.is_empty());
    assert_eq!(d.commits.len(), 1);
    assert_eq!(d.commits[0].summary, "s9");
}

#[test]
fn branch_shown() {
    assert_eq!(shown_branch(Some("master"), Some("dev")), Some("master"));
    assert_eq!(shown_branch(None, Some("dev")), Some("dev"));
    assert_eq!(shown_branch::<&str>(None, None), None);
}
