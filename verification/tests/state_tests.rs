use std::path::PathBuf;

use nobs::state::Repositories;
use nobs::{Config, InnerState, RepoInfo};

fn info(name: &str) -> RepoInfo {
    RepoInfo { name: name.to_string(), path: PathBuf::from(format!("/srv/{}", name)) }
}

#[test]
fn repositories_by_name() {
    let mut r = Repositories::new();
    assert!(r.get("a").is_none());
    r.insert("a".to_string(), info("a"));
    r.insert("b".to_string(), info("b"));
    assert_eq!(r.get("a").unwrap().path, PathBuf::from("/srv/a"));
    r.insert("a".to_string(), info("c"));
    assert_eq!(r.get("a").unwrap().name, "c");
    assert_eq!(r.get("b").unwrap().name, "b");
    let mut names: Vec<String> = r.values().into_iter().map(|i| i.name).collect();
    names.sort();
    assert_eq!(names, vec!["b", "c"]);
    let copy = r.clone();
    assert_eq!(copy.get("b").unwrap().path, PathBuf::from("/srv/b"));
    assert_eq!(copy.values().len(), 2);
}

#[test]
fn state_keeps_config_and_repositories() {
    let mut s = InnerState::default();
    assert_eq!(s.get_config().get_addr(), "127.0.0.1:7700");
    assert!(s.get_repositories().values().is_empty());
    s.add_repository("x".to_string(), info("x"));
    let c = Config::new("a:1".to_string(), None, "T".to_string(), vec![], vec![]);
    s.set_config(&c);
    assert_eq!(s.get_config().get_addr(), "a:1");
    assert_eq!(s.get_repositories().get("x").unwrap().name, "x");
}
