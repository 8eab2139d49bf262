use nobs::Config;

#[test]
fn defaults() {
    let c = Config::default();
    assert_eq!(c.get_addr(), "127.0.0.1:7700");
    assert_eq!(c.get_title(), "NOBS Static Git Viewer");
    assert_eq!(c.get_sources().count(), 0);
    assert_eq!(c.get_base_url(), None);
    assert!(c.get_ignores().is_empty());
    assert_eq!(Config::default_addr(), "127.0.0.1:7700");
    assert_eq!(Config::default_title(), "NOBS Static Git Viewer");
}

#[test]
fn parts_are_kept() {
    let c = Config::new(
        "0.0.0.0:80".to_string(),
        Some("/git".to_string()),
        "Mine".to_string(),
        vec!["/srv/a".to_string(), "/srv/b".to_string()],
        vec!["*.tmp".to_string()],
    );
    assert_eq!(c.get_addr(), "0.0.0.0:80");
    assert_eq!(c.get_title(), "Mine");
    assert_eq!(c.get_base_url(), Some("/git"));
    let sources: Vec<&String> = c.get_sources().collect();
    assert_eq!(sources, vec!["/srv/a", "/srv/b"]);
    assert_eq!(c.get_ignores(), &["*.tmp".to_string()]);
}

#[test]
fn clone_is_equal() {
    let c = Config::new(
        "h:1".to_string(),
        None,
        "T".to_string(),
        vec!["s".to_string()],
        vec![],
    );
    let d = c.clone();
    assert_eq!(d.get_addr(), "h:1");
    assert_eq!(d.get_title(), "T");
    assert_eq!(d.get_base_url(), None);
    assert_eq!(d.get_sources().collect::<Vec<_>>(), vec!["s"]);
}
