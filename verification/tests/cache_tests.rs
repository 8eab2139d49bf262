use nobs::{Cache, MemCache};

#[test]
fn read_gives_back_what_was_written() {
    let mut c = MemCache::default();
    c.set("title", "nobs");
    assert_eq!(c.get("title"), "nobs");
}

#[test]
fn later_write_replaces_earlier() {
    let mut c = MemCache::default();
    c.set("k", "one");
    c.set("k", "two");
    assert_eq!(c.get("k"), "two");
}

#[test]
fn missing_key_reads_empty() {
    let mut c = MemCache::default();
    assert_eq!(c.get("absent"), "");
    c.set("present", "x");
    assert_eq!(c.get("absent"), "");
}

#[test]
fn write_leaves_other_keys_alone() {
    let mut c = MemCache::default();
    c.set("a", "1");
    c.set("b", "2");
    assert_eq!(c.get("a"), "1");
    assert_eq!(c.get("b"), "2");
}
