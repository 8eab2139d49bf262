//! A string-to-string cache.  A read gives back what the last write of the
//! same key stored, and the empty string for a key never written.

use vstd::hash_map::StringHashMap;
use vstd::prelude::*;
use vstd::string::*;

verus! {

/// What a cache holding `entries` answers for `key`: the stored value, or
/// the empty string when the key is absent.
pub open spec fn cached_value(entries: Map<Seq<char>, Seq<char>>, key: Seq<char>) -> Seq<char> {
    if entries.contains_key(key) {
        entries[key]
    } else {
        Seq::empty()
    }
}

/// A store of string values by string key.
pub trait Cache {
    /// The keys and values held.
    spec fn entries(&self) -> Map<Seq<char>, Seq<char>>;

    /// Stores `value` under `key`, replacing what was there.
    fn set(&mut self, key: &str, value: &str)
        ensures
            final(self).entries() == old(self).entries().insert(key@, value@),
    ;

    /// The value stored under `key`, or the empty string.
    fn get(&self, key: &str) -> (r: &str)
        ensures
            r@ == cached_value(self.entries(), key@),
    ;
}

/// A cache held in memory.
pub struct MemCache {
    inner: StringHashMap<String>,
}

impl View for MemCache {
    type V = Map<Seq<char>, Seq<char>>;

    closed spec fn view(&self) -> Map<Seq<char>, Seq<char>> {
        self.inner@.map_values(|v: String| v@)
    }
}

impl Default for MemCache {
    /// An empty cache.
    fn default() -> (r: Self)
        ensures
            r@ == Map::<Seq<char>, Seq<char>>::empty(),
    {
        let r = MemCache { inner: StringHashMap::new() };
        assert(r@ =~= Map::<Seq<char>, Seq<char>>::empty());
        r
    }
}

impl Cache for MemCache {
    open spec fn entries(&self) -> Map<Seq<char>, Seq<char>> {
        self@
    }

    fn set(&mut self, key: &str, value: &str) {
        let k = String::from_str(key);
        let v = String::from_str(value);
        self.inner.insert(k, v);
        assert(self@ =~= old(self)@.insert(key@, value@));
    }

    fn get(&self, key: &str) -> (r: &str) {
        match self.inner.get(key) {
            Some(s) => s.as_str(),
            None => {
                proof {
                    reveal_strlit("");
                }
                ""
            },
        }
    }
}

/// A read after a write of the same key gives back the value written.
pub proof fn lemma_get_after_set(entries: Map<Seq<char>, Seq<char>>, key: Seq<char>, value: Seq<char>)
    ensures
        cached_value(entries.insert(key, value), key) == value,
{
}

/// A write leaves what every other key reads unchanged.
pub proof fn lemma_set_other_key(
    entries: Map<Seq<char>, Seq<char>>,
    key: Seq<char>,
    value: Seq<char>,
    other: Seq<char>,
)
    requires
        other != key,
    ensures
        cached_value(entries.insert(key, value), other) == cached_value(entries, other),
{
}

/// Every key of an empty cache reads as the empty string.
pub proof fn lemma_get_empty(key: Seq<char>)
    ensures
        cached_value(Map::empty(), key) == Seq::<char>::empty(),
{
}

} // verus!
