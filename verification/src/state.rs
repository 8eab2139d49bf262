//! The viewer's shared state: its configuration and the repositories it
//! has found, each under a unique name.

use vstd::hash_map::StringHashMap;
use vstd::prelude::*;
use vstd::string::*;

use crate::config::{default_config_view, Config, ConfigView};
use crate::repo::RepoInfo;

verus! {

/// The names of `names`, each taken by its characters.
pub open spec fn name_keys(names: Seq<String>) -> Seq<Seq<char>> {
    names.map_values(|s: String| s@)
}

/// Whether `info` is held under some name in `m`.
pub open spec fn is_value_of(m: Map<Seq<char>, RepoInfo>, info: RepoInfo) -> bool {
    exists|k: Seq<char>| #[trigger] m.contains_key(k) && m[k] == info
}

proof fn lemma_push_to_set(s: Seq<Seq<char>>, x: Seq<char>)
    ensures
        s.push(x).to_set() == s.to_set().insert(x),
{
    broadcast use vstd::seq_lib::group_seq_properties;

    assert(s.push(x).to_set() =~= s.to_set().insert(x));
}

/// The repositories found, by name.  The names are also kept in a list,
/// each once, so that the repositories can be listed.
pub struct Repositories {
    map: StringHashMap<RepoInfo>,
    names: Vec<String>,
}

impl Repositories {
    #[verifier::type_invariant]
    spec fn inv(self) -> bool {
        &&& name_keys(self.names@).no_duplicates()
        &&& self.map@.dom() == name_keys(self.names@).to_set()
    }
}

impl View for Repositories {
    type V = Map<Seq<char>, RepoInfo>;

    closed spec fn view(&self) -> Map<Seq<char>, RepoInfo> {
        self.map@
    }
}

impl Repositories {
    /// No repositories.
    pub fn new() -> (r: Self)
        ensures
            r@ == Map::<Seq<char>, RepoInfo>::empty(),
    {
        let names: Vec<String> = Vec::new();
        assert(name_keys(names@).to_set() =~= Set::<Seq<char>>::empty());
        Repositories { map: StringHashMap::new(), names }
    }

    /// Records `info` under `name`, replacing any repository of that name.
    pub fn insert(&mut self, name: String, info: RepoInfo)
        ensures
            final(self)@ == old(self)@.insert(name@, info),
    {
        let mut taken = Repositories::new();
        std::mem::swap(&mut taken, self);
        proof {
            use_type_invariant(&taken);
        }
        let Repositories { mut map, mut names } = taken;
        let ghost keys = name_keys(names@);
        if !map.contains_key(name.as_str()) {
            names.push(name.clone());
            proof {
                assert(name_keys(names@) =~= keys.push(name@));
                assert(!keys.contains(name@));
                assert forall|i: int, j: int|
                    0 <= i < name_keys(names@).len() && 0 <= j < name_keys(names@).len() && i
                        != j implies name_keys(names@)[i] != name_keys(names@)[j] by {
                    if i == keys.len() as int {
                        assert(keys.contains(keys[j]));
                    } else if j == keys.len() as int {
                        assert(keys.contains(keys[i]));
                    }
                }
                lemma_push_to_set(keys, name@);
            }
        }
        map.insert(name, info);
        proof {
            assert(map@.dom() =~= name_keys(names@).to_set());
        }
        *self = Repositories { map, names };
    }

    /// The repository recorded under `name`, if any.
    pub fn get(&self, name: &str) -> (r: Option<RepoInfo>)
        ensures
            match r {
                Some(info) => self@.contains_key(name@) && self@[name@] == info,
                None => !self@.contains_key(name@),
            },
    {
        match self.map.get(name) {
            Some(info) => Some(info.clone()),
            None => None,
        }
    }

    /// The repositories recorded, each once.
    pub fn values(&self) -> (r: Vec<RepoInfo>)
        ensures
            self@.dom().finite(),
            r@.len() == self@.dom().len(),
            forall|k: Seq<char>| #[trigger] self@.contains_key(k) ==> r@.contains(self@[k]),
            forall|i: int| 0 <= i < r@.len() ==> is_value_of(self@, #[trigger] r@[i]),
    {
        proof {
            use_type_invariant(self);
            vstd::seq_lib::seq_to_set_is_finite(name_keys(self.names@));
            name_keys(self.names@).unique_seq_to_set();
        }
        let ghost keys = name_keys(self.names@);
        let mut r: Vec<RepoInfo> = Vec::new();
        let mut i: usize = 0;
        while i < self.names.len()
            invariant
                i <= self.names@.len(),
                keys == name_keys(self.names@),
                self.map@.dom() == keys.to_set(),
                r@.len() == i,
                forall|j: int| 0 <= j < i ==> r@[j] == self@[keys[j]],
            decreases self.names.len() - i,
        {
            assert(keys.contains(keys[i as int]));
            match self.map.get(self.names[i].as_str()) {
                Some(info) => {
                    r.push(info.clone());
                },
                None => {},
            }
            i = i + 1;
        }
        proof {
            assert forall|k: Seq<char>| #[trigger] self@.contains_key(k) implies r@.contains(
                self@[k],
            ) by {
                assert(keys.to_set().contains(k));
                let j = choose|j: int| 0 <= j < keys.len() && keys[j] == k;
                assert(r@[j] == self@[k]);
            }
            assert forall|j: int| 0 <= j < r@.len() implies is_value_of(self@, #[trigger] r@[j]) by {
                assert(keys.contains(keys[j]));
                assert(self@.contains_key(keys[j]) && self@[keys[j]] == r@[j]);
            }
        }
        r
    }
}

impl Clone for Repositories {
    /// The same repositories under the same names.
    fn clone(&self) -> (r: Self)
        ensures
            r@ == self@,
    {
        proof {
            use_type_invariant(self);
        }
        let ghost keys = name_keys(self.names@);
        let mut map: StringHashMap<RepoInfo> = StringHashMap::new();
        let mut names: Vec<String> = Vec::new();
        let mut i: usize = 0;
        assert(map@ =~= self@.restrict(keys.take(0).to_set()));
        while i < self.names.len()
            invariant
                i <= self.names@.len(),
                keys == name_keys(self.names@),
                self.map@.dom() == keys.to_set(),
                name_keys(names@) == keys.take(i as int),
                map@ == self@.restrict(keys.take(i as int).to_set()),
            decreases self.names.len() - i,
        {
            let name = self.names[i].clone();
            assert(keys.contains(keys[i as int]));
            match self.map.get(name.as_str()) {
                Some(info) => {
                    map.insert(name.clone(), info.clone());
                },
                None => {},
            }
            let ghost before = names@;
            names.push(name);
            proof {
                assert(names@ == before.push(self.names@[i as int]));
                assert(keys.take(i + 1) =~= keys.take(i as int).push(keys[i as int]));
                assert(name_keys(names@) =~= keys.take(i + 1));
                lemma_push_to_set(keys.take(i as int), keys[i as int]);
                assert(map@ =~= self@.restrict(keys.take(i + 1).to_set()));
            }
            i = i + 1;
        }
        proof {
            assert(keys.take(self.names@.len() as int) =~= keys);
            assert(map@ =~= self@);
        }
        Repositories { map, names }
    }
}

/// A repository added under a name is the one found under that name, and
/// what is found under every other name is unchanged.
pub proof fn lemma_find_after_add(
    repositories: Map<Seq<char>, RepoInfo>,
    name: Seq<char>,
    info: RepoInfo,
    other: Seq<char>,
)
    ensures
        repositories.insert(name, info).contains_key(name),
        repositories.insert(name, info)[name] == info,
        other != name ==> (repositories.insert(name, info).contains_key(other)
            == repositories.contains_key(other)),
        other != name && repositories.contains_key(other) ==> repositories.insert(name, info)[other]
            == repositories[other],
{
}

/// The configuration and the repositories of the viewer.
pub struct InnerState {
    config: Config,
    repositories: Repositories,
}

impl InnerState {
    /// The configuration held.
    pub closed spec fn config_view(&self) -> ConfigView {
        self.config@
    }

    /// The repositories held, by name.
    pub closed spec fn repositories_view(&self) -> Map<Seq<char>, RepoInfo> {
        self.repositories@
    }

    /// Replaces the configuration, keeping the repositories.
    pub fn set_config(&mut self, config: &Config)
        ensures
            final(self).config_view() == config@,
            final(self).repositories_view() == old(self).repositories_view(),
    {
        self.config = config.clone();
    }

    /// A copy of the configuration.
    pub fn get_config(&self) -> (r: Config)
        ensures
            r@ == self.config_view(),
    {
        self.config.clone()
    }

    /// Records `info` under `name`, replacing any repository of that name;
    /// the configuration is kept.
    pub fn add_repository(&mut self, name: String, info: RepoInfo)
        ensures
            final(self).repositories_view() == old(self).repositories_view().insert(name@, info),
            final(self).config_view() == old(self).config_view(),
    {
        self.repositories.insert(name, info);
    }

    /// A copy of the repositories.
    pub fn get_repositories(&self) -> (r: Repositories)
        ensures
            r@ == self.repositories_view(),
    {
        self.repositories.clone()
    }
}

impl Default for InnerState {
    /// The default configuration and no repositories.
    fn default() -> (r: Self)
        ensures
            r.config_view() == default_config_view(),
            r.repositories_view() == Map::<Seq<char>, RepoInfo>::empty(),
    {
        InnerState { config: Config::default(), repositories: Repositories::new() }
    }
}

} // verus!
