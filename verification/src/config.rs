//! The viewer's configuration: where it listens, its title, and the
//! directories it scans for repositories.

use vstd::prelude::*;
use vstd::string::*;

verus! {

/// The configuration seen as plain values.
pub struct ConfigView {
    pub addr: Seq<char>,
    pub base_url: Option<Seq<char>>,
    pub title: Seq<char>,
    pub sources: Seq<Seq<char>>,
    pub ignores: Seq<Seq<char>>,
}

/// The address listened on when the configuration names none.
pub open spec fn default_addr_spec() -> Seq<char> {
    "127.0.0.1:7700"@
}

/// The page title used when the configuration names none.
pub open spec fn default_title_spec() -> Seq<char> {
    "NOBS Static Git Viewer"@
}

/// The configuration used when none is given: the default address and
/// title, no base URL, no sources and no ignore patterns.
pub open spec fn default_config_view() -> ConfigView {
    ConfigView {
        addr: default_addr_spec(),
        base_url: None,
        title: default_title_spec(),
        sources: Seq::empty(),
        ignores: Seq::empty(),
    }
}

/// The default configuration listens on the address, and carries the
/// title, that a configuration naming none of them gets.
pub proof fn lemma_default_config_agrees()
    ensures
        default_config_view().addr == default_addr_spec(),
        default_config_view().title == default_title_spec(),
{
}

/// The strings of `v`, each taken by its characters.
pub open spec fn strings_view(v: Seq<String>) -> Seq<Seq<char>> {
    v.map_values(|s: String| s@)
}

/// The viewer's configuration.
pub struct Config {
    addr: String,
    base_url: Option<String>,
    title: String,
    sources: Vec<String>,
    ignores: Vec<String>,
}

impl View for Config {
    type V = ConfigView;

    closed spec fn view(&self) -> ConfigView {
        ConfigView {
            addr: self.addr@,
            base_url: match self.base_url {
                Some(u) => Some(u@),
                None => None,
            },
            title: self.title@,
            sources: strings_view(self.sources@),
            ignores: strings_view(self.ignores@),
        }
    }
}

fn clone_strings(v: &Vec<String>) -> (r: Vec<String>)
    ensures
        r@ == v@,
{
    let r = v.clone();
    assert(r@ =~= v@);
    r
}

impl Config {
    /// A configuration made of the given parts.
    pub fn new(
        addr: String,
        base_url: Option<String>,
        title: String,
        sources: Vec<String>,
        ignores: Vec<String>,
    ) -> (r: Config)
        ensures
            r@ == (ConfigView {
                addr: addr@,
                base_url: match base_url {
                    Some(u) => Some(u@),
                    None => None,
                },
                title: title@,
                sources: strings_view(sources@),
                ignores: strings_view(ignores@),
            }),
    {
        Config { addr, base_url, title, sources, ignores }
    }

    /// The address to listen on.
    pub fn get_addr(&self) -> (r: &str)
        ensures
            r@ == self@.addr,
    {
        self.addr.as_str()
    }

    /// The page title.
    pub fn get_title(&self) -> (r: &str)
        ensures
            r@ == self@.title,
    {
        self.title.as_str()
    }

    /// The directories scanned for repositories, in order.
    pub fn get_sources(&self) -> (r: std::slice::Iter<'_, String>)
        ensures
            strings_view(vstd::std_specs::slice::into_iter_elts(r)) == self@.sources,
    {
        let r = self.sources.as_slice().iter();
        assert(vstd::std_specs::slice::into_iter_elts(r) =~= self.sources@);
        r
    }

    /// The base URL the viewer is served under, if one is set.
    pub fn get_base_url(&self) -> (r: Option<&str>)
        ensures
            match r {
                Some(u) => self@.base_url == Some(u@),
                None => self@.base_url is None,
            },
    {
        match &self.base_url {
            Some(u) => Some(u.as_str()),
            None => None,
        }
    }

    /// The ignore patterns, in order.
    pub fn get_ignores(&self) -> (r: &[String])
        ensures
            strings_view(r@) == self@.ignores,
    {
        self.ignores.as_slice()
    }

    /// The address listened on when the configuration names none.
    pub fn default_addr() -> (r: String)
        ensures
            r@ == default_addr_spec(),
    {
        String::from_str("127.0.0.1:7700")
    }

    /// The page title used when the configuration names none.
    pub fn default_title() -> (r: String)
        ensures
            r@ == default_title_spec(),
    {
        String::from_str("NOBS Static Git Viewer")
    }
}

impl Clone for Config {
    /// A configuration equal to this one.
    fn clone(&self) -> (r: Self)
        ensures
            r@ == self@,
    {
        let base_url = match &self.base_url {
            Some(u) => Some(u.clone()),
            None => None,
        };
        Config {
            addr: self.addr.clone(),
            base_url,
            title: self.title.clone(),
            sources: clone_strings(&self.sources),
            ignores: clone_strings(&self.ignores),
        }
    }
}

impl Default for Config {
    /// The default address and title, no base URL, no sources and no
    /// ignore patterns.
    fn default() -> (r: Self)
        ensures
            r@ == default_config_view(),
    {
        let r = Config {
            addr: Config::default_addr(),
            base_url: None,
            title: Config::default_title(),
            sources: Vec::new(),
            ignores: Vec::new(),
        };
        assert(r@.sources =~= Seq::<Seq<char>>::empty());
        assert(r@.ignores =~= Seq::<Seq<char>>::empty());
        r
    }
}

} // verus!
