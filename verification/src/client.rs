//! Client configuration: a set of string properties keyed by name, and the
//! traits through which clients are built from it.

use vstd::prelude::*;

use crate::error::KafkaResult;
use crate::text::{str_eq, string_from};

verus! {

/// The map that a list of (key, value) pairs describes, later pairs
/// taking precedence over earlier ones with the same key.
pub open spec fn entries_map(s: Seq<(Seq<char>, Seq<char>)>) -> Map<Seq<char>, Seq<char>>
    decreases s.len(),
{
    if s.len() == 0 {
        Map::empty()
    } else {
        entries_map(s.drop_last()).insert(s.last().0, s.last().1)
    }
}

/// No key occurs twice in the list.
pub open spec fn keys_distinct(s: Seq<(Seq<char>, Seq<char>)>) -> bool {
    forall|i: int, j: int| 0 <= i < j < s.len() ==> #[trigger] s[i].0 != #[trigger] s[j].0
}

/// The keys of a list contain `k` exactly when some pair has key `k`.
proof fn lemma_entries_map_dom(s: Seq<(Seq<char>, Seq<char>)>, k: Seq<char>)
    ensures
        entries_map(s).dom().contains(k) <==> exists|i: int| 0 <= i < s.len() && #[trigger] s[i].0 == k,
    decreases s.len(),
{
    if s.len() > 0 {
        let t = s.drop_last();
        lemma_entries_map_dom(t, k);
        if entries_map(t).dom().contains(k) {
            let i = choose|i: int| 0 <= i < t.len() && #[trigger] t[i].0 == k;
            assert(s[i].0 == k);
        }
        if exists|i: int| 0 <= i < s.len() && #[trigger] s[i].0 == k {
            let i = choose|i: int| 0 <= i < s.len() && #[trigger] s[i].0 == k;
            if i < s.len() - 1 {
                assert(t[i].0 == k);
            }
        }
    }
}

/// With distinct keys, the map gives each pair's value for its key.
proof fn lemma_entries_map_index(s: Seq<(Seq<char>, Seq<char>)>, i: int)
    requires
        keys_distinct(s),
        0 <= i < s.len(),
    ensures
        entries_map(s).dom().contains(s[i].0),
        entries_map(s)[s[i].0] == s[i].1,
    decreases s.len(),
{
    let t = s.drop_last();
    if i < s.len() - 1 {
        assert(t[i] == s[i]);
        assert(keys_distinct(t));
        lemma_entries_map_index(t, i);
        assert(s.last().0 != s[i].0);
    }
}

/// With distinct keys, replacing the value of the pair with key `k` is
/// inserting `k` into the map.
proof fn lemma_entries_map_update(s: Seq<(Seq<char>, Seq<char>)>, i: int, v: Seq<char>)
    requires
        keys_distinct(s),
        0 <= i < s.len(),
    ensures
        keys_distinct(s.update(i, (s[i].0, v))),
        entries_map(s.update(i, (s[i].0, v))) == entries_map(s).insert(s[i].0, v),
    decreases s.len(),
{
    let u = s.update(i, (s[i].0, v));
    let t = s.drop_last();
    assert(keys_distinct(t));
    if i == s.len() - 1 {
        assert(u.drop_last() =~= t);
    } else {
        assert(u.drop_last() =~= t.update(i, (t[i].0, v)));
        lemma_entries_map_update(t, i, v);
        assert(s.last().0 != s[i].0);
        assert(entries_map(u) =~= entries_map(s).insert(s[i].0, v));
    }
}

/// A client configuration: string properties keyed by name (for example
/// `bootstrap.servers`). Setting a key again replaces its value.
#[derive(Debug)]
pub struct ClientConfig {
    entries: Vec<(String, String)>,
}

impl ClientConfig {
    /// The (key, value) pairs as character sequences.
    closed spec fn pairs(self) -> Seq<(Seq<char>, Seq<char>)> {
        self.entries@.map_values(|p: (String, String)| (p.0@, p.1@))
    }

    #[verifier::type_invariant]
    closed spec fn well_formed(self) -> bool {
        keys_distinct(self.pairs())
    }
}

impl View for ClientConfig {
    type V = Map<Seq<char>, Seq<char>>;

    /// The properties, by name.
    closed spec fn view(&self) -> Map<Seq<char>, Seq<char>> {
        entries_map(self.pairs())
    }
}

impl ClientConfig {
    /// Creates a configuration without properties.
    pub fn new() -> (r: Self)
        ensures
            r@ == Map::<Seq<char>, Seq<char>>::empty(),
    {
        let r = ClientConfig { entries: Vec::new() };
        assert(r.pairs() =~= Seq::<(Seq<char>, Seq<char>)>::empty());
        r
    }

    /// Borrows every property as a (name, value) table.
    pub fn config_map(&self) -> (r: ConfigMap<'_>)
        ensures
            r@ == self@,
    {
        proof {
            use_type_invariant(self);
        }
        let n = self.entries.len();
        let mut entries: Vec<(&str, &str)> = Vec::new();
        let mut i: usize = 0;
        while i < n
            invariant
                n == self.entries@.len(),
                i <= n,
                entries@.len() == i,
                forall|j: int| 0 <= j < i ==> (#[trigger] entries@[j]).0@ == self.pairs()[j].0
                    && entries@[j].1@ == self.pairs()[j].1,
            decreases n - i,
        {
            entries.push((self.entries[i].0.as_str(), self.entries[i].1.as_str()));
            i = i + 1;
        }
        let r = ConfigMap { entries };
        assert(r.pairs() =~= self.pairs());
        r
    }

    /// The position of the pair with key `key`, if there is one.
    fn find(&self, key: &str) -> (r: Option<usize>)
        ensures
            match r {
                Some(i) => i < self.entries@.len() && self.pairs()[i as int].0 == key@,
                None => forall|i: int| 0 <= i < self.entries@.len() ==> #[trigger] self.pairs()[i].0 != key@,
            },
    {
        let n = self.entries.len();
        let mut i: usize = 0;
        while i < n
            invariant
                n == self.entries@.len(),
                i <= n,
                forall|j: int| 0 <= j < i ==> #[trigger] self.pairs()[j].0 != key@,
            decreases n - i,
        {
            if str_eq(self.entries[i].0.as_str(), key) {
                return Some(i);
            }
            i = i + 1;
        }
        None
    }

    /// Returns the value of property `key`, if it is set.
    pub fn get(&self, key: &str) -> (r: Option<&str>)
        ensures
            match r {
                Some(v) => self@.contains_key(key@) && v@ == self@[key@],
                None => !self@.contains_key(key@),
            },
    {
        proof {
            use_type_invariant(self);
        }
        match self.find(key) {
            Some(i) => {
                proof {
                    lemma_entries_map_index(self.pairs(), i as int);
                }
                Some(self.entries[i].1.as_str())
            },
            None => {
                proof {
                    lemma_entries_map_dom(self.pairs(), key@);
                }
                None
            },
        }
    }

    /// Sets property `key` to `value`, replacing any earlier value.
    pub fn set(&mut self, key: &str, value: &str) -> (r: &mut Self)
        ensures
            r@ == old(self)@.insert(key@, value@),
            *final(r) == *final(self),
    {
        proof {
            use_type_invariant(&*self);
        }
        let ghost before = self.pairs();
        match self.find(key) {
            Some(i) => {
                let mut entries: Vec<(String, String)> = Vec::new();
                std::mem::swap(&mut entries, &mut self.entries);
                entries.set(i, (string_from(key), string_from(value)));
                proof {
                    lemma_entries_map_update(before, i as int, value@);
                    assert(entries@.map_values(|p: (String, String)| (p.0@, p.1@))
                        =~= before.update(i as int, (before[i as int].0, value@)));
                }
                self.entries = entries;
            },
            None => {
                let mut entries: Vec<(String, String)> = Vec::new();
                std::mem::swap(&mut entries, &mut self.entries);
                entries.push((string_from(key), string_from(value)));
                proof {
                    assert(entries@.map_values(|p: (String, String)| (p.0@, p.1@))
                        =~= before.push((key@, value@)));
                    assert(before.push((key@, value@)).drop_last() =~= before);
                }
                self.entries = entries;
            },
        }
        self
    }
}

impl Clone for ClientConfig {
    fn clone(&self) -> (r: Self)
        ensures
            r@ == self@,
    {
        proof {
            use_type_invariant(self);
        }
        let n = self.entries.len();
        let mut entries: Vec<(String, String)> = Vec::new();
        let mut i: usize = 0;
        while i < n
            invariant
                n == self.entries@.len(),
                i <= n,
                entries@.len() == i,
                forall|j: int| 0 <= j < i ==> (#[trigger] entries@[j]).0@ == self.pairs()[j].0
                    && entries@[j].1@ == self.pairs()[j].1,
            decreases n - i,
        {
            entries.push((self.entries[i].0.clone(), self.entries[i].1.clone()));
            i = i + 1;
        }
        let r = ClientConfig { entries };
        assert(r.pairs() =~= self.pairs());
        r
    }
}

/// A borrowed table of the properties of a [`ClientConfig`].
#[derive(Debug)]
pub struct ConfigMap<'a> {
    entries: Vec<(&'a str, &'a str)>,
}

impl<'a> ConfigMap<'a> {
    /// The (key, value) pairs as character sequences.
    closed spec fn pairs(self) -> Seq<(Seq<char>, Seq<char>)> {
        self.entries@.map_values(|p: (&'a str, &'a str)| (p.0@, p.1@))
    }

    #[verifier::type_invariant]
    closed spec fn well_formed(self) -> bool {
        keys_distinct(self.pairs())
    }
}

impl<'a> View for ConfigMap<'a> {
    type V = Map<Seq<char>, Seq<char>>;

    /// The properties, by name.
    closed spec fn view(&self) -> Map<Seq<char>, Seq<char>> {
        entries_map(self.pairs())
    }
}

impl<'a> ConfigMap<'a> {
    /// Returns the value of property `key`, if it is set.
    pub fn get(&self, key: &str) -> (r: Option<&&'a str>)
        ensures
            match r {
                Some(v) => self@.contains_key(key@) && (*v)@ == self@[key@],
                None => !self@.contains_key(key@),
            },
    {
        proof {
            use_type_invariant(self);
        }
        let n = self.entries.len();
        let mut i: usize = 0;
        while i < n
            invariant
                n == self.entries@.len(),
                i <= n,
                forall|j: int| 0 <= j < i ==> #[trigger] self.pairs()[j].0 != key@,
                keys_distinct(self.pairs()),
            decreases n - i,
        {
            if str_eq(self.entries[i].0, key) {
                proof {
                    lemma_entries_map_index(self.pairs(), i as int);
                }
                return Some(&self.entries[i].1);
            }
            i = i + 1;
        }
        proof {
            lemma_entries_map_dom(self.pairs(), key@);
        }
        None
    }
}

/// Callbacks shared by every client; the share consumer context extends it.
pub trait ClientContext {
}

/// Clients that are built from a [`ClientConfig`] alone.
pub trait FromClientConfig: Sized {
    /// Builds the client from `config`.
    fn from_config(config: &ClientConfig) -> KafkaResult<Self>;
}

/// Clients that are built from a [`ClientConfig`] and a context.
pub trait FromClientConfigAndContext<C: ClientContext>: Sized {
    /// Builds the client from `config`, keeping `context`.
    fn from_config_and_context(config: &ClientConfig, context: C) -> KafkaResult<Self>;
}

} // verus!
