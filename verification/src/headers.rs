//! A string-to-string map with unique keys, kept in insertion order.
//!
//! It stands for the `HashMap<String, String>` header tables of the crawler
//! configuration and of single requests. Keys are compared exactly (case
//! sensitive), as a `HashMap<String, String>` compares them.

use vstd::prelude::*;

verus! {

/// Entries of a header table as plain values: `(name, value)` pairs.
pub type HeaderEntries = Seq<(Seq<char>, Seq<char>)>;

/// No two entries share a name.
pub open spec fn keys_unique(e: HeaderEntries) -> bool {
    forall|i: int, j: int| 0 <= i < j < e.len() ==> #[trigger] e[i].0 != #[trigger] e[j].0
}

/// Some entry has the name `k`.
pub open spec fn has_key(e: HeaderEntries, k: Seq<char>) -> bool {
    exists|i: int| 0 <= i < e.len() && #[trigger] e[i].0 == k
}

/// The value stored under `k`, if any.
pub open spec fn lookup(e: HeaderEntries, k: Seq<char>) -> Option<Seq<char>> {
    if has_key(e, k) {
        Some(e[choose|i: int| 0 <= i < e.len() && #[trigger] e[i].0 == k].1)
    } else {
        None
    }
}

/// The names of the entries, in order.
pub open spec fn entry_names(e: HeaderEntries) -> Seq<Seq<char>> {
    e.map_values(|p: (Seq<char>, Seq<char>)| p.0)
}

/// `e` after setting `k` to `v`: an existing entry keeps its place and takes
/// the new value, a new name is appended.
pub open spec fn entries_insert(e: HeaderEntries, k: Seq<char>, v: Seq<char>) -> HeaderEntries {
    if has_key(e, k) {
        e.update(choose|i: int| 0 <= i < e.len() && #[trigger] e[i].0 == k, (k, v))
    } else {
        e.push((k, v))
    }
}

/// Setting a name and reading it back gives the value set; every other name
/// reads as before; names stay unique.
pub proof fn lemma_insert_then_lookup(e: HeaderEntries, k: Seq<char>, v: Seq<char>, other: Seq<char>)
    requires
        keys_unique(e),
        other != k,
    ensures
        keys_unique(entries_insert(e, k, v)),
        lookup(entries_insert(e, k, v), k) == Some(v),
        lookup(entries_insert(e, k, v), other) == lookup(e, other),
{
    let n = entries_insert(e, k, v);
    if has_key(e, k) {
        let i = choose|i: int| 0 <= i < e.len() && #[trigger] e[i].0 == k;
        assert(n[i].0 == k);
        assert(keys_unique(n)) by {
            assert forall|a: int, b: int| 0 <= a < b < n.len() implies #[trigger] n[a].0 != #[trigger] n[b].0 by {
                if a == i {
                    assert(e[b].0 != e[i].0);
                } else if b == i {
                    assert(e[a].0 != e[i].0);
                } else {
                    assert(e[a].0 != e[b].0);
                }
            }
        }
        let j = choose|j: int| 0 <= j < n.len() && #[trigger] n[j].0 == k;
        assert(j == i);
        if has_key(e, other) {
            let p = choose|p: int| 0 <= p < e.len() && #[trigger] e[p].0 == other;
            assert(n[p].0 == other);
            let q = choose|q: int| 0 <= q < n.len() && #[trigger] n[q].0 == other;
            assert(q == p);
        } else {
            assert forall|q: int| 0 <= q < n.len() implies #[trigger] n[q].0 != other by {
                if q != i {
                    assert(n[q] == e[q]);
                }
            }
        }
    } else {
        assert(n[e.len() as int].0 == k);
        assert(keys_unique(n)) by {
            assert forall|a: int, b: int| 0 <= a < b < n.len() implies #[trigger] n[a].0 != #[trigger] n[b].0 by {
                if b == e.len() {
                    assert(n[a] == e[a]);
                }
            }
        }
        let j = choose|j: int| 0 <= j < n.len() && #[trigger] n[j].0 == k;
        assert(j == e.len());
        if has_key(e, other) {
            let p = choose|p: int| 0 <= p < e.len() && #[trigger] e[p].0 == other;
            assert(n[p].0 == other);
            let q = choose|q: int| 0 <= q < n.len() && #[trigger] n[q].0 == other;
            assert(q == p);
        } else {
            assert forall|q: int| 0 <= q < n.len() implies #[trigger] n[q].0 != other by {
                if q < e.len() {
                    assert(n[q] == e[q]);
                }
            }
        }
    }
}

/// An insertion-ordered map from header names to header values.
#[derive(Debug, PartialEq, Eq)]
pub struct Headers {
    entries: Vec<(String, String)>,
}

impl View for Headers {
    type V = HeaderEntries;

    closed spec fn view(&self) -> HeaderEntries {
        self.entries@.map_values(|p: (String, String)| (p.0@, p.1@))
    }
}

impl Headers {
    #[verifier::type_invariant]
    closed spec fn inv(self) -> bool {
        keys_unique(self@)
    }

    /// An empty table.
    pub fn new() -> (r: Self)
        ensures
            r@ == Seq::<(Seq<char>, Seq<char>)>::empty(),
    {
        let r = Headers { entries: Vec::new() };
        assert(r@ =~= Seq::<(Seq<char>, Seq<char>)>::empty());
        r
    }

    /// Number of entries.
    pub fn len(&self) -> (r: usize)
        ensures
            r == self@.len(),
            keys_unique(self@),
    {
        proof {
            use_type_invariant(self);
        }
        self.entries.len()
    }

    /// Name of the entry at position `i`.
    pub fn name_at(&self, i: usize) -> (r: &String)
        requires
            i < self@.len(),
        ensures
            r@ == self@[i as int].0,
    {
        &self.entries[i].0
    }

    /// Value of the entry at position `i`.
    pub fn value_at(&self, i: usize) -> (r: &String)
        requires
            i < self@.len(),
        ensures
            r@ == self@[i as int].1,
    {
        &self.entries[i].1
    }

    /// Position of the entry named `key`.
    fn position(&self, key: &String) -> (r: Option<usize>)
        ensures
            r matches Some(i) ==> i < self@.len() && self@[i as int].0 == key@,
            r is None ==> !has_key(self@, key@),
    {
        let mut i: usize = 0;
        while i < self.entries.len()
            invariant
                i <= self.entries@.len(),
                self@.len() == self.entries@.len(),
                forall|j: int| 0 <= j < i ==> self@[j].0 != key@,
            decreases self.entries@.len() - i,
        {
            if self.entries[i].0 == *key {
                return Some(i);
            }
            i = i + 1;
        }
        None
    }

    /// The value stored under `key`, as `HashMap::get`.
    pub fn get(&self, key: &str) -> (r: Option<&String>)
        ensures
            r matches Some(v) ==> lookup(self@, key@) == Some(v@),
            r is None ==> lookup(self@, key@) is None,
    {
        proof {
            use_type_invariant(self);
        }
        let k = key.to_owned();
        match self.position(&k) {
            Some(i) => {
                let ghost j = choose|j: int| 0 <= j < self@.len() && #[trigger] self@[j].0 == key@;
                assert(self@[j].0 == key@);
                assert(j == i as int);
                Some(&self.entries[i].1)
            },
            None => None,
        }
    }

    /// Whether some entry is named `key`, as `HashMap::contains_key`.
    pub fn contains_key(&self, key: &str) -> (r: bool)
        ensures
            r == has_key(self@, key@),
    {
        let k = key.to_owned();
        self.position(&k).is_some()
    }

    /// Sets `key` to `value`, returning the value it replaced, as `HashMap::insert`.
    pub fn insert(&mut self, key: String, value: String) -> (r: Option<String>)
        ensures
            final(self)@ == entries_insert(old(self)@, key@, value@),
            r matches Some(v) ==> lookup(old(self)@, key@) == Some(v@),
            r is None ==> lookup(old(self)@, key@) is None,
    {
        proof {
            use_type_invariant(&*self);
        }
        let ghost old_view = self@;
        match self.position(&key) {
            Some(i) => {
                let ghost j = choose|j: int| 0 <= j < old_view.len() && #[trigger] old_view[j].0
                    == key@;
                assert(old_view[j].0 == key@);
                assert(j == i as int);
                let mut pair = (key, value);
                let ghost new_pair = pair;
                let mut entries: Vec<(String, String)> = Vec::new();
                std::mem::swap(&mut entries, &mut self.entries);
                entries.set_and_swap(i, &mut pair);
                let ghost new_view = entries@.map_values(|p: (String, String)| (p.0@, p.1@));
                assert(new_view =~= old_view.update(i as int, (new_pair.0@, new_pair.1@)));
                assert(keys_unique(new_view));
                self.entries = entries;
                Some(pair.1)
            },
            None => {
                let ghost kv = key@;
                let ghost vv = value@;
                let mut entries: Vec<(String, String)> = Vec::new();
                std::mem::swap(&mut entries, &mut self.entries);
                entries.push((key, value));
                let ghost new_view = entries@.map_values(|p: (String, String)| (p.0@, p.1@));
                assert(new_view =~= old_view.push((kv, vv)));
                assert(keys_unique(new_view)) by {
                    assert forall|a: int, b: int| 0 <= a < b < new_view.len() implies #[trigger] new_view[a].0
                        != #[trigger] new_view[b].0 by {
                        if b == old_view.len() {
                            assert(old_view[a].0 != kv);
                        }
                    }
                }
                self.entries = entries;
                None
            },
        }
    }
}


impl Clone for Headers {
    /// A copy with the same entries in the same order.
    fn clone(&self) -> (r: Self)
        ensures
            r@ == self@,
    {
        proof {
            use_type_invariant(self);
        }
        let mut entries: Vec<(String, String)> = Vec::new();
        let mut i: usize = 0;
        while i < self.entries.len()
            invariant
                i <= self.entries@.len(),
                entries@.map_values(|p: (String, String)| (p.0@, p.1@)) == self@.take(i as int),
            decreases self.entries@.len() - i,
        {
            let ghost before = entries@;
            entries.push((self.entries[i].0.clone(), self.entries[i].1.clone()));
            assert(entries@.map_values(|p: (String, String)| (p.0@, p.1@)) =~= before.map_values(
                |p: (String, String)| (p.0@, p.1@),
            ).push(self@[i as int]));
            assert(self@.take(i + 1) =~= self@.take(i as int).push(self@[i as int]));
            i = i + 1;
        }
        assert(self@.take(self.entries@.len() as int) =~= self@);
        Headers { entries }
    }
}

} // verus!
