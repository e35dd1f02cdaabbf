//! Response headers grouped by name: each name maps to its values in arrival
//! order (the `HashMap<String, Vec<String>>` of a fetched response).

use vstd::prelude::*;

verus! {

/// Grouped response headers as plain values: `(name, values)` pairs.
pub type GroupedEntries = Seq<(Seq<char>, Seq<Seq<char>>)>;

/// No two groups share a name.
pub open spec fn names_unique(e: GroupedEntries) -> bool {
    forall|i: int, j: int| 0 <= i < j < e.len() ==> #[trigger] e[i].0 != #[trigger] e[j].0
}

/// Some group has the name `k`.
pub open spec fn has_name(e: GroupedEntries, k: Seq<char>) -> bool {
    exists|i: int| 0 <= i < e.len() && #[trigger] e[i].0 == k
}

/// The values recorded under `k`, if any.
pub open spec fn values_of(e: GroupedEntries, k: Seq<char>) -> Option<Seq<Seq<char>>> {
    if has_name(e, k) {
        Some(e[choose|i: int| 0 <= i < e.len() && #[trigger] e[i].0 == k].1)
    } else {
        None
    }
}

/// The first value recorded under `k`, if any.
pub open spec fn first_value(e: GroupedEntries, k: Seq<char>) -> Option<Seq<char>> {
    match values_of(e, k) {
        Some(vs) => if vs.len() > 0 {
            Some(vs[0])
        } else {
            None
        },
        None => None,
    }
}

/// `e` after recording value `v` under `k`: appended to the group of `k`,
/// or a new group at the end.
pub open spec fn grouped_append(e: GroupedEntries, k: Seq<char>, v: Seq<char>) -> GroupedEntries {
    if has_name(e, k) {
        let i = choose|i: int| 0 <= i < e.len() && #[trigger] e[i].0 == k;
        e.update(i, (k, e[i].1.push(v)))
    } else {
        e.push((k, seq![v]))
    }
}

/// Recording a value under a name appends it to that name's values (starting
/// a new list for a new name); every other name reads as before; names stay
/// unique.
pub proof fn lemma_append_then_values(e: GroupedEntries, k: Seq<char>, v: Seq<char>, other: Seq<char>)
    requires
        names_unique(e),
        other != k,
    ensures
        names_unique(grouped_append(e, k, v)),
        values_of(grouped_append(e, k, v), k) == Some(
            match values_of(e, k) {
                Some(vs) => vs.push(v),
                None => seq![v],
            },
        ),
        values_of(grouped_append(e, k, v), other) == values_of(e, other),
{
    let n = grouped_append(e, k, v);
    if has_name(e, k) {
        let i = choose|i: int| 0 <= i < e.len() && #[trigger] e[i].0 == k;
        assert(n[i].0 == k);
        assert(names_unique(n)) by {
            assert forall|a: int, b: int| 0 <= a < b < n.len() implies #[trigger] n[a].0 != #[trigger] n[b].0 by {
                if a == i {
                    assert(e[b].0 != e[i].0);
                } else if b == i {
                    assert(e[a].0 != e[i].0);
                } else {
                    assert(e[a].0 != e[b].0);
                }
            }
        }
        let j = choose|j: int| 0 <= j < n.len() && #[trigger] n[j].0 == k;
        assert(j == i);
        if has_name(e, other) {
            let p = choose|p: int| 0 <= p < e.len() && #[trigger] e[p].0 == other;
            assert(n[p].0 == other);
            let q = choose|q: int| 0 <= q < n.len() && #[trigger] n[q].0 == other;
            assert(q == p);
        } else {
            assert forall|q: int| 0 <= q < n.len() implies #[trigger] n[q].0 != other by {
                if q != i {
                    assert(n[q] == e[q]);
                }
            }
        }
    } else {
        assert(n[e.len() as int].0 == k);
        assert(names_unique(n)) by {
            assert forall|a: int, b: int| 0 <= a < b < n.len() implies #[trigger] n[a].0 != #[trigger] n[b].0 by {
                if b == e.len() {
                    assert(n[a] == e[a]);
                }
            }
        }
        let j = choose|j: int| 0 <= j < n.len() && #[trigger] n[j].0 == k;
        assert(j == e.len());
        if has_name(e, other) {
            let p = choose|p: int| 0 <= p < e.len() && #[trigger] e[p].0 == other;
            assert(n[p].0 == other);
            let q = choose|q: int| 0 <= q < n.len() && #[trigger] n[q].0 == other;
            assert(q == p);
        } else {
            assert forall|q: int| 0 <= q < n.len() implies #[trigger] n[q].0 != other by {
                if q < e.len() {
                    assert(n[q] == e[q]);
                }
            }
        }
    }
}

/// The plain value of a list of strings.
pub open spec fn strings_view(v: Seq<String>) -> Seq<Seq<char>> {
    v.map_values(|s: String| s@)
}

/// Response headers grouped by name.
#[derive(Debug, PartialEq, Eq)]
pub struct ResponseHeaders {
    groups: Vec<(String, Vec<String>)>,
}

impl View for ResponseHeaders {
    type V = GroupedEntries;

    closed spec fn view(&self) -> GroupedEntries {
        self.groups@.map_values(|g: (String, Vec<String>)| (g.0@, strings_view(g.1@)))
    }
}

impl ResponseHeaders {
    #[verifier::type_invariant]
    closed spec fn inv(self) -> bool {
        names_unique(self@)
    }

    /// No headers.
    pub fn new() -> (r: Self)
        ensures
            r@ == Seq::<(Seq<char>, Seq<Seq<char>>)>::empty(),
    {
        let r = ResponseHeaders { groups: Vec::new() };
        assert(r@ =~= Seq::<(Seq<char>, Seq<Seq<char>>)>::empty());
        r
    }

    /// Number of distinct names.
    pub fn len(&self) -> (r: usize)
        ensures
            r == self@.len(),
            names_unique(self@),
    {
        proof {
            use_type_invariant(self);
        }
        self.groups.len()
    }

    /// Name of the group at position `i`.
    pub fn name_at(&self, i: usize) -> (r: &String)
        requires
            i < self@.len(),
        ensures
            r@ == self@[i as int].0,
    {
        &self.groups[i].0
    }

    /// Values of the group at position `i`.
    pub fn values_at(&self, i: usize) -> (r: &Vec<String>)
        requires
            i < self@.len(),
        ensures
            strings_view(r@) == self@[i as int].1,
    {
        &self.groups[i].1
    }

    fn position(&self, key: &String) -> (r: Option<usize>)
        ensures
            r matches Some(i) ==> i < self@.len() && self@[i as int].0 == key@,
            r is None ==> !has_name(self@, key@),
    {
        let mut i: usize = 0;
        while i < self.groups.len()
            invariant
                i <= self.groups@.len(),
                self@.len() == self.groups@.len(),
                forall|j: int| 0 <= j < i ==> self@[j].0 != key@,
            decreases self.groups@.len() - i,
        {
            if self.groups[i].0 == *key {
                return Some(i);
            }
            i = i + 1;
        }
        None
    }

    /// The values recorded under `name`, as `HashMap::get`.
    pub fn get(&self, name: &str) -> (r: Option<&Vec<String>>)
        ensures
            r matches Some(vs) ==> values_of(self@, name@) == Some(strings_view(vs@)),
            r is None ==> values_of(self@, name@) is None,
    {
        proof {
            use_type_invariant(self);
        }
        let k = name.to_owned();
        match self.position(&k) {
            Some(i) => {
                let ghost j = choose|j: int| 0 <= j < self@.len() && #[trigger] self@[j].0 == name@;
                assert(self@[j].0 == name@);
                assert(j == i as int);
                Some(&self.groups[i].1)
            },
            None => None,
        }
    }

    /// The first value recorded under `name`.
    pub fn first(&self, name: &str) -> (r: Option<&String>)
        ensures
            r matches Some(v) ==> first_value(self@, name@) == Some(v@),
            r is None ==> first_value(self@, name@) is None,
    {
        match self.get(name) {
            Some(vs) => {
                if vs.len() > 0 {
                    Some(&vs[0])
                } else {
                    None
                }
            },
            None => None,
        }
    }

    /// Records `value` under `name` (`entry(name).or_default().push(value)`).
    pub fn append(&mut self, name: String, value: String)
        ensures
            final(self)@ == grouped_append(old(self)@, name@, value@),
    {
        proof {
            use_type_invariant(&*self);
        }
        let ghost old_view = self@;
        let ghost kv = name@;
        let ghost vv = value@;
        let pos = self.position(&name);
        let mut groups: Vec<(String, Vec<String>)> = Vec::new();
        std::mem::swap(&mut groups, &mut self.groups);
        assert(groups@.map_values(|g: (String, Vec<String>)| (g.0@, strings_view(g.1@)))
            == old_view);
        match pos {
            Some(i) => {
                let ghost j = choose|j: int| 0 <= j < old_view.len() && #[trigger] old_view[j].0
                    == kv;
                assert(old_view[j].0 == kv);
                assert(j == i as int);
                let mut slot: (String, Vec<String>) = (name, Vec::new());
                groups.set_and_swap(i, &mut slot);
                let mut values = slot.1;
                values.push(value);
                assert(strings_view(values@) =~= old_view[i as int].1.push(vv));
                let mut back: (String, Vec<String>) = (slot.0, values);
                groups.set_and_swap(i, &mut back);
                let ghost nv = groups@.map_values(|g: (String, Vec<String>)| (g.0@, strings_view(g.1@)));
                assert(nv =~= old_view.update(i as int, (kv, old_view[i as int].1.push(vv))));
                assert(names_unique(nv));
            },
            None => {
                let mut values: Vec<String> = Vec::new();
                values.push(value);
                assert(strings_view(values@) =~= seq![vv]);
                groups.push((name, values));
                let ghost nv = groups@.map_values(|g: (String, Vec<String>)| (g.0@, strings_view(g.1@)));
                assert(nv =~= old_view.push((kv, seq![vv])));
                assert(names_unique(nv)) by {
                    assert forall|a: int, b: int| 0 <= a < b < nv.len() implies #[trigger] nv[a].0
                        != #[trigger] nv[b].0 by {
                        if b == old_view.len() {
                            assert(old_view[a].0 != kv);
                        }
                    }
                }
            },
        }
        self.groups = groups;
    }
}


/// A copy of a list of strings.
fn clone_strings(v: &Vec<String>) -> (r: Vec<String>)
    ensures
        strings_view(r@) == strings_view(v@),
{
    let mut r: Vec<String> = Vec::new();
    let mut i: usize = 0;
    while i < v.len()
        invariant
            i <= v@.len(),
            strings_view(r@) == strings_view(v@).take(i as int),
        decreases v@.len() - i,
    {
        let ghost before = r@;
        r.push(v[i].clone());
        assert(strings_view(r@) =~= strings_view(before).push(v@[i as int]@));
        assert(strings_view(v@).take(i + 1) =~= strings_view(v@).take(i as int).push(v@[i as int]@));
        i = i + 1;
    }
    assert(strings_view(v@).take(v@.len() as int) =~= strings_view(v@));
    r
}

impl Clone for ResponseHeaders {
    /// A copy with the same groups in the same order.
    fn clone(&self) -> (r: Self)
        ensures
            r@ == self@,
    {
        proof {
            use_type_invariant(self);
        }
        let mut groups: Vec<(String, Vec<String>)> = Vec::new();
        let mut i: usize = 0;
        while i < self.groups.len()
            invariant
                i <= self.groups@.len(),
                groups@.map_values(|g: (String, Vec<String>)| (g.0@, strings_view(g.1@))) == self@.take(i as int),
            decreases self.groups@.len() - i,
        {
            let ghost before = groups@;
            groups.push((self.groups[i].0.clone(), clone_strings(&self.groups[i].1)));
            assert(groups@.map_values(|g: (String, Vec<String>)| (g.0@, strings_view(g.1@))) =~= before.map_values(
                |g: (String, Vec<String>)| (g.0@, strings_view(g.1@)),
            ).push(self@[i as int]));
            assert(self@.take(i + 1) =~= self@.take(i as int).push(self@[i as int]));
            i = i + 1;
        }
        assert(self@.take(self.groups@.len() as int) =~= self@);
        ResponseHeaders { groups }
    }
}

} // verus!
