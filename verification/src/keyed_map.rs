//! A small map keyed by strings that remembers insertion order.
//!
//! Entries live in a vector; no key occurs twice. The map a `KeyedMap`
//! stands for is what inserting its entries one after another, in order,
//! into an empty map gives.

use vstd::prelude::*;

verus! {

/// The map obtained by inserting `ps` in order into `start`; a later pair
/// overrides an earlier pair with the same key.
pub open spec fn apply_pairs<V>(start: Map<Seq<char>, V>, ps: Seq<(Seq<char>, V)>) -> Map<
    Seq<char>,
    V,
>
    decreases ps.len(),
{
    if ps.len() == 0 {
        start
    } else {
        apply_pairs(start, ps.drop_last()).insert(ps.last().0, ps.last().1)
    }
}

/// The map obtained by inserting `ps` in order into the empty map.
pub open spec fn map_of_pairs<V>(ps: Seq<(Seq<char>, V)>) -> Map<Seq<char>, V> {
    apply_pairs(Map::empty(), ps)
}

/// No key occurs twice in `ps`.
pub open spec fn keys_distinct<V>(ps: Seq<(Seq<char>, V)>) -> bool {
    forall|i: int, j: int| 0 <= i < j < ps.len() ==> #[trigger] ps[i].0 != #[trigger] ps[j].0
}

/// Whether `k` occurs as a key in `ps`.
pub open spec fn has_key<V>(ps: Seq<(Seq<char>, V)>, k: Seq<char>) -> bool {
    exists|i: int| 0 <= i < ps.len() && #[trigger] ps[i].0 == k
}

/// Applying a concatenation is applying its parts one after the other.
pub proof fn lemma_apply_concat<V>(
    start: Map<Seq<char>, V>,
    a: Seq<(Seq<char>, V)>,
    b: Seq<(Seq<char>, V)>,
)
    ensures
        apply_pairs(start, a + b) == apply_pairs(apply_pairs(start, a), b),
    decreases b.len(),
{
    if b.len() == 0 {
        assert(a + b =~= a);
    } else {
        lemma_apply_concat(start, a, b.drop_last());
        assert((a + b).drop_last() =~= a + b.drop_last());
        assert((a + b).last() == b.last());
    }
}

/// Applying one more pair is one more insert.
pub proof fn lemma_apply_push<V>(start: Map<Seq<char>, V>, a: Seq<(Seq<char>, V)>, p: (Seq<char>, V))
    ensures
        apply_pairs(start, a.push(p)) == apply_pairs(start, a).insert(p.0, p.1),
{
    assert(a.push(p).drop_last() =~= a);
}

/// A key is in the map of `ps` exactly when it is in the start map or a key of `ps`.
pub proof fn lemma_apply_domain<V>(start: Map<Seq<char>, V>, ps: Seq<(Seq<char>, V)>, k: Seq<char>)
    ensures
        apply_pairs(start, ps).contains_key(k) <==> (start.contains_key(k) || has_key(ps, k)),
    decreases ps.len(),
{
    if ps.len() > 0 {
        lemma_apply_domain(start, ps.drop_last(), k);
        if has_key(ps, k) && ps.last().0 != k {
            let i = choose|i: int| 0 <= i < ps.len() && #[trigger] ps[i].0 == k;
            assert(ps.drop_last()[i].0 == k);
        }
        if has_key(ps.drop_last(), k) {
            let i = choose|i: int| 0 <= i < ps.drop_last().len() && #[trigger] ps.drop_last()[i].0 == k;
            assert(ps[i].0 == k);
        }
        if ps.last().0 == k {
            assert(ps[ps.len() - 1].0 == k);
        }
    }
}

/// When the last pair with key `k` stands at index `i`, the map holds its value at `k`.
pub proof fn lemma_apply_last_write<V>(start: Map<Seq<char>, V>, ps: Seq<(Seq<char>, V)>, i: int)
    requires
        0 <= i < ps.len(),
        forall|j: int| i < j < ps.len() ==> #[trigger] ps[j].0 != ps[i].0,
    ensures
        apply_pairs(start, ps).contains_key(ps[i].0),
        apply_pairs(start, ps)[ps[i].0] == ps[i].1,
    decreases ps.len(),
{
    if i < ps.len() - 1 {
        let last = ps.len() - 1;
        assert(ps[last].0 != ps[i].0);
        assert forall|j: int| i < j < ps.drop_last().len() implies #[trigger] ps.drop_last()[j].0
            != ps.drop_last()[i].0 by {
            assert(ps[j].0 != ps[i].0);
        }
        lemma_apply_last_write(start, ps.drop_last(), i);
    }
}

/// A key that no pair of `ps` names keeps its value from the start map.
pub proof fn lemma_apply_untouched<V>(start: Map<Seq<char>, V>, ps: Seq<(Seq<char>, V)>, k: Seq<char>)
    requires
        !has_key(ps, k),
    ensures
        apply_pairs(start, ps).contains_key(k) == start.contains_key(k),
        start.contains_key(k) ==> apply_pairs(start, ps)[k] == start[k],
    decreases ps.len(),
{
    if ps.len() > 0 {
        assert(ps[ps.len() - 1].0 != k);
        if has_key(ps.drop_last(), k) {
            let i = choose|i: int| 0 <= i < ps.drop_last().len() && #[trigger] ps.drop_last()[i].0 == k;
            assert(ps[i].0 == k);
        }
        lemma_apply_untouched(start, ps.drop_last(), k);
    }
}

/// Every value of the map of `ps` that is not from the start map was written by some pair.
pub proof fn lemma_apply_value_source<V>(start: Map<Seq<char>, V>, ps: Seq<(Seq<char>, V)>, k: Seq<char>)
    requires
        apply_pairs(start, ps).contains_key(k),
    ensures
        (exists|i: int| 0 <= i < ps.len() && #[trigger] ps[i] == (k, apply_pairs(start, ps)[k]))
            || (start.contains_key(k) && apply_pairs(start, ps)[k] == start[k]),
    decreases ps.len(),
{
    if ps.len() > 0 {
        let last = ps.len() - 1;
        if ps[last].0 == k {
            assert(ps[last] == (k, apply_pairs(start, ps)[k]));
        } else {
            lemma_apply_value_source(start, ps.drop_last(), k);
            if exists|i: int|
                0 <= i < ps.drop_last().len() && #[trigger] ps.drop_last()[i] == (
                    k,
                    apply_pairs(start, ps.drop_last())[k],
                ) {
                let i = choose|i: int|
                    0 <= i < ps.drop_last().len() && #[trigger] ps.drop_last()[i] == (
                        k,
                        apply_pairs(start, ps.drop_last())[k],
                    );
                assert(ps[i] == (k, apply_pairs(start, ps)[k]));
            }
        }
    }
}

/// Replacing the value of an existing key in a sequence with distinct keys is an insert.
proof fn lemma_apply_update<V>(ps: Seq<(Seq<char>, V)>, i: int, v: V)
    requires
        keys_distinct(ps),
        0 <= i < ps.len(),
    ensures
        map_of_pairs(ps.update(i, (ps[i].0, v))) == map_of_pairs(ps).insert(ps[i].0, v),
    decreases ps.len(),
{
    let k = ps[i].0;
    let qs = ps.update(i, (k, v));
    let last = ps.len() - 1;
    if i == last {
        assert(qs.drop_last() =~= ps.drop_last());
        assert(map_of_pairs(ps).insert(k, v) =~= map_of_pairs(ps.drop_last()).insert(k, v));
    } else {
        assert(qs.drop_last() =~= ps.drop_last().update(i, (k, v)));
        assert(ps[i].0 != ps[last].0);
        lemma_apply_update(ps.drop_last(), i, v);
        assert(qs.last() == ps.last());
        assert(map_of_pairs(qs) =~= map_of_pairs(ps).insert(k, v));
    }
}

/// String values seen by their characters.
pub open spec fn string_pairs(ps: Seq<(Seq<char>, String)>) -> Seq<(Seq<char>, Seq<char>)> {
    ps.map_values(|p: (Seq<char>, String)| (p.0, p.1@))
}

/// A map from string keys to values, with keys kept in insertion order.
#[derive(Debug)]
pub struct KeyedMap<V> {
    entries: Vec<(String, V)>,
}

impl<V> KeyedMap<V> {
    /// The entries, in order, with keys seen by their characters.
    pub closed spec fn pairs(&self) -> Seq<(Seq<char>, V)> {
        self.entries@.map_values(|e: (String, V)| (e.0@, e.1))
    }

    /// No key of a `KeyedMap` occurs twice.
    #[verifier::type_invariant]
    pub open spec fn inv(&self) -> bool {
        keys_distinct(self.pairs())
    }

    /// An empty map.
    pub fn new() -> (m: Self)
        ensures
            m.pairs() == Seq::<(Seq<char>, V)>::empty(),
            m@ == Map::<Seq<char>, V>::empty(),
    {
        let m = KeyedMap { entries: Vec::new() };
        assert(m.pairs() =~= Seq::<(Seq<char>, V)>::empty());
        m
    }

    /// Number of entries.
    pub fn len(&self) -> (n: usize)
        ensures
            n == self.pairs().len(),
    {
        self.entries.len()
    }

    /// Whether the map has no entries.
    pub fn is_empty(&self) -> (b: bool)
        ensures
            b == (self.pairs().len() == 0),
    {
        self.entries.len() == 0
    }

    /// The key of the `i`-th entry.
    pub fn key_at(&self, i: usize) -> (k: &String)
        requires
            i < self.pairs().len(),
        ensures
            k@ == self.pairs()[i as int].0,
    {
        &self.entries[i].0
    }

    /// The value of the `i`-th entry.
    pub fn value_at(&self, i: usize) -> (v: &V)
        requires
            i < self.pairs().len(),
        ensures
            *v == self.pairs()[i as int].1,
    {
        &self.entries[i].1
    }

    /// The index of `key` among the entries, if it is there.
    fn index_of(&self, key: &str) -> (r: Option<usize>)
        ensures
            match r {
                Some(i) => i < self.pairs().len() && self.pairs()[i as int].0 == key@,
                None => !has_key(self.pairs(), key@),
            },
    {
        let target = key.to_owned();
        let n = self.entries.len();
        let mut i: usize = 0;
        while i < n
            invariant
                n == self.entries@.len(),
                0 <= i <= n,
                target@ == key@,
                forall|j: int| 0 <= j < i ==> #[trigger] self.pairs()[j].0 != key@,
            decreases n - i,
        {
            if self.entries[i].0 == target {
                return Some(i);
            }
            i = i + 1;
        }
        proof {
            if has_key(self.pairs(), key@) {
                let j = choose|j: int| 0 <= j < self.pairs().len() && #[trigger] self.pairs()[j].0
                    == key@;
                assert(self.pairs()[j].0 != key@);
            }
        }
        None
    }

    /// Whether `key` has an entry.
    pub fn contains_key(&self, key: &str) -> (b: bool)
        ensures
            b == self@.contains_key(key@),
            b == has_key(self.pairs(), key@),
    {
        proof {
            lemma_apply_domain(Map::empty(), self.pairs(), key@);
        }
        self.index_of(key).is_some()
    }

    /// The value stored under `key`, if any.
    pub fn get(&self, key: &str) -> (r: Option<&V>)
        ensures
            match r {
                Some(v) => self@.contains_key(key@) && *v == self@[key@],
                None => !self@.contains_key(key@),
            },
    {
        proof {
            use_type_invariant(self);
            lemma_apply_domain(Map::empty(), self.pairs(), key@);
        }
        match self.index_of(key) {
            Some(i) => {
                proof {
                    assert forall|j: int| i < j < self.pairs().len() implies #[trigger] self.pairs()[j].0
                        != self.pairs()[i as int].0 by {}
                    lemma_apply_last_write(Map::empty(), self.pairs(), i as int);
                }
                Some(&self.entries[i].1)
            },
            None => None,
        }
    }

    /// Sets `key` to `value`: an existing entry keeps its place and takes the new
    /// value, a new key goes to the end.
    pub fn insert(&mut self, key: String, value: V)
        ensures
            final(self)@ == old(self)@.insert(key@, value),
            has_key(old(self).pairs(), key@) ==> exists|i: int|
                0 <= i < old(self).pairs().len() && old(self).pairs()[i].0 == key@
                    && final(self).pairs() == old(self).pairs().update(i, (key@, value)),
            !has_key(old(self).pairs(), key@) ==> final(self).pairs() == old(self).pairs().push(
                (key@, value),
            ),
    {
        proof {
            use_type_invariant(&*self);
        }
        let ghost old_pairs = self.pairs();
        let idx = self.index_of(key.as_str());
        let mut entries: Vec<(String, V)> = Vec::new();
        std::mem::swap(&mut entries, &mut self.entries);
        match idx {
            Some(i) => {
                let ghost k = key@;
                entries.set(i, (key, value));
                proof {
                    let np = entries@.map_values(|e: (String, V)| (e.0@, e.1));
                    assert(np =~= old_pairs.update(i as int, (k, value)));
                    lemma_apply_update(old_pairs, i as int, value);
                    assert(keys_distinct(np)) by {
                        assert forall|a: int, b: int| 0 <= a < b < np.len() implies #[trigger] np[a].0
                            != #[trigger] np[b].0 by {
                            assert(np[a].0 == old_pairs[a].0);
                            assert(np[b].0 == old_pairs[b].0);
                        }
                    }
                }
            },
            None => {
                let ghost k = key@;
                entries.push((key, value));
                proof {
                    let np = entries@.map_values(|e: (String, V)| (e.0@, e.1));
                    assert(np =~= old_pairs.push((k, value)));
                    lemma_apply_push(Map::empty(), old_pairs, (k, value));
                    assert(keys_distinct(np)) by {
                        assert forall|a: int, b: int| 0 <= a < b < np.len() implies #[trigger] np[a].0
                            != #[trigger] np[b].0 by {
                            if b == np.len() - 1 {
                                assert(old_pairs[a].0 == np[a].0);
                            } else {
                                assert(np[a].0 == old_pairs[a].0);
                                assert(np[b].0 == old_pairs[b].0);
                            }
                        }
                    }
                }
            },
        }
        self.entries = entries;
    }
}

impl<V> View for KeyedMap<V> {
    type V = Map<Seq<char>, V>;

    /// The map that inserting the entries in order gives.
    open spec fn view(&self) -> Map<Seq<char>, V> {
        map_of_pairs(self.pairs())
    }
}

impl KeyedMap<String> {
    /// The entries with values seen by their characters.
    pub open spec fn str_pairs(&self) -> Seq<(Seq<char>, Seq<char>)> {
        string_pairs(self.pairs())
    }

    /// The map with values seen by their characters.
    pub open spec fn str_view(&self) -> Map<Seq<char>, Seq<char>> {
        map_of_pairs(self.str_pairs())
    }

    /// Sets `key` to `value`, as `insert` does, and tells what that does to the
    /// character view.
    pub fn set(&mut self, key: String, value: String)
        ensures
            final(self).str_view() == old(self).str_view().insert(key@, value@),
            final(self)@ == old(self)@.insert(key@, value),
            !has_key(old(self).str_pairs(), key@) ==> final(self).str_pairs() == old(
                self,
            ).str_pairs().push((key@, value@)),
            has_key(old(self).str_pairs(), key@) ==> final(self).str_pairs().len() == old(
                self,
            ).str_pairs().len(),
    {
        proof {
            use_type_invariant(&*self);
        }
        let ghost op = self.pairs();
        let ghost k = key@;
        let ghost v = value@;
        let ghost vs = value;
        self.insert(key, value);
        proof {
            let osp = string_pairs(op);
            assert(keys_distinct(osp)) by {
                assert forall|a: int, b: int| 0 <= a < b < osp.len() implies #[trigger] osp[a].0
                    != #[trigger] osp[b].0 by {
                    assert(osp[a].0 == op[a].0);
                    assert(osp[b].0 == op[b].0);
                }
            }
            if has_key(op, k) {
                let i = choose|i: int|
                    0 <= i < op.len() && op[i].0 == k && self.pairs() == op.update(i, (k, vs));
                assert(string_pairs(self.pairs()) =~= osp.update(i, (k, v)));
                lemma_apply_update(osp, i, v);
                assert(osp[i].0 == k);
            } else {
                assert(string_pairs(self.pairs()) =~= osp.push((k, v)));
                lemma_apply_push(Map::empty(), osp, (k, v));
                if has_key(osp, k) {
                    let i = choose|i: int| 0 <= i < osp.len() && #[trigger] osp[i].0 == k;
                    assert(op[i].0 == k);
                }
            }
            if has_key(osp, k) {
                let i = choose|i: int| 0 <= i < osp.len() && #[trigger] osp[i].0 == k;
                assert(op[i].0 == k);
            }
        }
    }

    /// The value stored under `key`, by its characters, if any.
    pub fn get_str(&self, key: &str) -> (r: Option<&String>)
        ensures
            match r {
                Some(v) => self.str_view().contains_key(key@) && v@ == self.str_view()[key@],
                None => !self.str_view().contains_key(key@),
            },
    {
        proof {
            use_type_invariant(self);
            lemma_apply_domain(Map::empty(), self.str_pairs(), key@);
        }
        let r = self.index_of(key);
        match r {
            Some(i) => {
                proof {
                    let sp = self.str_pairs();
                    assert(sp[i as int].0 == key@);
                    assert forall|j: int| i < j < sp.len() implies #[trigger] sp[j].0 != sp[i as int].0 by {
                        assert(sp[j].0 == self.pairs()[j].0);
                    }
                    lemma_apply_last_write(Map::empty(), sp, i as int);
                }
                Some(&self.entries[i].1)
            },
            None => {
                proof {
                    if has_key(self.str_pairs(), key@) {
                        let j = choose|j: int| 0 <= j < self.str_pairs().len() && #[trigger] self.str_pairs()[j].0 == key@;
                        assert(self.pairs()[j].0 == key@);
                    }
                }
                None
            },
        }
    }
}

impl Clone for KeyedMap<String> {
    /// A copy with the same entries in the same order.
    fn clone(&self) -> (res: Self)
        ensures
            res.pairs() == self.pairs(),
            res.str_pairs() == self.str_pairs(),
            res@ == self@,
            res.str_view() == self.str_view(),
    {
        proof {
            use_type_invariant(self);
        }
        let mut out: Vec<(String, String)> = Vec::new();
        let n = self.entries.len();
        let mut i: usize = 0;
        while i < n
            invariant
                n == self.entries@.len(),
                0 <= i <= n,
                out@.len() == i,
                forall|j: int| 0 <= j < i ==> #[trigger] out@[j] == self.entries@[j],
            decreases n - i,
        {
            let k = self.entries[i].0.clone();
            let v = self.entries[i].1.clone();
            out.push((k, v));
            i = i + 1;
        }
        assert(out@ =~= self.entries@);
        KeyedMap { entries: out }
    }
}

} // verus!
