use vstd::prelude::*;

use std::collections::HashMap;

use crate::link::Cursor;

verus! {

/// Keys in the order they were first inserted, each paired with its value.
pub open spec fn map_of<V>(s: Seq<(u64, V)>) -> Map<u64, V>
    decreases s.len(),
{
    if s.len() == 0 {
        Map::empty()
    } else {
        map_of(s.drop_last()).insert(s.last().0, s.last().1)
    }
}

/// No key occurs twice.
pub open spec fn keys_unique<V>(s: Seq<(u64, V)>) -> bool {
    forall|i: int, j: int| 0 <= i < j < s.len() ==> s[i].0 != s[j].0
}

/// A key is mapped exactly when some entry holds it.
pub proof fn lemma_map_of_dom<V>(s: Seq<(u64, V)>, k: u64)
    ensures
        map_of(s).contains_key(k) <==> exists|i: int| 0 <= i < s.len() && s[i].0 == k,
    decreases s.len(),
{
    if s.len() > 0 {
        lemma_map_of_dom(s.drop_last(), k);
        if map_of(s.drop_last()).contains_key(k) {
            let i = choose|i: int| 0 <= i < s.drop_last().len() && s.drop_last()[i].0 == k;
            assert(s[i].0 == k);
        }
        if exists|i: int| 0 <= i < s.len() && s[i].0 == k {
            let i = choose|i: int| 0 <= i < s.len() && s[i].0 == k;
            if i < s.len() - 1 {
                assert(s.drop_last()[i].0 == k);
            }
        }
    }
}

/// With distinct keys, each entry's key maps to that entry's value.
pub proof fn lemma_map_of_index<V>(s: Seq<(u64, V)>, i: int)
    requires
        keys_unique(s),
        0 <= i < s.len(),
    ensures
        map_of(s).contains_key(s[i].0),
        map_of(s)[s[i].0] == s[i].1,
    decreases s.len(),
{
    if i < s.len() - 1 {
        lemma_map_of_index(s.drop_last(), i);
        assert(s.drop_last()[i] == s[i]);
    }
}

/// With distinct keys, overwriting the value of an entry is an insert.
pub proof fn lemma_map_of_update<V>(s: Seq<(u64, V)>, i: int, v: V)
    requires
        keys_unique(s),
        0 <= i < s.len(),
    ensures
        map_of(s.update(i, (s[i].0, v))) == map_of(s).insert(s[i].0, v),
    decreases s.len(),
{
    let t = s.update(i, (s[i].0, v));
    if i == s.len() - 1 {
        assert(t.drop_last() =~= s.drop_last());
        assert(map_of(t) =~= map_of(s).insert(s[i].0, v));
    } else {
        assert(t.drop_last() =~= s.drop_last().update(i, (s[i].0, v)));
        lemma_map_of_update(s.drop_last(), i, v);
        assert(s.last().0 != s[i].0);
        assert(map_of(t) =~= map_of(s).insert(s[i].0, v));
    }
}

/// Two entry lists with the same keys, the second holding `c` everywhere,
/// give the first map's domain mapped to `c`.
pub proof fn lemma_map_of_const<V>(s: Seq<(u64, V)>, t: Seq<(u64, V)>, c: V)
    requires
        s.len() == t.len(),
        forall|j: int| 0 <= j < s.len() ==> #[trigger] t[j] == (s[j].0, c),
    ensures
        map_of(t) == Map::new(|k: u64| map_of(s).contains_key(k), |k: u64| c),
    decreases s.len(),
{
    if s.len() > 0 {
        lemma_map_of_const(s.drop_last(), t.drop_last(), c);
        assert(t.last() == (s.last().0, c));
        assert(map_of(t) =~= Map::new(|k: u64| map_of(s).contains_key(k), |k: u64| c));
    } else {
        assert(map_of(t) =~= Map::new(|k: u64| map_of(s).contains_key(k), |k: u64| c));
    }
}

/// A store keyed by 64-bit identifiers; keys are distinct and kept in the
/// order of their first insertion.
pub struct Store<V> {
    pub entries: Vec<(u64, V)>,
}

/// Publisher identity to cursor.
pub type PkStore = Store<Cursor>;

/// Pre-shared key identifier to pre-shared key.
pub type PskStore = Store<Vec<u8>>;

/// Committed sponge state and caller information under a relative link.
#[derive(Clone, Debug)]
pub struct LinkEntry {
    pub spongos: Vec<u8>,
    pub info: u64,
}

/// Relative link to the state committed under it. Only looked up and
/// written, never walked, so it is hashed.
pub struct LinkStore {
    pub map: HashMap<u64, LinkEntry>,
}

impl View for LinkStore {
    type V = Map<u64, LinkEntry>;

    open spec fn view(&self) -> Map<u64, LinkEntry> {
        self.map@
    }
}

impl LinkStore {
    pub fn new() -> (r: LinkStore)
        ensures
            r@ == Map::<u64, LinkEntry>::empty(),
    {
        LinkStore { map: HashMap::new() }
    }

    pub fn contains_key(&self, rel: u64) -> (r: bool)
        ensures
            r == self@.contains_key(rel),
    {
        broadcast use vstd::std_specs::hash::group_hash_axioms;
        self.map.contains_key(&rel)
    }

    pub fn get(&self, rel: u64) -> (r: Option<&LinkEntry>)
        ensures
            match r {
                Some(v) => self@.contains_key(rel) && *v == self@[rel],
                None => !self@.contains_key(rel),
            },
    {
        broadcast use vstd::std_specs::hash::group_hash_axioms;
        self.map.get(&rel)
    }

    /// Commits `entry` under `rel`, in place of any earlier one.
    pub fn insert(&mut self, rel: u64, entry: LinkEntry)
        ensures
            final(self)@ == old(self)@.insert(rel, entry),
    {
        broadcast use vstd::std_specs::hash::group_hash_axioms;
        let _ = self.map.insert(rel, entry);
    }
}

impl<V> View for Store<V> {
    type V = Map<u64, V>;

    open spec fn view(&self) -> Map<u64, V> {
        map_of(self.entries@)
    }
}

impl<V> Store<V> {
    pub open spec fn wf(&self) -> bool {
        keys_unique(self.entries@)
    }

    pub fn new() -> (r: Store<V>)
        ensures
            r.wf(),
            r@ == Map::<u64, V>::empty(),
            r.entries@.len() == 0,
    {
        Store { entries: Vec::new() }
    }

    /// Number of keys.
    pub fn len(&self) -> (r: usize)
        requires
            self.wf(),
        ensures
            r == self.entries@.len(),
    {
        self.entries.len()
    }

    /// Position of `k` among the entries.
    fn find(&self, k: u64) -> (r: Option<usize>)
        requires
            self.wf(),
        ensures
            match r {
                Some(i) => i < self.entries@.len() && self.entries@[i as int].0 == k
                    && self@.contains_key(k) && self@[k] == self.entries@[i as int].1,
                None => !self@.contains_key(k),
            },
    {
        let mut i: usize = 0;
        while i < self.entries.len()
            invariant
                self.wf(),
                i <= self.entries@.len(),
                forall|j: int| 0 <= j < i ==> self.entries@[j].0 != k,
            decreases self.entries@.len() - i,
        {
            if self.entries[i].0 == k {
                proof {
                    lemma_map_of_index(self.entries@, i as int);
                }
                return Some(i);
            }
            i = i + 1;
        }
        proof {
            lemma_map_of_dom(self.entries@, k);
        }
        None
    }

    pub fn contains_key(&self, k: u64) -> (r: bool)
        requires
            self.wf(),
        ensures
            r == self@.contains_key(k),
    {
        self.find(k).is_some()
    }

    pub fn get(&self, k: u64) -> (r: Option<&V>)
        requires
            self.wf(),
        ensures
            match r {
                Some(v) => self@.contains_key(k) && *v == self@[k],
                None => !self@.contains_key(k),
            },
    {
        match self.find(k) {
            Some(i) => Some(&self.entries[i].1),
            None => None,
        }
    }

    /// Maps `k` to `v`, in place of any earlier value.
    pub fn insert(&mut self, k: u64, v: V)
        requires
            old(self).wf(),
        ensures
            final(self).wf(),
            final(self)@ == old(self)@.insert(k, v),
    {
        match self.find(k) {
            Some(i) => {
                proof {
                    lemma_map_of_update(self.entries@, i as int, v);
                }
                self.entries.set(i, (k, v));
            },
            None => {
                proof {
                    lemma_map_of_dom(self.entries@, k);
                }
                self.entries.push((k, v));
                proof {
                    assert(self.entries@.drop_last() =~= old(self).entries@);
                }
            },
        }
    }
}

impl<V> Store<V> {
    /// The keys, in store order.
    pub fn keys(&self) -> (r: Vec<u64>)
        requires
            self.wf(),
        ensures
            r@.len() == self.entries@.len(),
            forall|i: int| 0 <= i < r@.len() ==> r@[i] == #[trigger] self.entries@[i].0,
            forall|k: u64| r@.contains(k) <==> self@.contains_key(k),
    {
        let mut r: Vec<u64> = Vec::new();
        let mut i: usize = 0;
        while i < self.entries.len()
            invariant
                i <= self.entries@.len(),
                r@.len() == i,
                forall|j: int| 0 <= j < i ==> r@[j] == #[trigger] self.entries@[j].0,
            decreases self.entries@.len() - i,
        {
            r.push(self.entries[i].0);
            i = i + 1;
        }
        proof {
            assert forall|k: u64| r@.contains(k) <==> self@.contains_key(k) by {
                lemma_map_of_dom(self.entries@, k);
                if r@.contains(k) {
                    let j = choose|j: int| 0 <= j < r@.len() && r@[j] == k;
                    assert(self.entries@[j].0 == k);
                }
                if self@.contains_key(k) {
                    let j = choose|j: int| 0 <= j < self.entries@.len() && self.entries@[j].0 == k;
                    assert(r@[j] == k);
                }
            }
        }
        r
    }

    /// Those of `ks` that the store holds, in the order of `ks`.
    pub fn filter(&self, ks: &Vec<u64>) -> (r: Vec<u64>)
        requires
            self.wf(),
        ensures
            forall|k: u64| r@.contains(k) <==> ks@.contains(k) && self@.contains_key(k),
    {
        let mut r: Vec<u64> = Vec::new();
        let mut i: usize = 0;
        while i < ks.len()
            invariant
                self.wf(),
                i <= ks@.len(),
                forall|k: u64|
                    r@.contains(k) <==> ks@.subrange(0, i as int).contains(k)
                        && self@.contains_key(k),
            decreases ks@.len() - i,
        {
            let k = ks[i];
            let ghost before = r@;
            if self.contains_key(k) {
                r.push(k);
            }
            proof {
                let s0 = ks@.subrange(0, i as int);
                let s1 = ks@.subrange(0, i + 1);
                assert(s1 =~= s0.push(k));
                assert(s1[i as int] == k);
                assert forall|x: u64| r@.contains(x) implies s1.contains(x) && self@.contains_key(x) by {
                    let j = choose|j: int| 0 <= j < r@.len() && r@[j] == x;
                    if j < before.len() {
                        assert(before[j] == x);
                        assert(before.contains(x));
                        let m = choose|m: int| 0 <= m < s0.len() && s0[m] == x;
                        assert(s1[m] == x);
                    }
                }
                assert forall|x: u64| s1.contains(x) && self@.contains_key(x) implies r@.contains(x) by {
                    let m = choose|m: int| 0 <= m < s1.len() && s1[m] == x;
                    if m < i {
                        assert(s0[m] == x);
                        assert(s0.contains(x));
                        assert(before.contains(x));
                        let j = choose|j: int| 0 <= j < before.len() && before[j] == x;
                        assert(r@[j] == x);
                    } else {
                        assert(r@[r@.len() - 1] == x);
                    }
                }
            }
            i = i + 1;
        }
        proof {
            assert(ks@.subrange(0, ks@.len() as int) =~= ks@);
        }
        r
    }
}

impl Store<Cursor> {
    /// Moves every publisher to cursor `c`.
    pub fn set_all(&mut self, c: Cursor)
        requires
            old(self).wf(),
        ensures
            final(self).wf(),
            final(self)@ == Map::new(|k: u64| old(self)@.contains_key(k), |k: u64| c),
    {
        let ghost s0 = self.entries@;
        let mut i: usize = 0;
        while i < self.entries.len()
            invariant
                i <= self.entries@.len(),
                self.entries@.len() == s0.len(),
                forall|j: int| 0 <= j < i ==> #[trigger] self.entries@[j] == (s0[j].0, c),
                forall|j: int| i <= j < s0.len() ==> #[trigger] self.entries@[j] == s0[j],
            decreases self.entries@.len() - i,
        {
            let k = self.entries[i].0;
            self.entries.set(i, (k, c));
            i = i + 1;
        }
        proof {
            lemma_map_of_const(s0, self.entries@, c);
            assert forall|a: int, b: int| 0 <= a < b < self.entries@.len() implies self.entries@[a].0
                != self.entries@[b].0 by {
                assert(self.entries@[a] == (s0[a].0, c));
                assert(self.entries@[b] == (s0[b].0, c));
            }
        }
    }
}

} // verus!
