//! Small association containers keyed by the abstract view of their keys.
//!
//! The library keeps its maps and sets as vectors without duplicate keys; the
//! abstract value of a map is a `Map` from key views to values, and of a set a
//! `Set` of element views. Iteration goes in insertion order, which is one of
//! the orders a hash map could produce.
use vstd::prelude::*;

verus! {

/// A copy with the same abstract value.
pub trait ViewClone: View + Sized {
    fn view_clone(&self) -> (r: Self)
        ensures
            r@ == self@,
    ;
}

/// Keys and set elements: equality decided on the abstract view.
pub trait KeyEq: View + Sized {
    fn key_eq(&self, other: &Self) -> (r: bool)
        ensures
            r == (self@ == other@),
    ;
}

pub open spec fn keys_of<K: View, V>(s: Seq<(K, V)>) -> Seq<K::V> {
    s.map_values(|e: (K, V)| e.0@)
}

pub open spec fn views_of<T: View>(s: Seq<T>) -> Seq<T::V> {
    s.map_values(|e: T| e@)
}

/// A map kept as a vector of entries whose key views are pairwise distinct.
#[derive(Debug)]
pub struct VecMap<K: View, V: View> {
    entries: Vec<(K, V)>,
}

impl<K: View, V: View> VecMap<K, V> {
    #[verifier::type_invariant]
    pub closed spec fn wf(self) -> bool {
        keys_of(self.entries@).no_duplicates()
    }

    /// The entries in iteration order.
    pub closed spec fn entry_seq(&self) -> Seq<(K, V)> {
        self.entries@
    }
}

impl<K: View, V: View> View for VecMap<K, V> {
    type V = Map<K::V, V::V>;

    closed spec fn view(&self) -> Map<K::V, V::V> {
        Map::new(
            |k: K::V| keys_of(self.entries@).contains(k),
            |k: K::V| self.entries@[keys_of(self.entries@).index_of(k)].1@,
        )
    }
}

proof fn lemma_index_of_unique<A>(s: Seq<A>, i: int)
    requires
        s.no_duplicates(),
        0 <= i < s.len(),
    ensures
        s.contains(s[i]),
        s.index_of(s[i]) == i,
{
    assert(s.contains(s[i]));
    let j = s.index_of(s[i]);
    assert(0 <= j < s.len() && s[j] == s[i]);
}

impl<K: View + KeyEq, V: View> VecMap<K, V> {
    /// What a client may rely on about the entries and the abstract map.
    pub proof fn lemma_entries(&self)
        requires
            self.wf(),
        ensures
            keys_of(self.entry_seq()).no_duplicates(),
            self@.dom().finite(),
            self@.len() == self.entry_seq().len(),
            forall|k: K::V|
                #![trigger self@.contains_key(k)]
                self@.contains_key(k) <==> exists|i: int|
                    0 <= i < self.entry_seq().len() && (#[trigger] self.entry_seq()[i]).0@ == k,
            forall|i: int|
                #![trigger self.entry_seq()[i]]
                0 <= i < self.entry_seq().len() ==> self@.contains_key(self.entry_seq()[i].0@)
                    && self@[self.entry_seq()[i].0@] == self.entry_seq()[i].1@,
    {
        let ks = keys_of(self.entries@);
        assert forall|k: K::V| self@.contains_key(k) <==> exists|i: int|
            0 <= i < self.entry_seq().len() && (#[trigger] self.entry_seq()[i]).0@ == k by {
            if ks.contains(k) {
                let j = choose|j: int| 0 <= j < ks.len() && ks[j] == k;
                assert(self.entry_seq()[j].0@ == k);
            }
            if exists|i: int| 0 <= i < self.entry_seq().len() && (#[trigger] self.entry_seq()[i]).0@ == k {
                let i = choose|i: int| 0 <= i < self.entry_seq().len() && (#[trigger] self.entry_seq()[i]).0@ == k;
                assert(ks[i] == k);
            }
        }
        assert forall|i: int| 0 <= i < self.entry_seq().len() implies self@.contains_key(self.entry_seq()[i].0@)
            && self@[#[trigger] self.entry_seq()[i].0@] == self.entry_seq()[i].1@ by {
            assert(ks[i] == self.entry_seq()[i].0@);
            lemma_index_of_unique(ks, i);
        }
        assert(self@.dom() =~= ks.to_set());
        ks.unique_seq_to_set();
        vstd::seq_lib::seq_to_set_is_finite(ks);
    }

    pub fn new() -> (r: Self)
        ensures
            r@ == Map::<K::V, V::V>::empty(),
            r.entry_seq().len() == 0,
    {
        let r = VecMap { entries: Vec::new() };
        assert(r@ =~= Map::<K::V, V::V>::empty());
        r
    }

    pub fn len(&self) -> (r: usize)
        ensures
            r == self@.len(),
    {
        proof {
            use_type_invariant(self);
            self.lemma_entries();
        }
        self.entries.len()
    }

    pub fn as_vec(&self) -> (r: &Vec<(K, V)>)
        ensures
            r@ == self.entry_seq(),
    {
        &self.entries
    }

    fn find_index(&self, k: &K) -> (r: Option<usize>)
        ensures
            match r {
                Some(i) => i < self.entry_seq().len() && self.entry_seq()[i as int].0@ == k@,
                None => !self@.contains_key(k@),
            },
    {
        proof {
            use_type_invariant(self);
            self.lemma_entries();
        }
        let mut i: usize = 0;
        while i < self.entries.len()
            invariant
                i <= self.entries.len(),
                forall|j: int| 0 <= j < i ==> (#[trigger] self.entries@[j]).0@ != k@,
            decreases self.entries.len() - i,
        {
            if self.entries[i].0.key_eq(k) {
                return Some(i);
            }
            i = i + 1;
        }
        proof {
            if self@.contains_key(k@) {
                let j = choose|j: int| 0 <= j < self.entry_seq().len() && (#[trigger] self.entry_seq()[j]).0@ == k@;
                assert(self.entries@[j].0@ != k@);
            }
        }
        None
    }

    pub fn contains_key(&self, k: &K) -> (r: bool)
        ensures
            r == self@.contains_key(k@),
    {
        proof {
            use_type_invariant(self);
            self.lemma_entries();
        }
        match self.find_index(k) {
            Some(_) => true,
            None => false,
        }
    }

    pub fn get(&self, k: &K) -> (r: Option<&V>)
        ensures
            match r {
                Some(v) => self@.contains_key(k@) && v@ == self@[k@],
                None => !self@.contains_key(k@),
            },
    {
        proof {
            use_type_invariant(self);
            self.lemma_entries();
        }
        match self.find_index(k) {
            Some(i) => Some(&self.entries[i].1),
            None => None,
        }
    }

    /// Insert or replace the value under `k`; a new key goes to the end.
    pub fn insert(self, k: K, v: V) -> (r: Self)
        ensures
            r@ == self@.insert(k@, v@),
            self@.contains_key(k@) ==> r.entry_seq().len() == self.entry_seq().len(),
            !self@.contains_key(k@) ==> r.entry_seq() == self.entry_seq().push((k, v)),
    {
        proof {
            use_type_invariant(&self);
            self.lemma_entries();
        }
        let idx = self.find_index(&k);
        let ghost old_map = self@;
        let ghost old_entries = self.entries@;
        let VecMap { mut entries } = self;
        let ghost ks = keys_of(old_entries);
        match idx {
            Some(i) => {
                let ghost kv = k@;
                let ghost vv = v@;
                entries.set(i, (k, v));
                proof {
                    let nks = keys_of(entries@);
                    assert(nks =~= ks);
                    let r = VecMap { entries };
                    assert forall|key: K::V| #[trigger] r@.contains_key(key) == old_map.insert(kv, vv).contains_key(key) by {}
                    assert forall|key: K::V| r@.contains_key(key) implies #[trigger] r@[key] == old_map.insert(kv, vv)[key] by {
                        let j = ks.index_of(key);
                        if key == kv {
                            lemma_index_of_unique(ks, i as int);
                        }
                    }
                    assert(r@ =~= old_map.insert(kv, vv));
                }
                VecMap { entries }
            },
            None => {
                let ghost kv = k@;
                let ghost vv = v@;
                entries.push((k, v));
                proof {
                    let nks = keys_of(entries@);
                    assert(nks =~= ks.push(kv));
                    assert(!ks.contains(kv));
                    assert forall|a: int, b: int| 0 <= a < b < nks.len() implies nks[a] != nks[b] by {
                        if b == nks.len() - 1 {
                            assert(ks.contains(nks[a]) || a == b);
                        }
                    }
                    let r = VecMap { entries };
                    assert forall|key: K::V| #[trigger] r@.contains_key(key) == old_map.insert(kv, vv).contains_key(key) by {
                        if ks.contains(key) {
                            let j = choose|j: int| 0 <= j < ks.len() && ks[j] == key;
                            assert(nks[j] == key);
                        }
                        if nks.contains(key) && key != kv {
                            let j = choose|j: int| 0 <= j < nks.len() && nks[j] == key;
                            assert(ks[j] == key);
                        }
                        if key == kv {
                            assert(nks[nks.len() - 1] == key);
                        }
                    }
                    assert forall|key: K::V| r@.contains_key(key) implies #[trigger] r@[key] == old_map.insert(kv, vv)[key] by {
                        if key == kv {
                            lemma_index_of_unique(nks, nks.len() - 1);
                        } else {
                            let j = choose|j: int| 0 <= j < nks.len() && nks[j] == key;
                            lemma_index_of_unique(nks, j);
                            lemma_index_of_unique(ks, j);
                        }
                    }
                    assert(r@ =~= old_map.insert(kv, vv));
                }
                VecMap { entries }
            },
        }
    }

    /// Remove the entry under `k`, returning it when there was one.
    pub fn remove(self, k: &K) -> (r: (Self, Option<V>))
        ensures
            r.0@ == self@.remove(k@),
            match r.1 {
                Some(v) => self@.contains_key(k@) && v@ == self@[k@],
                None => !self@.contains_key(k@),
            },
    {
        proof {
            use_type_invariant(&self);
            self.lemma_entries();
        }
        let idx = self.find_index(k);
        let ghost old_map = self@;
        let ghost old_entries = self.entries@;
        let VecMap { mut entries } = self;
        let ghost ks = keys_of(old_entries);
        match idx {
            Some(i) => {
                let e = entries.remove(i);
                proof {
                    let nks = keys_of(entries@);
                    assert(nks =~= ks.remove(i as int));
                    assert(ks[i as int] == k@);
                    assert forall|a: int, b: int| 0 <= a < b < nks.len() implies nks[a] != nks[b] by {
                        let oa = if a < i { a } else { a + 1 };
                        let ob = if b < i { b } else { b + 1 };
                        assert(nks[a] == ks[oa] && nks[b] == ks[ob]);
                    }
                    let r = VecMap { entries };
                    assert forall|key: K::V| #[trigger] r@.contains_key(key) == old_map.remove(k@).contains_key(key) by {
                        if nks.contains(key) {
                            let j = choose|j: int| 0 <= j < nks.len() && nks[j] == key;
                            let oj = if j < i { j } else { j + 1 };
                            assert(ks[oj] == key);
                            assert(oj != i);
                            assert(key != k@);
                        }
                        if ks.contains(key) && key != k@ {
                            let j = choose|j: int| 0 <= j < ks.len() && ks[j] == key;
                            assert(j != i);
                            let nj = if j < i { j } else { j - 1 };
                            assert(nks[nj] == key);
                        }
                    }
                    assert forall|key: K::V| r@.contains_key(key) implies #[trigger] r@[key] == old_map.remove(k@)[key] by {
                        let j = choose|j: int| 0 <= j < nks.len() && nks[j] == key;
                        let oj = if j < i { j } else { j + 1 };
                        lemma_index_of_unique(nks, j);
                        lemma_index_of_unique(ks, oj);
                    }
                    assert(r@ =~= old_map.remove(k@));
                    lemma_index_of_unique(ks, i as int);
                }
                (VecMap { entries }, Some(e.1))
            },
            None => {
                let r = VecMap { entries };
                proof {
                    assert(r@ =~= old_map.remove(k@));
                }
                (r, None)
            },
        }
    }
}

/// How many entries have a value satisfying `p`.
pub open spec fn count_entries<K, V: View>(s: Seq<(K, V)>, p: spec_fn(V::V) -> bool) -> nat
    decreases s.len(),
{
    if s.len() == 0 {
        0
    } else {
        count_entries(s.drop_last(), p) + if p(s.last().1@) {
            1nat
        } else {
            0nat
        }
    }
}

/// How many keys of the map have a value satisfying `p`.
pub open spec fn count_values<K, V>(m: Map<K, V>, p: spec_fn(V) -> bool) -> nat {
    m.dom().filter(|k: K| p(m[k])).len()
}

pub open spec fn prefix_match_set<K: View, V: View>(s: Seq<(K, V)>, n: int, p: spec_fn(V::V) -> bool) -> Set<K::V> {
    Set::new(|k: K::V| exists|j: int| 0 <= j < n && (#[trigger] s[j]).0@ == k && p(s[j].1@))
}

proof fn lemma_prefix_count<K: View, V: View>(s: Seq<(K, V)>, n: int, p: spec_fn(V::V) -> bool)
    requires
        keys_of(s).no_duplicates(),
        0 <= n <= s.len(),
    ensures
        prefix_match_set(s, n, p).finite(),
        count_entries(s.take(n), p) == prefix_match_set(s, n, p).len(),
    decreases n,
{
    if n == 0 {
        assert(prefix_match_set(s, 0, p) =~= Set::<K::V>::empty());
        assert(s.take(0) =~= Seq::<(K, V)>::empty());
    } else {
        lemma_prefix_count(s, n - 1, p);
        assert(s.take(n).drop_last() =~= s.take(n - 1));
        let prev = prefix_match_set(s, n - 1, p);
        let k = s[n - 1].0@;
        assert(!prev.contains(k)) by {
            if prev.contains(k) {
                let j = choose|j: int| 0 <= j < n - 1 && (#[trigger] s[j]).0@ == k && p(s[j].1@);
                assert(keys_of(s)[j] == keys_of(s)[n - 1]);
            }
        }
        if p(s[n - 1].1@) {
            assert(prefix_match_set(s, n, p) =~= prev.insert(k)) by {
                assert forall|x: K::V| prefix_match_set(s, n, p).contains(x) == prev.insert(k).contains(x) by {
                    if prev.contains(x) {
                        let j = choose|j: int| 0 <= j < n - 1 && (#[trigger] s[j]).0@ == x && p(s[j].1@);
                        assert(0 <= j < n && s[j].0@ == x && p(s[j].1@));
                    }
                    if x == k {
                        assert(s[n - 1].0@ == x && p(s[n - 1].1@));
                    }
                }
            }
        } else {
            assert(prefix_match_set(s, n, p) =~= prev) by {
                assert forall|x: K::V| prefix_match_set(s, n, p).contains(x) implies prev.contains(x) by {
                    let j = choose|j: int| 0 <= j < n && (#[trigger] s[j]).0@ == x && p(s[j].1@);
                    assert(j != n - 1);
                }
                assert forall|x: K::V| prev.contains(x) implies prefix_match_set(s, n, p).contains(x) by {
                    let j = choose|j: int| 0 <= j < n - 1 && (#[trigger] s[j]).0@ == x && p(s[j].1@);
                    assert(0 <= j < n && s[j].0@ == x && p(s[j].1@));
                }
            }
        }
    }
}

impl<K: View + KeyEq, V: View> VecMap<K, V> {
    /// Counting the entries counts the keys.
    pub proof fn lemma_count(&self, p: spec_fn(V::V) -> bool)
        requires
            self.wf(),
        ensures
            count_entries(self.entry_seq(), p) == count_values(self@, p),
    {
        self.lemma_entries();
        let s = self.entry_seq();
        lemma_prefix_count(s, s.len() as int, p);
        assert(s.take(s.len() as int) =~= s);
        assert(prefix_match_set(s, s.len() as int, p) =~= self@.dom().filter(|k: K::V| p(self@[k]))) by {
            assert forall|x: K::V| #[trigger] prefix_match_set(s, s.len() as int, p).contains(x)
                == self@.dom().filter(|k: K::V| p(self@[k])).contains(x) by {
                if prefix_match_set(s, s.len() as int, p).contains(x) {
                    let j = choose|j: int| 0 <= j < s.len() && (#[trigger] s[j]).0@ == x && p(s[j].1@);
                    assert(self@.contains_key(s[j].0@) && self@[s[j].0@] == s[j].1@);
                }
                if self@.contains_key(x) && p(self@[x]) {
                    let j = choose|j: int| 0 <= j < s.len() && (#[trigger] s[j]).0@ == x;
                    assert(self@[s[j].0@] == s[j].1@);
                }
            }
        }
    }
}

impl<K: View + KeyEq + ViewClone, V: View + ViewClone> ViewClone for VecMap<K, V> {
    fn view_clone(&self) -> (r: Self) {
        proof {
            use_type_invariant(self);
        }
        let mut entries: Vec<(K, V)> = Vec::new();
        let mut i: usize = 0;
        while i < self.entries.len()
            invariant
                i <= self.entries.len(),
                entries@.len() == i,
                forall|j: int|
                    0 <= j < i ==> (#[trigger] entries@[j]).0@ == self.entries@[j].0@ && entries@[j].1@
                        == self.entries@[j].1@,
            decreases self.entries.len() - i,
        {
            let e = &self.entries[i];
            entries.push((e.0.view_clone(), e.1.view_clone()));
            i = i + 1;
        }
        proof {
            assert(keys_of(entries@) =~= keys_of(self.entries@));
        }
        let r = VecMap { entries };
        proof {
            assert(r@ =~= self@);
        }
        r
    }
}

impl<K: View + KeyEq + ViewClone, V: View + ViewClone> Clone for VecMap<K, V> {
    fn clone(&self) -> (r: Self)
        ensures
            r@ == self@,
    {
        self.view_clone()
    }
}

/// A set kept as a vector whose element views are pairwise distinct.
#[derive(Debug)]
pub struct VecSet<T: View> {
    items: Vec<T>,
}

impl<T: View> VecSet<T> {
    #[verifier::type_invariant]
    pub closed spec fn wf(self) -> bool {
        views_of(self.items@).no_duplicates()
    }

    /// The elements in iteration order.
    pub closed spec fn item_seq(&self) -> Seq<T> {
        self.items@
    }
}

impl<T: View> View for VecSet<T> {
    type V = Set<T::V>;

    closed spec fn view(&self) -> Set<T::V> {
        views_of(self.items@).to_set()
    }
}

impl<T: View + KeyEq> VecSet<T> {
    pub proof fn lemma_items(&self)
        requires
            self.wf(),
        ensures
            views_of(self.item_seq()).no_duplicates(),
            self@.finite(),
            self@.len() == self.item_seq().len(),
            forall|x: T::V|
                #![trigger self@.contains(x)]
                self@.contains(x) <==> exists|i: int|
                    0 <= i < self.item_seq().len() && (#[trigger] self.item_seq()[i])@ == x,
    {
        let vs = views_of(self.items@);
        vs.unique_seq_to_set();
        vstd::seq_lib::seq_to_set_is_finite(vs);
        assert forall|x: T::V| self@.contains(x) <==> exists|i: int|
            0 <= i < self.item_seq().len() && (#[trigger] self.item_seq()[i])@ == x by {
            if vs.contains(x) {
                let j = choose|j: int| 0 <= j < vs.len() && vs[j] == x;
                assert(self.item_seq()[j]@ == x);
            }
            if exists|i: int| 0 <= i < self.item_seq().len() && (#[trigger] self.item_seq()[i])@ == x {
                let i = choose|i: int| 0 <= i < self.item_seq().len() && (#[trigger] self.item_seq()[i])@ == x;
                assert(vs[i] == x);
            }
        }
    }

    pub fn new() -> (r: Self)
        ensures
            r@ == Set::<T::V>::empty(),
            r.item_seq().len() == 0,
    {
        let r = VecSet { items: Vec::new() };
        assert(r@ =~= Set::<T::V>::empty());
        r
    }

    pub fn len(&self) -> (r: usize)
        ensures
            r == self@.len(),
    {
        proof {
            use_type_invariant(self);
            self.lemma_items();
        }
        self.items.len()
    }

    pub fn as_vec(&self) -> (r: &Vec<T>)
        ensures
            r@ == self.item_seq(),
    {
        &self.items
    }

    fn find_index(&self, x: &T) -> (r: Option<usize>)
        ensures
            match r {
                Some(i) => i < self.item_seq().len() && self.item_seq()[i as int]@ == x@,
                None => !self@.contains(x@),
            },
    {
        proof {
            use_type_invariant(self);
            self.lemma_items();
        }
        let mut i: usize = 0;
        while i < self.items.len()
            invariant
                i <= self.items.len(),
                forall|j: int| 0 <= j < i ==> (#[trigger] self.items@[j])@ != x@,
            decreases self.items.len() - i,
        {
            if self.items[i].key_eq(x) {
                return Some(i);
            }
            i = i + 1;
        }
        proof {
            if self@.contains(x@) {
                let j = choose|j: int| 0 <= j < self.item_seq().len() && (#[trigger] self.item_seq()[j])@ == x@;
                assert(self.items@[j]@ != x@);
            }
        }
        None
    }

    pub fn contains(&self, x: &T) -> (r: bool)
        ensures
            r == self@.contains(x@),
    {
        match self.find_index(x) {
            Some(_) => {
                proof {
                    use_type_invariant(self);
                    self.lemma_items();
                }
                true
            },
            None => false,
        }
    }

    /// Add an element; an element with an equal view already present is kept.
    pub fn insert(self, x: T) -> (r: Self)
        ensures
            r@ == self@.insert(x@),
            self@.contains(x@) ==> r.item_seq() == self.item_seq(),
            !self@.contains(x@) ==> r.item_seq() == self.item_seq().push(x),
    {
        proof {
            use_type_invariant(&self);
        }
        let idx = self.find_index(&x);
        match idx {
            Some(_) => {
                proof {
                    self.lemma_items();
                    assert(self@.insert(x@) =~= self@);
                }
                self
            },
            None => {
                let ghost old_set = self@;
                let ghost vs = views_of(self.items@);
                let VecSet { mut items } = self;
                let ghost xv = x@;
                items.push(x);
                proof {
                    let nvs = views_of(items@);
                    assert(nvs =~= vs.push(xv));
                    assert forall|a: int, b: int| 0 <= a < b < nvs.len() implies nvs[a] != nvs[b] by {
                        if b == nvs.len() - 1 {
                            assert(vs.contains(nvs[a]));
                        }
                    }
                    assert(nvs.to_set() =~= vs.to_set().insert(xv)) by {
                        assert forall|y: T::V| nvs.to_set().contains(y) == vs.to_set().insert(xv).contains(y) by {
                            if nvs.contains(y) && y != xv {
                                let j = choose|j: int| 0 <= j < nvs.len() && nvs[j] == y;
                                assert(vs[j] == y);
                            }
                            if vs.contains(y) {
                                let j = choose|j: int| 0 <= j < vs.len() && vs[j] == y;
                                assert(nvs[j] == y);
                            }
                            if y == xv {
                                assert(nvs[nvs.len() - 1] == y);
                            }
                        }
                    }
                }
                VecSet { items }
            },
        }
    }

    /// Remove the element whose view equals that of `x`; tells whether it was present.
    pub fn remove(self, x: &T) -> (r: (Self, bool))
        ensures
            r.0@ == self@.remove(x@),
            r.1 == self@.contains(x@),
    {
        proof {
            use_type_invariant(&self);
            self.lemma_items();
        }
        let idx = self.find_index(x);
        let ghost old_set = self@;
        let ghost vs = views_of(self.items@);
        let VecSet { mut items } = self;
        match idx {
            Some(i) => {
                items.remove(i);
                proof {
                    let nvs = views_of(items@);
                    assert(nvs =~= vs.remove(i as int));
                    assert(vs[i as int] == x@);
                    assert forall|a: int, b: int| 0 <= a < b < nvs.len() implies nvs[a] != nvs[b] by {
                        let oa = if a < i { a } else { a + 1 };
                        let ob = if b < i { b } else { b + 1 };
                        assert(nvs[a] == vs[oa] && nvs[b] == vs[ob]);
                    }
                    assert forall|y: T::V| nvs.to_set().contains(y) == old_set.remove(x@).contains(y) by {
                        if nvs.contains(y) {
                            let j = choose|j: int| 0 <= j < nvs.len() && nvs[j] == y;
                            let oj = if j < i { j } else { j + 1 };
                            assert(vs[oj] == y);
                            assert(y != x@);
                        }
                        if vs.contains(y) && y != x@ {
                            let j = choose|j: int| 0 <= j < vs.len() && vs[j] == y;
                            let nj = if j < i { j } else { j - 1 };
                            assert(nvs[nj] == y);
                        }
                    }
                    assert(nvs.to_set() =~= old_set.remove(x@));
                    assert(vs[i as int] == x@);
                }
                (VecSet { items }, true)
            },
            None => {
                proof {
                    assert(old_set.remove(x@) =~= old_set);
                }
                (VecSet { items }, false)
            },
        }
    }

    /// Remove every element.
    pub fn clear(self) -> (r: Self)
        ensures
            r@ == Set::<T::V>::empty(),
    {
        Self::new()
    }
}

impl<T: View + KeyEq + ViewClone> ViewClone for VecSet<T> {
    fn view_clone(&self) -> (r: Self) {
        proof {
            use_type_invariant(self);
        }
        let mut items: Vec<T> = Vec::new();
        let mut i: usize = 0;
        while i < self.items.len()
            invariant
                i <= self.items.len(),
                items@.len() == i,
                forall|j: int| 0 <= j < i ==> (#[trigger] items@[j])@ == self.items@[j]@,
            decreases self.items.len() - i,
        {
            items.push(self.items[i].view_clone());
            i = i + 1;
        }
        proof {
            assert(views_of(items@) =~= views_of(self.items@));
        }
        VecSet { items }
    }
}

impl<T: View + KeyEq + ViewClone> Clone for VecSet<T> {
    fn clone(&self) -> (r: Self)
        ensures
            r@ == self@,
    {
        self.view_clone()
    }
}

} // verus!
