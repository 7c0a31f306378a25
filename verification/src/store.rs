//! A keyed store: the library's form of a runtime storage map.
//!
//! Entries are kept in a vector with pairwise distinct keys; the store is
//! seen from outside as a finite `Map` from keys to the views of the values.
use vstd::prelude::*;

verus! {

/// The map that a sequence of key/value entries denotes; a later entry with
/// the same key overrides an earlier one.
pub open spec fn entries_map<K, V>(s: Seq<(K, V)>) -> Map<K, V>
    decreases s.len(),
{
    if s.len() == 0 {
        Map::empty()
    } else {
        entries_map(s.drop_last()).insert(s.last().0, s.last().1)
    }
}

/// No key occurs twice among the entries.
pub open spec fn distinct_keys<K, V>(s: Seq<(K, V)>) -> bool {
    forall|i: int, j: int| 0 <= i < j < s.len() ==> s[i].0 != s[j].0
}

/// A key is in the denoted map exactly when some entry carries it.
pub proof fn lemma_entries_map_dom<K, V>(s: Seq<(K, V)>, k: K)
    ensures
        entries_map(s).contains_key(k) <==> exists|i: int| 0 <= i < s.len() && s[i].0 == k,
    decreases s.len(),
{
    if s.len() > 0 {
        lemma_entries_map_dom(s.drop_last(), k);
        if entries_map(s).contains_key(k) && k != s.last().0 {
            let i = choose|i: int| 0 <= i < s.drop_last().len() && s.drop_last()[i].0 == k;
            assert(s[i].0 == k);
        }
        if exists|i: int| 0 <= i < s.len() && s[i].0 == k {
            let i = choose|i: int| 0 <= i < s.len() && s[i].0 == k;
            if i < s.len() - 1 {
                assert(s.drop_last()[i].0 == k);
            }
        }
    }
}

/// With distinct keys, the map sends the key of each entry to its value.
pub proof fn lemma_entries_map_value<K, V>(s: Seq<(K, V)>, i: int)
    requires
        distinct_keys(s),
        0 <= i < s.len(),
    ensures
        entries_map(s).contains_key(s[i].0),
        entries_map(s)[s[i].0] == s[i].1,
    decreases s.len(),
{
    if i < s.len() - 1 {
        let t = s.drop_last();
        assert(distinct_keys(t));
        lemma_entries_map_value(t, i);
        assert(t[i] == s[i]);
    }
}

/// Replacing the value of an entry is an insert into the map.
pub proof fn lemma_entries_map_update<K, V>(s: Seq<(K, V)>, i: int, v: V)
    requires
        distinct_keys(s),
        0 <= i < s.len(),
    ensures
        distinct_keys(s.update(i, (s[i].0, v))),
        entries_map(s.update(i, (s[i].0, v))) =~= entries_map(s).insert(s[i].0, v),
{
    let k = s[i].0;
    let t = s.update(i, (k, v));
    assert(distinct_keys(t));
    assert forall|key: K| #[trigger] entries_map(t).contains_key(key) == entries_map(s).insert(
        k,
        v,
    ).contains_key(key) by {
        lemma_entries_map_dom(t, key);
        lemma_entries_map_dom(s, key);
        if exists|j: int| 0 <= j < s.len() && s[j].0 == key {
            let j = choose|j: int| 0 <= j < s.len() && s[j].0 == key;
            assert(t[j].0 == key);
        }
        if exists|j: int| 0 <= j < t.len() && t[j].0 == key {
            let j = choose|j: int| 0 <= j < t.len() && t[j].0 == key;
            assert(s[j].0 == key);
        }
    }
    assert forall|key: K| #[trigger] entries_map(t).contains_key(key) implies entries_map(t)[key]
        == entries_map(s).insert(k, v)[key] by {
        lemma_entries_map_dom(t, key);
        let j = choose|j: int| 0 <= j < t.len() && t[j].0 == key;
        lemma_entries_map_value(t, j);
        if j != i {
            lemma_entries_map_value(s, j);
        }
    }
}

/// Deleting an entry is a removal from the map.
pub proof fn lemma_entries_map_remove<K, V>(s: Seq<(K, V)>, i: int)
    requires
        distinct_keys(s),
        0 <= i < s.len(),
    ensures
        distinct_keys(s.remove(i)),
        entries_map(s.remove(i)) =~= entries_map(s).remove(s[i].0),
{
    let k = s[i].0;
    let t = s.remove(i);
    assert forall|a: int, b: int| 0 <= a < b < t.len() implies t[a].0 != t[b].0 by {
        let a2 = if a < i { a } else { a + 1 };
        let b2 = if b < i { b } else { b + 1 };
        assert(t[a] == s[a2]);
        assert(t[b] == s[b2]);
    }
    assert forall|key: K| #[trigger] entries_map(t).contains_key(key) == entries_map(
        s,
    ).remove(k).contains_key(key) by {
        lemma_entries_map_dom(t, key);
        lemma_entries_map_dom(s, key);
        if exists|j: int| 0 <= j < s.len() && s[j].0 == key && key != k {
            let j = choose|j: int| 0 <= j < s.len() && s[j].0 == key && key != k;
            if j < i {
                assert(t[j].0 == key);
            } else {
                assert(t[j - 1].0 == key);
            }
        }
        if exists|j: int| 0 <= j < t.len() && t[j].0 == key {
            let j = choose|j: int| 0 <= j < t.len() && t[j].0 == key;
            let j2 = if j < i { j } else { j + 1 };
            assert(s[j2].0 == key);
            assert(j2 != i);
        }
    }
    assert forall|key: K| #[trigger] entries_map(t).contains_key(key) implies entries_map(t)[key]
        == entries_map(s).remove(k)[key] by {
        lemma_entries_map_dom(t, key);
        let j = choose|j: int| 0 <= j < t.len() && t[j].0 == key;
        let j2 = if j < i { j } else { j + 1 };
        assert(t[j] == s[j2]);
        lemma_entries_map_value(t, j);
        lemma_entries_map_value(s, j2);
    }
}

/// Keys whose equality can be decided in executable code.
pub trait StoreKey: Sized {
    fn same_key(&self, other: &Self) -> (r: bool)
        ensures
            r == (*self == *other),
    ;
}

impl StoreKey for [u8; 32] {
    fn same_key(&self, other: &Self) -> (r: bool) {
        broadcast use vstd::array::group_array_axioms;

        let mut i: usize = 0;
        while i < 32
            invariant
                0 <= i <= 32,
                forall|j: int| 0 <= j < i ==> self[j] == other[j],
            decreases 32 - i,
        {
            if self[i] != other[i] {
                return false;
            }
            i = i + 1;
        }
        assert(*self =~= *other);
        true
    }
}

impl StoreKey for ([u8; 32], [u8; 32]) {
    fn same_key(&self, other: &Self) -> (r: bool) {
        self.0.same_key(&other.0) && self.1.same_key(&other.1)
    }
}

/// A store of values under distinct keys.
pub struct Store<K, V> {
    entries: Vec<(K, V)>,
}

impl<K: StoreKey, V: View> View for Store<K, V> {
    type V = Map<K, V::V>;

    closed spec fn view(&self) -> Map<K, V::V> {
        entries_map(self.model_entries())
    }
}

impl<K: StoreKey, V: View> Store<K, V> {
    /// The entries, each value taken by its view.
    pub closed spec fn model_entries(&self) -> Seq<(K, V::V)> {
        self.entries@.map_values(|e: (K, V)| (e.0, e.1@))
    }

    /// Well-formedness: no key is stored twice.
    pub closed spec fn wf(&self) -> bool {
        distinct_keys(self.entries@)
    }

    proof fn lemma_model_distinct(&self)
        requires
            self.wf(),
        ensures
            distinct_keys(self.model_entries()),
    {
    }

    /// The empty store.
    pub fn new() -> (s: Self)
        ensures
            s.wf(),
            s@ == Map::<K, V::V>::empty(),
    {
        let s = Store { entries: Vec::new() };
        assert(s.model_entries() =~= Seq::empty());
        s
    }

    fn find(&self, k: &K) -> (r: Option<usize>)
        ensures
            match r {
                Some(i) => i < self.entries@.len() && self.entries@[i as int].0 == *k,
                None => forall|i: int| 0 <= i < self.entries@.len() ==> self.entries@[i].0 != *k,
            },
    {
        let n = self.entries.len();
        let mut i: usize = 0;
        while i < n
            invariant
                n == self.entries@.len(),
                0 <= i <= n,
                forall|j: int| 0 <= j < i ==> self.entries@[j].0 != *k,
            decreases n - i,
        {
            if self.entries[i].0.same_key(k) {
                return Some(i);
            }
            i = i + 1;
        }
        None
    }

    /// Whether a value is stored under the key.
    pub fn contains_key(&self, k: &K) -> (r: bool)
        requires
            self.wf(),
        ensures
            r == self@.contains_key(*k),
    {
        proof {
            lemma_entries_map_dom(self.model_entries(), *k);
        }
        match self.find(k) {
            Some(i) => {
                assert(self.model_entries()[i as int].0 == *k);
                true
            },
            None => {
                assert forall|j: int| 0 <= j < self.model_entries().len() implies self.model_entries()[j].0
                    != *k by {
                    assert(self.model_entries()[j].0 == self.entries@[j].0);
                }
                false
            },
        }
    }

    /// The value stored under the key, if any.
    pub fn get(&self, k: &K) -> (r: Option<&V>)
        requires
            self.wf(),
        ensures
            match r {
                Some(v) => self@.contains_key(*k) && v@ == self@[*k],
                None => !self@.contains_key(*k),
            },
    {
        proof {
            lemma_entries_map_dom(self.model_entries(), *k);
        }
        match self.find(k) {
            Some(i) => {
                proof {
                    self.lemma_model_distinct();
                    lemma_entries_map_value(self.model_entries(), i as int);
                }
                Some(&self.entries[i].1)
            },
            None => {
                assert forall|j: int| 0 <= j < self.model_entries().len() implies self.model_entries()[j].0
                    != *k by {
                    assert(self.model_entries()[j].0 == self.entries@[j].0);
                }
                None
            },
        }
    }

    /// Stores the value under the key, replacing any value stored there.
    pub fn insert(&mut self, k: K, v: V)
        requires
            old(self).wf(),
        ensures
            final(self).wf(),
            final(self)@ == old(self)@.insert(k, v@),
    {
        let ghost old_model = self.model_entries();
        match self.find(&k) {
            Some(i) => {
                let ghost vv = v@;
                self.entries.set(i, (k, v));
                proof {
                    lemma_entries_map_update(old_model, i as int, vv);
                    assert(self.model_entries() =~= old_model.update(i as int, (k, vv)));
                    assert forall|a: int, b: int|
                        0 <= a < b < self.entries@.len() implies self.entries@[a].0
                        != self.entries@[b].0 by {
                        assert(self.entries@[a].0 == self.model_entries()[a].0);
                        assert(self.entries@[b].0 == self.model_entries()[b].0);
                    }
                }
            },
            None => {
                let ghost vv = v@;
                self.entries.push((k, v));
                proof {
                    assert(self.model_entries() =~= old_model.push((k, vv)));
                    assert(self.model_entries().drop_last() =~= old_model);
                }
            },
        }
    }

    /// Removes whatever is stored under the key.
    pub fn remove(&mut self, k: &K)
        requires
            old(self).wf(),
        ensures
            final(self).wf(),
            final(self)@ == old(self)@.remove(*k),
    {
        let ghost old_model = self.model_entries();
        match self.find(k) {
            Some(i) => {
                let _ = self.entries.remove(i);
                proof {
                    self.lemma_model_distinct();
                    lemma_entries_map_remove(old_model, i as int);
                    assert(self.model_entries() =~= old_model.remove(i as int));
                    assert forall|a: int, b: int|
                        0 <= a < b < self.entries@.len() implies self.entries@[a].0
                        != self.entries@[b].0 by {
                        assert(self.entries@[a].0 == self.model_entries()[a].0);
                        assert(self.entries@[b].0 == self.model_entries()[b].0);
                    }
                }
            },
            None => {
                proof {
                    lemma_entries_map_dom(old_model, *k);
                    assert forall|j: int| 0 <= j < old_model.len() implies old_model[j].0 != *k by {
                        assert(old_model[j].0 == old(self).entries@[j].0);
                    }
                    assert(old(self)@.remove(*k) =~= old(self)@);
                }
            },
        }
    }
}

} // verus!
