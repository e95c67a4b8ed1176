//! A small key-value table: the storage every ledger in this crate is built
//! from.
//!
//! A table holds at most one value per key. Its view is the finite map from
//! the keys it holds to their values.

use vstd::prelude::*;
use crate::hash::H256;

verus! {

/// Types that can serve as the key of a [`Table`]: keys that can be told
/// apart at run time exactly as they are told apart in contracts.
pub trait Key: Copy {
    /// Whether `self` and `other` are the same key.
    fn same_key(&self, other: &Self) -> (r: bool)
        ensures
            r == (*self == *other),
    ;
}

impl Key for u64 {
    fn same_key(&self, other: &u64) -> (r: bool) {
        *self == *other
    }
}

impl Key for H256 {
    fn same_key(&self, other: &H256) -> (r: bool) {
        self.same(other)
    }
}

/// A table from keys to values.
pub struct Table<K: Key, V> {
    keys: Vec<K>,
    values: Vec<V>,
}

impl<K: Key, V> View for Table<K, V> {
    type V = Map<K, V>;

    closed spec fn view(&self) -> Map<K, V> {
        Map::new(
            |k: K| self.keys@.contains(k),
            |k: K| self.values@[self.keys@.index_of(k)],
        )
    }
}

impl<K: Key, V> Table<K, V> {
    /// The table is well formed: every key it holds occurs once, with one
    /// value stored beside it.
    pub closed spec fn wf(&self) -> bool {
        &&& self.keys@.len() == self.values@.len()
        &&& self.keys@.no_duplicates()
    }

    proof fn lemma_position(&self, i: int)
        requires
            self.wf(),
            0 <= i < self.keys@.len(),
        ensures
            self.keys@.contains(self.keys@[i]),
            self.keys@.index_of(self.keys@[i]) == i,
            self@.contains_key(self.keys@[i]),
            self@[self.keys@[i]] == self.values@[i],
    {
        let k = self.keys@[i];
        assert(self.keys@.contains(k));
        let j = self.keys@.index_of(k);
        assert(0 <= j < self.keys@.len() && self.keys@[j] == k);
    }

    /// An empty table.
    pub fn new() -> (t: Self)
        ensures
            t.wf(),
            t@ == Map::<K, V>::empty(),
    {
        let t = Table { keys: Vec::new(), values: Vec::new() };
        assert(t@ =~= Map::<K, V>::empty());
        t
    }

    /// The position of `key` among the stored keys, if it is stored.
    fn position(&self, key: &K) -> (r: Option<usize>)
        requires
            self.wf(),
        ensures
            match r {
                Some(i) => i < self.keys@.len() && self.keys@[i as int] == *key,
                None => !self.keys@.contains(*key),
            },
    {
        let mut i: usize = 0;
        while i < self.keys.len()
            invariant
                0 <= i <= self.keys@.len(),
                forall|j: int| 0 <= j < i ==> self.keys@[j] != *key,
            decreases self.keys@.len() - i,
        {
            if self.keys[i].same_key(key) {
                return Some(i);
            }
            i = i + 1;
        }
        None
    }

    /// Whether the table holds a value for `key`.
    pub fn contains_key(&self, key: &K) -> (r: bool)
        requires
            self.wf(),
        ensures
            r == self@.contains_key(*key),
    {
        self.position(key).is_some()
    }

    /// The value stored for `key`, if there is one.
    pub fn get(&self, key: &K) -> (r: Option<&V>)
        requires
            self.wf(),
        ensures
            match r {
                Some(v) => self@.contains_key(*key) && *v == self@[*key],
                None => !self@.contains_key(*key),
            },
    {
        match self.position(key) {
            Some(i) => {
                proof {
                    self.lemma_position(i as int);
                }
                Some(&self.values[i])
            },
            None => None,
        }
    }

    /// The value stored for a key that the table holds.
    pub fn value(&self, key: &K) -> (r: V) where V: Copy
        requires
            self.wf(),
            self@.contains_key(*key),
        ensures
            r == self@[*key],
    {
        match self.get(key) {
            Some(v) => *v,
            None => vstd::pervasive::unreached(),
        }
    }

    /// Stores `value` for `key`, replacing the value stored before, if any.
    pub fn insert(&mut self, key: K, value: V)
        requires
            old(self).wf(),
        ensures
            final(self).wf(),
            final(self)@ == old(self)@.insert(key, value),
    {
        match self.position(&key) {
            Some(i) => {
                self.values[i] = value;
                proof {
                    assert forall|k: K| #[trigger] final(self)@.dom().contains(k) implies final(self)@[k]
                        == old(self)@.insert(key, value)[k] by {
                        let j = old(self).keys@.index_of(k);
                        assert(0 <= j < old(self).keys@.len() && old(self).keys@[j] == k);
                    }
                    assert(final(self)@ =~= old(self)@.insert(key, value));
                }
            },
            None => {
                self.keys.push(key);
                self.values.push(value);
                proof {
                    let n = old(self).keys@.len() as int;
                    assert(final(self).keys@[n] == key);
                    assert forall|k: K| #[trigger] final(self).keys@.contains(k) <==> (k == key
                        || old(self).keys@.contains(k)) by {
                        if final(self).keys@.contains(k) {
                            let j = final(self).keys@.index_of(k);
                            assert(0 <= j <= n && final(self).keys@[j] == k);
                            if j < n {
                                assert(old(self).keys@[j] == k);
                            }
                        }
                        if old(self).keys@.contains(k) {
                            let j = old(self).keys@.index_of(k);
                            assert(0 <= j < n && old(self).keys@[j] == k);
                            assert(final(self).keys@[j] == k);
                        }
                    }
                    assert forall|k: K| #[trigger] final(self)@.dom().contains(k) implies final(self)@[k]
                        == old(self)@.insert(key, value)[k] by {
                        let j = final(self).keys@.index_of(k);
                        assert(0 <= j <= n && final(self).keys@[j] == k);
                        if k != key {
                            let i = old(self).keys@.index_of(k);
                            assert(0 <= i < n && old(self).keys@[i] == k);
                            assert(final(self).keys@[i] == k);
                            assert(i == j);
                        } else {
                            assert(j == n);
                        }
                    }
                    assert(final(self)@ =~= old(self)@.insert(key, value));
                }
            },
        }
    }

    /// Forgets the value stored for `key`, if any.
    pub fn remove(&mut self, key: &K)
        requires
            old(self).wf(),
        ensures
            final(self).wf(),
            final(self)@ == old(self)@.remove(*key),
    {
        match self.position(key) {
            Some(i) => {
                self.keys.remove(i);
                self.values.remove(i);
                proof {
                    let before = old(self).keys@;
                    let after = final(self).keys@;
                    assert(after =~= before.remove(i as int));
                    assert forall|a: int, b: int| 0 <= a < b < after.len() implies after[a]
                        != after[b] by {
                        let a0 = if a < i { a } else { a + 1 };
                        let b0 = if b < i { b } else { b + 1 };
                        assert(after[a] == before[a0]);
                        assert(after[b] == before[b0]);
                    }
                    assert forall|k: K| #[trigger] after.contains(k) <==> (k != *key
                        && before.contains(k)) by {
                        if after.contains(k) {
                            let j = after.index_of(k);
                            assert(0 <= j < after.len() && after[j] == k);
                            let j0 = if j < i { j } else { j + 1 };
                            assert(before[j0] == k);
                            assert(j0 != i);
                        }
                        if k != *key && before.contains(k) {
                            let j0 = before.index_of(k);
                            assert(0 <= j0 < before.len() && before[j0] == k);
                            let j = if j0 < i { j0 } else { j0 - 1 };
                            assert(after[j] == k);
                        }
                    }
                    assert forall|k: K| #[trigger] final(self)@.dom().contains(k) implies final(self)@[k]
                        == old(self)@.remove(*key)[k] by {
                        let j = after.index_of(k);
                        assert(0 <= j < after.len() && after[j] == k);
                        let j0 = if j < i { j } else { j + 1 };
                        assert(before[j0] == k);
                        let i0 = before.index_of(k);
                        assert(0 <= i0 < before.len() && before[i0] == k);
                        assert(i0 == j0);
                    }
                    assert(final(self)@ =~= old(self)@.remove(*key));
                }
            },
            None => {
                assert(final(self)@ =~= old(self)@.remove(*key));
            },
        }
    }
}

} // verus!
