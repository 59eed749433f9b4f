//! A small map from copyable keys to values, kept as a list of entries.
//!
//! Where two entries have the same key the later one counts, so every list of
//! entries stands for a map and no invariant is needed.

use vstd::prelude::*;

use crate::types::{AccountToken, Address, StatementId};

verus! {

/// A key whose equality can be tested.
pub trait Key: Copy {
    /// Whether the two keys are the same.
    fn same(&self, other: &Self) -> (equal: bool)
        ensures
            equal == (*self == *other),
    ;
}

impl Key for u32 {
    fn same(&self, other: &Self) -> (equal: bool) {
        *self == *other
    }
}

impl Key for Address {
    fn same(&self, other: &Self) -> (equal: bool) {
        *self == *other
    }
}

impl Key for AccountToken {
    fn same(&self, other: &Self) -> (equal: bool) {
        *self == *other
    }
}

impl Key for StatementId {
    fn same(&self, other: &Self) -> (equal: bool) {
        *self == *other
    }
}

/// The map that a list of entries stands for.
pub open spec fn entries_map<K, V>(entries: Seq<(K, V)>) -> Map<K, V>
    decreases entries.len(),
{
    if entries.len() == 0 {
        Map::empty()
    } else {
        entries_map(entries.drop_last()).insert(entries.last().0, entries.last().1)
    }
}

/// The entry at `at` decides the value of its key when no later entry has that key.
proof fn lemma_last_entry<K, V>(entries: Seq<(K, V)>, at: int)
    requires
        0 <= at < entries.len(),
        forall|j: int| at < j < entries.len() ==> (#[trigger] entries[j]).0 != entries[at].0,
    ensures
        entries_map(entries).contains_key(entries[at].0),
        entries_map(entries)[entries[at].0] == entries[at].1,
    decreases entries.len(),
{
    if at < entries.len() - 1 {
        let shorter = entries.drop_last();
        assert(forall|j: int| at < j < shorter.len() ==> shorter[j] == #[trigger] entries[j]);
        lemma_last_entry(shorter, at);
        assert(entries[entries.len() - 1].0 != entries[at].0);
    }
}

/// A key that no entry has is not in the map.
proof fn lemma_no_entry<K, V>(entries: Seq<(K, V)>, key: K)
    requires
        forall|j: int| 0 <= j < entries.len() ==> (#[trigger] entries[j]).0 != key,
    ensures
        !entries_map(entries).contains_key(key),
    decreases entries.len(),
{
    if entries.len() > 0 {
        let shorter = entries.drop_last();
        assert(forall|j: int| 0 <= j < shorter.len() ==> shorter[j] == #[trigger] entries[j]);
        lemma_no_entry(shorter, key);
        assert(entries[entries.len() - 1].0 != key);
    }
}

/// Replacing the deciding entry of a key is an insertion into the map.
proof fn lemma_replace_entry<K, V>(entries: Seq<(K, V)>, at: int, value: V)
    requires
        0 <= at < entries.len(),
        forall|j: int| at < j < entries.len() ==> (#[trigger] entries[j]).0 != entries[at].0,
    ensures
        entries_map(entries.update(at, (entries[at].0, value))) == entries_map(entries).insert(
            entries[at].0,
            value,
        ),
    decreases entries.len(),
{
    let key = entries[at].0;
    let shorter = entries.drop_last();
    let updated = entries.update(at, (key, value));
    if at < entries.len() - 1 {
        assert(forall|j: int| at < j < shorter.len() ==> shorter[j] == #[trigger] entries[j]);
        lemma_replace_entry(shorter, at, value);
        assert(updated.drop_last() =~= shorter.update(at, (key, value)));
        assert(entries[entries.len() - 1].0 != key);
        assert(entries_map(updated) =~= entries_map(entries).insert(key, value));
    } else {
        assert(updated.drop_last() =~= shorter);
        assert(entries_map(updated) =~= entries_map(entries).insert(key, value));
    }
}

/// Taking out one entry changes the map at most at the key of that entry.
proof fn lemma_drop_entry<K, V>(entries: Seq<(K, V)>, at: int)
    requires
        0 <= at < entries.len(),
    ensures
        entries_map(entries.remove(at)).remove(entries[at].0) == entries_map(entries).remove(
            entries[at].0,
        ),
    decreases entries.len(),
{
    let key = entries[at].0;
    let shorter = entries.drop_last();
    let fewer = entries.remove(at);
    if at < entries.len() - 1 {
        lemma_drop_entry(shorter, at);
        assert(fewer.drop_last() =~= shorter.remove(at));
        assert(fewer.last() == entries.last());
        let last = entries.last();
        let m1 = entries_map(shorter.remove(at));
        let m2 = entries_map(shorter);
        assert(m1.remove(key) == m2.remove(key));
        let n1 = m1.insert(last.0, last.1).remove(key);
        let n2 = m2.insert(last.0, last.1).remove(key);
        assert forall|k: K| n1.contains_key(k) <==> n2.contains_key(k) by {
            assert(m1.remove(key).contains_key(k) <==> m2.remove(key).contains_key(k));
        }
        assert forall|k: K| n1.contains_key(k) implies n1[k] == n2[k] by {
            assert(m1.remove(key).contains_key(k) <==> m2.remove(key).contains_key(k));
            if k != last.0 {
                assert(m1.remove(key)[k] == m2.remove(key)[k]);
            }
        }
        assert(n1 =~= n2);
    } else {
        assert(fewer =~= shorter);
        assert(entries_map(fewer).remove(key) =~= entries_map(entries).remove(key));
    }
}

/// The map of a list of entries has finitely many keys.
pub proof fn lemma_entries_finite<K, V>(entries: Seq<(K, V)>)
    ensures
        entries_map(entries).dom().finite(),
    decreases entries.len(),
{
    if entries.len() > 0 {
        lemma_entries_finite(entries.drop_last());
    }
}

/// A map from keys to values.
#[derive(Debug)]
pub struct Table<K, V> {
    entries: Vec<(K, V)>,
}

impl<K: Key, V> View for Table<K, V> {
    type V = Map<K, V>;

    closed spec fn view(&self) -> Map<K, V> {
        entries_map(self.entries@)
    }
}

impl<K: Key, V> Table<K, V> {
    /// A table without entries.
    pub fn new() -> (table: Self)
        ensures
            table@ == Map::<K, V>::empty(),
    {
        Table { entries: Vec::new() }
    }

    /// Every table has finitely many keys.
    pub proof fn lemma_finite(&self)
        ensures
            self@.dom().finite(),
    {
        lemma_entries_finite(self.entries@);
    }

    /// The position of the entry that decides the value of `key`.
    fn position(&self, key: K) -> (at: Option<usize>)
        ensures
            match at {
                Some(i) => {
                    &&& i < self.entries@.len()
                    &&& self.entries@[i as int].0 == key
                    &&& forall|j: int|
                        i < j < self.entries@.len() ==> (#[trigger] self.entries@[j]).0 != key
                },
                None => forall|j: int|
                    0 <= j < self.entries@.len() ==> (#[trigger] self.entries@[j]).0 != key,
            },
    {
        let mut i: usize = self.entries.len();
        while i > 0
            invariant
                i <= self.entries@.len(),
                forall|j: int|
                    i <= j < self.entries@.len() ==> (#[trigger] self.entries@[j]).0 != key,
            decreases i,
        {
            i = i - 1;
            if self.entries[i].0.same(&key) {
                return Some(i);
            }
        }
        None
    }

    /// The value stored for `key`, if there is one.
    pub fn get(&self, key: K) -> (value: Option<&V>)
        ensures
            match value {
                Some(v) => self@.contains_key(key) && self@[key] == *v,
                None => !self@.contains_key(key),
            },
    {
        match self.position(key) {
            Some(i) => {
                proof {
                    lemma_last_entry(self.entries@, i as int);
                }
                Some(&self.entries[i].1)
            },
            None => {
                proof {
                    lemma_no_entry(self.entries@, key);
                }
                None
            },
        }
    }

    /// Whether a value is stored for `key`.
    pub fn has(&self, key: K) -> (stored: bool)
        ensures
            stored == self@.contains_key(key),
    {
        self.get(key).is_some()
    }

    /// Stores `value` for `key`, in place of any value stored for it before.
    pub fn set(&mut self, key: K, value: V)
        ensures
            final(self)@ == old(self)@.insert(key, value),
    {
        match self.position(key) {
            Some(i) => {
                proof {
                    lemma_replace_entry(self.entries@, i as int, value);
                }
                self.entries.set(i, (key, value));
            },
            None => {
                self.entries.push((key, value));
                proof {
                    assert(self.entries@.drop_last() =~= old(self).entries@);
                }
            },
        }
    }

    /// Forgets the value stored for `key`, if there is one.
    pub fn remove(&mut self, key: K)
        ensures
            final(self)@ == old(self)@.remove(key),
    {
        let mut i: usize = self.entries.len();
        while i > 0
            invariant
                i <= self.entries@.len(),
                entries_map(self.entries@).remove(key) == entries_map(old(self).entries@).remove(
                    key,
                ),
                forall|j: int|
                    i <= j < self.entries@.len() ==> (#[trigger] self.entries@[j]).0 != key,
            decreases i,
        {
            i = i - 1;
            if self.entries[i].0.same(&key) {
                proof {
                    lemma_drop_entry(self.entries@, i as int);
                }
                let ghost before = self.entries@;
                self.entries.remove(i);
                assert(forall|j: int|
                    i <= j < self.entries@.len() ==> #[trigger] self.entries@[j] == before[j + 1]);
            }
        }
        proof {
            lemma_no_entry(self.entries@, key);
            assert(entries_map(self.entries@).remove(key) =~= entries_map(self.entries@));
        }
    }
}

impl<K: Key, V: Copy> Table<K, V> {
    /// A copy of the value stored for `key`, if there is one.
    pub fn copied(&self, key: K) -> (value: Option<V>)
        ensures
            value == (if self@.contains_key(key) {
                Some(self@[key])
            } else {
                None
            }),
    {
        match self.get(key) {
            Some(v) => Some(*v),
            None => None,
        }
    }
}

} // verus!
