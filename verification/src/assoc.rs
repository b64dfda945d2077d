//! Small keyed stores kept as lists of entries, a later entry for a key
//! replacing an earlier one; their view is the map that the entries name.
use vstd::prelude::*;

use crate::sdk::copy_bytes;
use crate::text::{same_bytes, same_text};

verus! {

/// A key that can be compared and copied by its view.
pub trait StoreKey: DeepView + Sized {
    fn same_key(&self, other: &Self) -> (r: bool)
        ensures
            r == (self.deep_view() == other.deep_view()),
    ;

    fn copy_key(&self) -> (r: Self)
        ensures
            r.deep_view() == self.deep_view(),
    ;
}

/// A value that can be copied by its view.
pub trait StoreValue: DeepView + Sized {
    fn copy_value(&self) -> (r: Self)
        ensures
            r.deep_view() == self.deep_view(),
    ;
}

impl StoreKey for String {
    fn same_key(&self, other: &Self) -> (r: bool) {
        same_text(self.as_str(), other.as_str())
    }

    fn copy_key(&self) -> (r: Self) {
        self.clone()
    }
}

impl StoreKey for Vec<u8> {
    fn same_key(&self, other: &Self) -> (r: bool) {
        proof {
            assert(self.deep_view() =~= self@);
            assert(other.deep_view() =~= other@);
        }
        same_bytes(self, other)
    }

    fn copy_key(&self) -> (r: Self) {
        let r = copy_bytes(self);
        proof {
            assert(self.deep_view() =~= self@);
            assert(r.deep_view() =~= r@);
        }
        r
    }
}

/// The map that a list of entries names, a later entry for a key replacing
/// an earlier one.
pub open spec fn assoc_map<K, V>(entries: Seq<(K, V)>) -> Map<K, V>
    decreases entries.len(),
{
    if entries.len() == 0 {
        Map::empty()
    } else {
        assoc_map(entries.drop_last()).insert(entries.last().0, entries.last().1)
    }
}

/// A key that no entry from `from` on carries keeps what the entries before
/// `from` gave it.
pub proof fn lemma_assoc_tail<K, V>(entries: Seq<(K, V)>, from: int, key: K)
    requires
        0 <= from <= entries.len(),
        forall|t: int| from <= t < entries.len() ==> entries[t].0 != key,
    ensures
        assoc_map(entries).contains_key(key) == assoc_map(entries.take(from)).contains_key(key),
        assoc_map(entries).contains_key(key) ==> assoc_map(entries)[key] == assoc_map(entries.take(from))[key],
    decreases entries.len() - from,
{
    if from < entries.len() {
        assert(entries.take(from + 1).drop_last() =~= entries.take(from));
        lemma_assoc_tail(entries, from + 1, key);
    } else {
        assert(entries.take(from) =~= entries);
    }
}

/// A keyed store.
pub struct Store<K, V> {
    entries: Vec<(K, V)>,
}

impl<K: StoreKey, V: StoreValue> View for Store<K, V> {
    type V = Map<K::V, V::V>;

    closed spec fn view(&self) -> Map<K::V, V::V> {
        assoc_map(self.entries.deep_view())
    }
}

impl<K: StoreKey, V: StoreValue> Store<K, V> {
    /// An empty store.
    pub fn new() -> (r: Store<K, V>)
        ensures
            r@ == Map::<K::V, V::V>::empty(),
    {
        let r = Store { entries: Vec::new() };
        assert(r.entries.deep_view() =~= Seq::<(K::V, V::V)>::empty());
        r
    }

    /// A copy of what the store holds under `key`, if anything.
    pub fn get(&self, key: &K) -> (r: Option<V>)
        ensures
            r is Some <==> self@.contains_key(key.deep_view()),
            r matches Some(v) ==> v.deep_view() == self@[key.deep_view()],
    {
        let ghost entries = self.entries.deep_view();
        let mut i: usize = self.entries.len();
        while i > 0
            invariant
                i <= self.entries.len(),
                entries == self.entries.deep_view(),
                forall|t: int| i <= t < entries.len() ==> entries[t].0 != key.deep_view(),
            decreases i,
        {
            if self.entries[i - 1].0.same_key(key) {
                proof {
                    lemma_assoc_tail(entries, i as int, key.deep_view());
                    assert(entries.take(i as int).drop_last() =~= entries.take(i - 1));
                }
                return Some(self.entries[i - 1].1.copy_value());
            }
            i = i - 1;
        }
        proof {
            lemma_assoc_tail(entries, 0, key.deep_view());
            assert(entries.take(0) =~= Seq::<(K::V, V::V)>::empty());
        }
        None
    }

    /// Whether the store holds anything under `key`.
    pub fn contains(&self, key: &K) -> (r: bool)
        ensures
            r == self@.contains_key(key.deep_view()),
    {
        let ghost entries = self.entries.deep_view();
        let mut i: usize = self.entries.len();
        while i > 0
            invariant
                i <= self.entries.len(),
                entries == self.entries.deep_view(),
                forall|t: int| i <= t < entries.len() ==> entries[t].0 != key.deep_view(),
            decreases i,
        {
            if self.entries[i - 1].0.same_key(key) {
                proof {
                    lemma_assoc_tail(entries, i as int, key.deep_view());
                    assert(entries.take(i as int).drop_last() =~= entries.take(i - 1));
                }
                return true;
            }
            i = i - 1;
        }
        proof {
            lemma_assoc_tail(entries, 0, key.deep_view());
            assert(entries.take(0) =~= Seq::<(K::V, V::V)>::empty());
        }
        false
    }

    /// Forgets what the store holds under `key`.
    pub fn remove(&mut self, key: &K)
        ensures
            final(self)@ == old(self)@.remove(key.deep_view()),
    {
        let ghost before = self.entries.deep_view();
        let ghost k = key.deep_view();
        let mut kept: Vec<(K, V)> = Vec::new();
        let mut j: usize = 0;
        while j < self.entries.len()
            invariant
                j <= self.entries.len(),
                before == self.entries.deep_view(),
                k == key.deep_view(),
                assoc_map(kept.deep_view()) == assoc_map(before.take(j as int)).remove(k),
            decreases self.entries.len() - j,
        {
            let ghost previous = kept.deep_view();
            proof {
                assert(before.take(j + 1).drop_last() =~= before.take(j as int));
            }
            if self.entries[j].0.same_key(key) {
                assert(assoc_map(before.take(j + 1)).remove(k) =~= assoc_map(before.take(j as int)).remove(k));
            } else {
                let entry = (self.entries[j].0.copy_key(), self.entries[j].1.copy_value());
                assert(entry.deep_view() == before[j as int]);
                kept.push(entry);
                assert(kept.deep_view().drop_last() =~= previous);
                assert(assoc_map(before.take(j + 1)).remove(k) =~= assoc_map(before.take(j as int)).remove(k).insert(
                    before[j as int].0,
                    before[j as int].1,
                ));
            }
            j = j + 1;
        }
        assert(before.take(before.len() as int) =~= before);
        self.entries = kept;
    }

    /// Records `value` under `key`, replacing what was there.
    pub fn insert(&mut self, key: K, value: V)
        ensures
            final(self)@ == old(self)@.insert(key.deep_view(), value.deep_view()),
    {
        self.remove(&key);
        let ghost removed = self.entries.deep_view();
        let ghost entry = (key.deep_view(), value.deep_view());
        self.entries.push((key, value));
        assert(self.entries.deep_view().drop_last() =~= removed);
        assert(self.entries.deep_view().last() == entry);
        assert(old(self)@.remove(entry.0).insert(entry.0, entry.1) =~= old(self)@.insert(entry.0, entry.1));
    }

    /// A copy of the store.
    pub fn copy(&self) -> (r: Store<K, V>)
        ensures
            r@ == self@,
    {
        let mut entries: Vec<(K, V)> = Vec::new();
        let mut i: usize = 0;
        while i < self.entries.len()
            invariant
                i <= self.entries.len(),
                entries.deep_view() =~= self.entries.deep_view().take(i as int),
            decreases self.entries.len() - i,
        {
            let ghost previous = entries.deep_view();
            entries.push((self.entries[i].0.copy_key(), self.entries[i].1.copy_value()));
            assert(entries.deep_view() =~= previous.push(self.entries.deep_view()[i as int]));
            assert(self.entries.deep_view().take(i + 1) =~= self.entries.deep_view().take(i as int).push(self.entries.deep_view()[i as int]));
            i = i + 1;
        }
        assert(self.entries.deep_view().take(i as int) =~= self.entries.deep_view());
        Store { entries }
    }
}

} // verus!
