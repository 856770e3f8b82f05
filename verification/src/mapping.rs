//! Maps from strings to values, kept in the order in which their keys were
//! first inserted.

use vstd::prelude::*;

verus! {

/// Whether no key occurs twice in `entries`.
pub open spec fn distinct_keys<T>(entries: Seq<(Seq<char>, T)>) -> bool {
    forall|i: int, j: int|
        0 <= i < j < entries.len() ==> (#[trigger] entries[i]).0 != (#[trigger] entries[j]).0
}

/// Whether `key` occurs in `entries`.
pub open spec fn has_key<T>(entries: Seq<(Seq<char>, T)>, key: Seq<char>) -> bool {
    exists|i: int| 0 <= i < entries.len() && (#[trigger] entries[i]).0 == key
}

/// A position of `key` in `entries`; the only one where the keys are
/// distinct. Meaningful only where `has_key` holds.
pub open spec fn index_of<T>(entries: Seq<(Seq<char>, T)>, key: Seq<char>) -> int {
    choose|i: int| 0 <= i < entries.len() && (#[trigger] entries[i]).0 == key
}

/// `entries` after `key` has been given `value`: the entry of that key is
/// replaced where it stands, and a new key goes to the end.
pub open spec fn with_entry<T>(
    entries: Seq<(Seq<char>, T)>,
    key: Seq<char>,
    value: T,
) -> Seq<(Seq<char>, T)> {
    if has_key(entries, key) {
        entries.update(index_of(entries, key), (key, value))
    } else {
        entries.push((key, value))
    }
}

/// The value of `key` in `entries`, if it has one.
pub open spec fn value_of<T>(entries: Seq<(Seq<char>, T)>, key: Seq<char>) -> Option<T> {
    if has_key(entries, key) {
        Some(entries[index_of(entries, key)].1)
    } else {
        None
    }
}

/// Where the keys are distinct, a key stands at one position only.
pub proof fn lemma_index_of_unique<T>(entries: Seq<(Seq<char>, T)>, key: Seq<char>, i: int)
    requires
        distinct_keys(entries),
        0 <= i < entries.len(),
        entries[i].0 == key,
    ensures
        has_key(entries, key),
        index_of(entries, key) == i,
{
}

/// Giving a key a value keeps the keys distinct, and the key has that value
/// afterwards.
pub proof fn law_entry_is_set<T>(entries: Seq<(Seq<char>, T)>, key: Seq<char>, value: T)
    requires
        distinct_keys(entries),
    ensures
        distinct_keys(with_entry(entries, key, value)),
        has_key(with_entry(entries, key, value), key),
        value_of(with_entry(entries, key, value), key) == Some(value),
{
    let after = with_entry(entries, key, value);
    if has_key(entries, key) {
        lemma_index_of_unique(after, key, index_of(entries, key));
    } else {
        lemma_index_of_unique(after, key, entries.len() as int);
    }
}

/// A map from strings to values that remembers the order in which its keys
/// arrived. No key occurs twice.
#[derive(Debug, PartialEq, Eq)]
pub struct StringMap<V: View> {
    entries: Vec<(String, V)>,
}

/// The keys and values of stored entries, as mathematical values.
spec fn viewed<V: View>(entries: Seq<(String, V)>) -> Seq<(Seq<char>, V::V)> {
    Seq::new(entries.len(), |i: int| (entries[i].0@, entries[i].1@))
}

impl<V: View> View for StringMap<V> {
    type V = Seq<(Seq<char>, V::V)>;

    closed spec fn view(&self) -> Seq<(Seq<char>, V::V)> {
        viewed(self.entries@)
    }
}

impl<V: View + Clone> Clone for StringMap<V> {
    /// A map with the same keys in the same order, each with a clone of its
    /// value.
    fn clone(&self) -> (r: Self)
        ensures
            r@.len() == self@.len(),
            forall|i: int| 0 <= i < self@.len() ==> (#[trigger] r@[i]).0 == self@[i].0,
    {
        proof {
            use_type_invariant(self);
        }
        let mut copy: Vec<(String, V)> = Vec::new();
        let n = self.entries.len();
        let mut i: usize = 0;
        while i < n
            invariant
                i <= n,
                n == self.entries@.len(),
                copy@.len() == i,
                forall|j: int| 0 <= j < i ==> (#[trigger] copy@[j]).0@ == self.entries@[j].0@,
            decreases n - i,
        {
            let key = self.entries[i].0.clone();
            let value = self.entries[i].1.clone();
            copy.push((key, value));
            i = i + 1;
        }
        proof {
            let copied = viewed(copy@);
            assert forall|a: int, b: int| 0 <= a < b < copied.len() implies (#[trigger] copied[a]).0
                != (#[trigger] copied[b]).0 by {
                assert(self@[a].0 != self@[b].0);
            }
        }
        StringMap { entries: copy }
    }
}

impl<V: View> StringMap<V> {
    #[verifier::type_invariant]
    spec fn keys_occur_once(self) -> bool {
        distinct_keys(self@)
    }

    /// The empty map.
    pub fn new() -> (r: Self)
        ensures
            r@ == Seq::<(Seq<char>, V::V)>::empty(),
    {
        let entries: Vec<(String, V)> = Vec::new();
        StringMap { entries }
    }

    /// The number of keys.
    pub fn len(&self) -> (r: usize)
        ensures
            r == self@.len(),
            distinct_keys(self@),
    {
        proof {
            use_type_invariant(self);
        }
        self.entries.len()
    }

    /// Whether the map has no key.
    pub fn is_empty(&self) -> (r: bool)
        ensures
            r == (self@.len() == 0),
    {
        self.entries.len() == 0
    }

    /// The key at position `index`.
    pub fn key(&self, index: usize) -> (r: &String)
        requires
            index < self@.len(),
        ensures
            r@ == self@[index as int].0,
    {
        &self.entries[index].0
    }

    /// The value at position `index`.
    pub fn value(&self, index: usize) -> (r: &V)
        requires
            index < self@.len(),
        ensures
            r@ == self@[index as int].1,
    {
        &self.entries[index].1
    }

    /// Gives `key` the value `value`. A key that is present keeps its place;
    /// a new one goes to the end.
    pub fn insert(&mut self, key: String, value: V)
        ensures
            final(self)@ == with_entry(old(self)@, key@, value@),
            distinct_keys(final(self)@),
    {
        proof {
            use_type_invariant(&*self);
        }
        let ghost before = self@;
        let mut entries: Vec<(String, V)> = Vec::new();
        std::mem::swap(&mut self.entries, &mut entries);
        let found = Self::position(&entries, &key);
        match found {
            Some(i) => {
                proof {
                    lemma_index_of_unique(before, key@, i as int);
                }
                entries.set(i, (key, value));
            },
            None => {
                entries.push((key, value));
            },
        }
        assert(viewed(entries@) =~= with_entry(before, key@, value@));
        self.entries = entries;
    }

    /// The first position of `key` among `entries`.
    fn position(entries: &Vec<(String, V)>, key: &String) -> (r: Option<usize>)
        ensures
            match r {
                Some(i) => i < entries@.len() && entries@[i as int].0@ == key@,
                None => forall|j: int|
                    0 <= j < entries@.len() ==> (#[trigger] entries@[j]).0@ != key@,
            },
    {
        let n = entries.len();
        let mut i: usize = 0;
        while i < n
            invariant
                i <= n,
                n == entries@.len(),
                forall|j: int| 0 <= j < i ==> (#[trigger] entries@[j]).0@ != key@,
            decreases n - i,
        {
            if entries[i].0 == *key {
                return Some(i);
            }
            i = i + 1;
        }
        None
    }

    /// The value of `key`, if the map has that key.
    pub fn get(&self, key: &String) -> (r: Option<&V>)
        ensures
            match r {
                Some(v) => Some(v@) == value_of(self@, key@),
                None => value_of(self@, key@) is None,
            },
    {
        proof {
            use_type_invariant(self);
        }
        match Self::position(&self.entries, key) {
            Some(i) => {
                proof {
                    lemma_index_of_unique(self@, key@, i as int);
                }
                Some(&self.entries[i].1)
            },
            None => None,
        }
    }
}

} // verus!
