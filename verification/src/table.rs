//! A key-value table held in memory, with a finite map as its model.
//!
//! The ledger keeps each of its maps in one of these. A key is present at
//! most once; what the table holds is read through its view.

use vstd::prelude::*;

verus! {

/// A key that executable code can compare, in agreement with equality.
pub trait Key: Sized {
    /// Whether the two keys are equal.
    fn same(&self, other: &Self) -> (equal: bool)
        ensures
            equal == (*self == *other),
    ;
}

/// One key with the value stored under it.
pub struct Entry<K, T> {
    pub key: K,
    pub value: T,
}

/// `entries` lists `map`: every key of the map stands in exactly one entry,
/// together with its value, and there is no other entry.
pub open spec fn is_listing<K, T>(entries: Seq<Entry<K, T>>, map: Map<K, T>) -> bool {
    &&& forall|i: int, j: int|
        0 <= i < j < entries.len() ==> (#[trigger] entries[i]).key != (#[trigger] entries[j]).key
    &&& forall|i: int|
        0 <= i < entries.len() ==> map.contains_key((#[trigger] entries[i]).key)
            && map[entries[i].key] == entries[i].value
    &&& forall|key: K| #[trigger]
        map.contains_key(key) ==> exists|i: int|
            0 <= i < entries.len() && (#[trigger] entries[i]).key == key
}

/// A table from keys to values.
pub struct Table<K: Key, T> {
    entries: Vec<Entry<K, T>>,
}

/// Whether some entry of `entries` has the key `key`.
spec fn has_key<K, T>(entries: Seq<Entry<K, T>>, key: K) -> bool {
    exists|i: int| 0 <= i < entries.len() && (#[trigger] entries[i]).key == key
}

/// The place of an entry with the key `key`, where there is one.
spec fn place_of<K, T>(entries: Seq<Entry<K, T>>, key: K) -> int {
    choose|i: int| 0 <= i < entries.len() && (#[trigger] entries[i]).key == key
}

/// No key stands in two entries.
spec fn keys_distinct<K, T>(entries: Seq<Entry<K, T>>) -> bool {
    forall|i: int, j: int|
        0 <= i < j < entries.len() ==> (#[trigger] entries[i]).key != (#[trigger] entries[j]).key
}

/// The map that a sequence of entries stands for.
spec fn map_of<K, T>(entries: Seq<Entry<K, T>>) -> Map<K, T> {
    Map::new(|key: K| has_key(entries, key), |key: K| entries[place_of(entries, key)].value)
}

/// The keys of the entries form a finite set, so the map has a finite domain.
proof fn lemma_map_of_finite<K, T>(entries: Seq<Entry<K, T>>)
    ensures
        map_of(entries).dom().finite(),
{
    let keys = entries.map_values(|e: Entry<K, T>| e.key);
    assert forall|key: K| keys.to_set().contains(key) <==> map_of(entries).dom().contains(key) by {
        if has_key(entries, key) {
            assert(keys[place_of(entries, key)] == key);
        }
    }
    assert(keys.to_set() =~= map_of(entries).dom());
}

/// With distinct keys, the entry at place `i` is the one the map reads.
proof fn lemma_map_of_at<K, T>(entries: Seq<Entry<K, T>>, i: int)
    requires
        keys_distinct(entries),
        0 <= i < entries.len(),
    ensures
        map_of(entries).contains_key(entries[i].key),
        map_of(entries)[entries[i].key] == entries[i].value,
{
}

/// Replacing the value at place `i` writes that value under the entry's key.
proof fn lemma_map_of_update<K, T>(entries: Seq<Entry<K, T>>, i: int, value: T)
    requires
        keys_distinct(entries),
        0 <= i < entries.len(),
    ensures
        keys_distinct(entries.update(i, Entry { key: entries[i].key, value })),
        map_of(entries.update(i, Entry { key: entries[i].key, value }))
            == map_of(entries).insert(entries[i].key, value),
{
    let key = entries[i].key;
    let after = entries.update(i, Entry { key, value });
    assert forall|k: K| has_key(after, k) <==> (k == key || has_key(entries, k)) by {
        if has_key(entries, k) {
            assert(after[place_of(entries, k)].key == k);
        }
    }
}

/// Adding an entry with a new key writes its value under that key.
proof fn lemma_map_of_push<K, T>(entries: Seq<Entry<K, T>>, key: K, value: T)
    requires
        keys_distinct(entries),
        !has_key(entries, key),
    ensures
        keys_distinct(entries.push(Entry { key, value })),
        map_of(entries.push(Entry { key, value })) == map_of(entries).insert(key, value),
{
    let after = entries.push(Entry { key, value });
    let last = entries.len() as int;
    assert forall|k: K| has_key(after, k) <==> (k == key || has_key(entries, k)) by {
        if has_key(entries, k) {
            assert(after[place_of(entries, k)].key == k);
        }
        if k == key {
            assert(after[last].key == k);
        }
    }
}

/// Taking the entry at place `i` away removes its key from the map.
proof fn lemma_map_of_remove<K, T>(entries: Seq<Entry<K, T>>, i: int)
    requires
        keys_distinct(entries),
        0 <= i < entries.len(),
    ensures
        keys_distinct(entries.remove(i)),
        map_of(entries.remove(i)) == map_of(entries).remove(entries[i].key),
{
    let key = entries[i].key;
    let after = entries.remove(i);
    assert forall|k: K| has_key(after, k) <==> (k != key && has_key(entries, k)) by {
        if k != key && has_key(entries, k) {
            let found = place_of(entries, k);
            assert(after[if found < i { found } else { found - 1 }] == entries[found]);
        }
    }
}

impl<K: Key, T> View for Table<K, T> {
    type V = Map<K, T>;

    /// The finite map from each key that is present to its value.
    closed spec fn view(&self) -> Map<K, T> {
        map_of(self.entries@)
    }
}

impl<K: Key, T> Table<K, T> {
    #[verifier::type_invariant]
    spec fn well_formed(self) -> bool {
        keys_distinct(self.entries@)
    }

    /// Only finitely many keys are present.
    pub proof fn lemma_finite(self)
        ensures
            self@.dom().finite(),
    {
        lemma_map_of_finite(self.entries@);
    }

    /// The table that holds nothing.
    pub fn new() -> (table: Self)
        ensures
            table@ == Map::<K, T>::empty(),
    {
        Table { entries: Vec::new() }
    }

    /// The place of the entry for `key`, if it has one.
    fn find(&self, key: &K) -> (found: Option<usize>)
        ensures
            match found {
                Some(i) => i < self.entries@.len() && self.entries@[i as int].key == *key,
                None => !has_key(self.entries@, *key),
            },
    {
        let mut i: usize = 0;
        while i < self.entries.len()
            invariant
                i <= self.entries@.len(),
                forall|j: int| 0 <= j < i ==> (#[trigger] self.entries@[j]).key != *key,
            decreases self.entries@.len() - i,
        {
            if self.entries[i].key.same(key) {
                return Some(i);
            }
            i += 1;
        }
        None
    }

    /// The value stored under `key`, if there is one.
    pub fn get(&self, key: &K) -> (value: Option<&T>)
        ensures
            match value {
                Some(v) => self@.contains_key(*key) && *v == self@[*key],
                None => !self@.contains_key(*key),
            },
    {
        proof {
            use_type_invariant(self);
        }
        match self.find(key) {
            Some(i) => {
                proof {
                    lemma_map_of_at(self.entries@, i as int);
                }
                Some(&self.entries[i].value)
            },
            None => None,
        }
    }

    /// Stores `value` under `key`, in place of what was there.
    pub fn insert(&mut self, key: K, value: T)
        ensures
            final(self)@ == old(self)@.insert(key, value),
    {
        proof {
            use_type_invariant(&*self);
        }
        let found = self.find(&key);
        let mut entries: Vec<Entry<K, T>> = Vec::new();
        core::mem::swap(&mut entries, &mut self.entries);
        match found {
            Some(i) => {
                proof {
                    lemma_map_of_update(entries@, i as int, value);
                }
                entries[i] = Entry { key, value };
            },
            None => {
                proof {
                    lemma_map_of_push(entries@, key, value);
                }
                entries.push(Entry { key, value });
            },
        }
        self.entries = entries;
    }

    /// Takes the table apart into its entries, in no particular order.
    pub fn into_entries(self) -> (entries: Vec<Entry<K, T>>)
        ensures
            is_listing(entries@, self@),
    {
        proof {
            use_type_invariant(&self);
        }
        let Table { entries } = self;
        entries
    }

    /// Takes away what is stored under `key` and hands it back.
    pub fn remove(&mut self, key: &K) -> (value: Option<T>)
        ensures
            final(self)@ == old(self)@.remove(*key),
            match value {
                Some(v) => old(self)@.contains_key(*key) && v == old(self)@[*key],
                None => !old(self)@.contains_key(*key),
            },
    {
        proof {
            use_type_invariant(&*self);
        }
        let found = self.find(key);
        match found {
            Some(i) => {
                let mut entries: Vec<Entry<K, T>> = Vec::new();
                core::mem::swap(&mut entries, &mut self.entries);
                proof {
                    lemma_map_of_at(entries@, i as int);
                    lemma_map_of_remove(entries@, i as int);
                }
                let entry = entries.remove(i);
                self.entries = entries;
                Some(entry.value)
            },
            None => {
                None
            },
        }
    }
}

} // verus!
