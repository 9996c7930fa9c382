//! A small dictionary keyed by byte sequences.
//!
//! Command bodies and transmission parameters are short byte strings, and a
//! definition holds a few dozen of them at most, so the dictionary keeps its
//! entries in a vector and finds a key by comparing bytes. No key occurs
//! twice; that is the type's invariant.

use crate::bytes::bytes_equal;
use vstd::prelude::*;

verus! {

/// A key that is looked up by the bytes it is made of.
pub trait KeyBytes {
    /// The bytes that identify the key.
    spec fn key_bytes(&self) -> Seq<u8>;

    /// The same bytes, for comparing.
    fn as_key_slice(&self) -> (bytes: &[u8])
        ensures
            bytes@ == self.key_bytes(),
    ;
}

impl KeyBytes for [u8; 5] {
    open spec fn key_bytes(&self) -> Seq<u8> {
        self@
    }

    fn as_key_slice(&self) -> (bytes: &[u8]) {
        self.as_slice()
    }
}

impl KeyBytes for Vec<u8> {
    open spec fn key_bytes(&self) -> Seq<u8> {
        self@
    }

    fn as_key_slice(&self) -> (bytes: &[u8]) {
        self.as_slice()
    }
}

/// Whether the entry at `index` is filed under `key`.
pub open spec fn filed_under<K: KeyBytes, V>(
    entries: Seq<(K, V)>,
    index: int,
    key: Seq<u8>,
) -> bool {
    0 <= index < entries.len() && entries[index].0.key_bytes() == key
}

/// Whether no two entries share a key.
pub open spec fn keys_distinct<K: KeyBytes, V>(entries: Seq<(K, V)>) -> bool {
    forall|i: int, j: int|
        0 <= i < j < entries.len() ==> #[trigger] entries[i].0.key_bytes()
            != #[trigger] entries[j].0.key_bytes()
}

/// The mapping that a sequence of entries with distinct keys stands for.
pub open spec fn entries_map<K: KeyBytes, V>(entries: Seq<(K, V)>) -> Map<Seq<u8>, V> {
    Map::new(
        |key: Seq<u8>| exists|i: int| filed_under(entries, i, key),
        |key: Seq<u8>| entries[choose|i: int| filed_under(entries, i, key)].1,
    )
}

/// With distinct keys, the entry at `index` is what its key maps to.
pub proof fn lemma_entry_is_mapped<K: KeyBytes, V>(entries: Seq<(K, V)>, index: int)
    requires
        keys_distinct(entries),
        0 <= index < entries.len(),
    ensures
        entries_map(entries).contains_key(entries[index].0.key_bytes()),
        entries_map(entries)[entries[index].0.key_bytes()] == entries[index].1,
{
    let key = entries[index].0.key_bytes();
    assert(filed_under(entries, index, key));
    let chosen = choose|i: int| filed_under(entries, i, key);
    assert(filed_under(entries, chosen, key));
    if chosen < index {
        assert(entries[chosen].0.key_bytes() != entries[index].0.key_bytes());
    } else if index < chosen {
        assert(entries[index].0.key_bytes() != entries[chosen].0.key_bytes());
    }
}

/// Where `key` is filed among `entries`, if it is.
fn position<K: KeyBytes, V>(entries: &Vec<(K, V)>, key: &[u8]) -> (found: Option<usize>)
    ensures
        match found {
            Some(index) => filed_under(entries@, index as int, key@),
            None => forall|i: int| !filed_under(entries@, i, key@),
        },
{
    let mut index: usize = 0;
    while index < entries.len()
        invariant
            index <= entries@.len(),
            forall|i: int| 0 <= i < index ==> !filed_under(entries@, i, key@),
        decreases entries@.len() - index,
    {
        if bytes_equal(entries[index].0.as_key_slice(), key) {
            return Some(index);
        }
        index += 1;
    }
    None
}

/// A dictionary from byte-sequence keys to values.
#[derive(Debug)]
pub struct Dictionary<K: KeyBytes, V> {
    entries: Vec<(K, V)>,
}

impl<K: KeyBytes, V> View for Dictionary<K, V> {
    type V = Map<Seq<u8>, V>;

    closed spec fn view(&self) -> Map<Seq<u8>, V> {
        entries_map(self.entries@)
    }
}

impl<K: KeyBytes, V> Dictionary<K, V> {
    #[verifier::type_invariant]
    spec fn distinct_keys(self) -> bool {
        keys_distinct(self.entries@)
    }

    /// An empty dictionary.
    pub fn new() -> (dictionary: Self)
        ensures
            dictionary@ == Map::<Seq<u8>, V>::empty(),
    {
        let dictionary = Dictionary { entries: Vec::new() };
        assert(dictionary@ =~= Map::<Seq<u8>, V>::empty());
        dictionary
    }

    /// An empty dictionary with room for `capacity` entries.
    pub fn with_capacity(capacity: usize) -> (dictionary: Self)
        ensures
            dictionary@ == Map::<Seq<u8>, V>::empty(),
    {
        let dictionary = Dictionary { entries: Vec::with_capacity(capacity) };
        assert(dictionary@ =~= Map::<Seq<u8>, V>::empty());
        dictionary
    }

    /// The value filed under `key`.
    pub fn get(&self, key: &[u8]) -> (value: Option<&V>)
        ensures
            match value {
                Some(found) => self@.contains_key(key@) && *found == self@[key@],
                None => !self@.contains_key(key@),
            },
    {
        proof {
            use_type_invariant(self);
        }
        match position(&self.entries, key) {
            Some(index) => {
                proof {
                    lemma_entry_is_mapped(self.entries@, index as int);
                }
                Some(&self.entries[index].1)
            },
            None => None,
        }
    }

    /// Whether something is filed under `key`.
    pub fn contains_key(&self, key: &[u8]) -> (present: bool)
        ensures
            present == self@.contains_key(key@),
    {
        position(&self.entries, key).is_some()
    }

    /// Files `value` under `key` and hands back what was filed there before.
    pub fn insert(&mut self, key: K, value: V) -> (previous: Option<V>)
        ensures
            final(self)@ == old(self)@.insert(key.key_bytes(), value),
            match previous {
                Some(replaced) => old(self)@.contains_key(key.key_bytes())
                    && replaced == old(self)@[key.key_bytes()],
                None => !old(self)@.contains_key(key.key_bytes()),
            },
    {
        proof {
            use_type_invariant(&*self);
        }
        let ghost before = self.entries@;
        let ghost bytes = key.key_bytes();
        // The entries are taken out, changed and put back, so that the
        // dictionary itself is never seen with a key filed twice.
        let mut entries: Vec<(K, V)> = Vec::new();
        std::mem::swap(&mut self.entries, &mut entries);
        let found = position(&entries, key.as_key_slice());
        let previous = match found {
            Some(index) => {
                proof {
                    lemma_entry_is_mapped(before, index as int);
                }
                let replaced = entries.remove(index);
                assert(forall|i: int| !filed_under(entries@, i, bytes)) by {
                    assert forall|i: int| !filed_under(entries@, i, bytes) by {
                        if filed_under(entries@, i, bytes) {
                            let origin = if i < index { i } else { i + 1 };
                            assert(before[origin].0.key_bytes() == bytes);
                        }
                    }
                }
                Some(replaced.1)
            },
            None => None,
        };
        let ghost reduced = entries@;
        assert(keys_distinct(reduced));
        entries.push((key, value));
        let ghost after = entries@;
        assert(keys_distinct(after)) by {
            assert forall|i: int, j: int| 0 <= i < j < after.len() implies after[i].0.key_bytes()
                != after[j].0.key_bytes() by {
                if j == after.len() - 1 {
                    assert(!filed_under(reduced, i, bytes));
                } else {
                    assert(reduced[i].0.key_bytes() != reduced[j].0.key_bytes());
                }
            }
        }
        proof {
            let target = entries_map(before).insert(bytes, value);
            assert forall|k: Seq<u8>| entries_map(after).contains_key(k) <==> target.contains_key(
                k,
            ) by {
                if entries_map(after).contains_key(k) {
                    let i = choose|i: int| filed_under(after, i, k);
                    if i < reduced.len() {
                        let origin = match found {
                            Some(index) => if i < index { i } else { i + 1 },
                            None => i,
                        };
                        assert(filed_under(before, origin, k));
                    }
                }
                if target.contains_key(k) && k != bytes {
                    let origin = choose|i: int| filed_under(before, i, k);
                    let moved = match found {
                        Some(index) => if origin < index { origin } else { origin - 1 },
                        None => origin,
                    };
                    assert(filed_under(after, moved, k));
                }
                if k == bytes {
                    assert(filed_under(after, after.len() - 1, k));
                }
            }
            assert forall|k: Seq<u8>| entries_map(after).contains_key(k) implies entries_map(
                after,
            )[k] == target[k] by {
                let i = choose|i: int| filed_under(after, i, k);
                lemma_entry_is_mapped(after, i);
                if i < reduced.len() {
                    let origin = match found {
                        Some(index) => if i < index { i } else { i + 1 },
                        None => i,
                    };
                    assert(filed_under(before, origin, k));
                    lemma_entry_is_mapped(before, origin);
                    assert(k != bytes);
                }
            }
            assert(entries_map(after) =~= target);
        }
        std::mem::swap(&mut self.entries, &mut entries);
        previous
    }
}

} // verus!
