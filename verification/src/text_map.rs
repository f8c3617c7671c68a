//! An insertion-ordered map from text to text.
//!
//! It keeps each key once, at the place where the key was first inserted, so that a walk
//! over the map meets the entries in one fixed order.

use crate::text::{chars_of, same_text};
use vstd::prelude::*;

verus! {

/// The entries of a map as a mathematical value: key and value of each, oldest first.
pub type Entries = Seq<(Seq<char>, Seq<char>)>;

/// Whether `key` has a value among `entries`.
pub open spec fn has_key(entries: Entries, key: Seq<char>) -> bool {
    exists|i: int| 0 <= i < entries.len() && (#[trigger] entries[i]).0 == key
}

/// The value of the first entry under `key`, if there is one.
pub open spec fn value_of(entries: Entries, key: Seq<char>) -> Option<Seq<char>>
    decreases entries.len(),
{
    if entries.len() == 0 {
        None
    } else if entries[0].0 == key {
        Some(entries[0].1)
    } else {
        value_of(entries.skip(1), key)
    }
}

/// No key occurs twice.
pub open spec fn distinct_keys(entries: Entries) -> bool {
    forall|i: int, j: int| 0 <= i < j < entries.len() ==> entries[i].0 != entries[j].0
}

/// The entries after `key` has been given `value`: a key already present keeps its
/// place and gets the new value, a new key goes to the end.
pub open spec fn inserted(entries: Entries, key: Seq<char>, value: Seq<char>) -> Entries {
    if has_key(entries, key) {
        Seq::new(
            entries.len(),
            |i: int|
                if entries[i].0 == key {
                    (key, value)
                } else {
                    entries[i]
                },
        )
    } else {
        entries.push((key, value))
    }
}

/// Inserting keeps the keys distinct.
pub proof fn lemma_inserted_distinct(entries: Entries, key: Seq<char>, value: Seq<char>)
    requires
        distinct_keys(entries),
    ensures
        distinct_keys(inserted(entries, key, value)),
        has_key(inserted(entries, key, value), key),
        value_of(inserted(entries, key, value), key) == Some(value),
{
    let after = inserted(entries, key, value);
    if has_key(entries, key) {
        let i = choose|i: int| 0 <= i < entries.len() && (#[trigger] entries[i]).0 == key;
        assert(after[i].0 == key);
        assert forall|a: int, b: int| 0 <= a < b < after.len() implies after[a].0 != after[b].0 by {
            assert(after[a].0 == entries[a].0);
            assert(after[b].0 == entries[b].0);
        }
    } else {
        assert(after[entries.len() as int].0 == key);
        assert forall|a: int, b: int| 0 <= a < b < after.len() implies after[a].0 != after[b].0 by {
            if b < entries.len() {
                assert(after[a] == entries[a] && after[b] == entries[b]);
            } else {
                assert(after[a] == entries[a]);
            }
        }
    }
    lemma_value_of(after, key);
    let found = choose|i: int|
        0 <= i < after.len() && (#[trigger] after[i]).0 == key && after[i].1 == value_of(
            after,
            key,
        )->0;
    assert(after[found].1 == value) by {
        if has_key(entries, key) {
        } else {
            if found < entries.len() {
                assert(entries[found].0 == key);
            }
        }
    }
}

/// A key has a value exactly when it is present, and the value is that of its first entry.
pub proof fn lemma_value_of(entries: Entries, key: Seq<char>)
    ensures
        value_of(entries, key) is Some <==> has_key(entries, key),
        value_of(entries, key) matches Some(v) ==> exists|i: int|
            0 <= i < entries.len() && (#[trigger] entries[i]).0 == key && entries[i].1 == v
                && forall|k: int| 0 <= k < i ==> (#[trigger] entries[k]).0 != key,
    decreases entries.len(),
{
    if entries.len() == 0 {
    } else if entries[0].0 == key {
        assert(entries[0].1 == value_of(entries, key)->0);
    } else {
        let rest = entries.skip(1);
        lemma_value_of(rest, key);
        assert forall|i: int| 0 <= i < rest.len() implies rest[i] == entries[i + 1] by {}
        if has_key(entries, key) {
            let i = choose|i: int| 0 <= i < entries.len() && (#[trigger] entries[i]).0 == key;
            assert(rest[i - 1].0 == key);
        }
        if value_of(rest, key) is Some {
            let v = value_of(rest, key)->0;
            let i = choose|i: int|
                0 <= i < rest.len() && (#[trigger] rest[i]).0 == key && rest[i].1 == v
                    && forall|k: int| 0 <= k < i ==> (#[trigger] rest[k]).0 != key;
            assert(entries[i + 1].0 == key && entries[i + 1].1 == v);
            assert forall|k: int| 0 <= k < i + 1 implies (#[trigger] entries[k]).0 != key by {
                if k > 0 {
                    assert(rest[k - 1].0 != key);
                }
            }
        }
    }
}

/// One key with its value.
struct Entry {
    key: Vec<char>,
    value: Vec<char>,
}

impl View for Entry {
    type V = (Seq<char>, Seq<char>);

    closed spec fn view(&self) -> (Seq<char>, Seq<char>) {
        (self.key@, self.value@)
    }
}

/// An insertion-ordered map from text to text.
pub struct TextMap {
    entries: Vec<Entry>,
}

impl View for TextMap {
    type V = Entries;

    closed spec fn view(&self) -> Entries {
        self.entries@.map_values(|e: Entry| e@)
    }
}

impl TextMap {
    /// The map's invariant: no key occurs twice.
    pub open spec fn wf(&self) -> bool {
        distinct_keys(self@)
    }

    /// A map without entries.
    pub fn new() -> (map: Self)
        ensures
            map@ == Entries::empty(),
            map.wf(),
    {
        let map = TextMap { entries: Vec::new() };
        proof {
            assert(map@ =~= Entries::empty());
        }
        map
    }

    /// The number of entries.
    pub fn len(&self) -> (n: usize)
        ensures
            n == self@.len(),
    {
        self.entries.len()
    }

    /// The key of the entry at place `i`.
    pub fn key_at(&self, i: usize) -> (key: &Vec<char>)
        requires
            i < self@.len(),
        ensures
            key@ == self@[i as int].0,
    {
        &self.entries[i].key
    }

    /// The value of the entry at place `i`.
    pub fn value_at(&self, i: usize) -> (value: &Vec<char>)
        requires
            i < self@.len(),
        ensures
            value@ == self@[i as int].1,
    {
        &self.entries[i].value
    }

    /// The place of the first entry under `key`, if there is one.
    pub fn position(&self, key: &Vec<char>) -> (at: Option<usize>)
        ensures
            at is Some <==> has_key(self@, key@),
            at matches Some(i) ==> i < self@.len() && self@[i as int].0 == key@ && value_of(
                self@,
                key@,
            ) == Some(self@[i as int].1),
            at is None ==> value_of(self@, key@) is None,
    {
        let mut i: usize = 0;
        proof {
            assert(self@.skip(0) =~= self@);
        }
        while i < self.entries.len()
            invariant
                i <= self@.len(),
                self@.len() == self.entries@.len(),
                forall|k: int| 0 <= k < i ==> (#[trigger] self@[k]).0 != key@,
                value_of(self@, key@) == value_of(self@.skip(i as int), key@),
            decreases self@.len() - i,
        {
            proof {
                assert(self@.skip(i as int)[0] == self@[i as int]);
                assert(self@.skip(i as int).skip(1) =~= self@.skip(i + 1));
            }
            if same_text(&self.entries[i].key, key) {
                return Some(i);
            }
            i += 1;
        }
        None
    }

    /// Gives `key` the value `value`, in place of any value it had.
    pub fn insert(&mut self, key: &str, value: &str)
        requires
            old(self).wf(),
        ensures
            final(self).wf(),
            final(self)@ == inserted(old(self)@, key@, value@),
    {
        let key_chars = chars_of(key);
        let value_chars = chars_of(value);
        proof {
            lemma_inserted_distinct(self@, key@, value@);
        }
        match self.position(&key_chars) {
            Some(i) => {
                let ghost before = self.entries@;
                self.entries[i].value = value_chars;
                proof {
                    assert(self.entries@[i as int].key == before[i as int].key);
                    assert forall|k: int| 0 <= k < before.len() && k != i implies old(self)@[k].0
                        != key@ by {
                        if k < i {
                            assert(old(self)@[k].0 != old(self)@[i as int].0);
                        } else {
                            assert(old(self)@[i as int].0 != old(self)@[k].0);
                        }
                    }
                    assert(self@ =~= inserted(old(self)@, key@, value@));
                }
            },
            None => {
                self.entries.push(Entry { key: key_chars, value: value_chars });
                proof {
                    assert(self@ =~= inserted(old(self)@, key@, value@));
                }
            },
        }
    }
}

} // verus!
