//! A map keyed by byte strings, kept as a list of entries in which no key
//! occurs twice.

use vstd::prelude::*;
use crate::bytes::bytes_eq;

verus! {

/// Entry `i` of `entries` exists and is stored under `key`.
pub open spec fn has_at<V>(entries: Seq<(Vec<u8>, V)>, key: Seq<u8>, i: int) -> bool {
    0 <= i < entries.len() && entries[i].0@ == key
}

/// No two entries share a key.
pub open spec fn distinct_keys<V>(entries: Seq<(Vec<u8>, V)>) -> bool {
    forall|i: int, j: int|
        0 <= i < j < entries.len() ==> #[trigger] entries[i].0@ != #[trigger] entries[j].0@
}

/// The map that a list of entries stands for.
pub open spec fn entries_to_map<V>(entries: Seq<(Vec<u8>, V)>) -> Map<Seq<u8>, V> {
    Map::new(
        |key: Seq<u8>| exists|i: int| has_at(entries, key, i),
        |key: Seq<u8>| entries[choose|i: int| has_at(entries, key, i)].1,
    )
}

/// With distinct keys, the map holds under each entry's key that entry's value.
pub proof fn lemma_entry_in_map<V>(entries: Seq<(Vec<u8>, V)>, i: int)
    requires
        distinct_keys(entries),
        0 <= i < entries.len(),
    ensures
        entries_to_map(entries).contains_key(entries[i].0@),
        entries_to_map(entries)[entries[i].0@] == entries[i].1,
{
    let key = entries[i].0@;
    assert(has_at(entries, key, i));
    let c = choose|c: int| has_at(entries, key, c);
    assert(has_at(entries, key, c));
    if c < i {
        assert(entries[c].0@ != entries[i].0@);
    } else if i < c {
        assert(entries[i].0@ != entries[c].0@);
    }
}

/// Appending an entry under a fresh key inserts it into the map.
pub proof fn lemma_push_entry<V>(entries: Seq<(Vec<u8>, V)>, entry: (Vec<u8>, V))
    requires
        distinct_keys(entries),
        !entries_to_map(entries).contains_key(entry.0@),
    ensures
        distinct_keys(entries.push(entry)),
        entries_to_map(entries.push(entry)) == entries_to_map(entries).insert(entry.0@, entry.1),
{
    let after = entries.push(entry);
    let n = entries.len() as int;
    assert forall|i: int, j: int| 0 <= i < j < after.len() implies #[trigger] after[i].0@
        != #[trigger] after[j].0@ by {
        if j == n {
            assert(has_at(entries, entries[i].0@, i));
        } else {
            assert(entries[i].0@ != entries[j].0@);
        }
    }
    let left = entries_to_map(after);
    let right = entries_to_map(entries).insert(entry.0@, entry.1);
    assert forall|key: Seq<u8>| left.contains_key(key) == right.contains_key(key) by {
        if left.contains_key(key) {
            let i = choose|i: int| has_at(after, key, i);
            if i < n {
                assert(has_at(entries, key, i));
            }
        }
        if right.contains_key(key) {
            if key == entry.0@ {
                assert(has_at(after, key, n));
            } else {
                let i = choose|i: int| has_at(entries, key, i);
                assert(has_at(after, key, i));
            }
        }
    }
    assert forall|key: Seq<u8>| left.contains_key(key) implies left[key] == right[key] by {
        let i = choose|i: int| has_at(after, key, i);
        lemma_entry_in_map(after, i);
        if i < n {
            lemma_entry_in_map(entries, i);
        }
    }
    assert(left =~= right);
}

/// Moving the last entry into place `i` removes the key of entry `i` from
/// the map and leaves every other key as it was.
pub proof fn lemma_swap_remove_entry<V>(entries: Seq<(Vec<u8>, V)>, i: int)
    requires
        distinct_keys(entries),
        0 <= i < entries.len(),
    ensures
        distinct_keys(entries.update(i, entries.last()).drop_last()),
        entries_to_map(entries.update(i, entries.last()).drop_last()) == entries_to_map(
            entries,
        ).remove(entries[i].0@),
{
    let after = entries.update(i, entries.last()).drop_last();
    let n = entries.len() as int;
    let gone = entries[i].0@;
    assert forall|a: int| 0 <= a < after.len() implies #[trigger] after[a] == entries[if a == i {
        n - 1
    } else {
        a
    }] by {}
    assert forall|a: int, b: int| 0 <= a < b < after.len() implies #[trigger] after[a].0@
        != #[trigger] after[b].0@ by {
        let a0 = if a == i { n - 1 } else { a };
        let b0 = if b == i { n - 1 } else { b };
        assert(after[a] == entries[a0]);
        assert(after[b] == entries[b0]);
        if a0 < b0 {
            assert(entries[a0].0@ != entries[b0].0@);
        } else {
            assert(entries[b0].0@ != entries[a0].0@);
        }
    }
    let left = entries_to_map(after);
    let right = entries_to_map(entries).remove(gone);
    assert forall|key: Seq<u8>| left.contains_key(key) == right.contains_key(key) by {
        if left.contains_key(key) {
            let a = choose|a: int| has_at(after, key, a);
            let a0 = if a == i { n - 1 } else { a };
            assert(after[a] == entries[a0]);
            assert(has_at(entries, key, a0));
            if a0 < i {
                assert(entries[a0].0@ != entries[i].0@);
            } else {
                assert(entries[i].0@ != entries[a0].0@);
            }
        }
        if right.contains_key(key) {
            let a0 = choose|a0: int| has_at(entries, key, a0);
            assert(a0 != i);
            let a = if a0 == n - 1 { i } else { a0 };
            assert(after[a] == entries[a0]);
            assert(has_at(after, key, a));
        }
    }
    assert forall|key: Seq<u8>| left.contains_key(key) implies left[key] == right[key] by {
        let a = choose|a: int| has_at(after, key, a);
        let a0 = if a == i { n - 1 } else { a };
        assert(after[a] == entries[a0]);
        lemma_entry_in_map(after, a);
        lemma_entry_in_map(entries, a0);
    }
    assert(left =~= right);
}

/// A map from byte strings to values of type `V`.
pub struct ByteMap<V> {
    entries: Vec<(Vec<u8>, V)>,
}

impl<V> ByteMap<V> {
    /// The invariant of the representation: no key occurs twice.
    pub closed spec fn wf(&self) -> bool {
        distinct_keys(self.entries@)
    }

    /// The map this value stands for.
    pub closed spec fn view(&self) -> Map<Seq<u8>, V> {
        entries_to_map(self.entries@)
    }

    /// The empty map.
    pub fn new() -> (map: Self)
        ensures
            map.wf(),
            map@ == Map::<Seq<u8>, V>::empty(),
    {
        let map = ByteMap { entries: Vec::new() };
        assert(map@ =~= Map::<Seq<u8>, V>::empty());
        map
    }

    /// The place of `key` among the entries, if it has one.
    fn position(&self, key: &[u8]) -> (place: Option<usize>)
        requires
            self.wf(),
        ensures
            match place {
                Some(i) => has_at(self.entries@, key@, i as int) && self@.contains_key(key@)
                    && self@[key@] == self.entries@[i as int].1,
                None => !self@.contains_key(key@),
            },
    {
        let mut i: usize = 0;
        while i < self.entries.len()
            invariant
                self.wf(),
                i <= self.entries.len(),
                forall|j: int| 0 <= j < i ==> !has_at(self.entries@, key@, j),
            decreases self.entries.len() - i,
        {
            if bytes_eq(self.entries[i].0.as_slice(), key) {
                proof {
                    lemma_entry_in_map(self.entries@, i as int);
                }
                return Some(i);
            }
            i += 1;
        }
        None
    }

    /// Whether a value is stored under `key`.
    pub fn contains_key(&self, key: &[u8]) -> (found: bool)
        requires
            self.wf(),
        ensures
            found == self@.contains_key(key@),
    {
        self.position(key).is_some()
    }

    /// The value stored under `key`, if there is one.
    pub fn get(&self, key: &[u8]) -> (value: Option<&V>)
        requires
            self.wf(),
        ensures
            match value {
                Some(v) => self@.contains_key(key@) && *v == self@[key@],
                None => !self@.contains_key(key@),
            },
    {
        match self.position(key) {
            Some(i) => Some(&self.entries[i].1),
            None => None,
        }
    }

    /// Removes what is stored under `key` and returns it.
    pub fn remove(&mut self, key: &[u8]) -> (removed: Option<V>)
        requires
            old(self).wf(),
        ensures
            final(self).wf(),
            final(self)@ == old(self)@.remove(key@),
            match removed {
                Some(v) => old(self)@.contains_key(key@) && v == old(self)@[key@],
                None => !old(self)@.contains_key(key@),
            },
    {
        match self.position(key) {
            Some(i) => {
                proof {
                    lemma_swap_remove_entry(self.entries@, i as int);
                }
                let entry = self.entries.swap_remove(i);
                Some(entry.1)
            },
            None => {
                assert(self@ =~= self@.remove(key@));
                None
            },
        }
    }

    /// Stores `value` under `key` and returns what was stored there before.
    pub fn insert(&mut self, key: Vec<u8>, value: V) -> (previous: Option<V>)
        requires
            old(self).wf(),
        ensures
            final(self).wf(),
            final(self)@ == old(self)@.insert(key@, value),
            match previous {
                Some(v) => old(self)@.contains_key(key@) && v == old(self)@[key@],
                None => !old(self)@.contains_key(key@),
            },
    {
        let previous = self.remove(key.as_slice());
        proof {
            lemma_push_entry(self.entries@, (key, value));
            assert(old(self)@.remove(key@).insert(key@, value) =~= old(self)@.insert(key@, value));
        }
        self.entries.push((key, value));
        previous
    }
}

} // verus!
