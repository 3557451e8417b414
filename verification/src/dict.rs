//! A map from strings to values, kept as a list of entries with distinct keys.

use vstd::prelude::*;

verus! {

/// True when some entry of `entries` has the key `key`.
pub open spec fn has_key<V>(entries: Seq<(String, V)>, key: Seq<char>) -> bool {
    exists|i: int| 0 <= i < entries.len() && (#[trigger] entries[i]).0@ == key
}

/// True when no two entries of `entries` share a key.
pub open spec fn distinct_keys<V>(entries: Seq<(String, V)>) -> bool {
    forall|i: int, j: int|
        0 <= i < j < entries.len() ==> (#[trigger] entries[i]).0@ != (#[trigger] entries[j]).0@
}

/// The position of an entry with the key `key`, if there is one.
pub open spec fn position_of<V>(entries: Seq<(String, V)>, key: Seq<char>) -> int {
    choose|i: int| 0 <= i < entries.len() && (#[trigger] entries[i]).0@ == key
}

/// The map that a list of entries stands for: each key to the value of the
/// entry that holds it.
pub open spec fn map_of<V>(entries: Seq<(String, V)>) -> Map<Seq<char>, V> {
    Map::new(|k: Seq<char>| has_key(entries, k), |k: Seq<char>| entries[position_of(entries, k)].1)
}

/// With distinct keys, the entry at `i` is the one that the map has for its key.
pub proof fn lemma_map_of_entry<V>(entries: Seq<(String, V)>, i: int)
    requires
        distinct_keys(entries),
        0 <= i < entries.len(),
    ensures
        map_of(entries).contains_key(entries[i].0@),
        map_of(entries)[entries[i].0@] == entries[i].1,
{
    let k = entries[i].0@;
    assert(has_key(entries, k));
    let j = position_of(entries, k);
    assert(0 <= j < entries.len() && entries[j].0@ == k);
    assert(j == i) by {
        if j < i {
            assert(entries[j].0@ != entries[i].0@);
        } else if i < j {
            assert(entries[i].0@ != entries[j].0@);
        }
    }
}

/// A map from strings to values of type `V`.
#[derive(Debug)]
pub struct Dict<V> {
    entries: Vec<(String, V)>,
}

impl<V> View for Dict<V> {
    type V = Map<Seq<char>, V>;

    closed spec fn view(&self) -> Map<Seq<char>, V> {
        map_of(self.entries@)
    }
}

impl<V> Dict<V> {
    #[verifier::type_invariant]
    spec fn keys_are_distinct(&self) -> bool {
        distinct_keys(self.entries@)
    }

    /// An empty map.
    pub fn new() -> (dict: Self)
        ensures
            dict@ == Map::<Seq<char>, V>::empty(),
    {
        let dict = Dict { entries: Vec::new() };
        assert(dict@ =~= Map::<Seq<char>, V>::empty());
        dict
    }

    /// The entries of the map, each key once.
    pub fn entries(&self) -> (entries: &Vec<(String, V)>)
        ensures
            distinct_keys(entries@),
            map_of(entries@) == self@,
    {
        proof {
            use_type_invariant(self);
        }
        &self.entries
    }

    /// The position of the entry with the key `key`, if the map has one.
    fn find(&self, key: &String) -> (found: Option<usize>)
        ensures
            match found {
                Some(i) => i < self.entries@.len() && self.entries@[i as int].0@ == key@,
                None => !has_key(self.entries@, key@),
            },
    {
        let mut i: usize = 0;
        while i < self.entries.len()
            invariant
                i <= self.entries@.len(),
                forall|j: int| 0 <= j < i ==> (#[trigger] self.entries@[j]).0@ != key@,
            decreases self.entries@.len() - i,
        {
            if self.entries[i].0 == *key {
                return Some(i);
            }
            i += 1;
        }
        None
    }

    /// The value that the map holds for `key`, if any.
    pub fn get(&self, key: &str) -> (value: Option<&V>)
        ensures
            match value {
                Some(v) => self@.contains_key(key@) && *v == self@[key@],
                None => !self@.contains_key(key@),
            },
    {
        proof {
            use_type_invariant(self);
        }
        let owned = key.to_owned();
        match self.find(&owned) {
            Some(i) => {
                proof {
                    lemma_map_of_entry(self.entries@, i as int);
                }
                Some(&self.entries[i].1)
            },
            None => None,
        }
    }

    /// Sets the value for `key`, in place of the one that the map held for it,
    /// if it held one.
    pub fn insert(&mut self, key: String, value: V)
        ensures
            final(self)@ == old(self)@.insert(key@, value),
    {
        proof {
            use_type_invariant(&*self);
        }
        let ghost before = self.entries@;
        let found = self.find(&key);
        let mut entries: Vec<(String, V)> = Vec::new();
        core::mem::swap(&mut self.entries, &mut entries);
        match found {
            Some(i) => {
                entries.set(i, (key, value));
            },
            None => {
                entries.push((key, value));
            },
        }
        proof {
            let after = entries@;
            let at: int = match found {
                Some(i) => i as int,
                None => before.len() as int,
            };
            assert(after[at] == (key, value));
            assert(forall|j: int| 0 <= j < before.len() && j != at ==> after[j] == before[j]);
            assert(distinct_keys(after));
            assert forall|k: Seq<char>| #[trigger]
                has_key(after, k) <==> (k == key@ || has_key(before, k)) by {
                if has_key(after, k) && k != key@ {
                    let j = position_of(after, k);
                    assert(before[j].0@ == k);
                }
                if k == key@ {
                    assert(after[at].0@ == k);
                }
                if has_key(before, k) {
                    let j = position_of(before, k);
                    if j == at {
                        assert(after[at].0@ == k);
                    } else {
                        assert(after[j].0@ == k);
                    }
                }
            }
            assert(map_of(after) =~= map_of(before).insert(key@, value)) by {
                assert forall|k: Seq<char>| map_of(after).contains_key(k) implies #[trigger] map_of(
                    after,
                )[k] == map_of(before).insert(key@, value)[k] by {
                    let j = position_of(after, k);
                    lemma_map_of_entry(after, j);
                    if k == key@ {
                        lemma_map_of_entry(after, at);
                    } else {
                        assert(before[j] == after[j]);
                        lemma_map_of_entry(before, j);
                    }
                }
            }
        }
        self.entries = entries;
    }
}

} // verus!
