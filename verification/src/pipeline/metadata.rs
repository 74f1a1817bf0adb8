//! The metadata of an event: text keys with text values, each key at most
//! once.

use vstd::prelude::*;

verus! {

/// Whether no key occurs twice among `entries`.
pub open spec fn keys_are_distinct(entries: Seq<(String, String)>) -> bool {
    forall|i: int, j: int|
        0 <= i < j < entries.len() ==> (#[trigger] entries[i]).0@ != (#[trigger] entries[j]).0@
}

/// Whether some entry has the key `k`.
pub open spec fn has_key(entries: Seq<(String, String)>, k: Seq<char>) -> bool {
    exists|i: int| 0 <= i < entries.len() && (#[trigger] entries[i]).0@ == k
}

/// The value that the entries give to `k`.
pub open spec fn value_of(entries: Seq<(String, String)>, k: Seq<char>) -> Seq<char> {
    entries[choose|i: int| 0 <= i < entries.len() && (#[trigger] entries[i]).0@ == k].1@
}

/// The map that the entries stand for.
pub open spec fn map_of(entries: Seq<(String, String)>) -> Map<Seq<char>, Seq<char>> {
    Map::new(|k: Seq<char>| has_key(entries, k), |k: Seq<char>| value_of(entries, k))
}

/// Where the keys are distinct, the entry at `i` is what the map holds for
/// its key.
proof fn lemma_entry_in_map(entries: Seq<(String, String)>, i: int)
    requires
        keys_are_distinct(entries),
        0 <= i < entries.len(),
    ensures
        map_of(entries).contains_key(entries[i].0@),
        map_of(entries)[entries[i].0@] == entries[i].1@,
{
    let k = entries[i].0@;
    assert(has_key(entries, k));
    let j = choose|j: int| 0 <= j < entries.len() && (#[trigger] entries[j]).0@ == k;
    if j < i {
        assert(entries[j].0@ != entries[i].0@);
    } else if j > i {
        assert(entries[i].0@ != entries[j].0@);
    }
}

/// Text keys with text values, each key at most once; entries keep the
/// order in which their keys were first inserted.
#[derive(Debug)]
pub struct Metadata {
    entries: Vec<(String, String)>,
}

impl View for Metadata {
    type V = Map<Seq<char>, Seq<char>>;

    closed spec fn view(&self) -> Map<Seq<char>, Seq<char>> {
        map_of(self.entries@)
    }
}

impl Clone for Metadata {
    fn clone(&self) -> (r: Self)
        ensures
            r@ == self@,
    {
        proof {
            use_type_invariant(self);
        }
        let mut copy: Vec<(String, String)> = Vec::new();
        let mut i: usize = 0;
        while i < self.entries.len()
            invariant
                i <= self.entries@.len(),
                copy@.len() == i,
                forall|j: int|
                    0 <= j < i ==> (#[trigger] copy@[j]).0@ == self.entries@[j].0@ && copy@[j].1@
                        == self.entries@[j].1@,
            decreases self.entries@.len() - i,
        {
            let key = self.entries[i].0.clone();
            let value = self.entries[i].1.clone();
            copy.push((key, value));
            i = i + 1;
        }
        proof {
            assert(forall|k: Seq<char>| has_key(copy@, k) == has_key(self.entries@, k)) by {
                assert forall|k: Seq<char>| has_key(copy@, k) implies has_key(self.entries@, k) by {
                    let j = choose|j: int| 0 <= j < copy@.len() && (#[trigger] copy@[j]).0@ == k;
                    assert(self.entries@[j].0@ == k);
                }
                assert forall|k: Seq<char>| has_key(self.entries@, k) implies has_key(copy@, k) by {
                    let j = choose|j: int|
                        0 <= j < self.entries@.len() && (#[trigger] self.entries@[j]).0@ == k;
                    assert(copy@[j].0@ == k);
                }
            }
            assert(keys_are_distinct(copy@)) by {
                assert forall|a: int, b: int| 0 <= a < b < copy@.len() implies (
                #[trigger] copy@[a]).0@ != (#[trigger] copy@[b]).0@ by {
                    assert(self.entries@[a].0@ != self.entries@[b].0@);
                }
            }
            assert forall|k: Seq<char>| #[trigger] has_key(copy@, k) implies value_of(copy@, k)
                == value_of(self.entries@, k) by {
                let j = choose|j: int| 0 <= j < copy@.len() && (#[trigger] copy@[j]).0@ == k;
                lemma_entry_in_map(copy@, j);
                lemma_entry_in_map(self.entries@, j);
            }
            assert(map_of(copy@) =~= map_of(self.entries@));
        }
        Metadata { entries: copy }
    }
}

impl Metadata {
    #[verifier::type_invariant]
    spec fn well_formed(self) -> bool {
        keys_are_distinct(self.entries@)
    }

    /// No metadata.
    pub fn new() -> (r: Self)
        ensures
            r@ == Map::<Seq<char>, Seq<char>>::empty(),
    {
        let r = Metadata { entries: Vec::new() };
        assert(map_of(r.entries@) =~= Map::<Seq<char>, Seq<char>>::empty());
        r
    }

    /// Whether there is no metadata.
    pub fn is_empty(&self) -> (r: bool)
        ensures
            r <==> self@ == Map::<Seq<char>, Seq<char>>::empty(),
    {
        proof {
            use_type_invariant(self);
        }
        if self.entries.len() == 0 {
            assert(map_of(self.entries@) =~= Map::<Seq<char>, Seq<char>>::empty());
            true
        } else {
            proof {
                lemma_entry_in_map(self.entries@, 0);
            }
            false
        }
    }

    /// Where the entry with the key `key` stands, if there is one.
    fn position(&self, key: &String) -> (r: Option<usize>)
        ensures
            match r {
                Some(i) => i < self.entries@.len() && self.entries@[i as int].0@ == key@,
                None => !has_key(self.entries@, key@),
            },
    {
        let mut i: usize = 0;
        while i < self.entries.len()
            invariant
                i <= self.entries@.len(),
                forall|j: int| 0 <= j < i ==> (#[trigger] self.entries@[j]).0@ != key@,
            decreases self.entries@.len() - i,
        {
            if self.entries[i].0 == *key {
                return Some(i);
            }
            i = i + 1;
        }
        None
    }

    /// The value of `key`, if it has one.
    pub fn get(&self, key: &str) -> (r: Option<&String>)
        ensures
            match r {
                Some(v) => self@.contains_key(key@) && v@ == self@[key@],
                None => !self@.contains_key(key@),
            },
    {
        proof {
            use_type_invariant(self);
        }
        let wanted = key.to_owned();
        match self.position(&wanted) {
            Some(i) => {
                proof {
                    lemma_entry_in_map(self.entries@, i as int);
                }
                Some(&self.entries[i].1)
            },
            None => None,
        }
    }

    /// Gives `key` the value `value`, in place of any value it had.
    pub fn insert(&mut self, key: String, value: String)
        ensures
            final(self)@ == old(self)@.insert(key@, value@),
    {
        proof {
            use_type_invariant(&*self);
        }
        let ghost before = self.entries@;
        let ghost k = key@;
        let ghost v = value@;
        let found = self.position(&key);
        let mut entries: Vec<(String, String)> = Vec::new();
        std::mem::swap(&mut entries, &mut self.entries);
        match found {
            Some(i) => {
                entries.set(i, (key, value));
                proof {
                    let after = entries@;
                    assert(after == before.update(i as int, after[i as int]));
                    assert(keys_are_distinct(after)) by {
                        assert forall|a: int, b: int| 0 <= a < b < after.len() implies (
                        #[trigger] after[a]).0@ != (#[trigger] after[b]).0@ by {
                            assert(before[a].0@ != before[b].0@);
                        }
                    }
                    assert forall|q: Seq<char>| has_key(after, q) == (q == k || has_key(before, q)) by {
                        if has_key(before, q) {
                            let j = choose|j: int|
                                0 <= j < before.len() && (#[trigger] before[j]).0@ == q;
                            assert(after[j].0@ == q);
                        }
                        if has_key(after, q) {
                            let j = choose|j: int|
                                0 <= j < after.len() && (#[trigger] after[j]).0@ == q;
                            if j != i {
                                assert(before[j].0@ == q);
                            }
                        }
                        if q == k {
                            assert(after[i as int].0@ == q);
                        }
                    }
                    assert forall|q: Seq<char>| #[trigger] has_key(after, q) implies value_of(after, q)
                        == (if q == k { v } else { value_of(before, q) }) by {
                        let j = choose|j: int| 0 <= j < after.len() && (#[trigger] after[j]).0@ == q;
                        lemma_entry_in_map(after, j);
                        if q != k {
                            assert(j != i);
                            lemma_entry_in_map(before, j);
                        } else {
                            lemma_entry_in_map(after, i as int);
                        }
                    }
                    assert(map_of(after) =~= map_of(before).insert(k, v));
                }
            },
            None => {
                entries.push((key, value));
                proof {
                    let after = entries@;
                    assert(after == before.push(after[before.len() as int]));
                    assert(keys_are_distinct(after)) by {
                        assert forall|a: int, b: int| 0 <= a < b < after.len() implies (
                        #[trigger] after[a]).0@ != (#[trigger] after[b]).0@ by {
                            if b < before.len() {
                                assert(before[a].0@ != before[b].0@);
                            } else {
                                assert(after[a] == before[a]);
                            }
                        }
                    }
                    assert forall|q: Seq<char>| has_key(after, q) == (q == k || has_key(before, q)) by {
                        if has_key(before, q) {
                            let j = choose|j: int|
                                0 <= j < before.len() && (#[trigger] before[j]).0@ == q;
                            assert(after[j].0@ == q);
                        }
                        if has_key(after, q) {
                            let j = choose|j: int|
                                0 <= j < after.len() && (#[trigger] after[j]).0@ == q;
                            if j < before.len() {
                                assert(before[j].0@ == q);
                            }
                        }
                        if q == k {
                            assert(after[before.len() as int].0@ == q);
                        }
                    }
                    assert forall|q: Seq<char>| #[trigger] has_key(after, q) implies value_of(after, q)
                        == (if q == k { v } else { value_of(before, q) }) by {
                        let j = choose|j: int| 0 <= j < after.len() && (#[trigger] after[j]).0@ == q;
                        lemma_entry_in_map(after, j);
                        if q != k {
                            assert(j < before.len());
                            lemma_entry_in_map(before, j);
                        } else {
                            lemma_entry_in_map(after, before.len() as int);
                        }
                    }
                    assert(map_of(after) =~= map_of(before).insert(k, v));
                }
            },
        }
        self.entries = entries;
    }

    /// The entries, one per key, in the order in which their keys were first
    /// inserted.
    pub fn entries(&self) -> (r: &Vec<(String, String)>)
        ensures
            keys_are_distinct(r@),
            forall|i: int|
                0 <= i < r@.len() ==> self@.contains_key((#[trigger] r@[i]).0@) && self@[r@[i].0@]
                    == r@[i].1@,
            forall|k: Seq<char>| #[trigger] self@.contains_key(k) ==> has_key(r@, k),
    {
        proof {
            use_type_invariant(self);
            assert forall|i: int| 0 <= i < self.entries@.len() implies self@.contains_key(
                (#[trigger] self.entries@[i]).0@,
            ) && self@[self.entries@[i].0@] == self.entries@[i].1@ by {
                lemma_entry_in_map(self.entries@, i);
            }
        }
        &self.entries
    }
}

/// What a read of the metadata gives back after a write: once `key` was
/// given `value` (what `insert` makes of `before`), the metadata holds
/// `value` under `key`, and under every other key what `before` held.
pub proof fn law_read_after_write(
    before: Metadata,
    after: Metadata,
    key: Seq<char>,
    value: Seq<char>,
    other: Seq<char>,
)
    requires
        after@ == before@.insert(key, value),
        other != key,
    ensures
        after@.contains_key(key),
        after@[key] == value,
        after@.contains_key(other) == before@.contains_key(other),
        before@.contains_key(other) ==> after@[other] == before@[other],
{
}

} // verus!
