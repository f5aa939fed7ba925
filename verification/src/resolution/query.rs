//! The query parameters of a DID URL.

use crate::text::str_eq;
use vstd::prelude::*;

verus! {

/// Whether some entry of `entries` has the key `key`.
pub open spec fn has_key(entries: Seq<(String, String)>, key: Seq<char>) -> bool {
    exists|i: int| 0 <= i < entries.len() && (#[trigger] entries[i]).0@ == key
}

/// The index of an entry of `entries` with the key `key`.
pub open spec fn index_of_key(entries: Seq<(String, String)>, key: Seq<char>) -> int {
    choose|i: int| 0 <= i < entries.len() && (#[trigger] entries[i]).0@ == key
}

/// Whether no two entries of `entries` share a key.
pub open spec fn distinct_keys(entries: Seq<(String, String)>) -> bool {
    forall|i: int, j: int|
        0 <= i < j < entries.len() ==> (#[trigger] entries[i]).0@ != (#[trigger] entries[j]).0@
}

/// The mapping that `entries` stand for: each key with the value of an entry
/// that has it.
pub open spec fn entries_map(entries: Seq<(String, String)>) -> Map<Seq<char>, Seq<char>> {
    Map::new(
        |key: Seq<char>| has_key(entries, key),
        |key: Seq<char>| entries[index_of_key(entries, key)].1@,
    )
}

/// Among entries with distinct keys, an entry with the key `key` is the one
/// that `index_of_key` picks.
pub proof fn lemma_index_of_key(entries: Seq<(String, String)>, key: Seq<char>, i: int)
    requires
        distinct_keys(entries),
        0 <= i < entries.len(),
        entries[i].0@ == key,
    ensures
        has_key(entries, key),
        index_of_key(entries, key) == i,
{
    let h = index_of_key(entries, key);
    if h < i {
        assert(entries[h].0@ != entries[i].0@);
    } else if i < h {
        assert(entries[i].0@ != entries[h].0@);
    }
}

/// Putting `entry` in the place of an entry with the same key gives that key
/// the value of `entry` and leaves the other keys as they were.
pub proof fn lemma_replace(entries: Seq<(String, String)>, i: int, entry: (String, String))
    requires
        distinct_keys(entries),
        0 <= i < entries.len(),
        entries[i].0@ == entry.0@,
    ensures
        distinct_keys(entries.update(i, entry)),
        entries_map(entries.update(i, entry)) == entries_map(entries).insert(entry.0@, entry.1@),
{
    let after = entries.update(i, entry);
    assert forall|a: int, b: int| 0 <= a < b < after.len() implies (#[trigger] after[a]).0@ != (
    #[trigger] after[b]).0@ by {
        assert(entries[a].0@ != entries[b].0@);
    }
    assert forall|k: Seq<char>| has_key(after, k) == has_key(entries, k) by {
        if has_key(entries, k) {
            assert(after[index_of_key(entries, k)].0@ == k);
        }
        if has_key(after, k) {
            assert(entries[index_of_key(after, k)].0@ == k);
        }
    }
    lemma_index_of_key(entries, entry.0@, i);
    assert forall|k: Seq<char>| has_key(after, k) implies entries_map(after)[k] == entries_map(
        entries,
    ).insert(entry.0@, entry.1@)[k] by {
        let j = index_of_key(after, k);
        lemma_index_of_key(entries, k, j);
    }
    assert(entries_map(after) =~= entries_map(entries).insert(entry.0@, entry.1@));
}

/// Adding an entry whose key is new gives that key the value of the entry and
/// leaves the other keys as they were.
pub proof fn lemma_append(entries: Seq<(String, String)>, entry: (String, String))
    requires
        distinct_keys(entries),
        !has_key(entries, entry.0@),
    ensures
        distinct_keys(entries.push(entry)),
        entries_map(entries.push(entry)) == entries_map(entries).insert(entry.0@, entry.1@),
{
    let after = entries.push(entry);
    let last = entries.len() as int;
    assert(after[last].0@ == entry.0@);
    assert forall|a: int, b: int| 0 <= a < b < after.len() implies (#[trigger] after[a]).0@ != (
    #[trigger] after[b]).0@ by {
        if b < last {
            assert(entries[a].0@ != entries[b].0@);
        } else {
            assert(entries[a].0@ != entry.0@);
        }
    }
    assert forall|k: Seq<char>| has_key(after, k) == (has_key(entries, k) || k == entry.0@) by {
        if has_key(entries, k) {
            assert(after[index_of_key(entries, k)].0@ == k);
        }
        if has_key(after, k) {
            let j = index_of_key(after, k);
            if j < last {
                assert(entries[j].0@ == k);
            }
        }
    }
    assert forall|k: Seq<char>| has_key(after, k) implies entries_map(after)[k] == entries_map(
        entries,
    ).insert(entry.0@, entry.1@)[k] by {
        let j = index_of_key(after, k);
        if k == entry.0@ {
            lemma_index_of_key(after, k, last);
        } else {
            lemma_index_of_key(entries, k, j);
        }
    }
    assert(entries_map(after) =~= entries_map(entries).insert(entry.0@, entry.1@));
}

/// A mapping from parameter names to values. Each name occurs once, and the
/// order in which the parameters were given plays no part.
#[derive(Debug)]
pub struct QueryMap {
    entries: Vec<(String, String)>,
}

impl View for QueryMap {
    type V = Map<Seq<char>, Seq<char>>;

    closed spec fn view(&self) -> Map<Seq<char>, Seq<char>> {
        entries_map(self.entries@)
    }
}

impl QueryMap {
    #[verifier::type_invariant]
    spec fn keys_occur_once(self) -> bool {
        distinct_keys(self.entries@)
    }

    /// A mapping without parameters.
    pub fn new() -> (query: Self)
        ensures
            query@ == Map::<Seq<char>, Seq<char>>::empty(),
    {
        let query = QueryMap { entries: Vec::new() };
        assert(query@ =~= Map::<Seq<char>, Seq<char>>::empty());
        query
    }

    /// The number of parameters.
    pub fn len(&self) -> (count: usize)
        ensures
            count == self@.len(),
            self@.dom().finite(),
    {
        proof {
            use_type_invariant(self);
            self.lemma_domain();
        }
        self.entries.len()
    }

    /// Whether there is no parameter.
    pub fn is_empty(&self) -> (empty: bool)
        ensures
            empty == (self@ == Map::<Seq<char>, Seq<char>>::empty()),
    {
        proof {
            use_type_invariant(self);
            if self.entries.len() > 0 {
                assert(has_key(self.entries@, self.entries@[0].0@));
                assert(self@.contains_key(self.entries@[0].0@));
            } else {
                assert(self@ =~= Map::<Seq<char>, Seq<char>>::empty());
            }
        }
        self.entries.len() == 0
    }

    /// The index of the entry named `key`, if there is one.
    fn find(&self, key: &str) -> (found: Option<usize>)
        ensures
            found matches Some(i) ==> i < self.entries.len() && self.entries@[i as int].0@ == key@,
            found is None ==> !has_key(self.entries@, key@),
    {
        let mut i: usize = 0;
        while i < self.entries.len()
            invariant
                i <= self.entries.len(),
                forall|j: int| 0 <= j < i ==> (#[trigger] self.entries@[j]).0@ != key@,
            decreases self.entries.len() - i,
        {
            if str_eq(self.entries[i].0.as_str(), key) {
                return Some(i);
            }
            i += 1;
        }
        None
    }

    /// The value of the parameter named `key`, if there is one.
    pub fn get(&self, key: &str) -> (value: Option<&String>)
        ensures
            value is Some <==> self@.contains_key(key@),
            value matches Some(v) ==> v@ == self@[key@],
    {
        proof {
            use_type_invariant(self);
        }
        match self.find(key) {
            Some(i) => {
                assert(has_key(self.entries@, key@));
                Some(&self.entries[i].1)
            },
            None => None,
        }
    }

    /// Whether there is a parameter named `key`.
    pub fn contains_key(&self, key: &str) -> (present: bool)
        ensures
            present == self@.contains_key(key@),
    {
        self.get(key).is_some()
    }

    /// Gives the parameter named `key` the value `value`, whether or not it
    /// had one before.
    pub fn insert(&mut self, key: String, value: String)
        ensures
            final(self)@ == old(self)@.insert(key@, value@),
    {
        proof {
            use_type_invariant(&*self);
        }
        let found = self.find(key.as_str());
        let mut taken = QueryMap::new();
        std::mem::swap(self, &mut taken);
        let mut entries = taken.entries;
        let ghost before = entries@;
        match found {
            Some(i) => {
                proof {
                    lemma_replace(before, i as int, (key, value));
                }
                entries.set(i, (key, value));
            },
            None => {
                proof {
                    lemma_append(before, (key, value));
                }
                entries.push((key, value));
            },
        }
        *self = QueryMap { entries };
    }

    /// The keys are as many as the entries, and finitely many.
    proof fn lemma_domain(&self)
        requires
            distinct_keys(self.entries@),
        ensures
            self@.dom().finite(),
            self@.len() == self.entries@.len(),
    {
        lemma_key_count(self.entries@);
        assert(self@.dom() =~= key_set(self.entries@));
    }
}

impl PartialEq for QueryMap {
    /// Two mappings are equal where they give the same parameters the same
    /// values, in whatever order these were put in.
    fn eq(&self, other: &Self) -> (same: bool) {
        proof {
            use_type_invariant(self);
            use_type_invariant(other);
            self.lemma_domain();
            other.lemma_domain();
        }
        if self.entries.len() != other.entries.len() {
            return false;
        }
        let mut i: usize = 0;
        while i < self.entries.len()
            invariant
                i <= self.entries.len(),
                distinct_keys(self.entries@),
                forall|j: int|
                    0 <= j < i ==> other@.contains_key((#[trigger] self.entries@[j]).0@)
                        && other@[self.entries@[j].0@] == self.entries@[j].1@,
            decreases self.entries.len() - i,
        {
            let ghost key = self.entries@[i as int].0@;
            proof {
                lemma_index_of_key(self.entries@, key, i as int);
            }
            match other.get(self.entries[i].0.as_str()) {
                Some(value) => {
                    if !str_eq(value.as_str(), self.entries[i].1.as_str()) {
                        assert(self@[key] != other@[key]);
                        return false;
                    }
                },
                None => {
                    assert(self@.contains_key(key));
                    return false;
                },
            }
            i += 1;
        }
        proof {
            assert forall|k: Seq<char>| self@.contains_key(k) implies other@.contains_key(k)
                && other@[k] == self@[k] by {
                let j = index_of_key(self.entries@, k);
                assert(self.entries@[j].0@ == k);
            }
            assert(self@.dom().subset_of(other@.dom()));
            vstd::set_lib::lemma_subset_equality(self@.dom(), other@.dom());
            assert(self@ =~= other@);
        }
        true
    }
}

impl Eq for QueryMap {

}

impl vstd::std_specs::cmp::PartialEqSpecImpl for QueryMap {
    open spec fn obeys_eq_spec() -> bool {
        true
    }

    open spec fn eq_spec(&self, other: &Self) -> bool {
        self@ == other@
    }
}

impl Clone for QueryMap {
    fn clone(&self) -> (copy: Self)
        ensures
            copy@ == self@,
    {
        proof {
            use_type_invariant(self);
        }
        let mut entries: Vec<(String, String)> = Vec::new();
        let mut i: usize = 0;
        while i < self.entries.len()
            invariant
                i <= self.entries.len(),
                entries@ == self.entries@.take(i as int),
            decreases self.entries.len() - i,
        {
            entries.push((self.entries[i].0.clone(), self.entries[i].1.clone()));
            assert(entries@ =~= self.entries@.take(i + 1));
            i += 1;
        }
        assert(entries@ =~= self.entries@);
        QueryMap { entries }
    }
}

/// The keys of `entries`, as a set.
pub open spec fn key_set(entries: Seq<(String, String)>) -> Set<Seq<char>> {
    Set::new(|key: Seq<char>| has_key(entries, key))
}

/// Entries with distinct keys have as many keys as there are entries.
pub proof fn lemma_key_count(entries: Seq<(String, String)>)
    requires
        distinct_keys(entries),
    ensures
        key_set(entries).finite(),
        key_set(entries).len() == entries.len(),
    decreases entries.len(),
{
    if entries.len() == 0 {
        assert(key_set(entries) =~= Set::<Seq<char>>::empty());
    } else {
        let front = entries.drop_last();
        let last = entries.last();
        assert forall|i: int, j: int| 0 <= i < j < front.len() implies (#[trigger] front[i]).0@ != (
        #[trigger] front[j]).0@ by {
            assert(entries[i].0@ != entries[j].0@);
        }
        lemma_key_count(front);
        assert(!has_key(front, last.0@)) by {
            if has_key(front, last.0@) {
                let i = index_of_key(front, last.0@);
                assert(entries[i].0@ != entries[entries.len() - 1].0@);
            }
        }
        assert(key_set(entries) =~= key_set(front).insert(last.0@)) by {
            assert forall|k: Seq<char>| has_key(entries, k) == (has_key(front, k) || k
                == last.0@) by {
                if has_key(front, k) {
                    let i = index_of_key(front, k);
                    assert(entries[i].0@ == k);
                }
                if has_key(entries, k) {
                    let i = index_of_key(entries, k);
                    if i < front.len() {
                        assert(front[i].0@ == k);
                    }
                }
                if k == last.0@ {
                    assert(entries[entries.len() - 1].0@ == k);
                }
            }
        }
    }
}

} // verus!
