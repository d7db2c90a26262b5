//! A mapping from text keys to values, kept as a vector of entries with
//! pairwise-distinct keys.
//!
//! Inserting an existing key overwrites its value in place, so iteration
//! order (and the derived equality) follows the order of first insertion.
//! The mathematical contents are a finite [`Map`] from the key's characters
//! to the value's own view.

use vstd::prelude::*;

verus! {

/// Mathematical contents of an entry vector: each entry binds its key's
/// characters to its value's view, later entries winning.
spec fn map_of<V: View>(entries: Seq<(String, V)>) -> Map<Seq<char>, V::V>
    decreases entries.len(),
{
    if entries.len() == 0 {
        Map::empty()
    } else {
        map_of(entries.drop_last()).insert(entries.last().0@, entries.last().1@)
    }
}

/// No two entries bind the same key.
spec fn distinct_keys<V>(entries: Seq<(String, V)>) -> bool {
    forall|i: int, j: int| 0 <= i < j < entries.len() ==> entries[i].0@ != entries[j].0@
}

/// A mapping from text keys to `V` values with unique keys; inserting an
/// existing key overwrites its value.
#[derive(Debug, PartialEq)]
pub struct StrMap<V> {
    entries: Vec<(String, V)>,
}

impl<V: View> View for StrMap<V> {
    type V = Map<Seq<char>, V::V>;

    closed spec fn view(&self) -> Map<Seq<char>, V::V> {
        map_of(self.entries@)
    }
}

proof fn lemma_distinct_drop_last<V>(entries: Seq<(String, V)>)
    requires
        distinct_keys(entries),
        entries.len() > 0,
    ensures
        distinct_keys(entries.drop_last()),
{
    assert forall|i: int, j: int|
        0 <= i < j < entries.drop_last().len() implies entries.drop_last()[i].0@
        != entries.drop_last()[j].0@ by {
        assert(entries.drop_last()[i] == entries[i]);
        assert(entries.drop_last()[j] == entries[j]);
    }
}

/// Overwriting the value of entry `i` updates the contents at its key and
/// leaves every other key unchanged.
proof fn lemma_map_of_update<V: View>(entries: Seq<(String, V)>, i: int, value: V)
    requires
        0 <= i < entries.len(),
        distinct_keys(entries),
    ensures
        map_of(entries.update(i, (entries[i].0, value))) == map_of(entries).insert(
            entries[i].0@,
            value@,
        ),
    decreases entries.len(),
{
    let updated = entries.update(i, (entries[i].0, value));
    if i == entries.len() - 1 {
        assert(updated.drop_last() =~= entries.drop_last());
        assert(map_of(updated) == map_of(entries.drop_last()).insert(entries[i].0@, value@));
        assert(map_of(entries).insert(entries[i].0@, value@) =~= map_of(entries.drop_last()).insert(
            entries[i].0@,
            value@,
        ));
    } else {
        assert(updated.last() == entries.last());
        assert(updated.drop_last() =~= entries.drop_last().update(i, (entries[i].0, value)));
        lemma_distinct_drop_last(entries);
        assert(entries.drop_last()[i] == entries[i]);
        lemma_map_of_update(entries.drop_last(), i, value);
        assert(entries[i].0@ != entries.last().0@);
        assert(map_of(updated) =~= map_of(entries).insert(entries[i].0@, value@));
    }
}

/// Every entry is found in the contents under its own key.
proof fn lemma_map_of_entry<V: View>(entries: Seq<(String, V)>, i: int)
    requires
        0 <= i < entries.len(),
        distinct_keys(entries),
    ensures
        map_of(entries).contains_key(entries[i].0@),
        map_of(entries)[entries[i].0@] == entries[i].1@,
    decreases entries.len(),
{
    if i < entries.len() - 1 {
        lemma_distinct_drop_last(entries);
        assert(entries.drop_last()[i] == entries[i]);
        lemma_map_of_entry(entries.drop_last(), i);
        assert(entries[i].0@ != entries.last().0@);
    }
}

/// A key bound by no entry is absent from the contents.
proof fn lemma_map_of_absent<V: View>(entries: Seq<(String, V)>, k: Seq<char>)
    requires
        forall|j: int| 0 <= j < entries.len() ==> entries[j].0@ != k,
    ensures
        !map_of(entries).contains_key(k),
    decreases entries.len(),
{
    if entries.len() > 0 {
        assert forall|j: int|
            0 <= j < entries.drop_last().len() implies entries.drop_last()[j].0@ != k by {
            assert(entries.drop_last()[j] == entries[j]);
        }
        lemma_map_of_absent(entries.drop_last(), k);
    }
}

/// With distinct keys, the contents hold exactly one binding per entry.
proof fn lemma_map_of_dom_len<V: View>(entries: Seq<(String, V)>)
    requires
        distinct_keys(entries),
    ensures
        map_of(entries).dom().finite(),
        map_of(entries).dom().len() == entries.len(),
    decreases entries.len(),
{
    if entries.len() > 0 {
        lemma_distinct_drop_last(entries);
        lemma_map_of_dom_len(entries.drop_last());
        assert forall|j: int|
            0 <= j < entries.drop_last().len() implies entries.drop_last()[j].0@
            != entries.last().0@ by {
            assert(entries.drop_last()[j] == entries[j]);
        }
        lemma_map_of_absent(entries.drop_last(), entries.last().0@);
        assert(map_of(entries).dom() =~= map_of(entries.drop_last()).dom().insert(
            entries.last().0@,
        ));
    }
}

impl<V> StrMap<V> {
    #[verifier::type_invariant]
    spec fn wf(self) -> bool {
        distinct_keys(self.entries@)
    }
}

impl<V: View> StrMap<V> {
    /// An empty mapping.
    pub fn new() -> (m: StrMap<V>)
        ensures
            m@ == Map::<Seq<char>, V::V>::empty(),
    {
        StrMap { entries: Vec::new() }
    }

    /// Binds `key` to `value`, overwriting any earlier binding of `key`.
    pub fn insert(&mut self, key: &str, value: V)
        ensures
            final(self)@ == old(self)@.insert(key@, value@),
    {
        proof {
            use_type_invariant(&*self);
        }
        let key_owned: String = key.to_owned();
        let ghost value_v = value@;
        let mut entries: Vec<(String, V)> = Vec::new();
        std::mem::swap(&mut entries, &mut self.entries);
        let ghost entries0 = entries@;
        let n = entries.len();
        let mut i: usize = 0;
        while i < n
            invariant
                n == entries0.len(),
                entries@ == entries0,
                i <= n,
                key_owned@ == key@,
                value@ == value_v,
                distinct_keys(entries0),
                old(self)@ == map_of(entries0),
                self.entries@.len() == 0,
                forall|j: int| 0 <= j < i ==> entries0[j].0@ != key@,
            decreases n - i,
        {
            if entries[i].0 == key_owned {
                let ghost updated = entries0.update(i as int, (entries0[i as int].0, value));
                proof {
                    lemma_map_of_update(entries0, i as int, value);
                    assert(entries0[i as int].0@ == key@);
                    assert(map_of(updated) == map_of(entries0).insert(key@, value_v));
                    assert forall|a: int, b: int|
                        0 <= a < b < updated.len() implies updated[a].0@ != updated[b].0@ by {
                        assert(updated[a].0 == entries0[a].0);
                        assert(updated[b].0 == entries0[b].0);
                    }
                }
                entries[i].1 = value;
                assert(entries@ == updated);
                self.entries = entries;
                return;
            }
            i += 1;
        }
        entries.push((key_owned, value));
        proof {
            assert(entries@.drop_last() =~= entries0);
            assert(map_of(entries@) == map_of(entries0).insert(key@, value_v));
            assert forall|a: int, b: int|
                0 <= a < b < entries@.len() implies entries@[a].0@ != entries@[b].0@ by {
                if b < entries@.len() - 1 {
                    assert(entries@[a] == entries0[a]);
                    assert(entries@[b] == entries0[b]);
                } else {
                    assert(entries@[a] == entries0[a]);
                }
            }
        }
        self.entries = entries;
    }

    /// Looks `key` up: its bound value, or nothing where `key` is unbound.
    pub fn get(&self, key: &str) -> (r: Option<&V>)
        ensures
            match r {
                Some(v) => self@.contains_key(key@) && v@ == self@[key@],
                None => !self@.contains_key(key@),
            },
    {
        proof {
            use_type_invariant(&*self);
        }
        let key_owned: String = key.to_owned();
        let n = self.entries.len();
        let mut i: usize = 0;
        while i < n
            invariant
                n == self.entries@.len(),
                i <= n,
                key_owned@ == key@,
                distinct_keys(self.entries@),
                forall|j: int| 0 <= j < i ==> self.entries@[j].0@ != key@,
            decreases n - i,
        {
            if self.entries[i].0 == key_owned {
                proof {
                    lemma_map_of_entry(self.entries@, i as int);
                }
                return Some(&self.entries[i].1);
            }
            i += 1;
        }
        proof {
            lemma_map_of_absent(self.entries@, key@);
        }
        None
    }

    /// The number of keys bound.
    pub fn len(&self) -> (n: usize)
        ensures
            n == self@.dom().len(),
    {
        proof {
            use_type_invariant(&*self);
            lemma_map_of_dom_len::<V>(self.entries@);
        }
        self.entries.len()
    }
}

} // verus!
