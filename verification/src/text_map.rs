//! A map from texts to values that is walked in the order of its keys.
use crate::order::{self, no_later};
use crate::text::{same_text, Text};
use vstd::prelude::*;

verus! {

/// The keys of `entries` come in order, none twice.
pub open spec fn keys_ascend<V>(entries: Seq<(String, V)>) -> bool {
    forall|i: int, j: int|
        0 <= i < j < entries.len() ==> order::text_lt(
            (#[trigger] entries[i]).0@,
            (#[trigger] entries[j]).0@,
        )
}

/// `key` stands at place `i` of `entries`.
pub open spec fn stands_at<V>(entries: Seq<(String, V)>, key: Text, i: int) -> bool {
    0 <= i < entries.len() && entries[i].0@ == key
}

/// The map that `entries` write out.
pub open spec fn entries_map<V>(entries: Seq<(String, V)>) -> Map<Text, V> {
    Map::new(
        |key: Text| exists|i: int| stands_at(entries, key, i),
        |key: Text| entries[choose|i: int| stands_at(entries, key, i)].1,
    )
}

/// The keys of `entries`.
pub open spec fn entry_keys<V>(entries: Seq<(String, V)>) -> Seq<Text> {
    entries.map_values(|e: (String, V)| e.0@)
}

/// A map from texts to values. Every key occurs once, and the entries are in the order of the
/// keys.
#[derive(Debug, PartialEq, Eq)]
pub struct TextMap<V> {
    entries: Vec<(String, V)>,
}

impl<V> View for TextMap<V> {
    type V = Map<Text, V>;

    closed spec fn view(&self) -> Map<Text, V> {
        entries_map(self.entries@)
    }
}

proof fn lemma_entry<V>(entries: Seq<(String, V)>, i: int)
    requires
        keys_ascend(entries),
        0 <= i < entries.len(),
    ensures
        entries_map(entries).contains_key(entries[i].0@),
        entries_map(entries)[entries[i].0@] == entries[i].1,
{
    let key = entries[i].0@;
    assert(stands_at(entries, key, i));
    let j = choose|j: int| stands_at(entries, key, j);
    if j < i {
        assert(order::text_lt(entries[j].0@, entries[i].0@));
    }
    if i < j {
        assert(order::text_lt(entries[i].0@, entries[j].0@));
    }
}

proof fn lemma_keys_are_listed<V>(entries: Seq<(String, V)>)
    requires
        keys_ascend(entries),
    ensures
        entry_keys(entries) == order::ordered(entries_map(entries).dom()),
{
    let keys = entry_keys(entries);
    let names = entries_map(entries).dom();
    assert forall|name: Text| keys.contains(name) <==> names.contains(name) by {
        if keys.contains(name) {
            let i = keys.index_of(name);
            lemma_entry(entries, i);
        }
        if names.contains(name) {
            let i = choose|i: int| stands_at(entries, name, i);
            assert(keys[i] == name);
        }
    }
    assert(order::strictly_ascending(keys)) by {
        assert forall|i: int, j: int| 0 <= i < j < keys.len() implies order::text_lt(
            #[trigger] keys[i],
            #[trigger] keys[j],
        ) by {
            assert(order::text_lt(entries[i].0@, entries[j].0@));
        }
    }
    order::lemma_ordered(keys, names);
}

/// One entry more adds its value to the map.
pub proof fn lemma_one_entry_more<V>(entries: Seq<(String, V)>, i: int)
    requires
        keys_ascend(entries),
        0 <= i < entries.len(),
    ensures
        entries_map(entries.take(i + 1)) == entries_map(entries.take(i)).insert(
            entries[i].0@,
            entries[i].1,
        ),
{
    let before = entries.take(i);
    assert(keys_ascend(before));
    assert forall|j: int| 0 <= j < i implies order::text_lt(
        #[trigger] before[j].0@,
        entries[i].0@,
    ) by {
        assert(order::text_lt(entries[j].0@, entries[i].0@));
    }
    lemma_inserted(before, i, entries[i].0, entries[i].1);
    assert(before.insert(i, entries[i]) =~= entries.take(i + 1));
}

/// A map has finitely many keys.
pub proof fn lemma_finite<V>(map: TextMap<V>)
    ensures
        map@.dom().finite(),
{
    let keys = entry_keys(map.entries@);
    vstd::seq_lib::seq_to_set_is_finite(keys);
    assert forall|key: Text| map@.dom().contains(key) implies keys.to_set().contains(key) by {
        let i = choose|i: int| stands_at(map.entries@, key, i);
        assert(keys[i] == key);
    }
    vstd::set_lib::lemma_set_subset_finite(keys.to_set(), map@.dom());
}

proof fn lemma_absent<V>(entries: Seq<(String, V)>, key: Text, at: int)
    requires
        keys_ascend(entries),
        0 <= at <= entries.len(),
        forall|i: int| 0 <= i < at ==> order::text_lt(#[trigger] entries[i].0@, key),
        at < entries.len() ==> order::text_lt(key, entries[at].0@),
    ensures
        !entries_map(entries).contains_key(key),
{
    assert forall|i: int| !stands_at(entries, key, i) by {
        if 0 <= i < entries.len() && i > at {
            assert(order::text_lt(entries[at].0@, entries[i].0@));
            if entries[i].0@ == key {
                order::law_text_order_antisymmetric(key, entries[at].0@);
            }
        }
    }
}

proof fn lemma_inserted<V>(entries: Seq<(String, V)>, at: int, key: String, value: V)
    requires
        keys_ascend(entries),
        0 <= at <= entries.len(),
        forall|i: int| 0 <= i < at ==> order::text_lt(#[trigger] entries[i].0@, key@),
        at < entries.len() ==> order::text_lt(key@, entries[at].0@),
    ensures
        keys_ascend(entries.insert(at, (key, value))),
        entries_map(entries.insert(at, (key, value))) == entries_map(entries).insert(key@, value),
{
    let after = entries.insert(at, (key, value));
    assert forall|i: int, j: int| 0 <= i < j < after.len() implies order::text_lt(
        (#[trigger] after[i]).0@,
        (#[trigger] after[j]).0@,
    ) by {
        if i < at {
            assert(after[i] == entries[i]);
        } else if i > at {
            assert(after[i] == entries[i - 1]);
        }
        if j < at {
            assert(after[j] == entries[j]);
        } else if j > at {
            assert(after[j] == entries[j - 1]);
        }
        if i == at && j > at + 1 {
            assert(order::text_lt(entries[at].0@, entries[j - 1].0@));
            order::law_text_order_transitive(key@, entries[at].0@, entries[j - 1].0@);
            if key@ == entries[j - 1].0@ {
                order::law_text_order_antisymmetric(key@, entries[at].0@);
            }
        }
    }
    let m = entries_map(after);
    let expected = entries_map(entries).insert(key@, value);
    assert forall|k: Text| m.contains_key(k) == expected.contains_key(k) by {
        if m.contains_key(k) {
            let i = choose|i: int| stands_at(after, k, i);
            if i < at {
                lemma_entry(entries, i);
            } else if i > at {
                lemma_entry(entries, i - 1);
            }
        }
        if expected.contains_key(k) {
            if k == key@ {
                lemma_entry(after, at);
            } else {
                let i = choose|i: int| stands_at(entries, k, i);
                if i < at {
                    lemma_entry(after, i);
                } else {
                    lemma_entry(after, i + 1);
                }
            }
        }
    }
    assert forall|k: Text| m.contains_key(k) implies m[k] == expected[k] by {
        let i = choose|i: int| stands_at(after, k, i);
        lemma_entry(after, i);
        if i < at {
            lemma_entry(entries, i);
        } else if i > at {
            lemma_entry(entries, i - 1);
        }
        lemma_absent(entries, key@, at);
    }
    assert(m =~= expected);
}

proof fn lemma_removed<V>(entries: Seq<(String, V)>, at: int)
    requires
        keys_ascend(entries),
        0 <= at < entries.len(),
    ensures
        keys_ascend(entries.remove(at)),
        entries_map(entries.remove(at)) == entries_map(entries).remove(entries[at].0@),
{
    let after = entries.remove(at);
    let key = entries[at].0@;
    assert forall|i: int| 0 <= i < after.len() implies #[trigger] after[i] == entries[if i < at {
        i
    } else {
        i + 1
    }] by {}
    assert(keys_ascend(after));
    let m = entries_map(after);
    let expected = entries_map(entries).remove(key);
    assert forall|k: Text| m.contains_key(k) == expected.contains_key(k) by {
        if m.contains_key(k) {
            let i = choose|i: int| stands_at(after, k, i);
            let old = if i < at {
                i
            } else {
                i + 1
            };
            assert(after[i] == entries[old]);
            lemma_entry(entries, old);
            if old < at {
                assert(order::text_lt(entries[old].0@, key));
            } else {
                assert(order::text_lt(key, entries[old].0@));
            }
        }
        if expected.contains_key(k) {
            let i = choose|i: int| stands_at(entries, k, i);
            if i < at {
                assert(after[i] == entries[i]);
                lemma_entry(after, i);
            } else {
                assert(after[i - 1] == entries[i]);
                lemma_entry(after, i - 1);
            }
        }
    }
    assert forall|k: Text| m.contains_key(k) implies m[k] == expected[k] by {
        let i = choose|i: int| stands_at(after, k, i);
        lemma_entry(after, i);
        let old = if i < at {
            i
        } else {
            i + 1
        };
        assert(after[i] == entries[old]);
        lemma_entry(entries, old);
    }
    assert(m =~= expected);
}

impl<V> TextMap<V> {
    #[verifier::type_invariant]
    spec fn in_order(self) -> bool {
        keys_ascend(self.entries@)
    }

    /// The empty map.
    pub fn new() -> (r: TextMap<V>)
        ensures
            r@ == Map::<Text, V>::empty(),
    {
        let entries: Vec<(String, V)> = Vec::new();
        assert(entries_map(entries@) =~= Map::<Text, V>::empty());
        TextMap { entries }
    }

    /// The first place whose key does not come before `key`.
    fn place_of(&self, key: &str) -> (at: usize)
        ensures
            at <= self.entries@.len(),
            forall|i: int| 0 <= i < at ==> order::text_lt(#[trigger] self.entries@[i].0@, key@),
            at < self.entries@.len() ==> order::text_le(key@, self.entries@[at as int].0@),
    {
        let mut at: usize = 0;
        while at < self.entries.len() && !no_later(key, self.entries[at].0.as_str())
            invariant
                at <= self.entries@.len(),
                forall|i: int| 0 <= i < at ==> order::text_lt(#[trigger] self.entries@[i].0@, key@),
            decreases self.entries@.len() - at,
        {
            proof {
                order::law_text_order_total(key@, self.entries@[at as int].0@);
                order::law_text_order_reflexive(key@);
            }
            at = at + 1;
        }
        at
    }

    /// The value under `key`, if there is one.
    pub fn get(&self, key: &str) -> (r: Option<&V>)
        ensures
            r is Some == self@.contains_key(key@),
            r is Some ==> *r->0 == self@[key@],
    {
        proof {
            use_type_invariant(self);
        }
        let at = self.place_of(key);
        if at < self.entries.len() && same_text(self.entries[at].0.as_str(), key) {
            proof {
                lemma_entry(self.entries@, at as int);
            }
            Some(&self.entries[at].1)
        } else {
            proof {
                lemma_absent(self.entries@, key@, at as int);
            }
            None
        }
    }

    /// Whether there is a value under `key`.
    pub fn contains_key(&self, key: &str) -> (r: bool)
        ensures
            r == self@.contains_key(key@),
    {
        self.get(key).is_some()
    }

    /// Puts `value` under `key`, in place of what stood there.
    pub fn insert(&mut self, key: String, value: V)
        ensures
            final(self)@ == old(self)@.insert(key@, value),
    {
        self.remove(key.as_str());
        proof {
            use_type_invariant(&*self);
        }
        let at = self.place_of(key.as_str());
        let mut entries: Vec<(String, V)> = Vec::new();
        assert(self@ == old(self)@.remove(key@));
        proof {
            if at < self.entries@.len() && self.entries@[at as int].0@ == key@ {
                lemma_entry(self.entries@, at as int);
            }
            lemma_inserted(self.entries@, at as int, key, value);
            assert(old(self)@.remove(key@).insert(key@, value) =~= old(self)@.insert(key@, value));
        }
        std::mem::swap(&mut entries, &mut self.entries);
        entries.insert(at, (key, value));
        std::mem::swap(&mut entries, &mut self.entries);
    }

    /// Takes out what stands under `key`.
    pub fn remove(&mut self, key: &str) -> (r: Option<V>)
        ensures
            final(self)@ == old(self)@.remove(key@),
            r is Some == old(self)@.contains_key(key@),
            r is Some ==> r->0 == old(self)@[key@],
    {
        proof {
            use_type_invariant(&*self);
        }
        let at = self.place_of(key);
        if at < self.entries.len() && same_text(self.entries[at].0.as_str(), key) {
            proof {
                lemma_entry(self.entries@, at as int);
                lemma_removed(self.entries@, at as int);
            }
            let mut entries: Vec<(String, V)> = Vec::new();
            std::mem::swap(&mut entries, &mut self.entries);
            let removed = entries.remove(at);
            std::mem::swap(&mut entries, &mut self.entries);
            Some(removed.1)
        } else {
            proof {
                lemma_absent(self.entries@, key@, at as int);
                assert(self@.remove(key@) =~= self@);
            }
            None
        }
    }

    /// All entries, in the order of their keys.
    pub fn entries(&self) -> (r: &Vec<(String, V)>)
        ensures
            keys_ascend(r@),
            entries_map(r@) == self@,
            entry_keys(r@) == order::ordered(self@.dom()),
            forall|i: int|
                0 <= i < r@.len() ==> self@.contains_key((#[trigger] r@[i]).0@) && self@[r@[i].0@]
                    == r@[i].1,
    {
        proof {
            use_type_invariant(self);
            lemma_keys_are_listed(self.entries@);
            assert forall|i: int| 0 <= i < self.entries@.len() implies self@.contains_key(
                (#[trigger] self.entries@[i]).0@,
            ) && self@[self.entries@[i].0@] == self.entries@[i].1 by {
                lemma_entry(self.entries@, i);
            }
        }
        &self.entries
    }
}

impl Clone for TextMap<String> {
    fn clone(&self) -> (r: TextMap<String>)
        ensures
            r@ == self@,
    {
        proof {
            use_type_invariant(self);
        }
        let mut entries: Vec<(String, String)> = Vec::new();
        let mut i: usize = 0;
        while i < self.entries.len()
            invariant
                i <= self.entries@.len(),
                entries@ == self.entries@.take(i as int),
            decreases self.entries@.len() - i,
        {
            entries.push((self.entries[i].0.clone(), self.entries[i].1.clone()));
            i = i + 1;
        }
        assert(entries@ == self.entries@);
        TextMap { entries }
    }
}

} // verus!
