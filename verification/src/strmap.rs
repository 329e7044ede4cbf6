//! A map keyed by strings that keeps its entries in the rising order of
//! their keys.

use crate::text::{
    lemma_precedes_irreflexive, lemma_precedes_total, lemma_precedes_transitive, precedes,
    same_text, text_before,
};
use vstd::prelude::*;

verus! {

/// One key with the value stored under it.
#[derive(Clone, Debug)]
pub struct Entry<V> {
    pub key: String,
    pub value: V,
}

/// A finite map from strings to values. The entries stand in the rising
/// order of their keys, so no key occurs twice.
#[derive(Debug)]
pub struct StrMap<V> {
    entries: Vec<Entry<V>>,
}

/// The keys of a sequence of entries, in order.
pub open spec fn keys_of<V>(entries: Seq<Entry<V>>) -> Seq<Seq<char>> {
    Seq::new(entries.len(), |i: int| entries[i].key@)
}

/// No key occurs at two positions.
pub open spec fn distinct_keys<V>(entries: Seq<Entry<V>>) -> bool {
    forall|i: int, j: int|
        0 <= i < entries.len() && 0 <= j < entries.len() && i != j ==> entries[i].key@
            != entries[j].key@
}

/// The keys rise from each entry to the next.
pub open spec fn sorted_keys<V>(entries: Seq<Entry<V>>) -> bool {
    forall|i: int, j: int|
        0 <= i < j < entries.len() ==> precedes(entries[i].key@, entries[j].key@)
}

/// Whether `key` occurs among the entries.
pub open spec fn has_key<V>(entries: Seq<Entry<V>>, key: Seq<char>) -> bool {
    exists|i: int| 0 <= i < entries.len() && entries[i].key@ == key
}

/// A position at which `key` occurs, where it occurs at all.
pub open spec fn position<V>(entries: Seq<Entry<V>>, key: Seq<char>) -> int {
    choose|i: int| 0 <= i < entries.len() && entries[i].key@ == key
}

/// The map that a sequence of entries with distinct keys stands for.
pub open spec fn map_of<V>(entries: Seq<Entry<V>>) -> Map<Seq<char>, V> {
    Map::new(
        |k: Seq<char>| has_key(entries, k),
        |k: Seq<char>| entries[position(entries, k)].value,
    )
}

/// With distinct keys, the key at position `i` is found at `i` and nowhere else.
pub proof fn lemma_position<V>(entries: Seq<Entry<V>>, i: int)
    requires
        distinct_keys(entries),
        0 <= i < entries.len(),
    ensures
        has_key(entries, entries[i].key@),
        position(entries, entries[i].key@) == i,
        map_of(entries).contains_key(entries[i].key@),
        map_of(entries)[entries[i].key@] == entries[i].value,
{
    let k = entries[i].key@;
    assert(0 <= i < entries.len() && entries[i].key@ == k);
    let p = position(entries, k);
    assert(0 <= p < entries.len() && entries[p].key@ == k);
}

/// Removing the entry at position `i` removes its key from the map and
/// leaves every other key as it was.
pub proof fn lemma_remove_at<V>(entries: Seq<Entry<V>>, i: int)
    requires
        distinct_keys(entries),
        0 <= i < entries.len(),
    ensures
        distinct_keys(entries.remove(i)),
        map_of(entries.remove(i)) == map_of(entries).remove(entries[i].key@),
{
    let rest = entries.remove(i);
    let k = entries[i].key@;
    assert forall|a: int, b: int|
        0 <= a < rest.len() && 0 <= b < rest.len() && a != b implies rest[a].key@
        != rest[b].key@ by {
        let a0 = if a < i { a } else { a + 1 };
        let b0 = if b < i { b } else { b + 1 };
        assert(rest[a] == entries[a0]);
        assert(rest[b] == entries[b0]);
    }
    assert forall|x: Seq<char>| #[trigger]
        map_of(rest).contains_key(x) == map_of(entries).remove(k).contains_key(x) by {
        if has_key(rest, x) {
            let a = position(rest, x);
            let a0 = if a < i { a } else { a + 1 };
            assert(rest[a] == entries[a0]);
            assert(entries[a0].key@ == x);
        }
        if has_key(entries, x) && x != k {
            let p = position(entries, x);
            let q = if p < i { p } else { p - 1 };
            assert(rest[q] == entries[p]);
            assert(rest[q].key@ == x);
        }
    }
    assert forall|x: Seq<char>| #[trigger] map_of(rest).contains_key(x) implies map_of(rest)[x]
        == map_of(entries).remove(k)[x] by {
        let a = position(rest, x);
        let a0 = if a < i { a } else { a + 1 };
        assert(rest[a] == entries[a0]);
        lemma_position(entries, a0);
    }
    assert(map_of(rest) =~= map_of(entries).remove(k));
}

/// Putting an entry with a new key at position `i` adds it to the map.
pub proof fn lemma_insert_at<V>(entries: Seq<Entry<V>>, i: int, e: Entry<V>)
    requires
        distinct_keys(entries),
        0 <= i <= entries.len(),
        !has_key(entries, e.key@),
    ensures
        distinct_keys(entries.insert(i, e)),
        map_of(entries.insert(i, e)) == map_of(entries).insert(e.key@, e.value),
{
    let more = entries.insert(i, e);
    assert forall|a: int, b: int|
        0 <= a < more.len() && 0 <= b < more.len() && a != b implies more[a].key@
        != more[b].key@ by {
        if a != i {
            let a0 = if a < i { a } else { a - 1 };
            assert(more[a] == entries[a0]);
        }
        if b != i {
            let b0 = if b < i { b } else { b - 1 };
            assert(more[b] == entries[b0]);
        }
    }
    assert(more[i] == e);
    assert forall|x: Seq<char>| #[trigger]
        map_of(more).contains_key(x) == map_of(entries).insert(e.key@, e.value).contains_key(
            x,
        ) by {
        if has_key(more, x) {
            let a = position(more, x);
            if a != i {
                let a0 = if a < i { a } else { a - 1 };
                assert(more[a] == entries[a0]);
                assert(entries[a0].key@ == x);
            }
        }
        if has_key(entries, x) {
            let p = position(entries, x);
            let q = if p < i { p } else { p + 1 };
            assert(more[q] == entries[p]);
            assert(more[q].key@ == x);
        }
    }
    assert forall|x: Seq<char>| #[trigger] map_of(more).contains_key(x) implies map_of(more)[x]
        == map_of(entries).insert(e.key@, e.value)[x] by {
        let a = position(more, x);
        lemma_position(more, a);
        if a != i {
            let a0 = if a < i { a } else { a - 1 };
            assert(more[a] == entries[a0]);
            lemma_position(entries, a0);
        }
    }
    assert(map_of(more) =~= map_of(entries).insert(e.key@, e.value));
}

/// Rising keys are distinct keys.
pub proof fn lemma_sorted_distinct<V>(entries: Seq<Entry<V>>)
    requires
        sorted_keys(entries),
    ensures
        distinct_keys(entries),
{
    assert forall|i: int, j: int|
        0 <= i < entries.len() && 0 <= j < entries.len() && i != j implies entries[i].key@
        != entries[j].key@ by {
        lemma_precedes_irreflexive(entries[i].key@);
        if i < j {
            assert(precedes(entries[i].key@, entries[j].key@));
        } else {
            assert(precedes(entries[j].key@, entries[i].key@));
        }
    }
}

/// Without one of them, the keys still rise.
pub proof fn lemma_sorted_remove<V>(entries: Seq<Entry<V>>, i: int)
    requires
        sorted_keys(entries),
        0 <= i < entries.len(),
    ensures
        sorted_keys(entries.remove(i)),
{
    let rest = entries.remove(i);
    assert forall|a: int, b: int| 0 <= a < b < rest.len() implies precedes(
        rest[a].key@,
        rest[b].key@,
    ) by {
        let a0 = if a < i { a } else { a + 1 };
        let b0 = if b < i { b } else { b + 1 };
        assert(rest[a] == entries[a0]);
        assert(rest[b] == entries[b0]);
    }
}

/// An entry put between the keys before it and the keys after it keeps
/// the keys rising, and its key is a new one.
pub proof fn lemma_sorted_insert<V>(entries: Seq<Entry<V>>, i: int, e: Entry<V>)
    requires
        sorted_keys(entries),
        0 <= i <= entries.len(),
        forall|j: int| 0 <= j < i ==> precedes(#[trigger] entries[j].key@, e.key@),
        forall|j: int| i <= j < entries.len() ==> precedes(e.key@, #[trigger] entries[j].key@),
    ensures
        sorted_keys(entries.insert(i, e)),
        !has_key(entries, e.key@),
{
    let more = entries.insert(i, e);
    assert forall|a: int, b: int| 0 <= a < b < more.len() implies precedes(
        more[a].key@,
        more[b].key@,
    ) by {
        if a != i {
            let a0 = if a < i { a } else { a - 1 };
            assert(more[a] == entries[a0]);
        }
        if b != i {
            let b0 = if b < i { b } else { b - 1 };
            assert(more[b] == entries[b0]);
        }
    }
    assert forall|j: int| 0 <= j < entries.len() implies entries[j].key@ != e.key@ by {
        lemma_precedes_irreflexive(e.key@);
        if j < i {
            assert(precedes(entries[j].key@, e.key@));
        } else {
            assert(precedes(e.key@, entries[j].key@));
        }
    }
}

impl<V> StrMap<V> {
    /// The entries in the rising order of their keys.
    pub closed spec fn entries(self) -> Seq<Entry<V>> {
        self.entries@
    }

    /// The keys rise from each entry to the next.
    #[verifier::type_invariant]
    pub open spec fn wf(self) -> bool {
        sorted_keys(self.entries())
    }

    /// The keys in rising order.
    pub open spec fn keys(self) -> Seq<Seq<char>> {
        keys_of(self.entries())
    }

    /// The map this value stands for.
    pub open spec fn view(self) -> Map<Seq<char>, V> {
        map_of(self.entries())
    }

    /// An empty map.
    pub fn new() -> (r: Self)
        ensures
            r.entries() == Seq::<Entry<V>>::empty(),
            r@ == Map::<Seq<char>, V>::empty(),
            r.wf(),
    {
        let r = StrMap { entries: Vec::new() };
        assert(r@ =~= Map::<Seq<char>, V>::empty());
        r
    }

    /// The number of entries.
    pub fn len(&self) -> (n: usize)
        ensures
            n == self.entries().len(),
    {
        self.entries.len()
    }

    /// Whether the map holds no entry.
    pub fn is_empty(&self) -> (r: bool)
        ensures
            r == (self.entries().len() == 0),
            r == (self@ == Map::<Seq<char>, V>::empty()),
    {
        proof {
            use_type_invariant(self);
            lemma_sorted_distinct(self.entries@);
            if self.entries@.len() > 0 {
                lemma_position(self.entries@, 0);
            } else {
                assert(self@ =~= Map::<Seq<char>, V>::empty());
            }
        }
        self.entries.len() == 0
    }

    /// The entry at position `i` in the rising order of keys.
    pub fn entry_at(&self, i: usize) -> (r: &Entry<V>)
        requires
            i < self.entries().len(),
        ensures
            *r == self.entries()[i as int],
            self@.contains_key(r.key@),
            self@[r.key@] == r.value,
            sorted_keys(self.entries()),
    {
        proof {
            use_type_invariant(self);
            lemma_sorted_distinct(self.entries@);
            lemma_position(self.entries@, i as int);
        }
        &self.entries[i]
    }

    /// The position of `key`, found by a scan from the front.
    fn find(&self, key: &str) -> (r: Option<usize>)
        ensures
            r.is_some() == has_key(self.entries(), key@),
            r matches Some(i) ==> i < self.entries().len() && self.entries()[i as int].key@
                == key@ && position(self.entries(), key@) == i,
    {
        proof {
            use_type_invariant(self);
            lemma_sorted_distinct(self.entries@);
        }
        let mut i: usize = 0;
        while i < self.entries.len()
            invariant
                i <= self.entries@.len(),
                distinct_keys(self.entries@),
                forall|j: int| 0 <= j < i ==> self.entries@[j].key@ != key@,
            decreases self.entries@.len() - i,
        {
            if same_text(self.entries[i].key.as_str(), key) {
                proof {
                    lemma_position(self.entries@, i as int);
                }
                return Some(i);
            }
            i = i + 1;
        }
        None
    }

    /// Moves the entries out and leaves the map empty.
    fn take_entries(&mut self) -> (r: Vec<Entry<V>>)
        ensures
            r@ == old(self).entries(),
            final(self).entries() == Seq::<Entry<V>>::empty(),
    {
        let mut out: Vec<Entry<V>> = Vec::new();
        core::mem::swap(&mut self.entries, &mut out);
        out
    }

    /// Whether `key` has a value.
    pub fn contains_key(&self, key: &str) -> (r: bool)
        ensures
            r == self@.contains_key(key@),
    {
        self.find(key).is_some()
    }

    /// The value stored under `key`.
    pub fn get(&self, key: &str) -> (r: Option<&V>)
        ensures
            r.is_some() == self@.contains_key(key@),
            r matches Some(v) ==> *v == self@[key@],
    {
        match self.find(key) {
            Some(i) => Some(&self.entries[i].value),
            None => None,
        }
    }

    /// Stores `value` under `key` and hands back the value that was there.
    /// A key that is already present keeps its place; a new key goes where
    /// the order of the keys puts it.
    pub fn insert(&mut self, key: String, value: V) -> (r: Option<V>)
        ensures
            final(self)@ == old(self)@.insert(key@, value),
            sorted_keys(final(self).entries()),
            r == (if old(self)@.contains_key(key@) {
                Some(old(self)@[key@])
            } else {
                None
            }),
            final(self).entries().len() == old(self).entries().len() + (if old(
                self,
            )@.contains_key(key@) {
                0int
            } else {
                1int
            }),
    {
        proof {
            use_type_invariant(&*self);
            lemma_sorted_distinct(self.entries@);
        }
        let ghost before = self.entries@;
        let mut entries = self.take_entries();
        let mut i: usize = 0;
        while i < entries.len() && text_before(entries[i].key.as_str(), key.as_str())
            invariant
                i <= entries@.len(),
                entries@ == before,
                forall|j: int| 0 <= j < i ==> precedes(#[trigger] before[j].key@, key@),
            decreases entries@.len() - i,
        {
            i = i + 1;
        }
        if i < entries.len() && same_text(entries[i].key.as_str(), key.as_str()) {
            let gone = entries.remove(i);
            proof {
                lemma_position(before, i as int);
                lemma_remove_at(before, i as int);
                lemma_sorted_remove(before, i as int);
                let rest = before.remove(i as int);
                assert forall|j: int| 0 <= j < i implies precedes(
                    #[trigger] rest[j].key@,
                    key@,
                ) by {
                    assert(rest[j] == before[j]);
                }
                assert forall|j: int| i <= j < rest.len() implies precedes(
                    key@,
                    #[trigger] rest[j].key@,
                ) by {
                    assert(rest[j] == before[j + 1]);
                    assert(precedes(before[i as int].key@, before[j + 1].key@));
                }
                lemma_sorted_insert(rest, i as int, Entry { key, value });
                lemma_insert_at(rest, i as int, Entry { key, value });
                assert(map_of(before).remove(key@).insert(key@, value) =~= map_of(before).insert(
                    key@,
                    value,
                ));
            }
            entries.insert(i, Entry { key, value });
            self.entries = entries;
            Some(gone.value)
        } else {
            proof {
                assert forall|j: int| i <= j < before.len() implies precedes(
                    key@,
                    #[trigger] before[j].key@,
                ) by {
                    lemma_precedes_total(key@, before[i as int].key@);
                    if j > i {
                        assert(precedes(before[i as int].key@, before[j].key@));
                        lemma_precedes_transitive(key@, before[i as int].key@, before[j].key@);
                    }
                }
                lemma_sorted_insert(before, i as int, Entry { key, value });
                lemma_insert_at(before, i as int, Entry { key, value });
            }
            entries.insert(i, Entry { key, value });
            self.entries = entries;
            None
        }
    }

    /// Takes `key` out of the map and hands back its value. The other keys
    /// keep their order.
    pub fn remove(&mut self, key: &str) -> (r: Option<V>)
        ensures
            final(self)@ == old(self)@.remove(key@),
            sorted_keys(final(self).entries()),
            r == (if old(self)@.contains_key(key@) {
                Some(old(self)@[key@])
            } else {
                None
            }),
            final(self).entries().len() == old(self).entries().len() - (if old(
                self,
            )@.contains_key(key@) {
                1int
            } else {
                0int
            }),
    {
        proof {
            use_type_invariant(&*self);
            lemma_sorted_distinct(self.entries@);
        }
        let ghost before = self.entries@;
        match self.find(key) {
            Some(i) => {
                proof {
                    lemma_remove_at(before, i as int);
                    lemma_sorted_remove(before, i as int);
                }
                let mut entries = self.take_entries();
                let gone = entries.remove(i);
                self.entries = entries;
                Some(gone.value)
            },
            None => {
                assert(map_of(before).remove(key@) =~= map_of(before));
                None
            },
        }
    }

    /// Empties the map and hands back every entry, in the rising order of
    /// the keys.
    pub fn drain(&mut self) -> (r: Vec<Entry<V>>)
        ensures
            r@ == old(self).entries(),
            sorted_keys(r@),
            distinct_keys(r@),
            final(self).entries() == Seq::<Entry<V>>::empty(),
            final(self)@ == Map::<Seq<char>, V>::empty(),
    {
        proof {
            use_type_invariant(&*self);
            lemma_sorted_distinct(self.entries@);
        }
        let out = self.take_entries();
        assert(map_of(self.entries@) =~= Map::<Seq<char>, V>::empty());
        out
    }
}

impl<V: Clone> Clone for StrMap<V> {
    /// A copy with the same keys in the same order, each with a copy of
    /// its value.
    fn clone(&self) -> (r: Self)
        ensures
            r.keys() == self.keys(),
    {
        proof {
            use_type_invariant(self);
        }
        let mut entries: Vec<Entry<V>> = Vec::new();
        let mut i: usize = 0;
        while i < self.entries.len()
            invariant
                i <= self.entries@.len(),
                entries@.len() == i,
                forall|j: int| 0 <= j < i ==> entries@[j].key@ == self.entries@[j].key@,
            decreases self.entries@.len() - i,
        {
            let entry = &self.entries[i];
            entries.push(Entry { key: entry.key.clone(), value: entry.value.clone() });
            i = i + 1;
        }
        assert(keys_of(entries@) =~= keys_of(self.entries@));
        assert forall|a: int, b: int| 0 <= a < b < entries@.len() implies precedes(
            entries@[a].key@,
            entries@[b].key@,
        ) by {
            assert(precedes(self.entries@[a].key@, self.entries@[b].key@));
        }
        StrMap { entries }
    }
}

} // verus!
