//! Keyed tables: the in-memory form of the engine's registry and ledgers.
//!
//! A [`Table`] holds at most one value per key. Its view is the mathematical
//! map from key views to value views, and every operation is specified as
//! the corresponding operation on that map.

use vstd::prelude::*;

verus! {

/// A type whose values can address the entries of a [`Table`].
///
/// Two keys address the same entry exactly when their views are equal.
pub trait Key: View + Sized {
    /// Whether `self` and `other` address the same entry.
    fn same(&self, other: &Self) -> (same: bool)
        ensures
            same == (self@ == other@),
    ;
}

impl Key for u64 {
    fn same(&self, other: &Self) -> (same: bool) {
        *self == *other
    }
}

impl Key for String {
    fn same(&self, other: &Self) -> (same: bool) {
        *self == *other
    }
}

/// Whether slot `i` of `entries` holds the key `k`.
pub open spec fn holds<K: Key, V: View>(entries: Seq<(K, V)>, k: K::V, i: int) -> bool {
    0 <= i < entries.len() && entries[i].0@ == k
}

/// No two slots of `entries` hold the same key.
pub open spec fn distinct<K: Key, V: View>(entries: Seq<(K, V)>) -> bool {
    forall|i: int, j: int|
        0 <= i < j < entries.len() ==> (#[trigger] entries[i]).0@ != (#[trigger] entries[j]).0@
}

/// The map that a sequence of entries stands for.
pub open spec fn as_map<K: Key, V: View>(entries: Seq<(K, V)>) -> Map<K::V, V::V> {
    Map::new(
        |k: K::V| exists|i: int| holds(entries, k, i),
        |k: K::V| entries[choose|i: int| holds(entries, k, i)].1@,
    )
}

/// Slot `i` of a sequence with distinct keys is the entry of its key.
pub proof fn lemma_entry<K: Key, V: View>(entries: Seq<(K, V)>, i: int)
    requires
        distinct(entries),
        0 <= i < entries.len(),
    ensures
        as_map(entries).contains_key(entries[i].0@),
        as_map(entries)[entries[i].0@] == entries[i].1@,
{
    let k = entries[i].0@;
    assert(holds(entries, k, i));
    let j = choose|j: int| holds(entries, k, j);
    assert(holds(entries, k, j));
    if j < i {
        assert(entries[j].0@ != entries[i].0@);
    } else if i < j {
        assert(entries[i].0@ != entries[j].0@);
    }
}

/// A key that no slot holds is absent from the map.
pub proof fn lemma_absent<K: Key, V: View>(entries: Seq<(K, V)>, k: K::V)
    requires
        forall|i: int| 0 <= i < entries.len() ==> (#[trigger] entries[i]).0@ != k,
    ensures
        !as_map(entries).contains_key(k),
{
    if as_map(entries).contains_key(k) {
        let i = choose|i: int| holds(entries, k, i);
        assert(holds(entries, k, i));
        assert(entries[i].0@ != k);
    }
}

/// Appending an entry under a fresh key inserts it into the map.
pub proof fn lemma_push<K: Key, V: View>(entries: Seq<(K, V)>, entry: (K, V))
    requires
        distinct(entries),
        !as_map(entries).contains_key(entry.0@),
    ensures
        distinct(entries.push(entry)),
        as_map(entries.push(entry)) == as_map(entries).insert(entry.0@, entry.1@),
{
    let after = entries.push(entry);
    assert forall|i: int, j: int| 0 <= i < j < after.len() implies (#[trigger] after[i]).0@ != (
    #[trigger] after[j]).0@ by {
        if j == entries.len() {
            assert(holds(entries, entries[i].0@, i));
        } else {
            assert(entries[i].0@ != entries[j].0@);
        }
    }
    assert forall|k: K::V| #[trigger]
        as_map(after).contains_key(k) <==> as_map(entries).insert(
            entry.0@,
            entry.1@,
        ).contains_key(k) by {
        if as_map(after).contains_key(k) {
            let i = choose|i: int| holds(after, k, i);
            if i < entries.len() {
                assert(holds(entries, k, i));
            }
        }
        if as_map(entries).contains_key(k) {
            let i = choose|i: int| holds(entries, k, i);
            assert(holds(after, k, i));
        }
        if k == entry.0@ {
            assert(holds(after, k, entries.len() as int));
        }
    }
    assert forall|k: K::V| #[trigger] as_map(after).contains_key(k) implies as_map(after)[k]
        == as_map(entries).insert(entry.0@, entry.1@)[k] by {
        let i = choose|i: int| holds(after, k, i);
        lemma_entry(after, i);
        if i < entries.len() {
            lemma_entry(entries, i);
        }
    }
    assert(as_map(after) =~= as_map(entries).insert(entry.0@, entry.1@));
}

/// Replacing the value in slot `i` under the same key updates the map there.
pub proof fn lemma_update<K: Key, V: View>(entries: Seq<(K, V)>, i: int, entry: (K, V))
    requires
        distinct(entries),
        0 <= i < entries.len(),
        entry.0@ == entries[i].0@,
    ensures
        distinct(entries.update(i, entry)),
        as_map(entries.update(i, entry)) == as_map(entries).insert(entry.0@, entry.1@),
{
    let after = entries.update(i, entry);
    assert forall|a: int, b: int| 0 <= a < b < after.len() implies (#[trigger] after[a]).0@ != (
    #[trigger] after[b]).0@ by {
        assert(entries[a].0@ != entries[b].0@);
    }
    assert forall|k: K::V| #[trigger]
        as_map(after).contains_key(k) <==> as_map(entries).insert(
            entry.0@,
            entry.1@,
        ).contains_key(k) by {
        if as_map(after).contains_key(k) {
            let j = choose|j: int| holds(after, k, j);
            assert(holds(entries, k, j));
        }
        if as_map(entries).contains_key(k) {
            let j = choose|j: int| holds(entries, k, j);
            assert(holds(after, k, j));
        }
        if k == entry.0@ {
            assert(holds(after, k, i));
        }
    }
    assert forall|k: K::V| #[trigger] as_map(after).contains_key(k) implies as_map(after)[k]
        == as_map(entries).insert(entry.0@, entry.1@)[k] by {
        let j = choose|j: int| holds(after, k, j);
        lemma_entry(after, j);
        if j != i {
            lemma_entry(entries, j);
        }
    }
    assert(as_map(after) =~= as_map(entries).insert(entry.0@, entry.1@));
}

/// Dropping slot `i` removes its key from the map.
pub proof fn lemma_remove<K: Key, V: View>(entries: Seq<(K, V)>, i: int)
    requires
        distinct(entries),
        0 <= i < entries.len(),
    ensures
        distinct(entries.remove(i)),
        as_map(entries.remove(i)) == as_map(entries).remove(entries[i].0@),
{
    let after = entries.remove(i);
    let gone = entries[i].0@;
    assert forall|a: int| 0 <= a < after.len() implies #[trigger] after[a] == entries[if a < i {
        a
    } else {
        a + 1
    }] by {}
    assert forall|a: int, b: int| 0 <= a < b < after.len() implies (#[trigger] after[a]).0@ != (
    #[trigger] after[b]).0@ by {
        let a0 = if a < i { a } else { a + 1 };
        let b0 = if b < i { b } else { b + 1 };
        assert(entries[a0].0@ != entries[b0].0@);
    }
    assert forall|k: K::V| #[trigger]
        as_map(after).contains_key(k) <==> as_map(entries).remove(gone).contains_key(k) by {
        if as_map(after).contains_key(k) {
            let j = choose|j: int| holds(after, k, j);
            let j0 = if j < i { j } else { j + 1 };
            assert(holds(entries, k, j0));
            if j0 < i {
                assert(entries[j0].0@ != entries[i].0@);
            } else {
                assert(entries[i].0@ != entries[j0].0@);
            }
        }
        if as_map(entries).remove(gone).contains_key(k) {
            let j = choose|j: int| holds(entries, k, j);
            let j1 = if j < i { j } else { j - 1 };
            assert(holds(after, k, j1));
        }
    }
    assert forall|k: K::V| #[trigger] as_map(after).contains_key(k) implies as_map(after)[k]
        == as_map(entries).remove(gone)[k] by {
        let j = choose|j: int| holds(after, k, j);
        let j0 = if j < i { j } else { j + 1 };
        lemma_entry(after, j);
        lemma_entry(entries, j0);
    }
    assert(as_map(after) =~= as_map(entries).remove(gone));
}

/// The map of a sequence of entries has finitely many keys: as many as
/// there are slots, where the keys are distinct.
pub proof fn lemma_finite<K: Key, V: View>(entries: Seq<(K, V)>)
    ensures
        as_map(entries).dom().finite(),
        distinct(entries) ==> as_map(entries).dom().len() == entries.len(),
    decreases entries.len(),
{
    if entries.len() == 0 {
        assert(as_map(entries).dom() =~= Set::<K::V>::empty()) by {
            assert forall|k: K::V| !as_map(entries).dom().contains(k) by {
                if as_map(entries).dom().contains(k) {
                    let i = choose|i: int| holds(entries, k, i);
                    assert(holds(entries, k, i));
                }
            }
        }
    } else {
        let front = entries.drop_last();
        let last = entries.last();
        lemma_finite(front);
        assert(as_map(entries).dom() =~= as_map(front).dom().insert(last.0@)) by {
            assert forall|k: K::V|
                as_map(entries).dom().contains(k) <==> as_map(front).dom().insert(
                    last.0@,
                ).contains(k) by {
                if as_map(entries).dom().contains(k) {
                    let i = choose|i: int| holds(entries, k, i);
                    if i < front.len() {
                        assert(holds(front, k, i));
                    }
                }
                if as_map(front).dom().contains(k) {
                    let i = choose|i: int| holds(front, k, i);
                    assert(holds(entries, k, i));
                }
                if k == last.0@ {
                    assert(holds(entries, k, entries.len() - 1));
                }
            }
        }
        if distinct(entries) {
            assert(distinct(front)) by {
                assert forall|i: int, j: int| 0 <= i < j < front.len() implies (
                #[trigger] front[i]).0@ != (#[trigger] front[j]).0@ by {
                    assert(entries[i].0@ != entries[j].0@);
                }
            }
            assert(!as_map(front).dom().contains(last.0@)) by {
                if as_map(front).dom().contains(last.0@) {
                    let i = choose|i: int| holds(front, last.0@, i);
                    assert(holds(front, last.0@, i));
                    assert(entries[i].0@ != entries[entries.len() - 1].0@);
                }
            }
        }
    }
}

/// A finite map from keys to values, held as a list of entries with
/// pairwise distinct keys.
pub struct Table<K: Key, V: View> {
    entries: Vec<(K, V)>,
}

impl<K: Key, V: View> View for Table<K, V> {
    type V = Map<K::V, V::V>;

    closed spec fn view(&self) -> Map<K::V, V::V> {
        as_map(self.entries@)
    }
}

impl<K: Key, V: View> Table<K, V> {
    #[verifier::type_invariant]
    spec fn keys_distinct(self) -> bool {
        distinct(self.entries@)
    }

    /// The view of any table has finitely many keys.
    pub proof fn lemma_view_finite(&self)
        ensures
            self@.dom().finite(),
    {
        lemma_finite(self.entries@);
    }

    /// An empty table.
    pub fn new() -> (table: Self)
        ensures
            table@ == Map::<K::V, V::V>::empty(),
    {
        let table = Table { entries: Vec::new() };
        assert(table@ =~= Map::<K::V, V::V>::empty()) by {
            assert forall|k: K::V| !table@.contains_key(k) by {
                lemma_absent(table.entries@, k);
            }
        }
        table
    }

    /// The slot that holds `key`, if any.
    fn position(&self, key: &K) -> (slot: Option<usize>)
        ensures
            match slot {
                Some(i) => holds(self.entries@, key@, i as int),
                None => !as_map(self.entries@).contains_key(key@),
            },
    {
        let mut i: usize = 0;
        while i < self.entries.len()
            invariant
                i <= self.entries@.len(),
                forall|j: int| 0 <= j < i ==> (#[trigger] self.entries@[j]).0@ != key@,
            decreases self.entries@.len() - i,
        {
            if self.entries[i].0.same(key) {
                return Some(i);
            }
            i += 1;
        }
        proof {
            lemma_absent(self.entries@, key@);
        }
        None
    }

    /// Whether the table has an entry for `key`.
    pub fn contains_key(&self, key: &K) -> (present: bool)
        ensures
            present == self@.contains_key(key@),
    {
        proof {
            use_type_invariant(self);
        }
        match self.position(key) {
            Some(i) => {
                proof {
                    lemma_entry(self.entries@, i as int);
                }
                true
            },
            None => false,
        }
    }

    /// The value stored under `key`, if any.
    pub fn get(&self, key: &K) -> (found: Option<&V>)
        ensures
            match found {
                Some(value) => self@.contains_key(key@) && self@[key@] == value@,
                None => !self@.contains_key(key@),
            },
    {
        proof {
            use_type_invariant(self);
        }
        match self.position(key) {
            Some(i) => {
                proof {
                    lemma_entry(self.entries@, i as int);
                }
                Some(&self.entries[i].1)
            },
            None => None,
        }
    }

    /// Stores `value` under `key`, replacing what was stored there before.
    pub fn insert(&mut self, key: K, value: V)
        ensures
            final(self)@ == old(self)@.insert(key@, value@),
    {
        proof {
            use_type_invariant(&*self);
        }
        let slot = self.position(&key);
        let mut entries: Vec<(K, V)> = Vec::new();
        std::mem::swap(&mut entries, &mut self.entries);
        match slot {
            Some(i) => {
                proof {
                    lemma_update(entries@, i as int, (key, value));
                }
                entries.set(i, (key, value));
            },
            None => {
                proof {
                    lemma_push(entries@, (key, value));
                }
                entries.push((key, value));
            },
        }
        self.entries = entries;
    }

    /// Removes the entry for `key` and hands back its value, if there was one.
    pub fn remove(&mut self, key: &K) -> (removed: Option<V>)
        ensures
            final(self)@ == old(self)@.remove(key@),
            match removed {
                Some(value) => old(self)@.contains_key(key@) && old(self)@[key@] == value@,
                None => !old(self)@.contains_key(key@),
            },
    {
        proof {
            use_type_invariant(&*self);
        }
        match self.position(key) {
            Some(i) => {
                let mut entries: Vec<(K, V)> = Vec::new();
                std::mem::swap(&mut entries, &mut self.entries);
                proof {
                    lemma_entry(entries@, i as int);
                    lemma_remove(entries@, i as int);
                }
                let entry = entries.remove(i);
                self.entries = entries;
                Some(entry.1)
            },
            None => {
                assert(self@ =~= self@.remove(key@));
                None
            },
        }
    }

    /// The entries of the table, each key once, in no particular order.
    pub fn entries(&self) -> (list: Vec<(K, V)>) where K: Copy, V: Copy
        ensures
            distinct(list@),
            as_map(list@) == self@,
            list@.len() == self@.dom().len(),
    {
        proof {
            use_type_invariant(self);
            lemma_finite(self.entries@);
        }
        let mut list: Vec<(K, V)> = Vec::new();
        let mut i: usize = 0;
        while i < self.entries.len()
            invariant
                i <= self.entries@.len(),
                list@ == self.entries@.take(i as int),
            decreases self.entries@.len() - i,
        {
            let entry = self.entries[i];
            list.push(entry);
            assert(self.entries@.take(i + 1) =~= self.entries@.take(i as int).push(
                self.entries@[i as int],
            ));
            i += 1;
        }
        assert(list@ =~= self.entries@);
        list
    }

    /// A copy of the table, entry by entry.
    pub fn duplicate(&self) -> (copy: Self) where K: Copy, V: Copy
        ensures
            copy@ == self@,
    {
        Table { entries: self.entries() }
    }

    /// The number of entries.
    pub fn len(&self) -> (count: usize)
        ensures
            count == self@.dom().len(),
    {
        proof {
            use_type_invariant(self);
            lemma_finite(self.entries@);
        }
        self.entries.len()
    }
}

} // verus!
