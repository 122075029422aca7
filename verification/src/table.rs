//! A small table from keys to values, kept in a vector in which no key occurs twice.

use vstd::prelude::*;

verus! {

/// A key whose equality can be decided when the program runs; two keys are the same
/// when their views are.
pub trait Key: View + Sized {
    /// Whether `self` and `other` are the same key.
    fn same_key(&self, other: &Self) -> (same: bool)
        ensures
            same == (self@ == other@),
    ;
}

/// Some entry of `entries` has the key `k`.
pub open spec fn has_key<K: View, V: View>(entries: Seq<(K, V)>, k: K::V) -> bool {
    exists|i: int| 0 <= i < entries.len() && (#[trigger] entries[i]).0@ == k
}

/// The place of an entry with the key `k`.
pub open spec fn place_of<K: View, V: View>(entries: Seq<(K, V)>, k: K::V) -> int {
    choose|i: int| 0 <= i < entries.len() && (#[trigger] entries[i]).0@ == k
}

/// No key occurs twice in `entries`.
pub open spec fn distinct_keys<K: View, V: View>(entries: Seq<(K, V)>) -> bool {
    forall|i: int, j: int|
        0 <= i < j < entries.len() ==> (#[trigger] entries[i]).0@ != (#[trigger] entries[j]).0@
}

/// The map that `entries` stands for.
pub open spec fn map_of<K: View, V: View>(entries: Seq<(K, V)>) -> Map<K::V, V::V> {
    Map::new(|k: K::V| has_key(entries, k), |k: K::V| entries[place_of(entries, k)].1@)
}

/// The entry at `i` is what the map holds under its key.
pub proof fn lemma_entry<K: View, V: View>(entries: Seq<(K, V)>, i: int)
    requires
        distinct_keys(entries),
        0 <= i < entries.len(),
    ensures
        map_of(entries).contains_key(entries[i].0@),
        map_of(entries)[entries[i].0@] == entries[i].1@,
{
    let k = entries[i].0@;
    assert(has_key(entries, k));
    let p = place_of(entries, k);
    assert(entries[p].0@ == k);
    if p < i {
        assert(entries[p].0@ != entries[i].0@);
    } else if i < p {
        assert(entries[i].0@ != entries[p].0@);
    }
}

/// Taking the entry at `i` out removes its key from the map, and nothing else.
pub proof fn lemma_take_out<K: View, V: View>(entries: Seq<(K, V)>, i: int)
    requires
        distinct_keys(entries),
        0 <= i < entries.len(),
    ensures
        distinct_keys(entries.remove(i)),
        map_of(entries.remove(i)) == map_of(entries).remove(entries[i].0@),
{
    let rest = entries.remove(i);
    let gone = entries[i].0@;
    assert forall|j: int| 0 <= j < rest.len() implies #[trigger] rest[j] == entries[if j < i {
        j
    } else {
        j + 1
    }] by {}
    assert(distinct_keys(rest)) by {
        assert forall|a: int, b: int| 0 <= a < b < rest.len() implies (#[trigger] rest[a]).0@ != (
        #[trigger] rest[b]).0@ by {
            let a0 = if a < i { a } else { a + 1 };
            let b0 = if b < i { b } else { b + 1 };
            assert(entries[a0].0@ != entries[b0].0@);
        }
    }
    let left = map_of(rest);
    let right = map_of(entries).remove(gone);
    assert forall|k: K::V| left.contains_key(k) <==> right.contains_key(k) by {
        if has_key(rest, k) {
            let j = place_of(rest, k);
            let j0 = if j < i { j } else { j + 1 };
            assert(entries[j0].0@ == k);
            if j0 < i {
                assert(entries[j0].0@ != entries[i].0@);
            } else {
                assert(entries[i].0@ != entries[j0].0@);
            }
        }
        if has_key(entries, k) && k != gone {
            let j0 = place_of(entries, k);
            let j = if j0 < i { j0 } else { j0 - 1 };
            assert(rest[j].0@ == k);
        }
    }
    assert forall|k: K::V| left.contains_key(k) implies left[k] == right[k] by {
        let j = place_of(rest, k);
        let j0 = if j < i { j } else { j + 1 };
        assert(rest[j] == entries[j0]);
        lemma_entry(rest, j);
        lemma_entry(entries, j0);
    }
    assert(left =~= right);
}

/// Adding an entry under a new key adds it to the map, and nothing else.
pub proof fn lemma_add<K: View, V: View>(entries: Seq<(K, V)>, entry: (K, V))
    requires
        distinct_keys(entries),
        !has_key(entries, entry.0@),
    ensures
        distinct_keys(entries.push(entry)),
        map_of(entries.push(entry)) == map_of(entries).insert(entry.0@, entry.1@),
{
    let more = entries.push(entry);
    let n = entries.len() as int;
    assert(distinct_keys(more)) by {
        assert forall|a: int, b: int| 0 <= a < b < more.len() implies (#[trigger] more[a]).0@ != (
        #[trigger] more[b]).0@ by {
            if b < n {
                assert(entries[a].0@ != entries[b].0@);
            } else {
                assert(entries[a].0@ != entry.0@);
            }
        }
    }
    let left = map_of(more);
    let right = map_of(entries).insert(entry.0@, entry.1@);
    assert forall|k: K::V| left.contains_key(k) <==> right.contains_key(k) by {
        if has_key(more, k) {
            let j = place_of(more, k);
            if j < n {
                assert(entries[j].0@ == k);
            }
        }
        if has_key(entries, k) {
            let j = place_of(entries, k);
            assert(more[j].0@ == k);
        }
        if k == entry.0@ {
            assert(more[n].0@ == k);
        }
    }
    assert forall|k: K::V| left.contains_key(k) implies left[k] == right[k] by {
        let j = place_of(more, k);
        lemma_entry(more, j);
        if j < n {
            assert(more[j] == entries[j]);
            lemma_entry(entries, j);
        }
    }
    assert(left =~= right);
}

/// A table from keys to values.
pub struct Table<K: Key, V: View> {
    entries: Vec<(K, V)>,
}

impl<K: Key, V: View> View for Table<K, V> {
    type V = Map<K::V, V::V>;

    closed spec fn view(&self) -> Map<K::V, V::V> {
        map_of(self.entries@)
    }
}

impl<K: Key, V: View> Table<K, V> {
    /// The table is well formed: no key occurs twice.
    pub closed spec fn wf(&self) -> bool {
        distinct_keys(self.entries@)
    }

    /// An empty table.
    pub fn new() -> (table: Self)
        ensures
            table.wf(),
            table@ == Map::<K::V, V::V>::empty(),
    {
        let table = Table { entries: Vec::new() };
        assert(table@ =~= Map::<K::V, V::V>::empty());
        table
    }

    /// The place of the entry under `key`, if there is one.
    fn find(&self, key: &K) -> (place: Option<usize>)
        ensures
            match place {
                Some(i) => i < self.entries@.len() && self.entries@[i as int].0@ == key@,
                None => !has_key(self.entries@, key@),
            },
    {
        let mut i: usize = 0;
        while i < self.entries.len()
            invariant
                i <= self.entries@.len(),
                forall|j: int| 0 <= j < i ==> (#[trigger] self.entries@[j]).0@ != key@,
            decreases self.entries@.len() - i,
        {
            if self.entries[i].0.same_key(key) {
                return Some(i);
            }
            i = i + 1;
        }
        None
    }

    /// Whether the table holds a value under `key`.
    pub fn contains_key(&self, key: &K) -> (present: bool)
        requires
            self.wf(),
        ensures
            present == self@.contains_key(key@),
    {
        match self.find(key) {
            Some(i) => {
                proof {
                    lemma_entry(self.entries@, i as int);
                }
                true
            },
            None => false,
        }
    }

    /// The value under `key`, if there is one.
    pub fn get(&self, key: &K) -> (value: Option<&V>)
        requires
            self.wf(),
        ensures
            match value {
                Some(v) => self@.contains_key(key@) && v@ == self@[key@],
                None => !self@.contains_key(key@),
            },
    {
        match self.find(key) {
            Some(i) => {
                proof {
                    lemma_entry(self.entries@, i as int);
                }
                Some(&self.entries[i].1)
            },
            None => None,
        }
    }

    /// Puts `value` under `key`, in place of what was there.
    pub fn insert(&mut self, key: K, value: V)
        requires
            old(self).wf(),
        ensures
            final(self).wf(),
            final(self)@ == old(self)@.insert(key@, value@),
    {
        match self.find(&key) {
            Some(i) => {
                proof {
                    lemma_take_out(self.entries@, i as int);
                }
                let _ = self.entries.remove(i);
                assert(!has_key(self.entries@, key@)) by {
                    assert(!map_of(self.entries@).contains_key(key@));
                }
            },
            None => {},
        }
        proof {
            lemma_add(self.entries@, (key, value));
        }
        self.entries.push((key, value));
        assert(self@ =~= old(self)@.insert(key@, value@));
    }

    /// Takes out the value under `key`, if there is one.
    pub fn remove(&mut self, key: &K) -> (value: Option<V>)
        requires
            old(self).wf(),
        ensures
            final(self).wf(),
            final(self)@ == old(self)@.remove(key@),
            match value {
                Some(v) => old(self)@.contains_key(key@) && v@ == old(self)@[key@],
                None => !old(self)@.contains_key(key@),
            },
    {
        match self.find(key) {
            Some(i) => {
                proof {
                    lemma_entry(self.entries@, i as int);
                    lemma_take_out(self.entries@, i as int);
                }
                let entry = self.entries.remove(i);
                Some(entry.1)
            },
            None => {
                assert(self@ =~= old(self)@.remove(key@));
                None
            },
        }
    }
}

} // verus!
