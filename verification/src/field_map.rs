//! The transient name-to-value map that bridges schema-level path matching
//! and record-level (de)serialization.
//!
//! Entries are kept as a list in insertion order with unique names; the
//! mathematical model is a [`Map`] from the name's characters to the
//! value's view. A map is created fresh per parse or generate call,
//! consumed within that call, and discarded.

use vstd::prelude::*;

verus! {

/// No two entries share a name.
pub open spec fn distinct_keys<V>(entries: Seq<(String, V)>) -> bool {
    forall|i: int, j: int|
        0 <= i < j < entries.len() ==> (#[trigger] entries[i]).0@ != (#[trigger] entries[j]).0@
}

/// The map an entry list denotes: later entries win, as in repeated
/// insertion.
pub open spec fn map_of<V: View>(entries: Seq<(String, V)>) -> Map<Seq<char>, V::V>
    decreases entries.len(),
{
    if entries.len() == 0 {
        Map::empty()
    } else {
        map_of(entries.drop_last()).insert(entries.last().0@, entries.last().1@)
    }
}

/// A name-to-value map with unique names.
#[derive(Debug, PartialEq)]
pub struct FieldMap<V> {
    entries: Vec<(String, V)>,
}

impl<V> FieldMap<V> {
    #[verifier::type_invariant]
    closed spec fn wf(self) -> bool {
        distinct_keys(self.entries@)
    }
}

impl<V: View> View for FieldMap<V> {
    type V = Map<Seq<char>, V::V>;

    closed spec fn view(&self) -> Map<Seq<char>, V::V> {
        map_of(self.entries@)
    }
}

/// A name held by no entry is absent from the denoted map.
proof fn lemma_map_of_absent<V: View>(es: Seq<(String, V)>, k: Seq<char>)
    requires
        forall|j: int| 0 <= j < es.len() ==> (#[trigger] es[j]).0@ != k,
    ensures
        !map_of(es).contains_key(k),
    decreases es.len(),
{
    if es.len() > 0 {
        lemma_map_of_absent(es.drop_last(), k);
    }
}

/// Removing one entry keeps the remaining names distinct, and none of the
/// remaining entries carries the removed entry's name.
proof fn lemma_distinct_remove<V>(es: Seq<(String, V)>, i: int)
    requires
        distinct_keys(es),
        0 <= i < es.len(),
    ensures
        distinct_keys(es.remove(i)),
        forall|j: int| 0 <= j < es.remove(i).len() ==> (#[trigger] es.remove(i)[j]).0@ != es[i].0@,
{
    es.remove_ensures(i);
    assert forall|p: int, q: int| 0 <= p < q < es.remove(i).len() implies (#[trigger] es.remove(
        i,
    )[p]).0@ != (#[trigger] es.remove(i)[q]).0@ by {
        let p0 = if p < i {
            p
        } else {
            p + 1
        };
        let q0 = if q < i {
            q
        } else {
            q + 1
        };
        assert(es.remove(i)[p] == es[p0]);
        assert(es.remove(i)[q] == es[q0]);
    }
    assert forall|j: int| 0 <= j < es.remove(i).len() implies (#[trigger] es.remove(i)[j]).0@
        != es[i].0@ by {
        let j0 = if j < i {
            j
        } else {
            j + 1
        };
        assert(es.remove(i)[j] == es[j0]);
    }
}

/// Removing the entry that holds name `k` removes exactly `k` from the
/// denoted map; before the removal, `k` maps to that entry's value.
proof fn lemma_map_of_remove<V: View>(es: Seq<(String, V)>, i: int, k: Seq<char>)
    requires
        distinct_keys(es),
        0 <= i < es.len(),
        es[i].0@ == k,
    ensures
        map_of(es.remove(i)) == map_of(es).remove(k),
        map_of(es).contains_key(k),
        map_of(es)[k] == es[i].1@,
    decreases es.len(),
{
    es.remove_ensures(i);
    let front = es.drop_last();
    let n = es.len() - 1;
    if i == n {
        assert(es.remove(i) =~= front);
        assert forall|j: int| 0 <= j < front.len() implies (#[trigger] front[j]).0@ != k by {
            assert(front[j] == es[j]);
        }
        lemma_map_of_absent(front, k);
        assert(map_of(es) == map_of(front).insert(k, es[i].1@));
        assert(map_of(front).insert(k, es[i].1@).remove(k) =~= map_of(front));
    } else {
        let lk = es.last().0@;
        let lv = es.last().1@;
        assert(front[i] == es[i]);
        lemma_map_of_remove(front, i, k);
        assert(lk != k);
        assert(es.remove(i).last() == es.last());
        assert(es.remove(i).drop_last() =~= front.remove(i));
        assert(map_of(es.remove(i)) == map_of(front.remove(i)).insert(lk, lv));
        assert(map_of(front).insert(lk, lv).remove(k) =~= map_of(front).remove(k).insert(lk, lv));
    }
}

impl<V: View> FieldMap<V> {
    /// Create an empty map.
    pub fn new() -> (r: Self)
        ensures
            r@ == Map::<Seq<char>, V::V>::empty(),
    {
        FieldMap { entries: Vec::new() }
    }

    /// The position of the entry holding `key`, if any.
    fn index_of(&self, key: &String) -> (r: Option<usize>)
        ensures
            match r {
                Some(i) => i < self.entries@.len() && self.entries@[i as int].0@ == key@,
                None => forall|j: int|
                    0 <= j < self.entries@.len() ==> (#[trigger] self.entries@[j]).0@ != key@,
            },
    {
        let n = self.entries.len();
        let mut i: usize = 0;
        loop
            invariant
                i <= n,
                n == self.entries@.len(),
                forall|j: int| 0 <= j < i ==> (#[trigger] self.entries@[j]).0@ != key@,
            decreases n - i,
        {
            if i == n {
                return None;
            }
            let e = &self.entries[i];
            if e.0 == *key {
                return Some(i);
            }
            i = i + 1;
        }
    }

    /// Bind `key` to `value`, overwriting any prior entry of the same name.
    pub fn insert(&mut self, key: String, value: V)
        ensures
            final(self)@ == old(self)@.insert(key@, value@),
    {
        proof {
            use_type_invariant(&*self);
        }
        let ghost es0 = self.entries@;
        let found = self.index_of(&key);
        let mut entries: Vec<(String, V)> = Vec::new();
        core::mem::swap(&mut entries, &mut self.entries);
        match found {
            Some(i) => {
                proof {
                    lemma_distinct_remove(es0, i as int);
                    lemma_map_of_remove(es0, i as int, key@);
                }
                let _replaced = entries.remove(i);
                entries.push((key, value));
                proof {
                    let es1 = es0.remove(i as int);
                    assert(entries@.drop_last() =~= es1);
                    assert(entries@.last() == (key, value));
                    assert(map_of(entries@) == map_of(es1).insert(key@, value@));
                    assert(map_of(es0).remove(key@).insert(key@, value@) =~= map_of(es0).insert(
                        key@,
                        value@,
                    ));
                }
            },
            None => {
                entries.push((key, value));
                proof {
                    assert(entries@.drop_last() =~= es0);
                    assert(entries@.last() == (key, value));
                }
            },
        }
        self.entries = entries;
    }

    /// Remove the entry named `key`, returning its value: each name is
    /// consumed at most once.
    pub fn remove(&mut self, key: &String) -> (r: Option<V>)
        ensures
            final(self)@ == old(self)@.remove(key@),
            r is Some <==> old(self)@.contains_key(key@),
            r matches Some(v) ==> v@ == old(self)@[key@],
    {
        proof {
            use_type_invariant(&*self);
        }
        let ghost es0 = self.entries@;
        let found = self.index_of(key);
        match found {
            Some(i) => {
                proof {
                    lemma_distinct_remove(es0, i as int);
                    lemma_map_of_remove(es0, i as int, key@);
                }
                let mut entries: Vec<(String, V)> = Vec::new();
                core::mem::swap(&mut entries, &mut self.entries);
                let e = entries.remove(i);
                self.entries = entries;
                Some(e.1)
            },
            None => {
                proof {
                    lemma_map_of_absent(es0, key@);
                    assert(map_of(es0).remove(key@) =~= map_of(es0));
                }
                None
            },
        }
    }

    /// Look up the value bound to `key`.
    pub fn get(&self, key: &String) -> (r: Option<&V>)
        ensures
            r is Some <==> self@.contains_key(key@),
            r matches Some(v) ==> v@ == self@[key@],
    {
        proof {
            use_type_invariant(self);
        }
        match self.index_of(key) {
            Some(i) => {
                proof {
                    lemma_map_of_remove(self.entries@, i as int, key@);
                }
                Some(&self.entries[i].1)
            },
            None => {
                proof {
                    lemma_map_of_absent(self.entries@, key@);
                }
                None
            },
        }
    }

    /// One of the map's names, in unspecified, implementation-defined
    /// order; `None` exactly when the map is empty.
    pub fn first_key(&self) -> (r: Option<String>)
        ensures
            r is None ==> self@ == Map::<Seq<char>, V::V>::empty(),
            r matches Some(k) ==> self@.contains_key(k@),
    {
        proof {
            use_type_invariant(self);
        }
        if self.entries.len() == 0 {
            proof {
                assert(map_of(self.entries@) =~= Map::<Seq<char>, V::V>::empty());
            }
            None
        } else {
            proof {
                lemma_map_of_remove(self.entries@, 0, self.entries@[0].0@);
            }
            Some(self.entries[0].0.clone())
        }
    }
}

} // verus!
