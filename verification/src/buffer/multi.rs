//! The persisted multi-map: every key holds a set of values.

use vstd::prelude::*;
use crate::ord_map::OrdMap;
use crate::order::ascending;
use crate::order::views;
use crate::order::Ordered;

verus! {

/// A multi-map as it is persisted. A key that was never written, or whose
/// values were all deleted, holds the empty set.
#[derive(Debug, PartialEq, Eq)]
pub struct MultiStore<K: Ordered, V: Ordered> {
    rows: OrdMap<K, OrdMap<V, ()>>,
}

impl<K: Ordered, V: Ordered> MultiStore<K, V> {
    /// The structure holds its keys, and the values of each key, in ascending order.
    pub closed spec fn well_formed(&self) -> bool {
        &&& self.rows.well_formed()
        &&& forall|k: K::V| #[trigger] self.rows@.contains_key(k) ==> self.rows@[k].well_formed()
    }

    /// The values that the key holds.
    pub closed spec fn values(&self, key: K::V) -> Set<V::V> {
        if self.rows@.contains_key(key) {
            self.rows@[key]@.dom()
        } else {
            Set::empty()
        }
    }

    /// The multi-map in which every key holds the empty set.
    pub fn new() -> (store: Self)
        ensures
            store.well_formed(),
            forall|k: K::V| store.values(k) == Set::<V::V>::empty(),
    {
        MultiStore { rows: OrdMap::new() }
    }

    /// The values that a key holds, in ascending order.
    pub fn get(&self, key: &K) -> (values: Vec<V>)
        requires
            self.well_formed(),
        ensures
            ascending::<V>(views(values@)),
            forall|v: V::V| views(values@).contains(v) <==> self.values(key@).contains(v),
    {
        match self.rows.get(key) {
            None => {
                let values: Vec<V> = Vec::new();
                assert(views(values@) =~= Seq::<V::V>::empty());
                values
            },
            Some(set) => {
                proof {
                    set.lemma_view();
                }
                set.keys()
            },
        }
    }

    /// Whether the key holds the value.
    pub fn contains(&self, key: &K, value: &V) -> (held: bool)
        requires
            self.well_formed(),
        ensures
            held == self.values(key@).contains(value@),
    {
        match self.rows.get(key) {
            None => false,
            Some(set) => set.contains_key(value),
        }
    }

    /// Adds a value to those that a key holds. Nothing changes if the key
    /// holds the value already.
    pub fn put(&mut self, key: K, value: V)
        requires
            old(self).well_formed(),
        ensures
            final(self).well_formed(),
            final(self).values(key@) == old(self).values(key@).insert(value@),
            forall|k: K::V| k != key@ ==> final(self).values(k) == old(self).values(k),
    {
        let mut set = match self.rows.remove(&key) {
            Some(set) => set,
            None => OrdMap::new(),
        };
        let ghost before = set@.dom();
        assert(before =~= old(self).values(key@));
        set.insert(value, ());
        assert(set@.dom() =~= before.insert(value@));
        self.rows.insert(key, set);
        assert forall|k: K::V| k != key@ implies self.values(k) == old(self).values(k) by {
        }
    }

    /// Takes a value away from those that a key holds. Nothing changes if the
    /// key does not hold the value.
    pub fn delete(&mut self, key: &K, value: &V)
        requires
            old(self).well_formed(),
        ensures
            final(self).well_formed(),
            final(self).values(key@) == old(self).values(key@).remove(value@),
            forall|k: K::V| k != key@ ==> final(self).values(k) == old(self).values(k),
    {
        match self.rows.remove(key) {
            None => {
                assert(self.values(key@) =~= old(self).values(key@).remove(value@));
                assert forall|k: K::V| k != key@ implies self.values(k) == old(self).values(k) by {
                }
            },
            Some(set) => {
                let mut set = set;
                let ghost before = set@.dom();
                set.remove(value);
                assert(set@.dom() =~= before.remove(value@));
                self.rows.insert(key.duplicate(), set);
                assert forall|k: K::V| k != key@ implies self.values(k) == old(self).values(k) by {
                }
            },
        }
    }

    /// A copy that holds the same values under every key.
    pub fn duplicate(&self) -> (copy: Self)
        requires
            self.well_formed(),
        ensures
            copy.well_formed(),
            forall|k: K::V| copy.values(k) == self.values(k),
    {
        let mut copy: MultiStore<K, V> = MultiStore::new();
        let mut i: usize = 0;
        proof {
            self.rows.lemma_view();
        }
        while i < self.rows.len()
            invariant
                self.well_formed(),
                copy.well_formed(),
                i <= self.rows.key_seq().len(),
                forall|k: K::V|
                    copy.values(k) == (if exists|j: int|
                        0 <= j < i && self.rows.key_seq()[j] == k {
                        self.values(k)
                    } else {
                        Set::<V::V>::empty()
                    }),
            decreases self.rows.key_seq().len() - i,
        {
            proof {
                self.rows.lemma_view();
            }
            let key = self.rows.key_at(i);
            let held = self.rows.value_at(i);
            let values = held.keys();
            proof {
                held.lemma_view();
            }
            assert(!(exists|j: int| 0 <= j < i && self.rows.key_seq()[j] == key@)) by {
                if exists|j: int| 0 <= j < i && self.rows.key_seq()[j] == key@ {
                    let j = choose|j: int| 0 <= j < i && self.rows.key_seq()[j] == key@;
                    assert(crate::order::lt::<K>(self.rows.key_seq()[j], self.rows.key_seq()[i as int]));
                }
            }
            let ghost before = copy;
            let mut n: usize = 0;
            while n < values.len()
                invariant
                    copy.well_formed(),
                    n <= values.len(),
                    forall|k: K::V| k != key@ ==> copy.values(k) == before.values(k),
                    forall|v: V::V|
                        copy.values(key@).contains(v) <==> views(values@).subrange(
                            0,
                            n as int,
                        ).contains(v),
                decreases values.len() - n,
            {
                let ghost done = views(values@).subrange(0, n as int);
                copy.put(key.duplicate(), values[n].duplicate());
                assert(views(values@).subrange(0, n + 1) =~= done.push(values[n as int]@));
                assert forall|v: V::V|
                    copy.values(key@).contains(v) <==> views(values@).subrange(
                        0,
                        n + 1,
                    ).contains(v) by {
                    if done.push(values[n as int]@).contains(v) {
                        let a = choose|a: int|
                            0 <= a < n + 1 && done.push(values[n as int]@)[a] == v;
                        if a < n {
                            assert(done[a] == v);
                            assert(done.contains(v));
                        }
                    }
                    if done.contains(v) {
                        let a = choose|a: int| 0 <= a < done.len() && done[a] == v;
                        assert(done.push(values[n as int]@)[a] == v);
                    }
                    assert(done.push(values[n as int]@)[n as int] == values[n as int]@);
                }
                n += 1;
            }
            proof {
                assert(views(values@).subrange(0, n as int) =~= views(values@));
                assert(copy.values(key@) =~= self.values(key@));
                assert forall|k: K::V|
                    copy.values(k) == (if exists|j: int|
                        0 <= j < i + 1 && self.rows.key_seq()[j] == k {
                        self.values(k)
                    } else {
                        Set::<V::V>::empty()
                    }) by {
                    if k == key@ {
                        assert(self.rows.key_seq()[i as int] == k);
                    } else {
                        if exists|j: int| 0 <= j < i + 1 && self.rows.key_seq()[j] == k {
                            let j = choose|j: int| 0 <= j < i + 1 && self.rows.key_seq()[j] == k;
                            assert(j < i);
                        }
                        if exists|j: int| 0 <= j < i && self.rows.key_seq()[j] == k {
                            let j = choose|j: int| 0 <= j < i && self.rows.key_seq()[j] == k;
                            assert(0 <= j < i + 1);
                        }
                    }
                }
            }
            i += 1;
        }
        proof {
            self.rows.lemma_view();
            assert forall|k: K::V| copy.values(k) == self.values(k) by {
                if self.rows@.contains_key(k) {
                    let j = choose|j: int|
                        0 <= j < self.rows.key_seq().len() && self.rows.key_seq()[j] == k;
                    assert(0 <= j < i);
                } else {
                    if exists|j: int| 0 <= j < i && self.rows.key_seq()[j] == k {
                        let j = choose|j: int| 0 <= j < i && self.rows.key_seq()[j] == k;
                        assert(self.rows.key_seq().contains(k));
                    }
                }
            }
        }
        copy
    }

    /// Takes away every value that a key holds.
    pub fn delete_all(&mut self, key: &K)
        requires
            old(self).well_formed(),
        ensures
            final(self).well_formed(),
            final(self).values(key@) == Set::<V::V>::empty(),
            forall|k: K::V| k != key@ ==> final(self).values(k) == old(self).values(k),
    {
        self.rows.remove(key);
        assert forall|k: K::V| k != key@ implies self.values(k) == old(self).values(k) by {
        }
    }
}

} // verus!
