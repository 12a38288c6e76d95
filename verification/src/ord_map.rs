//! A map that keeps its keys in ascending order.

use vstd::prelude::*;
use crate::order::ascending;
use crate::order::lemma_lt_transitive;
use crate::order::lt;
use crate::order::views;
use crate::order::Ordered;
use crate::order::Relation;

verus! {

/// Where a key stands in an ascending sequence of keys.
pub open spec fn index_of<KV>(keys: Seq<KV>, key: KV) -> int {
    choose|i: int| 0 <= i < keys.len() && keys[i] == key
}

/// The map that holds `values[i]` under `keys[i]`.
pub open spec fn map_of<KV, T>(keys: Seq<KV>, values: Seq<T>) -> Map<KV, T> {
    Map::new(|k: KV| keys.contains(k), |k: KV| values[index_of(keys, k)])
}

/// In an ascending sequence a key stands at one place only.
pub proof fn lemma_index_of<K: Ordered>(keys: Seq<K::V>, i: int)
    requires
        ascending::<K>(keys),
        0 <= i < keys.len(),
    ensures
        index_of(keys, keys[i]) == i,
        keys.contains(keys[i]),
{
    let j = index_of(keys, keys[i]);
    if j < i {
        assert(lt::<K>(keys[j], keys[i]));
    }
    if i < j {
        assert(lt::<K>(keys[i], keys[j]));
    }
}

/// A map from keys of type `K` to values of type `T`, held in ascending order
/// of the keys.
#[derive(Debug, PartialEq, Eq)]
pub struct OrdMap<K: Ordered, T> {
    keys: Vec<K>,
    values: Vec<T>,
}

impl<K: Ordered, T> View for OrdMap<K, T> {
    type V = Map<K::V, T>;

    open spec fn view(&self) -> Map<K::V, T> {
        map_of(self.key_seq(), self.value_seq())
    }
}

impl<K: Ordered, T> OrdMap<K, T> {
    /// The keys, in the order in which the map holds them.
    pub closed spec fn key_seq(&self) -> Seq<K::V> {
        Seq::new(self.keys@.len(), |i: int| self.keys@[i]@)
    }

    /// The values, each at the place of its key.
    pub closed spec fn value_seq(&self) -> Seq<T> {
        self.values@
    }

    /// Every key has its value, and the keys ascend.
    pub open spec fn well_formed(&self) -> bool {
        &&& self.key_seq().len() == self.value_seq().len()
        &&& ascending::<K>(self.key_seq())
    }

    /// The value at each place is the one that the map holds under the key at
    /// that place, and the map holds no other keys.
    pub proof fn lemma_view(&self)
        requires
            self.well_formed(),
        ensures
            forall|i: int|
                0 <= i < self.key_seq().len() ==> self@.contains_key(#[trigger] self.key_seq()[i])
                    && self@[self.key_seq()[i]] == self.value_seq()[i],
            forall|k: K::V| self@.contains_key(k) <==> self.key_seq().contains(k),
    {
        assert forall|i: int| 0 <= i < self.key_seq().len() implies self@.contains_key(
            #[trigger] self.key_seq()[i],
        ) && self@[self.key_seq()[i]] == self.value_seq()[i] by {
            lemma_index_of::<K>(self.key_seq(), i);
        }
    }

    /// The map without keys.
    pub fn new() -> (map: Self)
        ensures
            map.well_formed(),
            map.key_seq() == Seq::<K::V>::empty(),
            map@ == Map::<K::V, T>::empty(),
    {
        let map = OrdMap { keys: Vec::new(), values: Vec::new() };
        assert(map.key_seq() =~= Seq::<K::V>::empty());
        assert(map@ =~= Map::<K::V, T>::empty());
        map
    }

    /// How many keys the map holds.
    pub fn len(&self) -> (n: usize)
        requires
            self.well_formed(),
        ensures
            n == self.key_seq().len(),
    {
        self.keys.len()
    }

    /// The key at a place.
    pub fn key_at(&self, i: usize) -> (key: &K)
        requires
            self.well_formed(),
            i < self.key_seq().len(),
        ensures
            key@ == self.key_seq()[i as int],
    {
        &self.keys[i]
    }

    /// The value at a place.
    pub fn value_at(&self, i: usize) -> (value: &T)
        requires
            self.well_formed(),
            i < self.key_seq().len(),
        ensures
            *value == self.value_seq()[i as int],
            *value == self@[self.key_seq()[i as int]],
    {
        proof {
            self.lemma_view();
        }
        &self.values[i]
    }

    /// Looks for a key. Returns whether the map holds it, and the place where
    /// it stands or would have to stand.
    pub fn search(&self, key: &K) -> (found: (bool, usize))
        requires
            self.well_formed(),
        ensures
            found.1 <= self.key_seq().len(),
            found.0 == self@.contains_key(key@),
            found.0 ==> found.1 < self.key_seq().len() && self.key_seq()[found.1 as int] == key@,
            forall|j: int| 0 <= j < found.1 ==> lt::<K>(self.key_seq()[j], key@),
            forall|j: int|
                found.1 <= j < self.key_seq().len() && (j > found.1 || !found.0) ==> lt::<K>(
                    key@,
                    self.key_seq()[j],
                ),
    {
        let mut i: usize = 0;
        while i < self.keys.len()
            invariant
                self.well_formed(),
                i <= self.keys.len(),
                forall|j: int| 0 <= j < i ==> lt::<K>(self.key_seq()[j], key@),
            decreases self.keys.len() - i,
        {
            match self.keys[i].compare(key) {
                Relation::Less => {
                    i += 1;
                },
                Relation::Equal => {
                    proof {
                        self.lemma_view();
                        assert(self.key_seq()[i as int] == key@);
                        assert forall|j: int| i < j < self.key_seq().len() implies lt::<K>(
                            key@,
                            self.key_seq()[j],
                        ) by {
                            assert(lt::<K>(self.key_seq()[i as int], self.key_seq()[j]));
                        }
                    }
                    return (true, i);
                },
                Relation::Greater => {
                    proof {
                        assert forall|j: int| i <= j < self.key_seq().len() implies lt::<K>(
                            key@,
                            self.key_seq()[j],
                        ) by {
                            if i < j {
                                assert(lt::<K>(self.key_seq()[i as int], self.key_seq()[j]));
                                lemma_lt_transitive::<K>(
                                    key@,
                                    self.key_seq()[i as int],
                                    self.key_seq()[j],
                                );
                            }
                        }
                        self.lemma_absent(key@, i as int);
                    }
                    return (false, i);
                },
            }
        }
        proof {
            self.lemma_absent(key@, i as int);
        }
        (false, i)
    }

    /// A key that stands after every key before a place and before every key
    /// from that place on is not in the map.
    proof fn lemma_absent(&self, key: K::V, at: int)
        requires
            self.well_formed(),
            0 <= at <= self.key_seq().len(),
            forall|j: int| 0 <= j < at ==> lt::<K>(self.key_seq()[j], key),
            forall|j: int| at <= j < self.key_seq().len() ==> lt::<K>(key, self.key_seq()[j]),
        ensures
            !self@.contains_key(key),
            !self.key_seq().contains(key),
    {
        if self.key_seq().contains(key) {
            let j = choose|j: int| 0 <= j < self.key_seq().len() && self.key_seq()[j] == key;
            if j < at {
                assert(lt::<K>(self.key_seq()[j], key));
            } else {
                assert(lt::<K>(key, self.key_seq()[j]));
            }
        }
    }

    /// Copies of the keys, in ascending order.
    pub fn keys(&self) -> (keys: Vec<K>)
        requires
            self.well_formed(),
        ensures
            views(keys@) == self.key_seq(),
    {
        let mut keys: Vec<K> = Vec::new();
        let mut i: usize = 0;
        while i < self.keys.len()
            invariant
                i <= self.keys.len(),
                keys.len() == i,
                forall|j: int| 0 <= j < i ==> keys[j]@ == self.keys[j]@,
            decreases self.keys.len() - i,
        {
            keys.push(self.keys[i].duplicate());
            i += 1;
        }
        assert(views(keys@) =~= self.key_seq());
        keys
    }

    /// Whether the map holds the key.
    pub fn contains_key(&self, key: &K) -> (held: bool)
        requires
            self.well_formed(),
        ensures
            held == self@.contains_key(key@),
    {
        self.search(key).0
    }

    /// The value under a key, if the map holds the key.
    pub fn get(&self, key: &K) -> (value: Option<&T>)
        requires
            self.well_formed(),
        ensures
            match value {
                Some(v) => self@.contains_key(key@) && *v == self@[key@],
                None => !self@.contains_key(key@),
            },
    {
        let (found, i) = self.search(key);
        if found {
            proof {
                self.lemma_view();
            }
            Some(&self.values[i])
        } else {
            None
        }
    }

    /// Puts a value under a key, in place of the value that was there.
    /// Returns the value that was there.
    pub fn insert(&mut self, key: K, value: T) -> (previous: Option<T>)
        requires
            old(self).well_formed(),
        ensures
            final(self).well_formed(),
            final(self)@ == old(self)@.insert(key@, value),
            previous == (if old(self)@.contains_key(key@) {
                Some(old(self)@[key@])
            } else {
                None
            }),
            forall|k: K::V|
                final(self).key_seq().contains(k) <==> (old(self).key_seq().contains(k) || k
                    == key@),
    {
        let (found, i) = self.search(&key);
        let ghost old_keys = self.key_seq();
        let ghost old_values = self.value_seq();
        proof {
            self.lemma_view();
        }
        if found {
            let ghost prior = self.values@[i as int];
            let mut value = value;
            std::mem::swap(&mut self.values[i], &mut value);
            proof {
                assert(self.key_seq() =~= old_keys);
                assert(self.value_seq() =~= old_values.update(i as int, self.values@[i as int]));
                assert forall|k: K::V| old_keys.contains(k) implies #[trigger] map_of(
                    old_keys,
                    self.value_seq(),
                )[k] == map_of(old_keys, old_values).insert(key@, self.values@[i as int])[k] by {
                    let j = index_of(old_keys, k);
                    lemma_index_of::<K>(old_keys, j);
                    lemma_index_of::<K>(old_keys, i as int);
                }
                assert(self@ =~= map_of(old_keys, old_values).insert(key@, self.values@[i as int]));
            }
            Some(value)
        } else {
            self.keys.insert(i, key);
            self.values.insert(i, value);
            proof {
                assert(self.key_seq() =~= old_keys.insert(i as int, key@));
                assert(self.value_seq() =~= old_values.insert(i as int, value));
                lemma_insert_at::<K, T>(old_keys, old_values, i as int, key@, value);
            }
            None
        }
    }

    /// Takes a key and its value out of the map. Returns the value.
    pub fn remove(&mut self, key: &K) -> (previous: Option<T>)
        requires
            old(self).well_formed(),
        ensures
            final(self).well_formed(),
            final(self)@ == old(self)@.remove(key@),
            previous == (if old(self)@.contains_key(key@) {
                Some(old(self)@[key@])
            } else {
                None
            }),
            forall|k: K::V|
                final(self).key_seq().contains(k) <==> (old(self).key_seq().contains(k) && k
                    != key@),
    {
        let (found, i) = self.search(key);
        let ghost old_keys = self.key_seq();
        let ghost old_values = self.value_seq();
        proof {
            self.lemma_view();
        }
        if found {
            let _ = self.keys.remove(i);
            let value = self.values.remove(i);
            proof {
                assert(self.key_seq() =~= old_keys.remove(i as int));
                assert(self.value_seq() =~= old_values.remove(i as int));
                lemma_remove_at::<K, T>(old_keys, old_values, i as int);
            }
            Some(value)
        } else {
            assert(self@ =~= old(self)@.remove(key@));
            None
        }
    }
}

/// Putting a new key at the place where it belongs keeps the keys ascending
/// and adds the key with its value to the map.
pub proof fn lemma_insert_at<K: Ordered, T>(
    keys: Seq<K::V>,
    values: Seq<T>,
    at: int,
    key: K::V,
    value: T,
)
    requires
        keys.len() == values.len(),
        ascending::<K>(keys),
        0 <= at <= keys.len(),
        forall|j: int| 0 <= j < at ==> lt::<K>(keys[j], key),
        forall|j: int| at <= j < keys.len() ==> lt::<K>(key, keys[j]),
    ensures
        ascending::<K>(keys.insert(at, key)),
        map_of(keys.insert(at, key), values.insert(at, value)) == map_of(keys, values).insert(
            key,
            value,
        ),
        forall|k: K::V| keys.insert(at, key).contains(k) <==> (keys.contains(k) || k == key),
{
    let keys2 = keys.insert(at, key);
    let values2 = values.insert(at, value);
    assert forall|i: int, j: int| 0 <= i < j < keys2.len() implies lt::<K>(keys2[i], keys2[j]) by {
        if i < at && j > at {
            assert(lt::<K>(keys[i], keys[j - 1]));
        } else if i > at {
            assert(lt::<K>(keys[i - 1], keys[j - 1]));
        } else if j < at {
            assert(lt::<K>(keys[i], keys[j]));
        }
    }
    assert forall|k: K::V| keys2.contains(k) <==> (keys.contains(k) || k == key) by {
        if keys2.contains(k) {
            let i = choose|i: int| 0 <= i < keys2.len() && keys2[i] == k;
            if i < at {
                assert(keys[i] == k);
            } else if i > at {
                assert(keys[i - 1] == k);
            }
        }
        if keys.contains(k) {
            let i = choose|i: int| 0 <= i < keys.len() && keys[i] == k;
            if i < at {
                assert(keys2[i] == k);
            } else {
                assert(keys2[i + 1] == k);
            }
        }
        if k == key {
            assert(keys2[at] == k);
        }
    }
    assert forall|k: K::V| keys2.contains(k) implies #[trigger] map_of(keys2, values2)[k] == map_of(
        keys,
        values,
    ).insert(key, value)[k] by {
        let i = index_of(keys2, k);
        lemma_index_of::<K>(keys2, i);
        if i < at {
            lemma_index_of::<K>(keys, i);
            assert(lt::<K>(keys[i], key));
        } else if i > at {
            lemma_index_of::<K>(keys, i - 1);
            assert(lt::<K>(key, keys[i - 1]));
        }
    }
    assert(map_of(keys2, values2) =~= map_of(keys, values).insert(key, value));
}

/// Taking the key at a place out keeps the keys ascending and takes the key
/// out of the map.
pub proof fn lemma_remove_at<K: Ordered, T>(keys: Seq<K::V>, values: Seq<T>, at: int)
    requires
        keys.len() == values.len(),
        ascending::<K>(keys),
        0 <= at < keys.len(),
    ensures
        ascending::<K>(keys.remove(at)),
        map_of(keys.remove(at), values.remove(at)) == map_of(keys, values).remove(keys[at]),
        forall|k: K::V| keys.remove(at).contains(k) <==> (keys.contains(k) && k != keys[at]),
{
    let keys2 = keys.remove(at);
    let values2 = values.remove(at);
    assert forall|i: int, j: int| 0 <= i < j < keys2.len() implies lt::<K>(keys2[i], keys2[j]) by {
        let a = if i < at {
            i
        } else {
            i + 1
        };
        let b = if j < at {
            j
        } else {
            j + 1
        };
        assert(lt::<K>(keys[a], keys[b]));
    }
    assert forall|k: K::V| keys2.contains(k) <==> (keys.contains(k) && k != keys[at]) by {
        if keys2.contains(k) {
            let i = choose|i: int| 0 <= i < keys2.len() && keys2[i] == k;
            if i < at {
                assert(keys[i] == k);
                assert(lt::<K>(keys[i], keys[at]));
            } else {
                assert(keys[i + 1] == k);
                assert(lt::<K>(keys[at], keys[i + 1]));
            }
        }
        if keys.contains(k) && k != keys[at] {
            let i = choose|i: int| 0 <= i < keys.len() && keys[i] == k;
            if i < at {
                assert(keys2[i] == k);
            } else {
                assert(keys2[i - 1] == k);
            }
        }
    }
    assert forall|k: K::V| keys2.contains(k) implies #[trigger] map_of(keys2, values2)[k] == map_of(
        keys,
        values,
    ).remove(keys[at])[k] by {
        let i = index_of(keys2, k);
        lemma_index_of::<K>(keys2, i);
        if i < at {
            lemma_index_of::<K>(keys, i);
        } else {
            lemma_index_of::<K>(keys, i + 1);
        }
    }
    assert(map_of(keys2, values2) =~= map_of(keys, values).remove(keys[at]));
}

} // verus!
