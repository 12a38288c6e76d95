//! A buffered multi-value store: writes are staged in a scratch and reach the
//! persisted multi-map only when the scratch is flushed.
//!
//! The scratch holds, for every key that was written, a log of values marked
//! `Insert` or `Delete`, and a mark that says that everything persisted under
//! the key is to go. What a reader sees under a key is the persisted set
//! overlaid with the log of that key.

use vstd::prelude::*;
use crate::buffer::multi::MultiStore;
use crate::ord_map::OrdMap;
use crate::order::ascending;
use crate::order::lemma_ascending_prefix;
use crate::order::lemma_ascending_unique;
use crate::order::lemma_prefix_contains;
use crate::order::views;
use crate::order::Ordered;

verus! {

/// What the scratch says of one value.
#[derive(Debug, Clone, Copy, PartialEq, Eq, Structural, Hash)]
pub enum KvvOp {
    /// The value is visible, whatever is persisted.
    Insert,
    /// The value is not visible, and is deleted from the persisted set at the flush.
    Delete,
}

/// The staged changes of one key, as a model.
#[verifier::reject_recursive_types(VV)]
pub ghost struct DeltaView<VV> {
    /// Whether everything persisted under the key is hidden, and deleted at the flush.
    pub delete_all: bool,
    /// The marks, by value.
    pub deltas: Map<VV, KvvOp>,
}

/// The staged changes of one key.
#[derive(Debug, PartialEq, Eq)]
pub struct ValuesDelta<V: Ordered> {
    pub delete_all: bool,
    pub deltas: OrdMap<V, KvvOp>,
}

impl<V: Ordered> View for ValuesDelta<V> {
    type V = DeltaView<V::V>;

    open spec fn view(&self) -> DeltaView<V::V> {
        DeltaView { delete_all: self.delete_all, deltas: self.deltas@ }
    }
}

impl<V: Ordered> ValuesDelta<V> {
    /// The marks are held in ascending order of their values.
    pub open spec fn well_formed(&self) -> bool {
        self.deltas.well_formed()
    }

    /// No change.
    pub fn new() -> (delta: Self)
        ensures
            delta.well_formed(),
            delta@ == no_change::<V::V>(),
    {
        ValuesDelta { delete_all: false, deltas: OrdMap::new() }
    }

    /// Everything persisted is to go, and nothing is inserted.
    pub fn all_deleted() -> (delta: Self)
        ensures
            delta.well_formed(),
            delta@ == all_gone::<V::V>(),
    {
        ValuesDelta { delete_all: true, deltas: OrdMap::new() }
    }
}

/// The log that changes nothing.
pub open spec fn no_change<VV>() -> DeltaView<VV> {
    DeltaView { delete_all: false, deltas: Map::empty() }
}

/// The log that hides everything persisted and inserts nothing.
pub open spec fn all_gone<VV>() -> DeltaView<VV> {
    DeltaView { delete_all: true, deltas: Map::empty() }
}

/// The log of a key: what the scratch holds for it, if anything.
pub open spec fn delta_at<KV, VV>(scratch: Map<KV, DeltaView<VV>>, key: KV) -> Option<
    DeltaView<VV>,
> {
    if scratch.contains_key(key) {
        Some(scratch[key])
    } else {
        None
    }
}

/// The log of a key, where a key without a log has the log that changes nothing.
pub open spec fn delta_or_none<KV, VV>(scratch: Map<KV, DeltaView<VV>>, key: KV) -> DeltaView<VV> {
    if scratch.contains_key(key) {
        scratch[key]
    } else {
        no_change()
    }
}

/// The persisted set of a key overlaid with the log of that key. A marked
/// value is visible exactly if its mark is `Insert`. An unmarked value is
/// visible exactly if it is persisted and the log does not hide all that is
/// persisted.
pub open spec fn overlay<VV>(delta: Option<DeltaView<VV>>, persisted: Set<VV>) -> Set<VV> {
    match delta {
        None => persisted,
        Some(d) => Set::new(
            |v: VV|
                if d.deltas.contains_key(v) {
                    d.deltas[v] == KvvOp::Insert
                } else {
                    !d.delete_all && persisted.contains(v)
                },
        ),
    }
}

/// The scratch after an insert: the value is marked `Insert` in the log of the key.
pub open spec fn scratch_insert<KV, VV>(
    scratch: Map<KV, DeltaView<VV>>,
    key: KV,
    value: VV,
) -> Map<KV, DeltaView<VV>> {
    let d = delta_or_none(scratch, key);
    scratch.insert(key, DeltaView { deltas: d.deltas.insert(value, KvvOp::Insert), ..d })
}

/// The scratch after a delete. Where the value is persisted, it is marked
/// `Delete`, so that the flush deletes it. Where it exists in the scratch
/// only, its mark is dropped from the log.
pub open spec fn scratch_delete<KV, VV>(
    scratch: Map<KV, DeltaView<VV>>,
    persisted: Set<VV>,
    key: KV,
    value: VV,
) -> Map<KV, DeltaView<VV>> {
    let d = delta_or_none(scratch, key);
    if persisted.contains(value) {
        scratch.insert(key, DeltaView { deltas: d.deltas.insert(value, KvvOp::Delete), ..d })
    } else {
        scratch.insert(key, DeltaView { deltas: d.deltas.remove(value), ..d })
    }
}

/// The scratch after a delete of all values of a key: the earlier log of the
/// key is discarded, and everything persisted under the key is hidden.
pub open spec fn scratch_delete_all<KV, VV>(scratch: Map<KV, DeltaView<VV>>, key: KV) -> Map<
    KV,
    DeltaView<VV>,
> {
    scratch.insert(key, all_gone())
}

/// A multi-value store that stages its writes. It reads from the persisted
/// data as they were when it was opened.
#[derive(Debug, PartialEq, Eq)]
pub struct KvvBufUsed<K: Ordered, V: Ordered> {
    db: MultiStore<K, V>,
    scratch: OrdMap<K, ValuesDelta<V>>,
}

impl<K: Ordered, V: Ordered> KvvBufUsed<K, V> {
    /// The persisted data and every log are held in ascending order.
    pub closed spec fn well_formed(&self) -> bool {
        &&& self.db.well_formed()
        &&& self.scratch.well_formed()
        &&& forall|k: K::V| #[trigger]
            self.scratch@.contains_key(k) ==> self.scratch@[k].well_formed()
    }

    /// The staged changes, by key.
    pub closed spec fn scratch_view(&self) -> Map<K::V, DeltaView<V::V>> {
        Map::new(|k: K::V| self.scratch@.contains_key(k), |k: K::V| self.scratch@[k]@)
    }

    /// What is persisted under a key, as the store read it when it was opened.
    pub closed spec fn persisted(&self, key: K::V) -> Set<V::V> {
        self.db.values(key)
    }

    /// What a reader of the store sees under a key.
    pub open spec fn visible(&self, key: K::V) -> Set<V::V> {
        overlay(delta_at(self.scratch_view(), key), self.persisted(key))
    }

    /// Opens a store over persisted data, with an empty scratch.
    pub fn new(db: MultiStore<K, V>) -> (store: Self)
        requires
            db.well_formed(),
        ensures
            store.well_formed(),
            store.scratch_view() == Map::<K::V, DeltaView<V::V>>::empty(),
            forall|k: K::V| store.persisted(k) == db.values(k),
    {
        let store = KvvBufUsed { db, scratch: OrdMap::new() };
        assert(store.scratch_view() =~= Map::<K::V, DeltaView<V::V>>::empty());
        store
    }

    /// Whether nothing is staged.
    pub fn is_clean(&self) -> (clean: bool)
        requires
            self.well_formed(),
        ensures
            clean == (self.scratch_view() == Map::<K::V, DeltaView<V::V>>::empty()),
    {
        let clean = self.scratch.len() == 0;
        proof {
            self.scratch.lemma_view();
            if clean {
                assert(self.scratch_view() =~= Map::<K::V, DeltaView<V::V>>::empty());
            } else {
                assert(self.scratch_view().contains_key(self.scratch.key_seq()[0]));
            }
        }
        clean
    }

    /// The staged changes of a key, if the key was written.
    pub fn staged(&self, key: &K) -> (delta: Option<&ValuesDelta<V>>)
        requires
            self.well_formed(),
        ensures
            match delta {
                Some(d) => d.well_formed() && delta_at(self.scratch_view(), key@) == Some(d@),
                None => delta_at(self.scratch_view(), key@) is None,
            },
    {
        self.scratch.get(key)
    }

    /// The values that are visible under a key, in ascending order, each once.
    pub fn get(&self, key: &K) -> (values: Vec<V>)
        requires
            self.well_formed(),
        ensures
            ascending::<V>(views(values@)),
            forall|v: V::V| views(values@).contains(v) <==> self.visible(key@).contains(v),
    {
        match self.scratch.get(key) {
            None => self.db.get(key),
            Some(delta) => {
                let mut out: OrdMap<V, ()> = OrdMap::new();
                let ghost marks = delta.deltas.key_seq();
                let mut i: usize = 0;
                proof {
                    delta.deltas.lemma_view();
                }
                while i < delta.deltas.len()
                    invariant
                        delta.deltas.well_formed(),
                        marks == delta.deltas.key_seq(),
                        out.well_formed(),
                        i <= marks.len(),
                        forall|v: V::V|
                            out@.contains_key(v) <==> (marks.subrange(0, i as int).contains(v)
                                && delta.deltas@[v] == KvvOp::Insert),
                    decreases marks.len() - i,
                {
                    proof {
                        delta.deltas.lemma_view();
                        assert forall|v: V::V|
                            marks.subrange(0, i + 1).contains(v) <==> (marks.subrange(
                                0,
                                i as int,
                            ).contains(v) || marks[i as int] == v) by {
                            lemma_prefix_contains(marks, i as int, v);
                        }
                    }
                    match delta.deltas.value_at(i) {
                        KvvOp::Insert => {
                            out.insert(delta.deltas.key_at(i).duplicate(), ());
                        },
                        KvvOp::Delete => {},
                    }
                    i += 1;
                }
                proof {
                    assert(marks.subrange(0, i as int) =~= marks);
                }
                if !delta.delete_all {
                    let held = self.db.get(key);
                    let mut n: usize = 0;
                    while n < held.len()
                        invariant
                            delta.deltas.well_formed(),
                            out.well_formed(),
                            n <= held.len(),
                            forall|v: V::V|
                                out@.contains_key(v) <==> ((marks.contains(v) && delta.deltas@[v]
                                    == KvvOp::Insert) || (views(held@).subrange(
                                    0,
                                    n as int,
                                ).contains(v) && !delta.deltas@.contains_key(v))),
                        decreases held.len() - n,
                    {
                        let ghost earlier = out@;
                        if !delta.deltas.contains_key(&held[n]) {
                            out.insert(held[n].duplicate(), ());
                        }
                        proof {
                            assert(views(held@)[n as int] == held[n as int]@);
                            assert forall|v: V::V|
                                out@.contains_key(v) <==> ((marks.contains(v) && delta.deltas@[v]
                                    == KvvOp::Insert) || (views(held@).subrange(
                                    0,
                                    n + 1,
                                ).contains(v) && !delta.deltas@.contains_key(v))) by {
                                lemma_prefix_contains(views(held@), n as int, v);
                                assert(earlier.contains_key(v) <==> ((marks.contains(v)
                                    && delta.deltas@[v] == KvvOp::Insert) || (views(
                                    held@,
                                ).subrange(0, n as int).contains(v)
                                    && !delta.deltas@.contains_key(v))));
                            }
                        }
                        n += 1;
                    }
                    proof {
                        assert(views(held@).subrange(0, n as int) =~= views(held@));
                    }
                }
                proof {
                    out.lemma_view();
                    delta.deltas.lemma_view();
                }
                out.keys()
            },
        }
    }

    /// Makes a value visible under a key. The value is marked `Insert` even
    /// where it is visible already.
    pub fn insert(&mut self, key: K, value: V)
        requires
            old(self).well_formed(),
        ensures
            final(self).well_formed(),
            final(self).scratch_view() == scratch_insert(old(self).scratch_view(), key@, value@),
            forall|k: K::V| final(self).persisted(k) == old(self).persisted(k),
    {
        let mut delta = match self.scratch.remove(&key) {
            Some(delta) => delta,
            None => ValuesDelta::new(),
        };
        delta.deltas.insert(value, KvvOp::Insert);
        self.scratch.insert(key, delta);
        assert(self.scratch_view() =~= scratch_insert(old(self).scratch_view(), key@, value@));
    }

    /// Makes a value invisible under a key.
    pub fn delete(&mut self, key: K, value: V)
        requires
            old(self).well_formed(),
        ensures
            final(self).well_formed(),
            final(self).scratch_view() == scratch_delete(
                old(self).scratch_view(),
                old(self).persisted(key@),
                key@,
                value@,
            ),
            forall|k: K::V| final(self).persisted(k) == old(self).persisted(k),
    {
        let mut delta = match self.scratch.remove(&key) {
            Some(delta) => delta,
            None => ValuesDelta::new(),
        };
        if self.db.contains(&key, &value) {
            delta.deltas.insert(value, KvvOp::Delete);
        } else {
            delta.deltas.remove(&value);
        }
        self.scratch.insert(key, delta);
        assert(self.scratch_view() =~= scratch_delete(
            old(self).scratch_view(),
            old(self).persisted(key@),
            key@,
            value@,
        ));
    }

    /// Makes every value invisible under a key, the persisted ones and those
    /// staged so far.
    pub fn delete_all(&mut self, key: K)
        requires
            old(self).well_formed(),
        ensures
            final(self).well_formed(),
            final(self).scratch_view() == scratch_delete_all(old(self).scratch_view(), key@),
            forall|k: K::V| final(self).persisted(k) == old(self).persisted(k),
    {
        self.scratch.insert(key, ValuesDelta::all_deleted());
        assert(self.scratch_view() =~= scratch_delete_all(old(self).scratch_view(), key@));
    }

    /// Writes the staged changes to the persisted multi-map and ends the
    /// store. Under every key the multi-map then holds its earlier values
    /// overlaid with the log of the key.
    pub fn flush_to_txn(self, writer: &mut MultiStore<K, V>)
        requires
            self.well_formed(),
            old(writer).well_formed(),
        ensures
            final(writer).well_formed(),
            forall|k: K::V|
                final(writer).values(k) == overlay(
                    delta_at(self.scratch_view(), k),
                    old(writer).values(k),
                ),
    {
        let ghost keys = self.scratch.key_seq();
        let ghost start = *writer;
        let mut i: usize = 0;
        while i < self.scratch.len()
            invariant
                self.well_formed(),
                writer.well_formed(),
                keys == self.scratch.key_seq(),
                i <= keys.len(),
                forall|k: K::V|
                    writer.values(k) == (if keys.subrange(0, i as int).contains(k) {
                        overlay(delta_at(self.scratch_view(), k), start.values(k))
                    } else {
                        start.values(k)
                    }),
            decreases keys.len() - i,
        {
            let key = self.scratch.key_at(i);
            let delta = self.scratch.value_at(i);
            proof {
                self.scratch.lemma_view();
                lemma_ascending_prefix::<K>(keys, i as int);
                delta.deltas.lemma_view();
                assert(self.scratch@.contains_key(key@));
                assert(delta_at(self.scratch_view(), key@) == Some(delta@));
            }
            let ghost before = *writer;
            if delta.delete_all {
                writer.delete_all(key);
            }
            let ghost base = writer.values(key@);
            let ghost marks = delta.deltas.key_seq();
            let mut j: usize = 0;
            while j < delta.deltas.len()
                invariant
                    delta.deltas.well_formed(),
                    writer.well_formed(),
                    marks == delta.deltas.key_seq(),
                    j <= marks.len(),
                    delta.delete_all ==> base == Set::<V::V>::empty(),
                    forall|k: K::V| k != key@ ==> writer.values(k) == before.values(k),
                    forall|v: V::V|
                        writer.values(key@).contains(v) <==> (if marks.subrange(
                            0,
                            j as int,
                        ).contains(v) {
                            delta.deltas@[v] == KvvOp::Insert
                        } else {
                            base.contains(v)
                        }),
                decreases marks.len() - j,
            {
                proof {
                    delta.deltas.lemma_view();
                    lemma_ascending_prefix::<V>(marks, j as int);
                    assert forall|v: V::V|
                        marks.subrange(0, j + 1).contains(v) <==> (marks.subrange(
                            0,
                            j as int,
                        ).contains(v) || marks[j as int] == v) by {
                        lemma_prefix_contains(marks, j as int, v);
                    }
                }
                let value = delta.deltas.key_at(j);
                match delta.deltas.value_at(j) {
                    KvvOp::Insert => {
                        writer.put(key.duplicate(), value.duplicate());
                    },
                    KvvOp::Delete => {
                        if !delta.delete_all {
                            writer.delete(key, value);
                        }
                    },
                }
                j += 1;
            }
            proof {
                assert(marks.subrange(0, j as int) =~= marks);
                assert(writer.values(key@) =~= overlay(Some(delta@), start.values(key@)));
                assert forall|k: K::V|
                    writer.values(k) == (if keys.subrange(0, i + 1).contains(k) {
                        overlay(delta_at(self.scratch_view(), k), start.values(k))
                    } else {
                        start.values(k)
                    }) by {
                    lemma_prefix_contains(keys, i as int, k);
                    if k == key@ {
                        assert(keys[i as int] == k);
                        assert(delta_at(self.scratch_view(), k) == Some(delta@));
                    } else {
                        assert(writer.values(k) == before.values(k));
                    }
                }
            }
            i += 1;
        }
        proof {
            self.scratch.lemma_view();
            assert(keys.subrange(0, i as int) =~= keys);
        }
    }
}

/// What a reader sees under a key, given the scratch and what is persisted
/// under the key.
pub open spec fn seen<KV, VV>(scratch: Map<KV, DeltaView<VV>>, persisted: Set<VV>, key: KV) -> Set<
    VV,
> {
    overlay(delta_at(scratch, key), persisted)
}

/// What a store that is opened after a flush sees under a key: its scratch is
/// empty, and what is persisted is what the flush wrote.
pub open spec fn seen_after_flush<KV, VV>(
    scratch: Map<KV, DeltaView<VV>>,
    persisted: Set<VV>,
    key: KV,
) -> Set<VV> {
    seen(Map::<KV, DeltaView<VV>>::empty(), seen(scratch, persisted, key), key)
}

/// A flush changes nothing of what is visible: a store that is opened over
/// the flushed data sees under every key what the flushed store saw.
pub proof fn lemma_flush_keeps_visible<KV, VV>(
    scratch: Map<KV, DeltaView<VV>>,
    persisted: Set<VV>,
    key: KV,
)
    ensures
        seen_after_flush(scratch, persisted, key) == seen(scratch, persisted, key),
{
}

/// An insert adds the value to what is visible under the key, and changes
/// nothing under another key.
pub proof fn lemma_insert_visible<KV, VV>(
    scratch: Map<KV, DeltaView<VV>>,
    persisted: Set<VV>,
    key: KV,
    value: VV,
    other: KV,
)
    ensures
        seen(scratch_insert(scratch, key, value), persisted, key) == seen(
            scratch,
            persisted,
            key,
        ).insert(value),
        other != key ==> seen(scratch_insert(scratch, key, value), persisted, other) == seen(
            scratch,
            persisted,
            other,
        ),
{
    assert(seen(scratch_insert(scratch, key, value), persisted, key) =~= seen(
        scratch,
        persisted,
        key,
    ).insert(value));
}

/// A delete takes the value away from what is visible under the key, and
/// changes nothing under another key.
pub proof fn lemma_delete_visible<KV, VV>(
    scratch: Map<KV, DeltaView<VV>>,
    persisted: Set<VV>,
    key: KV,
    value: VV,
    other: KV,
)
    ensures
        seen(scratch_delete(scratch, persisted, key, value), persisted, key) == seen(
            scratch,
            persisted,
            key,
        ).remove(value),
        other != key ==> seen(
            scratch_delete(scratch, persisted, key, value),
            persisted,
            other,
        ) == seen(scratch, persisted, other),
{
    assert(seen(scratch_delete(scratch, persisted, key, value), persisted, key) =~= seen(
        scratch,
        persisted,
        key,
    ).remove(value));
}

/// After a delete of all values nothing is visible under the key, whatever
/// was persisted or staged, and nothing changes under another key.
pub proof fn lemma_delete_all_visible<KV, VV>(
    scratch: Map<KV, DeltaView<VV>>,
    persisted: Set<VV>,
    key: KV,
    other: KV,
)
    ensures
        seen(scratch_delete_all(scratch, key), persisted, key) == Set::<VV>::empty(),
        other != key ==> seen(scratch_delete_all(scratch, key), persisted, other) == seen(
            scratch,
            persisted,
            other,
        ),
{
    assert(seen(scratch_delete_all(scratch, key), persisted, key) =~= Set::<VV>::empty());
}

/// A value inserted into a fresh store over empty data is, after the flush,
/// exactly what a newly opened store sees under the key. Over data that held
/// values already, the value joins them.
pub proof fn lemma_round_trip<KV, VV>(persisted: Set<VV>, key: KV, value: VV)
    ensures
        seen_after_flush(
            scratch_insert(Map::<KV, DeltaView<VV>>::empty(), key, value),
            persisted,
            key,
        ) == persisted.insert(value),
        persisted == Set::<VV>::empty() ==> seen_after_flush(
            scratch_insert(Map::<KV, DeltaView<VV>>::empty(), key, value),
            persisted,
            key,
        ) == set![value],
{
    lemma_insert_visible(Map::<KV, DeltaView<VV>>::empty(), persisted, key, value, key);
    assert(persisted.insert(value) =~= seen(
        Map::<KV, DeltaView<VV>>::empty(),
        persisted,
        key,
    ).insert(value));
    if persisted == Set::<VV>::empty() {
        assert(persisted.insert(value) =~= set![value]);
    }
}

/// Inserting a value a second time changes neither the scratch nor what is
/// visible, and a value that is visible once is visible once.
pub proof fn lemma_insert_idempotent<KV, VV>(
    scratch: Map<KV, DeltaView<VV>>,
    persisted: Set<VV>,
    key: KV,
    value: VV,
)
    ensures
        scratch_insert(scratch_insert(scratch, key, value), key, value) == scratch_insert(
            scratch,
            key,
            value,
        ),
        seen(scratch_insert(scratch, key, value), persisted, key).contains(value),
        seen(scratch, persisted, key).contains(value) ==> seen(
            scratch_insert(scratch, key, value),
            persisted,
            key,
        ) == seen(scratch, persisted, key),
{
    let once = scratch_insert(scratch, key, value);
    assert(once[key].deltas.insert(value, KvvOp::Insert) =~= once[key].deltas);
    assert(scratch_insert(once, key, value) =~= once);
    lemma_insert_visible(scratch, persisted, key, value, key);
    if seen(scratch, persisted, key).contains(value) {
        assert(seen(scratch, persisted, key).insert(value) =~= seen(scratch, persisted, key));
    }
}

/// A value that is inserted and deleted again in the same scratch is not
/// visible, before the flush and after it. If nothing else was visible under
/// the key, nothing is.
pub proof fn lemma_insert_then_delete<KV, VV>(
    scratch: Map<KV, DeltaView<VV>>,
    persisted: Set<VV>,
    key: KV,
    value: VV,
)
    ensures
        seen(
            scratch_delete(scratch_insert(scratch, key, value), persisted, key, value),
            persisted,
            key,
        ) == seen(scratch, persisted, key).remove(value),
        seen_after_flush(
            scratch_delete(scratch_insert(scratch, key, value), persisted, key, value),
            persisted,
            key,
        ) == seen(scratch, persisted, key).remove(value),
        seen(scratch, persisted, key).subset_of(set![value]) ==> seen(
            scratch_delete(scratch_insert(scratch, key, value), persisted, key, value),
            persisted,
            key,
        ) == Set::<VV>::empty(),
{
    let inserted = scratch_insert(scratch, key, value);
    lemma_insert_visible(scratch, persisted, key, value, key);
    lemma_delete_visible(inserted, persisted, key, value, key);
    assert(seen(scratch, persisted, key).insert(value).remove(value) =~= seen(
        scratch,
        persisted,
        key,
    ).remove(value));
    if seen(scratch, persisted, key).subset_of(set![value]) {
        assert(seen(scratch, persisted, key).remove(value) =~= Set::<VV>::empty());
    }
}

/// After a delete of all values and one insert, exactly the inserted value is
/// visible under the key, whatever was persisted or staged before, and that
/// before the flush as after it.
pub proof fn lemma_delete_all_then_insert<KV, VV>(
    scratch: Map<KV, DeltaView<VV>>,
    persisted: Set<VV>,
    key: KV,
    value: VV,
)
    ensures
        seen(scratch_insert(scratch_delete_all(scratch, key), key, value), persisted, key)
            == set![value],
        seen_after_flush(
            scratch_insert(scratch_delete_all(scratch, key), key, value),
            persisted,
            key,
        ) == set![value],
{
    let cleared = scratch_delete_all(scratch, key);
    lemma_delete_all_visible(scratch, persisted, key, key);
    lemma_insert_visible(cleared, persisted, key, value, key);
    assert(Set::<VV>::empty().insert(value) =~= set![value]);
}

/// What `get` returns is determined by what is visible: two ascending
/// sequences that hold exactly the visible values are the same sequence.
pub proof fn lemma_get_is_determined<V: Ordered>(
    first: Seq<V::V>,
    second: Seq<V::V>,
    visible: Set<V::V>,
)
    requires
        ascending::<V>(first),
        ascending::<V>(second),
        forall|v: V::V| first.contains(v) <==> visible.contains(v),
        forall|v: V::V| second.contains(v) <==> visible.contains(v),
    ensures
        first == second,
{
    lemma_ascending_unique::<V>(first, second);
}

/// The values that a log marks as inserted.
pub open spec fn inserted<VV>(delta: DeltaView<VV>) -> Set<VV> {
    Set::new(|v: VV| delta.deltas.contains_key(v) && delta.deltas[v] == KvvOp::Insert)
}

/// The values that a log marks as deleted.
pub open spec fn deleted<VV>(delta: DeltaView<VV>) -> Set<VV> {
    Set::new(|v: VV| delta.deltas.contains_key(v) && delta.deltas[v] == KvvOp::Delete)
}

/// What is visible is what is persisted or inserted, less what is deleted;
/// and nothing of what is persisted counts once all of it was deleted.
pub proof fn lemma_overlay_is_union_less_deleted<VV>(delta: DeltaView<VV>, persisted: Set<VV>)
    ensures
        overlay(Some(delta), persisted) == (if delta.delete_all {
            Set::<VV>::empty()
        } else {
            persisted
        }).union(inserted(delta)).difference(deleted(delta)),
        overlay(None::<DeltaView<VV>>, persisted) == persisted,
{
    assert(overlay(Some(delta), persisted) =~= (if delta.delete_all {
        Set::<VV>::empty()
    } else {
        persisted
    }).union(inserted(delta)).difference(deleted(delta)));
}

} // verus!
