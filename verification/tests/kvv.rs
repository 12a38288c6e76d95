use holochain_state::buffer::kvv::KvvBufUsed;
use holochain_state::buffer::kvv::KvvOp;
use holochain_state::buffer::multi::MultiStore;

type DbString = Vec<u8>;
type V = u32;
type Store = KvvBufUsed<DbString, V>;
type Db = MultiStore<DbString, V>;

fn key(s: &str) -> DbString {
    s.as_bytes().to_vec()
}

fn test_buf(a: &Store, b: impl Iterator<Item = (DbString, Vec<(V, KvvOp)>)>) {
    for (k, v) in b {
        let val = a.staged(&k).expect("Missing key");
        for (value, op) in v {
            let found = val.deltas.get(&value).expect("Missing key");
            assert_eq!(*found, op);
        }
    }
}

fn test_persisted(a: &Db, b: impl Iterator<Item = (DbString, Vec<V>)>) {
    for (k, v) in b {
        assert_eq!(collect_sorted(a.get(&k)), v);
    }
}

fn collect_sorted(values: Vec<V>) -> Vec<V> {
    let mut vec = values;
    vec.sort_unstable();
    vec
}

#[test]
fn kvvbuf_basics() {
    let mut db = Db::new();

    {
        let mut store: Store = Store::new(db.duplicate());
        assert_eq!(store.get(&key("key")), Vec::<V>::new());

        store.delete(key("key"), 0);
        assert_eq!(store.get(&key("key")), Vec::<V>::new());

        store.insert(key("key"), 0);
        assert_eq!(store.get(&key("key")), vec![0]);

        store.flush_to_txn(&mut db);
    }

    {
        let mut store: Store = Store::new(db.duplicate());
        assert_eq!(store.get(&key("key")), vec![0]);

        store.insert(key("key"), 0);
        assert_eq!(store.get(&key("key")), vec![0]);

        store.delete(key("key"), 0);
        assert_eq!(store.get(&key("key")), Vec::<V>::new());

        store.flush_to_txn(&mut db);
    }

    {
        let store: Store = Store::new(db.duplicate());
        assert_eq!(store.get(&key("key")), Vec::<V>::new());
    }
}

#[test]
fn delete_all() {
    let mut db = Db::new();

    {
        let mut store: Store = Store::new(db.duplicate());
        assert_eq!(store.get(&key("key")), Vec::<V>::new());

        store.insert(key("key"), 0);
        assert_eq!(store.get(&key("key")), vec![0]);

        store.insert(key("key"), 1);
        assert_eq!(collect_sorted(store.get(&key("key"))), vec![0, 1]);

        store.flush_to_txn(&mut db);
    }

    {
        let mut store: Store = Store::new(db.duplicate());
        assert_eq!(collect_sorted(store.get(&key("key"))), vec![0, 1]);

        store.insert(key("key"), 2);
        assert_eq!(collect_sorted(store.get(&key("key"))), vec![0, 1, 2]);

        store.delete_all(key("key"));
        assert_eq!(store.get(&key("key")), Vec::<V>::new());

        store.insert(key("key"), 3);
        assert_eq!(store.get(&key("key")), vec![3]);

        store.flush_to_txn(&mut db);
    }

    {
        let store: Store = Store::new(db.duplicate());
        assert_eq!(store.get(&key("key")), vec![3]);
    }
}

/// Duplicates are not returned on get, whatever stands before and after the
/// repeated operation, persisted or staged.
#[test]
fn idempotent_inserts() {
    let mut db = Db::new();

    {
        let mut store: Store = Store::new(db.duplicate());
        assert_eq!(collect_sorted(store.get(&key("key"))), Vec::<V>::new());

        store.insert(key("key"), 2);
        assert_eq!(collect_sorted(store.get(&key("key"))), vec![2]);

        store.insert(key("key"), 1);
        assert_eq!(collect_sorted(store.get(&key("key"))), vec![1, 2]);

        store.insert(key("key"), 1);
        assert_eq!(collect_sorted(store.get(&key("key"))), vec![1, 2]);

        store.insert(key("key"), 0);
        assert_eq!(collect_sorted(store.get(&key("key"))), vec![0, 1, 2]);

        store.flush_to_txn(&mut db);
    }

    {
        let mut store: Store = Store::new(db.duplicate());
        assert_eq!(collect_sorted(store.get(&key("key"))), vec![0, 1, 2]);

        store.insert(key("key"), 1);
        assert_eq!(collect_sorted(store.get(&key("key"))), vec![0, 1, 2]);
    }
}

#[test]
fn kvv_indicate_value_appends() {
    let db = Db::new();
    let mut buf = Store::new(db.duplicate());

    buf.insert(key("a"), 1);
    assert_eq!(buf.get(&key("a")).into_iter().next().unwrap(), 1);
    buf.insert(key("a"), 2);
    assert_eq!(collect_sorted(buf.get(&key("a"))), vec![1, 2]);
}

#[test]
fn kvv_indicate_value_overwritten() {
    let db = Db::new();
    let mut buf = Store::new(db.duplicate());

    buf.insert(key("a"), 1);
    assert_eq!(buf.get(&key("a")).into_iter().next().unwrap(), 1);
    buf.delete_all(key("a"));
    buf.insert(key("a"), 2);
    assert_eq!(buf.get(&key("a")).into_iter().next().unwrap(), 2);
    buf.delete(key("a"), 2);
    buf.insert(key("a"), 3);
    assert_eq!(buf.get(&key("a")).into_iter().next().unwrap(), 3);
}

#[test]
fn kvv_deleted_persisted() {
    let mut db = Db::new();

    {
        let mut buf = Store::new(db.duplicate());

        buf.insert(key("a"), 1);
        buf.insert(key("b"), 2);
        buf.insert(key("c"), 3);

        buf.flush_to_txn(&mut db);
    }
    {
        let mut buf: Store = Store::new(db.duplicate());

        buf.delete(key("b"), 2);

        buf.flush_to_txn(&mut db);
    }
    test_persisted(
        &db,
        [(key("a"), vec![1]), (key("c"), vec![3])].iter().cloned(),
    );
    assert_eq!(db.get(&key("b")), Vec::<V>::new());
}

#[test]
fn kvv_deleted_buffer() {
    let mut db = Db::new();

    {
        let mut buf = Store::new(db.duplicate());

        buf.insert(key("a"), 5);
        buf.insert(key("b"), 4);
        buf.insert(key("c"), 9);
        test_buf(
            &buf,
            [
                (key("a"), vec![(5, KvvOp::Insert)]),
                (key("b"), vec![(4, KvvOp::Insert)]),
                (key("c"), vec![(9, KvvOp::Insert)]),
            ]
            .iter()
            .cloned(),
        );
        buf.delete(key("b"), 4);
        test_buf(
            &buf,
            [(key("a"), vec![(5, KvvOp::Insert)]), (key("c"), vec![(9, KvvOp::Insert)])]
                .iter()
                .cloned(),
        );
        // the value existed in the scratch only: its mark is gone from the log
        let staged = buf.staged(&key("b")).expect("Missing key");
        assert_eq!(staged.deltas.get(&4), None);
        assert!(!staged.delete_all);

        buf.flush_to_txn(&mut db);
    }
    test_persisted(
        &db,
        [(key("a"), vec![5]), (key("c"), vec![9])].iter().cloned(),
    );
    assert_eq!(db.get(&key("b")), Vec::<V>::new());
}

#[test]
fn kvv_delete_of_persisted_value_queues_a_tombstone() {
    let mut db = Db::new();
    db.put(key("b"), 4);

    let mut buf = Store::new(db.duplicate());
    buf.insert(key("b"), 4);
    buf.delete(key("b"), 4);
    test_buf(&buf, [(key("b"), vec![(4, KvvOp::Delete)])].iter().cloned());
    assert_eq!(buf.get(&key("b")), Vec::<V>::new());

    // a value that is not persisted leaves no mark behind
    buf.delete_all(key("b"));
    buf.insert(key("b"), 5);
    buf.delete(key("b"), 5);
    buf.insert(key("b"), 4);
    buf.delete(key("b"), 4);
    let staged = buf.staged(&key("b")).expect("Missing key");
    assert!(staged.delete_all);
    assert_eq!(staged.deltas.get(&5), None);
    assert_eq!(staged.deltas.get(&4), Some(&KvvOp::Delete));
    assert_eq!(buf.get(&key("b")), Vec::<V>::new());

    buf.flush_to_txn(&mut db);
    assert_eq!(db.get(&key("b")), Vec::<V>::new());
}

#[test]
fn kvv_get_buffer() {
    let db = Db::new();
    let mut buf = Store::new(db.duplicate());

    buf.insert(key("a"), 5);
    buf.insert(key("b"), 4);
    buf.insert(key("c"), 9);
    let mut n = buf.get(&key("b")).into_iter();
    assert_eq!(n.next(), Some(4));
}

#[test]
fn kvv_get_persisted() {
    let mut db = Db::new();

    {
        let mut buf = Store::new(db.duplicate());

        buf.insert(key("a"), 1);
        buf.insert(key("b"), 2);
        buf.insert(key("c"), 3);

        buf.flush_to_txn(&mut db);
    }

    let buf = Store::new(db.duplicate());

    let mut n = buf.get(&key("b")).into_iter();
    assert_eq!(n.next(), Some(2));
}

#[test]
fn kvv_get_del_buffer() {
    let db = Db::new();
    let mut buf = Store::new(db.duplicate());

    buf.insert(key("a"), 5);
    buf.insert(key("b"), 4);
    buf.insert(key("c"), 9);
    buf.delete(key("b"), 4);
    let mut n = buf.get(&key("b")).into_iter();
    assert_eq!(n.next(), None);
}

#[test]
fn kvv_get_del_persisted() {
    let mut db = Db::new();

    {
        let mut buf = Store::new(db.duplicate());

        buf.insert(key("a"), 1);
        buf.insert(key("b"), 2);
        buf.insert(key("c"), 3);

        buf.flush_to_txn(&mut db);
    }

    {
        let mut buf: Store = Store::new(db.duplicate());

        buf.delete(key("b"), 2);
        {
            let mut n = buf.get(&key("b")).into_iter();
            assert_eq!(n.next(), None);
        }

        buf.flush_to_txn(&mut db);
    }

    let buf: Store = Store::new(db.duplicate());

    let mut n = buf.get(&key("b")).into_iter();
    assert_eq!(n.next(), None);
}

#[test]
fn kvv_round_trip_yields_exactly_the_value() {
    let mut db = Db::new();
    let mut store = Store::new(db.duplicate());
    store.insert(key("K"), 7);
    store.flush_to_txn(&mut db);

    let fresh = Store::new(db.duplicate());
    assert!(fresh.is_clean());
    assert_eq!(fresh.get(&key("K")), vec![7]);
    assert_eq!(fresh.get(&key("L")), Vec::<V>::new());
}

#[test]
fn kvv_insert_twice_yields_one_value() {
    let db = Db::new();
    let mut store = Store::new(db.duplicate());
    store.insert(key("K"), 7);
    store.insert(key("K"), 7);
    assert_eq!(store.get(&key("K")), vec![7]);
}

#[test]
fn kvv_insert_then_delete_is_empty_before_and_after_flush() {
    let mut db = Db::new();
    let mut store = Store::new(db.duplicate());
    assert!(store.is_clean());
    store.insert(key("K"), 7);
    assert!(!store.is_clean());
    store.delete(key("K"), 7);
    assert_eq!(store.get(&key("K")), Vec::<V>::new());
    store.flush_to_txn(&mut db);
    assert_eq!(Store::new(db.duplicate()).get(&key("K")), Vec::<V>::new());
}

#[test]
fn kvv_delete_all_then_insert_yields_only_the_new_value() {
    let mut db = Db::new();
    db.put(key("K"), 1);
    db.put(key("K"), 2);
    db.put(key("other"), 9);
    assert!(db.contains(&key("K"), &2));

    let mut store = Store::new(db.duplicate());
    assert_eq!(store.get(&key("K")), vec![1, 2]);
    store.delete_all(key("K"));
    store.insert(key("K"), 3);
    assert_eq!(store.get(&key("K")), vec![3]);
    assert_eq!(store.get(&key("other")), vec![9]);
    store.flush_to_txn(&mut db);

    assert_eq!(Store::new(db.duplicate()).get(&key("K")), vec![3]);
    assert_eq!(db.get(&key("K")), vec![3]);
    assert_eq!(db.get(&key("other")), vec![9]);
}

#[test]
fn kvv_get_is_ascending_over_scratch_and_persisted() {
    let mut db = Db::new();
    db.put(key("K"), 40);
    db.put(key("K"), 10);
    db.put(key("K"), 30);

    let mut store = Store::new(db.duplicate());
    store.insert(key("K"), 20);
    store.insert(key("K"), 50);
    store.delete(key("K"), 30);
    assert_eq!(store.get(&key("K")), vec![10, 20, 40, 50]);
}

#[test]
fn multi_store_holds_sets_of_values() {
    let mut db = Db::new();
    db.put(key("a"), 2);
    db.put(key("a"), 1);
    db.put(key("a"), 2);
    assert_eq!(db.get(&key("a")), vec![1, 2]);
    db.delete(&key("a"), &5);
    db.delete(&key("a"), &1);
    assert_eq!(db.get(&key("a")), vec![2]);
    db.delete(&key("missing"), &1);
    db.delete_all(&key("a"));
    assert_eq!(db.get(&key("a")), Vec::<V>::new());
    assert!(!db.contains(&key("a"), &2));
}
