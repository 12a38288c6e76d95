use holochain_state::dht_op::DhtOp;
use holochain_state::dht_op::DhtOpHashed;
use holochain_state::dht_op::DhtOpType;
use holochain_state::dht_op::OpOrder;
use holochain_state::element::Element;
use holochain_state::element::EntryHashed;
use holochain_state::element::HeaderHashed;
use holochain_state::element::SignedHeader;
use holochain_state::element::SignedHeaderHashed;
use holochain_state::entry::CapAccess;
use holochain_state::entry::CapClaim;
use holochain_state::entry::Entry;
use holochain_state::entry::GrantedFunction;
use holochain_state::entry::ZomeCallCapGrant;
use holochain_state::error::DhtOpError;
use holochain_state::error::ErrorKind;
use holochain_state::hash::HoloHash;
use holochain_state::header::AppEntryType;
use holochain_state::header::Create;
use holochain_state::header::CreateLink;
use holochain_state::header::Delete;
use holochain_state::header::DeleteLink;
use holochain_state::header::Dna;
use holochain_state::header::EntryType;
use holochain_state::header::EntryVisibility;
use holochain_state::header::Header;
use holochain_state::header::HeaderCommon;
use holochain_state::header::HeaderType;
use holochain_state::header::NewEntryHeader;
use holochain_state::header::Signature;
use holochain_state::header::Timestamp;
use holochain_state::header::Update;
use holochain_state::mutations::add_one_receipt_count;
use holochain_state::hash::blake2b_256;
use holochain_state::mutations::insert_conductor_state;
use holochain_state::mutations::insert_dna_def;
use holochain_state::mutations::insert_element_scratch;
use holochain_state::mutations::insert_entry;
use holochain_state::mutations::insert_entry_def;
use holochain_state::mutations::insert_header;
use holochain_state::mutations::insert_op;
use holochain_state::mutations::insert_op_lite;
use holochain_state::mutations::insert_op_scratch;
use holochain_state::mutations::insert_validation_receipt;
use holochain_state::mutations::insert_wasm;
use holochain_state::mutations::set_last_publish_time;
use holochain_state::mutations::set_receipt_count;
use holochain_state::mutations::set_require_receipt;
use holochain_state::mutations::set_validation_stage;
use holochain_state::mutations::set_validation_status;
use holochain_state::mutations::set_when_integrated;
use holochain_state::mutations::DatabaseError;
use holochain_state::mutations::StateMutationError;
use holochain_state::mutations::Transaction;
use holochain_state::rows::entry_row;
use holochain_state::rows::header_row;
use holochain_state::rows::CapAccessType;
use holochain_state::scratch::Scratch;
use holochain_state::validation::ValidationLimboStatus;
use holochain_state::validation::ValidationStatus;

fn hash(seed: u8) -> HoloHash {
    HoloHash::from_raw(vec![seed; 36])
}

fn common(seq: u32) -> HeaderCommon {
    HeaderCommon {
        author: hash(0xaa),
        timestamp: Timestamp(1_600_000_000 + seq as i64, 250_000_000),
        header_seq: seq,
        prev_header: hash(seq as u8),
    }
}

fn private_app() -> EntryType {
    EntryType::App(AppEntryType {
        id: 1,
        zome_id: 2,
        visibility: EntryVisibility::Private,
    })
}

fn signed(header: Header, seed: u8) -> SignedHeaderHashed {
    SignedHeaderHashed::with_presigned(
        HeaderHashed::with_pre_hashed(header, hash(seed)),
        Signature(vec![seed; 64]),
    )
}

fn create_header() -> Create {
    Create {
        common: common(3),
        entry_type: private_app(),
        entry_hash: hash(0xe0),
    }
}

fn store_entry_op() -> DhtOpHashed {
    DhtOpHashed::with_pre_hashed(
        DhtOp::StoreEntry(
            Signature(vec![5; 64]),
            NewEntryHeader::Create(create_header()),
            Entry::App(vec![1, 2, 3]),
        ),
        hash(0x0f),
    )
}

#[test]
fn create_header_row_holds_the_entry_columns() {
    let header = Header::Create(create_header());
    let row = header_row(signed(header.clone(), 0x11));
    assert_eq!(row.hash, hash(0x11));
    assert_eq!(row.header_type, HeaderType::Create);
    assert_eq!(row.seq, 3);
    assert_eq!(row.author, hash(0xaa));
    assert_eq!(row.prev_hash, Some(hash(3)));
    assert_eq!(row.entry_hash, Some(hash(0xe0)));
    assert_eq!(row.entry_type, Some(private_app()));
    assert_eq!(row.private_entry, Some(true));
    assert_eq!(row.original_entry_hash, None);
    assert_eq!(row.original_header_hash, None);
    assert_eq!(row.deletes_entry_hash, None);
    assert_eq!(row.deletes_header_hash, None);
    assert_eq!(row.base_hash, None);
    assert_eq!(row.zome_id, None);
    assert_eq!(row.tag, None);
    assert_eq!(row.create_link_hash, None);
    assert_eq!(row.blob, SignedHeader(header, Signature(vec![0x11; 64])));
}

#[test]
fn update_header_row_names_the_original() {
    let header = Header::Update(Update {
        common: common(4),
        original_header_address: hash(0x01),
        original_entry_address: hash(0x02),
        entry_type: EntryType::AgentPubKey,
        entry_hash: hash(0x03),
    });
    let row = header_row(signed(header, 0x12));
    assert_eq!(row.header_type, HeaderType::Update);
    assert_eq!(row.entry_hash, Some(hash(0x03)));
    assert_eq!(row.entry_type, Some(EntryType::AgentPubKey));
    assert_eq!(row.private_entry, Some(false));
    assert_eq!(row.original_entry_hash, Some(hash(0x02)));
    assert_eq!(row.original_header_hash, Some(hash(0x01)));
    assert_eq!(row.deletes_header_hash, None);
}

#[test]
fn delete_header_row_names_what_it_deletes() {
    let header = Header::Delete(Delete {
        common: common(5),
        deletes_address: hash(0x21),
        deletes_entry_address: hash(0x22),
    });
    let row = header_row(signed(header, 0x13));
    assert_eq!(row.header_type, HeaderType::Delete);
    assert_eq!(row.deletes_header_hash, Some(hash(0x21)));
    assert_eq!(row.deletes_entry_hash, Some(hash(0x22)));
    assert_eq!(row.entry_hash, None);
    assert_eq!(row.private_entry, None);
}

#[test]
fn link_header_rows_hold_the_link_columns() {
    let header = Header::CreateLink(CreateLink {
        common: common(6),
        base_address: hash(0x31),
        target_address: hash(0x32),
        zome_id: 200,
        tag: vec![7, 8],
    });
    let row = header_row(signed(header, 0x14));
    assert_eq!(row.header_type, HeaderType::CreateLink);
    assert_eq!(row.base_hash, Some(hash(0x31)));
    assert_eq!(row.zome_id, Some(200));
    assert_eq!(row.tag, Some(vec![7, 8]));
    assert_eq!(row.create_link_hash, None);

    let header = Header::DeleteLink(DeleteLink {
        common: common(7),
        base_address: hash(0x31),
        link_add_address: hash(0x14),
    });
    let row = header_row(signed(header, 0x15));
    assert_eq!(row.header_type, HeaderType::DeleteLink);
    assert_eq!(row.create_link_hash, Some(hash(0x14)));
    assert_eq!(row.base_hash, None);
    assert_eq!(row.tag, None);
}

#[test]
fn dna_header_row_has_no_predecessor() {
    let header = Header::Dna(Dna {
        author: hash(0xaa),
        timestamp: Timestamp(5, 0),
        hash: hash(0xdd),
    });
    let row = header_row(signed(header, 0x16));
    assert_eq!(row.header_type, HeaderType::Dna);
    assert_eq!(row.seq, 0);
    assert_eq!(row.prev_hash, None);
    assert_eq!(row.entry_hash, None);
}

#[test]
fn entry_rows_hold_the_capability_columns() {
    let row = entry_row(EntryHashed::with_pre_hashed(Entry::App(vec![1]), hash(1)));
    assert_eq!(row.hash, hash(1));
    assert_eq!(row.blob, Entry::App(vec![1]));
    assert_eq!(row.tag, None);
    assert_eq!(row.access_type, None);
    assert_eq!(row.grantor, None);
    assert_eq!(row.cap_secret, None);

    let claim = Entry::CapClaim(CapClaim {
        tag: "claim".to_string(),
        grantor: hash(0x66),
        secret: vec![4; 64],
    });
    let row = entry_row(EntryHashed::with_pre_hashed(claim.clone(), hash(2)));
    assert_eq!(row.blob, claim);
    assert_eq!(row.tag, Some("claim".to_string()));
    assert_eq!(row.access_type, None);
    assert_eq!(row.grantor, Some(hash(0x66)));
    assert_eq!(row.cap_secret, Some(vec![4; 64]));

    let functions = vec![GrantedFunction {
        zome: "zome".to_string(),
        function: "call".to_string(),
    }];
    let grant = |access: CapAccess| {
        Entry::CapGrant(ZomeCallCapGrant {
            tag: "grant".to_string(),
            access,
            functions: functions.clone(),
        })
    };
    let row = entry_row(EntryHashed::with_pre_hashed(
        grant(CapAccess::Unrestricted),
        hash(3),
    ));
    assert_eq!(row.tag, Some("grant".to_string()));
    assert_eq!(row.access_type, Some(CapAccessType::Unrestricted));
    assert_eq!(row.cap_secret, None);
    assert_eq!(row.grantor, None);

    let row = entry_row(EntryHashed::with_pre_hashed(
        grant(CapAccess::Transferable {
            secret: vec![5; 64],
        }),
        hash(4),
    ));
    assert_eq!(row.access_type, Some(CapAccessType::Transferable));
    assert_eq!(row.cap_secret, Some(vec![5; 64]));

    let assigned = grant(CapAccess::Assigned {
        secret: vec![6; 64],
        assignees: vec![hash(0x71), hash(0x72)],
    });
    let row = entry_row(EntryHashed::with_pre_hashed(assigned.clone(), hash(5)));
    assert_eq!(row.access_type, Some(CapAccessType::Assigned));
    assert_eq!(row.cap_secret, Some(vec![6; 64]));
    // the assignees and the functions are held in the blob
    assert_eq!(row.blob, assigned);

    assert_eq!(CapAccessType::Unrestricted.name(), "unrestricted");
    assert_eq!(CapAccessType::Transferable.name(), "transferable");
    assert_eq!(CapAccessType::Assigned.name(), "assigned");
}

#[test]
fn insert_op_writes_entry_header_and_op() {
    let mut txn = Transaction::new();
    let op = store_entry_op();
    assert_eq!(insert_op(&mut txn, op, hash(0x11), hash(0xba), true), Ok(()));

    let entry = txn.entry(&hash(0xe0)).unwrap();
    assert_eq!(entry.blob, Entry::App(vec![1, 2, 3]));

    let header = txn.header(&hash(0x11)).unwrap();
    assert_eq!(header.header_type, HeaderType::Create);
    assert_eq!(header.private_entry, Some(true));
    assert_eq!(
        header.blob,
        SignedHeader(Header::Create(create_header()), Signature(vec![5; 64]))
    );

    let row = txn.op(&hash(0x0f)).unwrap();
    assert_eq!(row.hash, hash(0x0f));
    assert_eq!(row.op_type, DhtOpType::StoreEntry);
    assert_eq!(row.basis_hash, hash(0xba));
    assert_eq!(row.header_hash, hash(0x11));
    assert_eq!(row.authored_timestamp_ms, 1_600_000_003_250);
    assert_eq!(
        row.op_order,
        OpOrder {
            order: 0,
            timestamp: Timestamp(1_600_000_003, 250_000_000)
        }
    );
    assert!(row.is_authored);
    assert!(!row.require_receipt);
    assert_eq!(row.blob.op_type, DhtOpType::StoreEntry);
    assert_eq!(row.blob.header_hash, hash(0x11));
    assert_eq!(row.blob.entry_hash, Some(hash(0xe0)));
    assert_eq!(row.blob.basis, hash(0xba));
    assert_eq!(row.validation_status, None);
    assert_eq!(row.validation_stage, None);
    assert_eq!(row.num_validation_attempts, None);
    assert_eq!(row.last_validation_attempt, None);
    assert_eq!(row.when_integrated, None);
    assert_eq!(row.receipt_count, None);
    assert_eq!(row.last_publish_time, None);
}

#[test]
fn insert_op_twice_changes_nothing() {
    let mut once = Transaction::new();
    insert_op(&mut once, store_entry_op(), hash(0x11), hash(0xba), true).unwrap();
    let mut twice = Transaction::new();
    insert_op(&mut twice, store_entry_op(), hash(0x11), hash(0xba), true).unwrap();
    set_receipt_count(&mut twice, hash(0x0f), 4).unwrap();
    set_receipt_count(&mut once, hash(0x0f), 4).unwrap();
    insert_op(&mut twice, store_entry_op(), hash(0x11), hash(0xbb), false).unwrap();
    assert_eq!(once, twice);
    assert_eq!(twice.op(&hash(0x0f)).unwrap().receipt_count, Some(4));
}

#[test]
fn insert_op_without_entry_writes_no_entry() {
    let mut txn = Transaction::new();
    let header = Header::Delete(Delete {
        common: common(5),
        deletes_address: hash(0x21),
        deletes_entry_address: hash(0x22),
    });
    let op = DhtOpHashed::with_pre_hashed(
        DhtOp::RegisterAgentActivity(Signature(vec![1]), header),
        hash(0x0e),
    );
    assert_eq!(insert_op(&mut txn, op, hash(0x13), hash(0x13), false), Ok(()));
    assert!(txn.header(&hash(0x13)).is_some());
    let row = txn.op(&hash(0x0e)).unwrap();
    assert_eq!(row.op_order.order, 2);
    assert!(!row.is_authored);
    assert_eq!(row.blob.entry_hash, None);
    assert_eq!(txn.entry(&hash(0x22)), None);
}

#[test]
fn insert_op_rejects_an_entry_without_declared_hash() {
    let mut txn = Transaction::new();
    let header = Header::Delete(Delete {
        common: common(5),
        deletes_address: hash(0x21),
        deletes_entry_address: hash(0x22),
    });
    let op = DhtOpHashed::with_pre_hashed(
        DhtOp::StoreElement(Signature(vec![1]), header.clone(), Some(Entry::App(vec![1]))),
        hash(0x0e),
    );
    let result = insert_op(&mut txn, op, hash(0x13), hash(0x13), false);
    assert_eq!(
        result,
        Err(StateMutationError::DhtOp(DhtOpError::HeaderWithoutEntry(
            header
        )))
    );
    assert_eq!(result.unwrap_err().kind(), ErrorKind::MalformedInput);
    assert_eq!(txn, Transaction::new());
}

#[test]
fn insert_entry_is_idempotent() {
    let mut txn = Transaction::new();
    insert_entry(
        &mut txn,
        EntryHashed::with_pre_hashed(Entry::App(vec![1]), hash(1)),
    )
    .unwrap();
    let mut again = Transaction::new();
    insert_entry(
        &mut again,
        EntryHashed::with_pre_hashed(Entry::App(vec![1]), hash(1)),
    )
    .unwrap();
    insert_entry(
        &mut again,
        EntryHashed::with_pre_hashed(Entry::App(vec![1]), hash(1)),
    )
    .unwrap();
    assert_eq!(txn, again);
    // a row that is stored stays as it is
    insert_entry(
        &mut again,
        EntryHashed::with_pre_hashed(Entry::App(vec![2]), hash(1)),
    )
    .unwrap();
    assert_eq!(again.entry(&hash(1)).unwrap().blob, Entry::App(vec![1]));
}

#[test]
fn insert_header_and_op_lite_write_their_rows() {
    let mut txn = Transaction::new();
    insert_header(&mut txn, signed(Header::Create(create_header()), 0x11)).unwrap();
    assert_eq!(txn.header(&hash(0x11)).unwrap().seq, 3);
    assert_eq!(txn.header(&hash(0x12)), None);

    let light = store_entry_op().content.to_light(hash(0x11), hash(0xba));
    let order = OpOrder::new(DhtOpType::StoreEntry, Timestamp(2, 0));
    insert_op_lite(&mut txn, light, hash(0x0f), false, order, Timestamp(2, 3_000_000)).unwrap();
    let row = txn.op(&hash(0x0f)).unwrap();
    assert_eq!(row.authored_timestamp_ms, 2_003);
    assert_eq!(row.op_order, order);
    assert_eq!(row.basis_hash, hash(0xba));
}

#[test]
fn validation_receipt_is_stored_under_the_hash_of_its_bytes() {
    let expected: Vec<u8> = vec![
        0xbd, 0xdd, 0x81, 0x3c, 0x63, 0x42, 0x39, 0x72, 0x31, 0x71, 0xef, 0x3f, 0xee, 0x98, 0x57,
        0x9b, 0x94, 0x96, 0x4e, 0x3b, 0xb1, 0xcb, 0x3e, 0x42, 0x72, 0x62, 0xc8, 0xc0, 0x68, 0xd5,
        0x23, 0x19,
    ];
    assert_eq!(blake2b_256(&b"abc".to_vec()), expected);

    let mut txn = Transaction::new();
    insert_validation_receipt(&mut txn, hash(0x0f), b"abc".to_vec()).unwrap();
    let row = txn.receipt(&expected).unwrap();
    assert_eq!(row.hash, expected);
    assert_eq!(row.op_hash, hash(0x0f));
    assert_eq!(row.blob, b"abc".to_vec());
    assert_eq!(txn.receipt(&b"abc".to_vec()), None);
}

#[test]
fn blobs_are_stored_by_key() {
    let mut txn = Transaction::new();
    insert_wasm(&mut txn, hash(1), vec![0, 97, 115, 109]).unwrap();
    insert_wasm(&mut txn, hash(1), vec![9]).unwrap();
    assert_eq!(txn.wasm(&hash(1)), Some(&vec![0, 97, 115, 109]));
    assert_eq!(txn.wasm(&hash(2)), None);

    insert_dna_def(&mut txn, hash(2), vec![1, 2]).unwrap();
    assert_eq!(txn.dna_def(&hash(2)), Some(&vec![1, 2]));
    assert_eq!(txn.dna_def(&hash(1)), None);

    insert_entry_def(&mut txn, b"post".to_vec(), vec![3]).unwrap();
    assert_eq!(txn.entry_def(&b"post".to_vec()), Some(&vec![3]));
    assert_eq!(txn.entry_def(&b"other".to_vec()), None);

    assert_eq!(txn.conductor_state(), None);
    insert_conductor_state(&mut txn, vec![1]).unwrap();
    insert_conductor_state(&mut txn, vec![2]).unwrap();
    assert_eq!(txn.conductor_state(), Some(&vec![2]));
}

#[test]
fn validation_stage_is_tracked_with_attempts() {
    let mut txn = Transaction::new();
    insert_op(&mut txn, store_entry_op(), hash(0x11), hash(0xba), true).unwrap();
    let op = hash(0x0f);

    let stages = vec![
        (ValidationLimboStatus::Pending, None),
        (ValidationLimboStatus::AwaitingSysDeps(vec![hash(1)]), Some(0)),
        (ValidationLimboStatus::SysValidated, Some(1)),
        (ValidationLimboStatus::AwaitingAppDeps(vec![hash(2)]), Some(2)),
        (ValidationLimboStatus::AwaitingIntegration, Some(3)),
    ];
    let mut attempts = 0;
    for (status, stage) in stages {
        attempts += 1;
        let now = Timestamp(100 + attempts as i64, 0);
        assert_eq!(status.stage(), stage);
        assert_eq!(set_validation_stage(&mut txn, op.clone(), status, now), Ok(()));
        let row = txn.op(&op).unwrap();
        assert_eq!(row.validation_stage, stage);
        assert_eq!(row.num_validation_attempts, Some(attempts));
        assert_eq!(row.last_validation_attempt, Some(now));
        assert_eq!(row.when_integrated, None);
    }

    // integration shows in its time, not in a stage
    set_when_integrated(&mut txn, op.clone(), Timestamp(200, 1)).unwrap();
    let row = txn.op(&op).unwrap();
    assert_eq!(row.when_integrated, Some(Timestamp(200, 1)));
    assert_eq!(row.validation_stage, Some(3));
}

#[test]
fn validation_stages_follow_each_other() {
    let mut status = ValidationLimboStatus::Pending;
    let mut seen = vec![status.stage()];
    while let Some(next) = status.next() {
        status = next;
        seen.push(status.stage());
    }
    assert_eq!(seen, vec![None, Some(0), Some(1), Some(2), Some(3)]);
    assert_eq!(status, ValidationLimboStatus::AwaitingIntegration);
}

#[test]
fn setters_write_one_column_of_one_row() {
    let mut txn = Transaction::new();
    insert_op(&mut txn, store_entry_op(), hash(0x11), hash(0xba), true).unwrap();
    let op = hash(0x0f);

    set_validation_status(&mut txn, op.clone(), ValidationStatus::Rejected).unwrap();
    set_validation_status(&mut txn, op.clone(), ValidationStatus::Valid).unwrap();
    set_require_receipt(&mut txn, op.clone(), true).unwrap();
    set_last_publish_time(&mut txn, op.clone(), 1_600_000_000).unwrap();
    set_receipt_count(&mut txn, op.clone(), 3).unwrap();
    let row = txn.op(&op).unwrap();
    assert_eq!(row.validation_status, Some(ValidationStatus::Valid));
    assert!(row.require_receipt);
    assert_eq!(row.last_publish_time, Some(1_600_000_000));
    assert_eq!(row.receipt_count, Some(3));
    assert_eq!(row.validation_stage, None);
    assert_eq!(row.basis_hash, hash(0xba));

    // a setter on an operation that is not stored changes nothing
    let before = Transaction::new();
    let mut empty = Transaction::new();
    set_validation_status(&mut empty, op.clone(), ValidationStatus::Valid).unwrap();
    set_require_receipt(&mut empty, op.clone(), true).unwrap();
    set_last_publish_time(&mut empty, op.clone(), 1).unwrap();
    set_receipt_count(&mut empty, op.clone(), 3).unwrap();
    set_when_integrated(&mut empty, op.clone(), Timestamp(1, 1)).unwrap();
    set_validation_stage(
        &mut empty,
        op.clone(),
        ValidationLimboStatus::SysValidated,
        Timestamp(1, 1),
    )
    .unwrap();
    add_one_receipt_count(&mut empty, &op).unwrap();
    assert_eq!(empty, before);
}

#[test]
fn receipts_are_counted_one_by_one() {
    let mut txn = Transaction::new();
    insert_op(&mut txn, store_entry_op(), hash(0x11), hash(0xba), true).unwrap();
    let op = hash(0x0f);
    add_one_receipt_count(&mut txn, &op).unwrap();
    assert_eq!(txn.op(&op).unwrap().receipt_count, Some(1));
    add_one_receipt_count(&mut txn, &op).unwrap();
    add_one_receipt_count(&mut txn, &op).unwrap();
    assert_eq!(txn.op(&op).unwrap().receipt_count, Some(3));

}

#[test]
fn counter_overflow_is_a_database_error() {
    let mut txn = Transaction::new();
    insert_op(&mut txn, store_entry_op(), hash(0x11), hash(0xba), true).unwrap();
    let op = hash(0x0f);
    set_receipt_count(&mut txn, op.clone(), u32::MAX - 1).unwrap();
    assert_eq!(add_one_receipt_count(&mut txn, &op), Ok(()));
    assert_eq!(txn.op(&op).unwrap().receipt_count, Some(u32::MAX));

    let result = add_one_receipt_count(&mut txn, &op);
    assert_eq!(
        result,
        Err(StateMutationError::Database(
            DatabaseError::CounterOverflow(op.clone())
        ))
    );
    assert_eq!(result.unwrap_err().kind(), ErrorKind::Database);
    // the failed mutation changed nothing
    assert_eq!(txn.op(&op).unwrap().receipt_count, Some(u32::MAX));
    assert_eq!(txn.op(&op).unwrap().basis_hash, hash(0xba));
}

#[test]
fn scratch_stages_headers_and_entries() {
    let mut scratch = Scratch::new();
    assert_eq!(
        insert_op_scratch(&mut scratch, store_entry_op(), hash(0x11)),
        Ok(())
    );
    assert_eq!(scratch.num_headers(), 1);
    assert_eq!(
        scratch.header_at(0),
        &SignedHeaderHashed::with_presigned(
            HeaderHashed::with_pre_hashed(Header::Create(create_header()), hash(0x11)),
            Signature(vec![5; 64]),
        )
    );
    assert_eq!(scratch.entry(&hash(0xe0)), Some(&Entry::App(vec![1, 2, 3])));
    assert_eq!(scratch.entry(&hash(0xe1)), None);

    let header = Header::Delete(Delete {
        common: common(5),
        deletes_address: hash(0x21),
        deletes_entry_address: hash(0x22),
    });
    let stray = DhtOpHashed::with_pre_hashed(
        DhtOp::StoreElement(Signature(vec![1]), header.clone(), Some(Entry::App(vec![1]))),
        hash(0x0e),
    );
    assert_eq!(
        insert_op_scratch(&mut scratch, stray, hash(0x13)),
        Err(StateMutationError::DhtOp(DhtOpError::HeaderWithoutEntry(
            header.clone()
        )))
    );
    assert_eq!(scratch.num_headers(), 1);

    let element = Element::new(signed(header.clone(), 0x13), None);
    insert_element_scratch(&mut scratch, element);
    assert_eq!(scratch.num_headers(), 2);
    assert_eq!(scratch.header_at(1), &signed(header, 0x13));

    let update = Header::Update(Update {
        common: common(4),
        original_header_address: hash(0x01),
        original_entry_address: hash(0x02),
        entry_type: EntryType::AgentPubKey,
        entry_hash: hash(0x03),
    });
    let element = Element::new(signed(update, 0x14), Some(Entry::Agent(hash(0xaa))));
    insert_element_scratch(&mut scratch, element);
    assert_eq!(scratch.num_headers(), 3);
    assert_eq!(scratch.entry(&hash(0x03)), Some(&Entry::Agent(hash(0xaa))));
}
