use holochain_state::dht_op::ops_from_element;
use holochain_state::element::Element;
use holochain_state::element::HeaderHashed;
use holochain_state::element::SignedHeaderHashed;
use holochain_state::entry::Entry;
use holochain_state::error::DhtOpError;
use holochain_state::hash::HashType;
use holochain_state::hash::HoloHash;
use holochain_state::header::AppEntryType;
use holochain_state::header::EntryType;
use holochain_state::header::EntryVisibility;
use holochain_state::header::Header;
use holochain_state::header::HeaderCommon;
use holochain_state::header::Signature;
use holochain_state::header::Timestamp;
use holochain_state::host_fn::create;
use holochain_state::host_fn::extract_entry_def;
use holochain_state::host_fn::EntryDef;
use holochain_state::host_fn::EntryDefId;
use holochain_state::host_fn::EntryDefsResult;
use holochain_state::host_fn::EntryWithDefId;
use holochain_state::host_fn::HostFnError;
use holochain_state::host_fn::ZomeEntryDefs;
use holochain_state::mutations::StateMutationError;
use holochain_state::schema::SchemaError;
use holochain_state::workflow::WorkflowError;
use holochain_state::workflow::WorkflowResult;

fn defs() -> EntryDefsResult {
    EntryDefsResult::Defs(vec![
        ZomeEntryDefs {
            zome_name: "other".to_string(),
            defs: vec![EntryDef {
                id: EntryDefId::App("post".to_string()),
                visibility: EntryVisibility::Private,
            }],
        },
        ZomeEntryDefs {
            zome_name: "create_entry".to_string(),
            defs: vec![
                EntryDef {
                    id: EntryDefId::App("comment".to_string()),
                    visibility: EntryVisibility::Private,
                },
                EntryDef {
                    id: EntryDefId::App("post".to_string()),
                    visibility: EntryVisibility::Public,
                },
                EntryDef {
                    id: EntryDefId::App("post".to_string()),
                    visibility: EntryVisibility::Private,
                },
            ],
        },
    ])
}

fn not_found(zome: &str, id: &str) -> HostFnError {
    HostFnError::EntryDefNotFound {
        zome_name: zome.to_string(),
        entry_def_id: EntryDefId::App(id.to_string()),
    }
}

#[test]
fn entry_def_is_found_by_zome_and_name() {
    let zome = "create_entry".to_string();
    assert_eq!(
        extract_entry_def(&defs(), &zome, &EntryDefId::App("post".to_string())),
        Ok((1, EntryVisibility::Public))
    );
    assert_eq!(
        extract_entry_def(&defs(), &zome, &EntryDefId::App("comment".to_string())),
        Ok((0, EntryVisibility::Private))
    );
    assert_eq!(
        extract_entry_def(
            &defs(),
            &"other".to_string(),
            &EntryDefId::App("post".to_string())
        ),
        Ok((0, EntryVisibility::Private))
    );
}

#[test]
fn missing_entry_def_is_an_error() {
    let zome = "create_entry".to_string();
    assert_eq!(
        extract_entry_def(&defs(), &zome, &EntryDefId::App("like".to_string())),
        Err(not_found("create_entry", "like"))
    );
    assert_eq!(
        extract_entry_def(
            &defs(),
            &"unknown".to_string(),
            &EntryDefId::App("post".to_string())
        ),
        Err(not_found("unknown", "post"))
    );
    let failed = EntryDefsResult::Failed("create_entry".to_string(), "boom".to_string());
    assert_eq!(
        extract_entry_def(&failed, &zome, &EntryDefId::App("post".to_string())),
        Err(not_found("create_entry", "post"))
    );
    assert_eq!(
        extract_entry_def(&defs(), &zome, &EntryDefId::CapGrant),
        Err(HostFnError::EntryDefNotFound {
            zome_name: "create_entry".to_string(),
            entry_def_id: EntryDefId::CapGrant
        })
    );
}

#[test]
fn entry_def_beyond_a_byte_is_not_found() {
    let mut many = Vec::new();
    for i in 0..300 {
        many.push(EntryDef {
            id: EntryDefId::App(format!("def{}", i)),
            visibility: EntryVisibility::Public,
        });
    }
    let defs = EntryDefsResult::Defs(vec![ZomeEntryDefs {
        zome_name: "z".to_string(),
        defs: many,
    }]);
    let zome = "z".to_string();
    assert_eq!(
        extract_entry_def(&defs, &zome, &EntryDefId::App("def255".to_string())),
        Ok((255, EntryVisibility::Public))
    );
    assert_eq!(
        extract_entry_def(&defs, &zome, &EntryDefId::App("def256".to_string())),
        Err(not_found("z", "def256"))
    );
}

#[test]
fn create_builds_the_header_for_the_entry() {
    let zome = "create_entry".to_string();
    let entry = Entry::App(vec![163, 102, 111, 111]);
    let encoded = vec![
        0x82, 0xaa, 0x65, 0x6e, 0x74, 0x72, 0x79, 0x5f, 0x74, 0x79, 0x70, 0x65, 0xa3, 0x41, 0x70,
        0x70, 0xa5, 0x65, 0x6e, 0x74, 0x72, 0x79, 0xc4, 0x04, 0xa3, 0x66, 0x6f, 0x6f,
    ];
    let entry_hash = HoloHash::with_data(HashType::Entry, &encoded);
    assert_eq!(
        entry_hash.to_string(),
        "uhCEkPjYXxw4ztKx3wBsxzm-q3Rfoy1bXWbIQohifqC3_HNle3-SO"
    );
    let input = EntryWithDefId {
        entry_def_id: EntryDefId::App("post".to_string()),
        entry: entry.clone(),
    };
    let (builder, to_commit) = create(&defs(), &zome, 4, input, &encoded).unwrap();
    assert_eq!(to_commit, entry);
    assert_eq!(
        builder.entry_type,
        EntryType::App(AppEntryType {
            id: 1,
            zome_id: 4,
            visibility: EntryVisibility::Public
        })
    );
    assert_eq!(builder.entry_hash, entry_hash);

    let common = HeaderCommon {
        author: HoloHash::from_raw(vec![1; 36]),
        timestamp: Timestamp(1, 2),
        header_seq: 9,
        prev_header: HoloHash::from_raw(vec![2; 36]),
    };
    let header = builder.build(common.clone());
    assert_eq!(header.common, common);
    assert_eq!(header.entry_hash, entry_hash);

    // the committed element yields the operations of a create
    let element = Element::new(
        SignedHeaderHashed::with_presigned(
            HeaderHashed::with_pre_hashed(
                Header::Create(header),
                HoloHash::from_raw(vec![3; 36]),
            ),
            Signature(vec![4; 64]),
        ),
        Some(to_commit),
    );
    assert_eq!(ops_from_element(&element).unwrap().len(), 3);
}

#[test]
fn create_of_capability_entries_needs_no_definition() {
    let zome = "unknown".to_string();
    let grant = EntryWithDefId {
        entry_def_id: EntryDefId::CapGrant,
        entry: Entry::App(vec![1]),
    };
    let (builder, _) = create(&defs(), &zome, 0, grant, &vec![1]).unwrap();
    assert_eq!(builder.entry_type, EntryType::CapGrant);
    let claim = EntryWithDefId {
        entry_def_id: EntryDefId::CapClaim,
        entry: Entry::App(vec![1]),
    };
    let (builder, _) = create(&defs(), &zome, 0, claim, &vec![1]).unwrap();
    assert_eq!(builder.entry_type, EntryType::CapClaim);
    let app = EntryWithDefId {
        entry_def_id: EntryDefId::App("post".to_string()),
        entry: Entry::App(vec![1]),
    };
    assert_eq!(
        create(&defs(), &zome, 0, app, &vec![1]),
        Err(not_found("unknown", "post"))
    );
}

fn fails_with(e: DhtOpError) -> WorkflowResult<()> {
    Err(e)?;
    Ok(())
}

#[test]
fn workflow_error_wraps_the_failures_of_the_core() {
    let hash = HoloHash::from_raw(vec![1]);
    assert_eq!(
        fails_with(DhtOpError::MissingOriginal(hash.clone())),
        Err(WorkflowError::DhtOpError(DhtOpError::MissingOriginal(
            hash.clone()
        )))
    );
    let e: WorkflowError = StateMutationError::DhtOp(DhtOpError::LookupTimeout(hash.clone())).into();
    assert_eq!(
        e,
        WorkflowError::StateMutationError(StateMutationError::DhtOp(DhtOpError::LookupTimeout(
            hash
        )))
    );
    let e: WorkflowError = SchemaError::UnsupportedNewerSchema {
        stored: 3,
        latest: 2,
    }
    .into();
    assert_eq!(
        e,
        WorkflowError::SchemaError(SchemaError::UnsupportedNewerSchema {
            stored: 3,
            latest: 2
        })
    );
    let e: WorkflowError = not_found("z", "post").into();
    assert_eq!(e, WorkflowError::HostFnError(not_found("z", "post")));
    assert_ne!(e, WorkflowError::CapabilityMissing);
    assert_ne!(e, WorkflowError::GenesisFailure("no".to_string()));
}
