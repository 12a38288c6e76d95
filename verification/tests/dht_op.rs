use holochain_state::basis::basis_after_lookup;
use holochain_state::basis::dht_basis;
use holochain_state::basis::BasisStep;
use holochain_state::basis::LookupOutcome;
use holochain_state::basis::UpdateBasis;
use holochain_state::dht_op::ops_from_element;
use holochain_state::dht_op::DhtOp;
use holochain_state::dht_op::DhtOpType;
use holochain_state::dht_op::OpOrder;
use holochain_state::element::Element;
use holochain_state::element::HeaderHashed;
use holochain_state::element::SignedHeaderHashed;
use holochain_state::entry::Entry;
use holochain_state::error::DhtOpError;
use holochain_state::error::ErrorKind;
use holochain_state::hash::AnyDhtHash;
use holochain_state::hash::EntryHash;
use holochain_state::hash::HeaderHash;
use holochain_state::hash::HoloHash;
use holochain_state::header::AgentValidationPkg;
use holochain_state::header::AppEntryType;
use holochain_state::header::CloseChain;
use holochain_state::header::Create;
use holochain_state::header::CreateLink;
use holochain_state::header::Delete;
use holochain_state::header::DeleteLink;
use holochain_state::header::Dna;
use holochain_state::header::EntryType;
use holochain_state::header::EntryVisibility;
use holochain_state::header::Header;
use holochain_state::header::HeaderCommon;
use holochain_state::header::InitZomesComplete;
use holochain_state::header::NewEntryHeader;
use holochain_state::header::OpenChain;
use holochain_state::header::Signature;
use holochain_state::header::Timestamp;
use holochain_state::header::Update;
use holochain_state::order::Ordered;
use holochain_state::order::Relation;

fn hash(seed: u8) -> HoloHash {
    HoloHash::from_raw(vec![seed; 36])
}

struct ChainElementTest {
    entry_type: EntryType,
    entry_hash: EntryHash,
    seq: u32,
    header_hash: HeaderHash,
    sig: Signature,
    entry: Entry,
    link_add: CreateLink,
    link_remove: DeleteLink,
    dna: Dna,
    chain_close: CloseChain,
    chain_open: OpenChain,
    agent_validation_pkg: AgentValidationPkg,
    init_zomes_complete: InitZomesComplete,
}

impl ChainElementTest {
    fn new() -> Self {
        let entry_type = EntryType::App(AppEntryType {
            id: 3,
            zome_id: 1,
            visibility: EntryVisibility::Public,
        });
        let entry_hash = hash(0xe0);
        let header_hash = hash(0xa0);
        let sig = Signature(vec![0x51; 64]);
        let entry = Entry::App(vec![163, 102, 111, 111]);
        let mut test = Self {
            entry_type,
            entry_hash,
            seq: 10,
            header_hash,
            sig,
            entry,
            link_add: CreateLink {
                common: common(0),
                base_address: hash(0xb0),
                target_address: hash(0xb1),
                zome_id: 2,
                tag: vec![1, 2, 3],
            },
            link_remove: DeleteLink {
                common: common(0),
                base_address: hash(0xb0),
                link_add_address: hash(0xb2),
            },
            dna: Dna {
                author: hash(0xaa),
                timestamp: Timestamp(1_600_000_000, 5),
                hash: hash(0xd0),
            },
            chain_close: CloseChain {
                common: common(0),
                new_dna_hash: hash(0xd1),
            },
            chain_open: OpenChain {
                common: common(0),
                prev_dna_hash: hash(0xd2),
            },
            agent_validation_pkg: AgentValidationPkg {
                common: common(0),
                membrane_proof: Some(vec![9, 9]),
            },
            init_zomes_complete: InitZomesComplete { common: common(0) },
        };
        test.link_add.common = test.next_common();
        test.link_remove.common = test.next_common();
        test.chain_close.common = test.next_common();
        test.chain_open.common = test.next_common();
        test.agent_validation_pkg.common = test.next_common();
        test.init_zomes_complete.common = test.next_common();
        test
    }

    fn next_common(&mut self) -> HeaderCommon {
        self.seq += 1;
        common(self.seq)
    }

    fn create_element(&mut self) -> (Create, Element) {
        let entry_create = Create {
            common: self.next_common(),
            entry_type: self.entry_type.clone(),
            entry_hash: self.entry_hash.clone(),
        };
        let element = self.to_element(
            Header::Create(entry_create.clone()),
            Some(self.entry.clone()),
        );
        (entry_create, element)
    }

    fn update_element(&mut self) -> (Update, Element) {
        let entry_update = Update {
            common: self.next_common(),
            original_header_address: self.header_hash.clone(),
            original_entry_address: hash(0xe1),
            entry_type: self.entry_type.clone(),
            entry_hash: self.entry_hash.clone(),
        };
        let element = self.to_element(
            Header::Update(entry_update.clone()),
            Some(self.entry.clone()),
        );
        (entry_update, element)
    }

    fn entry_create(mut self) -> (Element, Vec<DhtOp>) {
        let (entry_create, element) = self.create_element();
        let header: Header = Header::Create(entry_create.clone());

        let ops = vec![
            DhtOp::StoreElement(self.sig.clone(), header.clone(), Some(self.entry.clone())),
            DhtOp::RegisterAgentActivity(self.sig.clone(), header.clone()),
            DhtOp::StoreEntry(
                self.sig.clone(),
                NewEntryHeader::Create(entry_create),
                self.entry.clone(),
            ),
        ];
        (element, ops)
    }

    fn entry_update(mut self) -> (Element, Vec<DhtOp>) {
        let (entry_update, element) = self.update_element();
        let header: Header = Header::Update(entry_update.clone());

        let ops = vec![
            DhtOp::StoreElement(self.sig.clone(), header.clone(), Some(self.entry.clone())),
            DhtOp::RegisterAgentActivity(self.sig.clone(), header.clone()),
            DhtOp::StoreEntry(
                self.sig.clone(),
                NewEntryHeader::Update(entry_update.clone()),
                self.entry.clone(),
            ),
            DhtOp::RegisterReplacedBy(self.sig.clone(), entry_update, Some(self.entry.clone())),
        ];
        (element, ops)
    }

    fn entry_delete(mut self) -> (Element, Vec<DhtOp>) {
        let entry_delete = Delete {
            common: self.next_common(),
            deletes_address: self.header_hash.clone(),
            deletes_entry_address: self.entry_hash.clone(),
        };
        let element = self.to_element(Header::Delete(entry_delete.clone()), None);
        let header: Header = Header::Delete(entry_delete.clone());

        let ops = vec![
            DhtOp::StoreElement(self.sig.clone(), header.clone(), None),
            DhtOp::RegisterAgentActivity(self.sig.clone(), header.clone()),
            DhtOp::RegisterDeletedBy(self.sig.clone(), entry_delete),
        ];
        (element, ops)
    }

    fn link_add(mut self) -> (Element, Vec<DhtOp>) {
        let element = self.to_element(Header::CreateLink(self.link_add.clone()), None);
        let header: Header = Header::CreateLink(self.link_add.clone());

        let ops = vec![
            DhtOp::StoreElement(self.sig.clone(), header.clone(), None),
            DhtOp::RegisterAgentActivity(self.sig.clone(), header.clone()),
            DhtOp::RegisterAddLink(self.sig.clone(), self.link_add.clone()),
        ];
        (element, ops)
    }

    fn link_remove(mut self) -> (Element, Vec<DhtOp>) {
        let element = self.to_element(Header::DeleteLink(self.link_remove.clone()), None);
        let header: Header = Header::DeleteLink(self.link_remove.clone());

        let ops = vec![
            DhtOp::StoreElement(self.sig.clone(), header.clone(), None),
            DhtOp::RegisterAgentActivity(self.sig.clone(), header.clone()),
            DhtOp::RegisterRemoveLink(self.sig.clone(), self.link_remove.clone()),
        ];
        (element, ops)
    }

    fn others(mut self) -> Vec<(Element, Vec<DhtOp>)> {
        let mut elements = Vec::new();
        elements.push(self.to_element(Header::Dna(self.dna.clone()), None));
        elements.push(self.to_element(Header::OpenChain(self.chain_open.clone()), None));
        elements.push(self.to_element(Header::CloseChain(self.chain_close.clone()), None));
        elements.push(self.to_element(
            Header::AgentValidationPkg(self.agent_validation_pkg.clone()),
            None,
        ));
        elements.push(self.to_element(
            Header::InitZomesComplete(self.init_zomes_complete.clone()),
            None,
        ));
        let mut chain_elements = Vec::new();
        for element in elements {
            let header: Header = element.header().clone();

            let ops = vec![
                DhtOp::StoreElement(self.sig.clone(), header.clone(), None),
                DhtOp::RegisterAgentActivity(self.sig.clone(), header.clone()),
            ];
            chain_elements.push((element, ops));
        }
        chain_elements
    }

    fn to_element(&mut self, header: Header, entry: Option<Entry>) -> Element {
        let h = HeaderHashed::with_pre_hashed(header.clone(), self.header_hash.clone());
        let h = SignedHeaderHashed::with_presigned(h, self.sig.clone());
        Element::new(h, entry.clone())
    }
}

fn common(seq: u32) -> HeaderCommon {
    HeaderCommon {
        author: hash(0xaa),
        timestamp: Timestamp(1_600_000_000 + seq as i64, 7),
        header_seq: seq,
        prev_header: hash(seq as u8),
    }
}

#[test]
fn test_all_ops() {
    let builder = ChainElementTest::new();
    let (element, expected) = builder.entry_create();
    let result = ops_from_element(&element).unwrap();
    assert_eq!(result, expected);
    let builder = ChainElementTest::new();
    let (element, expected) = builder.entry_update();
    let result = ops_from_element(&element).unwrap();
    assert_eq!(result, expected);
    let builder = ChainElementTest::new();
    let (element, expected) = builder.entry_delete();
    let result = ops_from_element(&element).unwrap();
    assert_eq!(result, expected);
    let builder = ChainElementTest::new();
    let (element, expected) = builder.link_add();
    let result = ops_from_element(&element).unwrap();
    assert_eq!(result, expected);
    let builder = ChainElementTest::new();
    let (element, expected) = builder.link_remove();
    let result = ops_from_element(&element).unwrap();
    assert_eq!(result, expected);
    let builder = ChainElementTest::new();
    let elements = builder.others();
    for (element, expected) in elements {
        let result = ops_from_element(&element).unwrap();
        assert_eq!(result, expected);
    }
}

#[test]
fn test_dht_basis() {
    // Create a header that points to an entry
    let new_entry = Entry::App(vec![1, 2, 3]);
    let original_header = Create {
        common: common(4),
        entry_type: EntryType::App(AppEntryType {
            id: 0,
            zome_id: 0,
            visibility: EntryVisibility::Public,
        }),
        entry_hash: hash(0xe7),
    };
    let expected_entry_hash: AnyDhtHash = original_header.entry_hash.clone();
    let original_header_hash = hash(0x77);

    // Create the update header with the same hash
    let entry_update = Update {
        common: common(5),
        original_header_address: original_header_hash.clone(),
        original_entry_address: hash(0xe7),
        entry_type: EntryType::App(AppEntryType {
            id: 0,
            zome_id: 0,
            visibility: EntryVisibility::Public,
        }),
        entry_hash: hash(0xe8),
    };

    // Create the op
    let op = DhtOp::RegisterReplacedBy(Signature(vec![1; 64]), entry_update, Some(new_entry));

    // Get the basis: the original header has to be looked up
    let own_hash = hash(0x99);
    let step = dht_basis(&op, &own_hash, UpdateBasis::Entry);
    assert_eq!(step, BasisStep::Lookup(original_header_hash.clone()));
    let result = basis_after_lookup(
        original_header_hash.clone(),
        LookupOutcome::Found(Header::Create(original_header)),
    )
    .unwrap();

    // Check the hash matches
    assert_eq!(expected_entry_hash, result);
    assert_ne!(result, own_hash);

    // in header mode the basis is the original header, without a lookup
    assert_eq!(
        dht_basis(&op, &own_hash, UpdateBasis::Header),
        BasisStep::Resolved(original_header_hash)
    );
}

#[test]
fn basis_defaults_to_the_own_header_and_links_use_their_base() {
    let own_hash = hash(0x99);
    let (_, ops) = ChainElementTest::new().entry_create();
    for op in &ops {
        assert_eq!(
            dht_basis(op, &own_hash, UpdateBasis::Entry),
            BasisStep::Resolved(own_hash.clone())
        );
    }
    let (_, ops) = ChainElementTest::new().entry_delete();
    assert_eq!(
        dht_basis(&ops[2], &own_hash, UpdateBasis::Entry),
        BasisStep::Resolved(hash(0xa0))
    );
    let (_, ops) = ChainElementTest::new().link_add();
    assert_eq!(
        dht_basis(&ops[2], &own_hash, UpdateBasis::Entry),
        BasisStep::Resolved(hash(0xb0))
    );
    let (_, ops) = ChainElementTest::new().link_remove();
    assert_eq!(
        dht_basis(&ops[2], &own_hash, UpdateBasis::Header),
        BasisStep::Resolved(hash(0xb0))
    );
}

#[test]
fn basis_lookup_failures_are_reported() {
    let original = hash(0x77);
    let missing = basis_after_lookup(original.clone(), LookupOutcome::Missing);
    assert_eq!(missing, Err(DhtOpError::MissingOriginal(original.clone())));
    assert_eq!(missing.unwrap_err().kind(), ErrorKind::NotFound);

    let timed_out = basis_after_lookup(original.clone(), LookupOutcome::TimedOut);
    assert_eq!(timed_out, Err(DhtOpError::LookupTimeout(original.clone())));
    assert_eq!(timed_out.unwrap_err().kind(), ErrorKind::Concurrency);

    // the original was found, but it commits no entry
    let no_entry = basis_after_lookup(
        original.clone(),
        LookupOutcome::Found(Header::InitZomesComplete(InitZomesComplete {
            common: common(1),
        })),
    );
    assert_eq!(no_entry, Err(DhtOpError::MissingOriginal(original)));
}

#[test]
fn create_header_yields_three_ops_in_order() {
    let entry_hash = HoloHash::from_raw(vec![0xde, 0xad, 0xbe, 0xef]);
    let sig = Signature(vec![0x53]);
    let create = Create {
        common: common(1),
        entry_type: EntryType::App(AppEntryType {
            id: 0,
            zome_id: 0,
            visibility: EntryVisibility::Public,
        }),
        entry_hash: entry_hash.clone(),
    };
    let header = Header::Create(create.clone());
    let entry = Entry::App(vec![1]);
    let element = Element::new(
        SignedHeaderHashed::with_presigned(
            HeaderHashed::with_pre_hashed(header.clone(), hash(1)),
            sig.clone(),
        ),
        Some(entry.clone()),
    );
    let ops = ops_from_element(&element).unwrap();
    assert_eq!(
        ops,
        vec![
            DhtOp::StoreElement(sig.clone(), header.clone(), Some(entry.clone())),
            DhtOp::RegisterAgentActivity(sig.clone(), header.clone()),
            DhtOp::StoreEntry(sig.clone(), NewEntryHeader::Create(create), entry.clone()),
        ]
    );
    // the same input gives the same output
    assert_eq!(ops_from_element(&element).unwrap(), ops);
    assert_eq!(ops[0].get_type(), DhtOpType::StoreElement);
    assert_eq!(ops[1].get_type(), DhtOpType::RegisterAgentActivity);
    assert_eq!(ops[2].get_type(), DhtOpType::StoreEntry);
    assert_eq!(ops[2].header(), header);
    assert_eq!(ops[2].entry(), Some(&entry));
    assert_eq!(ops[1].entry(), None);
    assert_eq!(ops[0].signature(), &sig);
}

#[test]
fn header_with_missing_entry_is_malformed() {
    let mut builder = ChainElementTest::new();
    let (create, _) = builder.create_element();
    let element = builder.to_element(Header::Create(create.clone()), None);
    let result = ops_from_element(&element);
    assert_eq!(
        result,
        Err(DhtOpError::HeaderWithoutEntry(Header::Create(create)))
    );
    assert_eq!(result.unwrap_err().kind(), ErrorKind::MalformedInput);

    let (update, _) = builder.update_element();
    let element = builder.to_element(Header::Update(update.clone()), None);
    assert_eq!(
        ops_from_element(&element),
        Err(DhtOpError::HeaderWithoutEntry(Header::Update(update)))
    );
}

#[test]
fn stray_entry_is_not_carried_by_headers_without_entries() {
    let mut builder = ChainElementTest::new();
    let header = Header::CreateLink(builder.link_add.clone());
    let element = builder.to_element(header.clone(), Some(Entry::App(vec![7])));
    let ops = ops_from_element(&element).unwrap();
    assert_eq!(ops.len(), 3);
    assert_eq!(
        ops[0],
        DhtOp::StoreElement(builder.sig.clone(), header, None)
    );
}

#[test]
fn light_form_names_the_addresses() {
    let (_, ops) = ChainElementTest::new().entry_update();
    let light = ops[3].to_light(hash(1), hash(2));
    assert_eq!(light.get_type(), DhtOpType::RegisterReplacedBy);
    assert_eq!(light.header_hash(), &hash(1));
    assert_eq!(light.dht_basis(), &hash(2));
    assert_eq!(light.entry_hash, Some(hash(0xe0)));
    let light = ops[1].to_light(hash(1), hash(2));
    assert_eq!(light.entry_hash, None);
    let light = ops[0].to_light(hash(1), hash(2));
    assert_eq!(light.entry_hash, Some(hash(0xe0)));
}

#[test]
fn op_order_goes_by_rank_then_time() {
    let early = Timestamp(10, 0);
    let late = Timestamp(10, 1);
    let a = OpOrder::new(DhtOpType::StoreEntry, late);
    let b = OpOrder::new(DhtOpType::StoreElement, early);
    assert_eq!(a.order, 0);
    assert_eq!(b.order, 1);
    assert_eq!(OpOrder::new(DhtOpType::RegisterAgentActivity, early).order, 2);
    assert_eq!(OpOrder::new(DhtOpType::RegisterReplacedBy, early).order, 3);
    assert_eq!(OpOrder::new(DhtOpType::RegisterDeletedBy, early).order, 4);
    assert_eq!(OpOrder::new(DhtOpType::RegisterAddLink, early).order, 5);
    assert_eq!(OpOrder::new(DhtOpType::RegisterRemoveLink, early).order, 6);
    assert_eq!(a.compare(&b), Relation::Less);
    assert_eq!(b.compare(&a), Relation::Greater);
    let c = OpOrder::new(DhtOpType::StoreElement, late);
    assert_eq!(b.compare(&c), Relation::Less);
    assert_eq!(c.compare(&c), Relation::Equal);
    let d = OpOrder::new(DhtOpType::StoreElement, Timestamp(9, 999));
    assert_eq!(d.compare(&b), Relation::Less);
}

#[test]
fn timestamps_are_stored_in_milliseconds() {
    assert_eq!(Timestamp(1, 999_999_999).to_sql_ms_lossy(), 1_999);
    assert_eq!(Timestamp(1_600_000_000, 5_000_000).to_sql_ms_lossy(), 1_600_000_000_005);
    assert_eq!(Timestamp(0, 0).to_sql_ms_lossy(), 0);
    assert_eq!(Timestamp(-1, 0).to_sql_ms_lossy(), 0);
    assert_eq!(Timestamp(i64::MAX, 0).to_sql_ms_lossy(), i64::MAX);
}

#[test]
fn entry_type_decides_visibility() {
    assert_eq!(EntryType::AgentPubKey.visibility(), EntryVisibility::Public);
    assert_eq!(EntryType::CapClaim.visibility(), EntryVisibility::Private);
    assert_eq!(EntryType::CapGrant.visibility(), EntryVisibility::Private);
    assert_eq!(
        EntryType::App(AppEntryType {
            id: 0,
            zome_id: 0,
            visibility: EntryVisibility::Private
        })
        .visibility(),
        EntryVisibility::Private
    );
}
