use holochain_state::dht_op::DhtOp;
use holochain_state::dht_op::DhtOpHashed;
use holochain_state::element::EntryHashed;
use holochain_state::element::HeaderHashed;
use holochain_state::entry::Entry;
use holochain_state::hash::blake2b_128;
use holochain_state::hash::blake2b_256;
use holochain_state::hash::holo_dht_location_bytes;
use holochain_state::hash::AnyDhtHash;
use holochain_state::hash::EntryHash;
use holochain_state::hash::HashType;
use holochain_state::hash::HoloHash;
use holochain_state::header::Dna;
use holochain_state::header::Header;
use holochain_state::header::Signature;
use holochain_state::header::Timestamp;

/// The canonical encoding of the application entry that holds the text "foo".
fn encoded_foo() -> Vec<u8> {
    vec![
        0x82, 0xaa, 0x65, 0x6e, 0x74, 0x72, 0x79, 0x5f, 0x74, 0x79, 0x70, 0x65, 0xa3, 0x41, 0x70,
        0x70, 0xa5, 0x65, 0x6e, 0x74, 0x72, 0x79, 0xc4, 0x04, 0xa3, 0x66, 0x6f, 0x6f,
    ]
}

#[test]
fn test_serialize_bytes_hash() {
    let entry = Entry::App(vec![163, 102, 111, 111]);
    let entry_hash = EntryHash::with_data(HashType::Entry, &encoded_foo());
    assert_eq!(
        "uhCEkPjYXxw4ztKx3wBsxzm-q3Rfoy1bXWbIQohifqC3_HNle3-SO",
        &entry_hash.to_string()
    );
    let hashed = EntryHashed::from_content_sync(entry, &encoded_foo());
    assert_eq!(hashed.hash, entry_hash);
    assert_eq!(
        "uhCEkPjYXxw4ztKx3wBsxzm-q3Rfoy1bXWbIQohifqC3_HNle3-SO",
        &hashed.hash.to_string()
    );

    // Now I can convert to AnyDhtHash
    let any_hash: AnyDhtHash = entry_hash.clone();
    assert_eq!(
        "uhCEkPjYXxw4ztKx3wBsxzm-q3Rfoy1bXWbIQohifqC3_HNle3-SO",
        &entry_hash.to_string()
    );
    assert_eq!(
        "uhCEkPjYXxw4ztKx3wBsxzm-q3Rfoy1bXWbIQohifqC3_HNle3-SO",
        &any_hash.to_string()
    );

    // The round trip through the raw bytes works as expected
    let any_hash: AnyDhtHash = HoloHash::from_raw(any_hash.get_raw().clone());
    assert_eq!(
        "uhCEkPjYXxw4ztKx3wBsxzm-q3Rfoy1bXWbIQohifqC3_HNle3-SO",
        &any_hash.to_string()
    );
}

#[test]
fn address_is_prefix_digest_and_location() {
    let hash = HoloHash::with_data(HashType::Entry, &encoded_foo());
    let raw = hash.get_raw();
    assert_eq!(raw.len(), 39);
    assert_eq!(&raw[..3], &[0x84, 0x21, 0x24]);
    assert_eq!(
        raw[3..35].to_vec(),
        vec![
            0x3e, 0x36, 0x17, 0xc7, 0x0e, 0x33, 0xb4, 0xac, 0x77, 0xc0, 0x1b, 0x31, 0xce, 0x6f,
            0xaa, 0xdd, 0x17, 0xe8, 0xcb, 0x56, 0xd7, 0x59, 0xb2, 0x10, 0xa2, 0x18, 0x9f, 0xa8,
            0x2d, 0xff, 0x1c, 0xd9
        ]
    );
    assert_eq!(raw[3..35].to_vec(), blake2b_256(&encoded_foo()));
    assert_eq!(raw[35..].to_vec(), vec![0x5e, 0xdf, 0xe4, 0x8e]);
    assert_eq!(
        holo_dht_location_bytes(&raw[3..35].to_vec()),
        vec![0x5e, 0xdf, 0xe4, 0x8e]
    );
    assert_eq!(blake2b_128(&encoded_foo()).len(), 16);
    assert_ne!(blake2b_128(&encoded_foo()), encoded_foo()[..16].to_vec());
}

#[test]
fn kinds_differ_in_their_prefix_only() {
    let kinds = [
        (HashType::Agent, 0x20u8, "uhCAk"),
        (HashType::Entry, 0x21, "uhCEk"),
        (HashType::DhtOp, 0x24, "uhCQk"),
        (HashType::Header, 0x29, "uhCkk"),
        (HashType::Wasm, 0x2a, "uhCok"),
        (HashType::Dna, 0x2d, "uhC0k"),
    ];
    let entry = HoloHash::with_data(HashType::Entry, &encoded_foo());
    for (kind, second, text) in kinds {
        assert_eq!(kind.prefix(), vec![0x84, second, 0x24]);
        let hash = HoloHash::with_data(kind, &encoded_foo());
        assert_eq!(hash.get_raw()[3..], entry.get_raw()[3..]);
        assert!(hash.to_string().starts_with(text));
        assert_eq!(hash.to_string().len(), 53);
    }
}

#[test]
fn same_content_has_the_same_address() {
    let first = HoloHash::with_data(HashType::Header, &vec![1, 2, 3]);
    let second = HoloHash::with_data(HashType::Header, &vec![1, 2, 3]);
    let other = HoloHash::with_data(HashType::Header, &vec![1, 2, 4]);
    assert_eq!(first, second);
    assert_ne!(first, other);

    let header = Header::Dna(Dna {
        author: HoloHash::from_raw(vec![1]),
        timestamp: Timestamp(0, 0),
        hash: HoloHash::from_raw(vec![2]),
    });
    let hashed = HeaderHashed::from_content_sync(header.clone(), &vec![1, 2, 3]);
    assert_eq!(hashed.hash, first);
    assert_eq!(hashed.content, header);

    let op = DhtOp::RegisterAgentActivity(Signature(vec![3]), header);
    let hashed = DhtOpHashed::from_content_sync(op, &vec![1, 2, 3]);
    assert_eq!(
        hashed.hash,
        HoloHash::with_data(HashType::DhtOp, &vec![1, 2, 3])
    );
}

#[test]
fn short_addresses_are_written_as_text_too() {
    assert_eq!(HoloHash::from_raw(vec![]).to_string(), "u");
    assert_eq!(
        HoloHash::from_raw(vec![0xde, 0xad, 0xbe, 0xef]).to_string(),
        "u3q2-7w"
    );
}
