//! Content addresses. Every hashed entity is identified by the bytes of its
//! hash; the same content always carries the same address.

use vstd::prelude::*;
use base64::Engine;

verus! {

/// The address of a hashed entity, as raw bytes.
#[derive(Debug, PartialEq, Eq, Hash)]
pub struct HoloHash {
    pub bytes: Vec<u8>,
}

/// The address of a header.
pub type HeaderHash = HoloHash;

/// The address of an entry.
pub type EntryHash = HoloHash;

/// The public key of an agent, used as an address.
pub type AgentPubKey = HoloHash;

/// The address of a DNA definition.
pub type DnaHash = HoloHash;

/// The address of a derived operation.
pub type DhtOpHash = HoloHash;

/// The address of compiled zome code.
pub type WasmHash = HoloHash;

/// An address in the shared address space: that of an entry, a header or an agent.
pub type AnyDhtHash = HoloHash;

impl View for HoloHash {
    type V = Seq<u8>;

    open spec fn view(&self) -> Seq<u8> {
        self.bytes@
    }
}

impl DeepView for HoloHash {
    type V = Seq<u8>;

    open spec fn deep_view(&self) -> Seq<u8> {
        self.bytes@
    }
}

impl Clone for HoloHash {
    fn clone(&self) -> (copy: Self)
        ensures
            copy@ == self@,
    {
        HoloHash { bytes: self.bytes.clone() }
    }
}

/// Whether two byte strings hold the same bytes.
pub fn bytes_eq(a: &Vec<u8>, b: &Vec<u8>) -> (same: bool)
    ensures
        same == (a@ == b@),
{
    if a.len() != b.len() {
        return false;
    }
    let mut i: usize = 0;
    while i < a.len()
        invariant
            i <= a.len(),
            a.len() == b.len(),
            a@.subrange(0, i as int) == b@.subrange(0, i as int),
        decreases a.len() - i,
    {
        if a[i] != b[i] {
            return false;
        }
        assert(a@.subrange(0, i + 1) == a@.subrange(0, i as int).push(a@[i as int]));
        assert(b@.subrange(0, i + 1) == b@.subrange(0, i as int).push(b@[i as int]));
        i += 1;
    }
    assert(a@ == a@.subrange(0, a.len() as int));
    assert(b@ == b@.subrange(0, b.len() as int));
    true
}

impl HoloHash {
    /// The address made of the given bytes.
    pub fn from_raw(bytes: Vec<u8>) -> (hash: Self)
        ensures
            hash@ == bytes@,
    {
        HoloHash { bytes }
    }

    /// The bytes of the address.
    pub fn get_raw(&self) -> (bytes: &Vec<u8>)
        ensures
            bytes@ == self@,
    {
        &self.bytes
    }

    /// Whether two addresses are the same.
    pub fn same_as(&self, other: &HoloHash) -> (same: bool)
        ensures
            same == (self@ == other@),
    {
        bytes_eq(&self.bytes, &other.bytes)
    }
}

/// The name for the BLAKE2b digest of the given length, in bytes, of a byte string.
pub uninterp spec fn blake2b_digest(data: Seq<u8>, length: usize) -> Seq<u8>;

/// `blake2b_simd::Params::hash` with the hash length set by
/// `Params::hash_length` and every other parameter left at its default: the
/// result is the BLAKE2b digest of `data`, `length` bytes long. A length
/// outside `1 ..= 64` is not accepted, as `hash_length` panics on it.
#[verifier::external_body]
fn blake2b(data: &Vec<u8>, length: usize) -> (digest: Vec<u8>)
    requires
        1 <= length <= 64,
    ensures
        digest@ == blake2b_digest(data@, length),
        digest@.len() == length,
{
    blake2b_simd::Params::new().hash_length(length).hash(data.as_slice()).as_bytes().to_vec()
}

/// The 32-byte BLAKE2b digest under which encoded content is stored.
pub open spec fn content_hash(data: Seq<u8>) -> Seq<u8> {
    blake2b_digest(data, 32)
}

/// The 32-byte BLAKE2b digest of encoded content.
pub fn blake2b_256(data: &Vec<u8>) -> (digest: Vec<u8>)
    ensures
        digest@ == content_hash(data@),
        digest@.len() == 32,
{
    blake2b(data, 32)
}

/// The 16-byte BLAKE2b digest of a byte string.
pub fn blake2b_128(data: &Vec<u8>) -> (digest: Vec<u8>)
    ensures
        digest@ == blake2b_digest(data@, 16),
        digest@.len() == 16,
{
    blake2b(data, 16)
}

/// What kind of entity an address belongs to. The kind shows in the first
/// three bytes of the address.
#[derive(Debug, Clone, Copy, PartialEq, Eq, Structural, Hash)]
pub enum HashType {
    Agent,
    Entry,
    DhtOp,
    Header,
    Wasm,
    Dna,
}

impl HashType {
    /// The three bytes with which every address of the kind starts.
    pub open spec fn spec_prefix(self) -> Seq<u8> {
        match self {
            HashType::Agent => seq![0x84u8, 0x20u8, 0x24u8],
            HashType::Entry => seq![0x84u8, 0x21u8, 0x24u8],
            HashType::DhtOp => seq![0x84u8, 0x24u8, 0x24u8],
            HashType::Header => seq![0x84u8, 0x29u8, 0x24u8],
            HashType::Wasm => seq![0x84u8, 0x2au8, 0x24u8],
            HashType::Dna => seq![0x84u8, 0x2du8, 0x24u8],
        }
    }

    /// The three bytes with which every address of the kind starts.
    pub fn prefix(self) -> (prefix: Vec<u8>)
        ensures
            prefix@ == self.spec_prefix(),
    {
        let second: u8 = match self {
            HashType::Agent => 0x20,
            HashType::Entry => 0x21,
            HashType::DhtOp => 0x24,
            HashType::Header => 0x29,
            HashType::Wasm => 0x2a,
            HashType::Dna => 0x2d,
        };
        let mut prefix: Vec<u8> = Vec::new();
        prefix.push(0x84);
        prefix.push(second);
        prefix.push(0x24);
        assert(prefix@ =~= self.spec_prefix());
        prefix
    }
}

/// The location of a 32-byte digest in the address space of the network:
/// the 16-byte digest of the digest, folded into four bytes by exclusive or.
pub open spec fn location_of(core: Seq<u8>) -> Seq<u8> {
    let h = blake2b_digest(core, 16);
    seq![
        h[0] ^ h[4] ^ h[8] ^ h[12],
        h[1] ^ h[5] ^ h[9] ^ h[13],
        h[2] ^ h[6] ^ h[10] ^ h[14],
        h[3] ^ h[7] ^ h[11] ^ h[15],
    ]
}

/// The four location bytes of a 32-byte digest.
pub fn holo_dht_location_bytes(core: &Vec<u8>) -> (location: Vec<u8>)
    requires
        core@.len() == 32,
    ensures
        location@ == location_of(core@),
{
    let h = blake2b_128(core);
    let mut location: Vec<u8> = Vec::new();
    location.push(h[0] ^ h[4] ^ h[8] ^ h[12]);
    location.push(h[1] ^ h[5] ^ h[9] ^ h[13]);
    location.push(h[2] ^ h[6] ^ h[10] ^ h[14]);
    location.push(h[3] ^ h[7] ^ h[11] ^ h[15]);
    assert(location@ =~= location_of(core@));
    location
}

/// The address of content with the given canonical encoding: the prefix of
/// the kind, the 32-byte digest of the encoding, and the location of the
/// digest. It depends on nothing but the kind and the encoding.
pub open spec fn holo_hash_of(kind: HashType, encoded: Seq<u8>) -> Seq<u8> {
    kind.spec_prefix() + content_hash(encoded) + location_of(content_hash(encoded))
}

/// The same content has the same address, every time it is hashed.
pub proof fn lemma_content_addressing(kind: HashType, encoded: Seq<u8>, again: Seq<u8>)
    requires
        encoded == again,
    ensures
        holo_hash_of(kind, encoded) == holo_hash_of(kind, again),
{
}

/// The name for the text that `base64` makes of a byte string with the
/// URL-safe alphabet and no padding.
pub uninterp spec fn base64url_of(bytes: Seq<u8>) -> Seq<char>;

/// The greatest number of bytes that are encoded as text.
pub const MAX_ENCODED_BYTES: usize = 0x3fff_ffff;

/// `base64::Engine::encode` on the engine `URL_SAFE_NO_PAD`: the result is
/// the base64 text of `bytes` in the URL-safe alphabet, without padding. The
/// call panics where the length of the text cannot be counted, which takes
/// more bytes than are accepted here.
#[verifier::external_body]
fn base64url(bytes: &Vec<u8>) -> (text: String)
    requires
        bytes@.len() <= MAX_ENCODED_BYTES,
    ensures
        text@ == base64url_of(bytes@),
{
    base64::engine::general_purpose::URL_SAFE_NO_PAD.encode(bytes)
}

impl HoloHash {
    /// The address of content of the given kind with the given canonical
    /// encoding.
    pub fn with_data(kind: HashType, encoded: &Vec<u8>) -> (hash: Self)
        ensures
            hash@ == holo_hash_of(kind, encoded@),
            hash@.len() == 39,
    {
        let mut bytes = kind.prefix();
        let mut core = blake2b_256(encoded);
        let mut location = holo_dht_location_bytes(&core);
        bytes.append(&mut core);
        bytes.append(&mut location);
        assert(bytes@ =~= holo_hash_of(kind, encoded@));
        HoloHash { bytes }
    }

    /// The address as text: the letter `u`, then the bytes in base64 with the
    /// URL-safe alphabet and without padding.
    pub fn to_string(&self) -> (text: String)
        requires
            self@.len() <= MAX_ENCODED_BYTES,
        ensures
            text@ == "u"@ + base64url_of(self@),
    {
        let encoded = base64url(&self.bytes);
        String::from_str("u").concat(encoded.as_str())
    }
}

} // verus!
