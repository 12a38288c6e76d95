//! Hashed and signed records, and the element: a signed header with the entry
//! it commits.

use vstd::prelude::*;
use crate::entry::Entry;
use crate::entry::EntryView;
use crate::hash::holo_hash_of;
use crate::hash::EntryHash;
use crate::hash::HashType;
use crate::hash::HeaderHash;
use crate::hash::HoloHash;
use crate::header::Header;
use crate::header::HeaderView;
use crate::header::Signature;

verus! {

/// A header together with its address.
#[derive(Debug, PartialEq, Eq, Hash)]
pub struct HeaderHashed {
    pub content: Header,
    pub hash: HeaderHash,
}

pub ghost struct HeaderHashedView {
    pub content: HeaderView,
    pub hash: Seq<u8>,
}

impl View for HeaderHashed {
    type V = HeaderHashedView;

    open spec fn view(&self) -> HeaderHashedView {
        HeaderHashedView { content: self.content@, hash: self.hash@ }
    }
}

impl Clone for HeaderHashed {
    fn clone(&self) -> (copy: Self)
        ensures
            copy@ == self@,
    {
        HeaderHashed { content: self.content.clone(), hash: self.hash.clone() }
    }
}

impl HeaderHashed {
    /// Pairs a header with its address, computed from its canonical encoding.
    pub fn from_content_sync(content: Header, encoded: &Vec<u8>) -> (hashed: Self)
        ensures
            hashed@ == (HeaderHashedView {
                content: content@,
                hash: holo_hash_of(HashType::Header, encoded@),
            }),
    {
        HeaderHashed { content, hash: HoloHash::with_data(HashType::Header, encoded) }
    }

    /// Pairs a header with an address computed elsewhere.
    pub fn with_pre_hashed(content: Header, hash: HeaderHash) -> (hashed: Self)
        ensures
            hashed@ == (HeaderHashedView { content: content@, hash: hash@ }),
    {
        HeaderHashed { content, hash }
    }

    /// The header and its address.
    pub fn into_inner(self) -> (parts: (Header, HeaderHash))
        ensures
            parts.0@ == self@.content,
            parts.1@ == self@.hash,
    {
        (self.content, self.hash)
    }

    pub fn as_content(&self) -> (content: &Header)
        ensures
            content@ == self@.content,
    {
        &self.content
    }

    pub fn as_hash(&self) -> (hash: &HeaderHash)
        ensures
            hash@ == self@.hash,
    {
        &self.hash
    }
}

/// A header and the signature of its author: what is stored as a header's blob.
#[derive(Debug, PartialEq, Eq, Hash)]
pub struct SignedHeader(pub Header, pub Signature);

pub ghost struct SignedHeaderView {
    pub header: HeaderView,
    pub signature: Seq<u8>,
}

impl View for SignedHeader {
    type V = SignedHeaderView;

    open spec fn view(&self) -> SignedHeaderView {
        SignedHeaderView { header: self.0@, signature: self.1@ }
    }
}

impl Clone for SignedHeader {
    fn clone(&self) -> (copy: Self)
        ensures
            copy@ == self@,
    {
        SignedHeader(self.0.clone(), self.1.clone())
    }
}

/// A hashed header and the signature of its author.
#[derive(Debug, PartialEq, Eq, Hash)]
pub struct SignedHeaderHashed {
    pub header: HeaderHashed,
    pub signature: Signature,
}

pub ghost struct SignedHeaderHashedView {
    pub header: HeaderHashedView,
    pub signature: Seq<u8>,
}

impl View for SignedHeaderHashed {
    type V = SignedHeaderHashedView;

    open spec fn view(&self) -> SignedHeaderHashedView {
        SignedHeaderHashedView { header: self.header@, signature: self.signature@ }
    }
}

impl DeepView for SignedHeaderHashed {
    type V = SignedHeaderHashedView;

    open spec fn deep_view(&self) -> SignedHeaderHashedView {
        self@
    }
}

impl Clone for SignedHeaderHashed {
    fn clone(&self) -> (copy: Self)
        ensures
            copy@ == self@,
    {
        SignedHeaderHashed { header: self.header.clone(), signature: self.signature.clone() }
    }
}

impl SignedHeaderHashed {
    /// Pairs a hashed header with a signature made elsewhere.
    pub fn with_presigned(header: HeaderHashed, signature: Signature) -> (signed: Self)
        ensures
            signed@ == (SignedHeaderHashedView { header: header@, signature: signature@ }),
    {
        SignedHeaderHashed { header, signature }
    }

    /// The hashed header and the signature.
    pub fn into_header_and_signature(self) -> (parts: (HeaderHashed, Signature))
        ensures
            parts.0@ == self@.header,
            parts.1@ == self@.signature,
    {
        (self.header, self.signature)
    }

    pub fn header(&self) -> (header: &Header)
        ensures
            header@ == self@.header.content,
    {
        &self.header.content
    }

    pub fn header_address(&self) -> (hash: &HeaderHash)
        ensures
            hash@ == self@.header.hash,
    {
        &self.header.hash
    }

    pub fn signature(&self) -> (signature: &Signature)
        ensures
            signature@ == self@.signature,
    {
        &self.signature
    }
}

/// An entry together with its address.
#[derive(Debug, PartialEq, Eq, Hash)]
pub struct EntryHashed {
    pub content: Entry,
    pub hash: EntryHash,
}

pub ghost struct EntryHashedView {
    pub content: EntryView,
    pub hash: Seq<u8>,
}

impl View for EntryHashed {
    type V = EntryHashedView;

    open spec fn view(&self) -> EntryHashedView {
        EntryHashedView { content: self.content@, hash: self.hash@ }
    }
}

impl DeepView for EntryHashed {
    type V = EntryHashedView;

    open spec fn deep_view(&self) -> EntryHashedView {
        self@
    }
}

impl Clone for EntryHashed {
    fn clone(&self) -> (copy: Self)
        ensures
            copy@ == self@,
    {
        EntryHashed { content: self.content.clone(), hash: self.hash.clone() }
    }
}

impl EntryHashed {
    /// Pairs an entry with its address, computed from its canonical encoding.
    pub fn from_content_sync(content: Entry, encoded: &Vec<u8>) -> (hashed: Self)
        ensures
            hashed@ == (EntryHashedView {
                content: content@,
                hash: holo_hash_of(HashType::Entry, encoded@),
            }),
    {
        EntryHashed { content, hash: HoloHash::with_data(HashType::Entry, encoded) }
    }

    /// Pairs an entry with an address computed elsewhere.
    pub fn with_pre_hashed(content: Entry, hash: EntryHash) -> (hashed: Self)
        ensures
            hashed@ == (EntryHashedView { content: content@, hash: hash@ }),
    {
        EntryHashed { content, hash }
    }

    /// The entry and its address.
    pub fn into_inner(self) -> (parts: (Entry, EntryHash))
        ensures
            parts.0@ == self@.content,
            parts.1@ == self@.hash,
    {
        (self.content, self.hash)
    }
}

/// A committed record of a source chain: a signed header, and the entry that
/// the header commits where one was supplied.
#[derive(Debug, PartialEq, Eq, Hash)]
pub struct Element {
    pub signed_header: SignedHeaderHashed,
    pub entry: Option<Entry>,
}

pub ghost struct ElementView {
    pub signed_header: SignedHeaderHashedView,
    pub entry: Option<EntryView>,
}

impl View for Element {
    type V = ElementView;

    open spec fn view(&self) -> ElementView {
        ElementView { signed_header: self.signed_header@, entry: self.entry.deep_view() }
    }
}

impl Element {
    pub fn new(signed_header: SignedHeaderHashed, entry: Option<Entry>) -> (element: Self)
        ensures
            element@ == (ElementView {
                signed_header: signed_header@,
                entry: entry.deep_view(),
            }),
    {
        Element { signed_header, entry }
    }

    /// The signed header and the entry.
    pub fn into_inner(self) -> (parts: (SignedHeaderHashed, Option<Entry>))
        ensures
            parts.0@ == self@.signed_header,
            parts.1.deep_view() == self@.entry,
    {
        (self.signed_header, self.entry)
    }

    pub fn header(&self) -> (header: &Header)
        ensures
            header@ == self@.signed_header.header.content,
    {
        &self.signed_header.header.content
    }

    pub fn signature(&self) -> (signature: &Signature)
        ensures
            signature@ == self@.signed_header.signature,
    {
        &self.signed_header.signature
    }

    pub fn entry(&self) -> (entry: &Option<Entry>)
        ensures
            entry.deep_view() == self@.entry,
    {
        &self.entry
    }
}

} // verus!
