//! Operations: the units of data that are derived from a committed element,
//! validated, stored and passed on to the network.

use vstd::prelude::*;
use crate::element::Element;
use crate::entry::Entry;
use crate::entry::EntryView;
use crate::error::DhtOpError;
use crate::error::DhtOpErrorView;
use crate::hash::holo_hash_of;
use crate::hash::AnyDhtHash;
use crate::hash::DhtOpHash;
use crate::hash::EntryHash;
use crate::hash::HashType;
use crate::hash::HeaderHash;
use crate::hash::HoloHash;
use crate::header::CreateLink;
use crate::header::CreateLinkView;
use crate::header::Delete;
use crate::header::DeleteLink;
use crate::header::DeleteLinkView;
use crate::header::DeleteView;
use crate::header::Header;
use crate::header::HeaderView;
use crate::header::NewEntryHeader;
use crate::header::NewEntryHeaderView;
use crate::header::Signature;
use crate::header::Timestamp;
use crate::order::Ordered;
use crate::order::Relation;
use crate::header::Update;
use crate::header::UpdateView;

verus! {

/// The variant of an operation, without its content.
#[derive(Debug, Clone, Copy, PartialEq, Eq, Structural, Hash)]
pub enum DhtOpType {
    StoreElement,
    StoreEntry,
    RegisterAgentActivity,
    RegisterReplacedBy,
    RegisterDeletedBy,
    RegisterAddLink,
    RegisterRemoveLink,
}

/// One operation. Each carries the signature of the header it was derived
/// from, that header in its general or its narrow form, and, for some
/// variants, the entry.
#[derive(Debug, PartialEq, Eq)]
pub enum DhtOp {
    /// Store the header, and the entry if one is given.
    StoreElement(Signature, Header, Option<Entry>),
    /// Store the entry under its own address.
    StoreEntry(Signature, NewEntryHeader, Entry),
    /// Record the header in the activity of its author.
    RegisterAgentActivity(Signature, Header),
    /// Record at the original that it was replaced.
    RegisterReplacedBy(Signature, Update, Option<Entry>),
    /// Record at the original that it was deleted.
    RegisterDeletedBy(Signature, Delete),
    /// Record the link at its base.
    RegisterAddLink(Signature, CreateLink),
    /// Record at the base that the link was removed.
    RegisterRemoveLink(Signature, DeleteLink),
}

pub ghost enum DhtOpView {
    StoreElement(Seq<u8>, HeaderView, Option<EntryView>),
    StoreEntry(Seq<u8>, NewEntryHeaderView, EntryView),
    RegisterAgentActivity(Seq<u8>, HeaderView),
    RegisterReplacedBy(Seq<u8>, UpdateView, Option<EntryView>),
    RegisterDeletedBy(Seq<u8>, DeleteView),
    RegisterAddLink(Seq<u8>, CreateLinkView),
    RegisterRemoveLink(Seq<u8>, DeleteLinkView),
}

impl View for DhtOp {
    type V = DhtOpView;

    open spec fn view(&self) -> DhtOpView {
        match *self {
            DhtOp::StoreElement(s, h, e) => DhtOpView::StoreElement(s@, h@, e.deep_view()),
            DhtOp::StoreEntry(s, h, e) => DhtOpView::StoreEntry(s@, h@, e@),
            DhtOp::RegisterAgentActivity(s, h) => DhtOpView::RegisterAgentActivity(s@, h@),
            DhtOp::RegisterReplacedBy(s, h, e) => DhtOpView::RegisterReplacedBy(
                s@,
                h@,
                e.deep_view(),
            ),
            DhtOp::RegisterDeletedBy(s, h) => DhtOpView::RegisterDeletedBy(s@, h@),
            DhtOp::RegisterAddLink(s, h) => DhtOpView::RegisterAddLink(s@, h@),
            DhtOp::RegisterRemoveLink(s, h) => DhtOpView::RegisterRemoveLink(s@, h@),
        }
    }
}

impl DeepView for DhtOp {
    type V = DhtOpView;

    open spec fn deep_view(&self) -> DhtOpView {
        self@
    }
}

impl DhtOpView {
    /// The variant of the operation.
    pub open spec fn get_type(self) -> DhtOpType {
        match self {
            DhtOpView::StoreElement(..) => DhtOpType::StoreElement,
            DhtOpView::StoreEntry(..) => DhtOpType::StoreEntry,
            DhtOpView::RegisterAgentActivity(..) => DhtOpType::RegisterAgentActivity,
            DhtOpView::RegisterReplacedBy(..) => DhtOpType::RegisterReplacedBy,
            DhtOpView::RegisterDeletedBy(..) => DhtOpType::RegisterDeletedBy,
            DhtOpView::RegisterAddLink(..) => DhtOpType::RegisterAddLink,
            DhtOpView::RegisterRemoveLink(..) => DhtOpType::RegisterRemoveLink,
        }
    }

    /// The signature that the operation carries.
    pub open spec fn signature(self) -> Seq<u8> {
        match self {
            DhtOpView::StoreElement(s, _, _) => s,
            DhtOpView::StoreEntry(s, _, _) => s,
            DhtOpView::RegisterAgentActivity(s, _) => s,
            DhtOpView::RegisterReplacedBy(s, _, _) => s,
            DhtOpView::RegisterDeletedBy(s, _) => s,
            DhtOpView::RegisterAddLink(s, _) => s,
            DhtOpView::RegisterRemoveLink(s, _) => s,
        }
    }

    /// The header that the operation carries, in its general form.
    pub open spec fn header(self) -> HeaderView {
        match self {
            DhtOpView::StoreElement(_, h, _) => h,
            DhtOpView::StoreEntry(_, h, _) => h.to_header(),
            DhtOpView::RegisterAgentActivity(_, h) => h,
            DhtOpView::RegisterReplacedBy(_, h, _) => HeaderView::Update(h),
            DhtOpView::RegisterDeletedBy(_, h) => HeaderView::Delete(h),
            DhtOpView::RegisterAddLink(_, h) => HeaderView::CreateLink(h),
            DhtOpView::RegisterRemoveLink(_, h) => HeaderView::DeleteLink(h),
        }
    }

    /// The entry that the operation carries, if it carries one.
    pub open spec fn entry(self) -> Option<EntryView> {
        match self {
            DhtOpView::StoreElement(_, _, e) => e,
            DhtOpView::StoreEntry(_, _, e) => Some(e),
            DhtOpView::RegisterReplacedBy(_, _, e) => e,
            _ => None,
        }
    }
}

impl DhtOp {
    /// The variant of the operation.
    pub fn get_type(&self) -> (t: DhtOpType)
        ensures
            t == self@.get_type(),
    {
        match self {
            DhtOp::StoreElement(..) => DhtOpType::StoreElement,
            DhtOp::StoreEntry(..) => DhtOpType::StoreEntry,
            DhtOp::RegisterAgentActivity(..) => DhtOpType::RegisterAgentActivity,
            DhtOp::RegisterReplacedBy(..) => DhtOpType::RegisterReplacedBy,
            DhtOp::RegisterDeletedBy(..) => DhtOpType::RegisterDeletedBy,
            DhtOp::RegisterAddLink(..) => DhtOpType::RegisterAddLink,
            DhtOp::RegisterRemoveLink(..) => DhtOpType::RegisterRemoveLink,
        }
    }

    /// The signature that the operation carries.
    pub fn signature(&self) -> (signature: &Signature)
        ensures
            signature@ == self@.signature(),
    {
        match self {
            DhtOp::StoreElement(s, _, _) => s,
            DhtOp::StoreEntry(s, _, _) => s,
            DhtOp::RegisterAgentActivity(s, _) => s,
            DhtOp::RegisterReplacedBy(s, _, _) => s,
            DhtOp::RegisterDeletedBy(s, _) => s,
            DhtOp::RegisterAddLink(s, _) => s,
            DhtOp::RegisterRemoveLink(s, _) => s,
        }
    }

    /// A copy of the header that the operation carries, in its general form.
    pub fn header(&self) -> (header: Header)
        ensures
            header@ == self@.header(),
    {
        match self {
            DhtOp::StoreElement(_, h, _) => h.clone(),
            DhtOp::StoreEntry(_, h, _) => h.clone().into_header(),
            DhtOp::RegisterAgentActivity(_, h) => h.clone(),
            DhtOp::RegisterReplacedBy(_, h, _) => Header::Update(h.clone()),
            DhtOp::RegisterDeletedBy(_, h) => Header::Delete(h.clone()),
            DhtOp::RegisterAddLink(_, h) => Header::CreateLink(h.clone()),
            DhtOp::RegisterRemoveLink(_, h) => Header::DeleteLink(h.clone()),
        }
    }

    /// The entry that the operation carries, if it carries one.
    pub fn entry(&self) -> (entry: Option<&Entry>)
        ensures
            entry.deep_view() == self@.entry(),
    {
        match self {
            DhtOp::StoreElement(_, _, e) => e.as_ref(),
            DhtOp::StoreEntry(_, _, e) => Some(e),
            DhtOp::RegisterReplacedBy(_, _, e) => e.as_ref(),
            _ => None,
        }
    }
}

/// An operation together with its address.
#[derive(Debug, PartialEq, Eq)]
pub struct DhtOpHashed {
    pub content: DhtOp,
    pub hash: DhtOpHash,
}

pub ghost struct DhtOpHashedView {
    pub content: DhtOpView,
    pub hash: Seq<u8>,
}

impl View for DhtOpHashed {
    type V = DhtOpHashedView;

    open spec fn view(&self) -> DhtOpHashedView {
        DhtOpHashedView { content: self.content@, hash: self.hash@ }
    }
}

impl DhtOpHashed {
    /// Pairs an operation with its address, computed from its canonical encoding.
    pub fn from_content_sync(content: DhtOp, encoded: &Vec<u8>) -> (hashed: Self)
        ensures
            hashed@ == (DhtOpHashedView {
                content: content@,
                hash: holo_hash_of(HashType::DhtOp, encoded@),
            }),
    {
        DhtOpHashed { content, hash: HoloHash::with_data(HashType::DhtOp, encoded) }
    }

    /// Pairs an operation with an address computed elsewhere.
    pub fn with_pre_hashed(content: DhtOp, hash: DhtOpHash) -> (hashed: Self)
        ensures
            hashed@ == (DhtOpHashedView { content: content@, hash: hash@ }),
    {
        DhtOpHashed { content, hash }
    }

    /// The operation and its address.
    pub fn into_inner(self) -> (parts: (DhtOp, DhtOpHash))
        ensures
            parts.0@ == self@.content,
            parts.1@ == self@.hash,
    {
        (self.content, self.hash)
    }
}

/// Whether the header declares an entry that was not supplied.
pub open spec fn lacks_entry(header: HeaderView, entry: Option<EntryView>) -> bool {
    header.entry_hash() is Some && entry is None
}

/// The operations of a committed header, in the order in which they are
/// processed. Every header yields the two operations that store it and record
/// it with its author; what follows depends on the variant.
pub open spec fn ops_of(signature: Seq<u8>, header: HeaderView, entry: Option<EntryView>) -> Seq<
    DhtOpView,
> {
    let activity = DhtOpView::RegisterAgentActivity(signature, header);
    match header {
        HeaderView::Create(h) => seq![
            DhtOpView::StoreElement(signature, header, entry),
            activity,
            DhtOpView::StoreEntry(signature, NewEntryHeaderView::Create(h), entry->Some_0),
        ],
        HeaderView::Update(h) => seq![
            DhtOpView::StoreElement(signature, header, entry),
            activity,
            DhtOpView::StoreEntry(signature, NewEntryHeaderView::Update(h), entry->Some_0),
            DhtOpView::RegisterReplacedBy(signature, h, entry),
        ],
        HeaderView::Delete(h) => seq![
            DhtOpView::StoreElement(signature, header, None),
            activity,
            DhtOpView::RegisterDeletedBy(signature, h),
        ],
        HeaderView::CreateLink(h) => seq![
            DhtOpView::StoreElement(signature, header, None),
            activity,
            DhtOpView::RegisterAddLink(signature, h),
        ],
        HeaderView::DeleteLink(h) => seq![
            DhtOpView::StoreElement(signature, header, None),
            activity,
            DhtOpView::RegisterRemoveLink(signature, h),
        ],
        _ => seq![DhtOpView::StoreElement(signature, header, None), activity],
    }
}

/// What deriving the operations of an element yields: the operations, or the
/// failure for a header whose declared entry is missing.
pub open spec fn derive_ops(
    signature: Seq<u8>,
    header: HeaderView,
    entry: Option<EntryView>,
) -> Result<Seq<DhtOpView>, DhtOpErrorView> {
    if lacks_entry(header, entry) {
        Err(DhtOpErrorView::HeaderWithoutEntry(header))
    } else {
        Ok(ops_of(signature, header, entry))
    }
}

/// The view of the result of a derivation.
pub open spec fn ops_result_view(result: Result<Vec<DhtOp>, DhtOpError>) -> Result<
    Seq<DhtOpView>,
    DhtOpErrorView,
> {
    match result {
        Ok(ops) => Ok(ops.deep_view()),
        Err(e) => Err(e@),
    }
}

/// Derives the operations of a committed element. Neither hashes nor
/// signatures are checked here.
pub fn ops_from_element(element: &Element) -> (result: Result<Vec<DhtOp>, DhtOpError>)
    ensures
        ops_result_view(result) == derive_ops(
            element@.signed_header.signature,
            element@.signed_header.header.content,
            element@.entry,
        ),
        result matches Ok(ops) ==> ops.len() == ops_of(
            element@.signed_header.signature,
            element@.signed_header.header.content,
            element@.entry,
        ).len(),
{
    let signature = element.signature();
    let header = element.header();
    let mut ops: Vec<DhtOp> = Vec::new();
    match header {
        Header::Create(h) => {
            match element.entry() {
                None => {
                    return Err(DhtOpError::HeaderWithoutEntry(header.clone()));
                },
                Some(entry) => {
                    ops.push(
                        DhtOp::StoreElement(signature.clone(), header.clone(), Some(entry.clone())),
                    );
                    ops.push(DhtOp::RegisterAgentActivity(signature.clone(), header.clone()));
                    ops.push(
                        DhtOp::StoreEntry(
                            signature.clone(),
                            NewEntryHeader::Create(h.clone()),
                            entry.clone(),
                        ),
                    );
                },
            }
        },
        Header::Update(h) => {
            match element.entry() {
                None => {
                    return Err(DhtOpError::HeaderWithoutEntry(header.clone()));
                },
                Some(entry) => {
                    ops.push(
                        DhtOp::StoreElement(signature.clone(), header.clone(), Some(entry.clone())),
                    );
                    ops.push(DhtOp::RegisterAgentActivity(signature.clone(), header.clone()));
                    ops.push(
                        DhtOp::StoreEntry(
                            signature.clone(),
                            NewEntryHeader::Update(h.clone()),
                            entry.clone(),
                        ),
                    );
                    ops.push(
                        DhtOp::RegisterReplacedBy(
                            signature.clone(),
                            h.clone(),
                            Some(entry.clone()),
                        ),
                    );
                },
            }
        },
        Header::Delete(h) => {
            ops.push(DhtOp::StoreElement(signature.clone(), header.clone(), None));
            ops.push(DhtOp::RegisterAgentActivity(signature.clone(), header.clone()));
            ops.push(DhtOp::RegisterDeletedBy(signature.clone(), h.clone()));
        },
        Header::CreateLink(h) => {
            ops.push(DhtOp::StoreElement(signature.clone(), header.clone(), None));
            ops.push(DhtOp::RegisterAgentActivity(signature.clone(), header.clone()));
            ops.push(DhtOp::RegisterAddLink(signature.clone(), h.clone()));
        },
        Header::DeleteLink(h) => {
            ops.push(DhtOp::StoreElement(signature.clone(), header.clone(), None));
            ops.push(DhtOp::RegisterAgentActivity(signature.clone(), header.clone()));
            ops.push(DhtOp::RegisterRemoveLink(signature.clone(), h.clone()));
        },
        _ => {
            ops.push(DhtOp::StoreElement(signature.clone(), header.clone(), None));
            ops.push(DhtOp::RegisterAgentActivity(signature.clone(), header.clone()));
        },
    }
    assert(ops.deep_view() =~= ops_of(
        element@.signed_header.signature,
        element@.signed_header.header.content,
        element@.entry,
    ));
    Ok(ops)
}

/// The place of an operation in the order of processing: operations are
/// processed by the rank of their variant, and within one rank by the time at
/// which their header was authored.
#[derive(Debug, Clone, Copy, PartialEq, Eq, Structural, Hash)]
pub struct OpOrder {
    pub order: u8,
    pub timestamp: Timestamp,
}

impl DhtOpType {
    /// The rank of the variant in the order of processing.
    pub open spec fn spec_rank(self) -> u8 {
        match self {
            DhtOpType::StoreEntry => 0,
            DhtOpType::StoreElement => 1,
            DhtOpType::RegisterAgentActivity => 2,
            DhtOpType::RegisterReplacedBy => 3,
            DhtOpType::RegisterDeletedBy => 4,
            DhtOpType::RegisterAddLink => 5,
            DhtOpType::RegisterRemoveLink => 6,
        }
    }

    /// The rank of the variant in the order of processing.
    pub fn rank(self) -> (rank: u8)
        ensures
            rank == self.spec_rank(),
    {
        match self {
            DhtOpType::StoreEntry => 0,
            DhtOpType::StoreElement => 1,
            DhtOpType::RegisterAgentActivity => 2,
            DhtOpType::RegisterReplacedBy => 3,
            DhtOpType::RegisterDeletedBy => 4,
            DhtOpType::RegisterAddLink => 5,
            DhtOpType::RegisterRemoveLink => 6,
        }
    }
}

impl View for OpOrder {
    type V = OpOrder;

    open spec fn view(&self) -> OpOrder {
        *self
    }
}

impl OpOrder {
    /// The place of an operation of the given variant whose header was
    /// authored at the given time.
    pub fn new(op_type: DhtOpType, timestamp: Timestamp) -> (order: Self)
        ensures
            order == (OpOrder { order: op_type.spec_rank(), timestamp }),
    {
        OpOrder { order: op_type.rank(), timestamp }
    }
}

impl Ordered for OpOrder {
    open spec fn le(a: OpOrder, b: OpOrder) -> bool {
        if a.order != b.order {
            a.order < b.order
        } else if a.timestamp.0 != b.timestamp.0 {
            a.timestamp.0 < b.timestamp.0
        } else {
            a.timestamp.1 <= b.timestamp.1
        }
    }

    proof fn le_reflexive(a: OpOrder) {
    }

    proof fn le_antisymmetric(a: OpOrder, b: OpOrder) {
    }

    proof fn le_transitive(a: OpOrder, b: OpOrder, c: OpOrder) {
    }

    proof fn le_total(a: OpOrder, b: OpOrder) {
    }

    fn compare(&self, other: &OpOrder) -> (relation: Relation) {
        if self.order < other.order {
            Relation::Less
        } else if self.order > other.order {
            Relation::Greater
        } else if self.timestamp.0 < other.timestamp.0 {
            Relation::Less
        } else if self.timestamp.0 > other.timestamp.0 {
            Relation::Greater
        } else if self.timestamp.1 < other.timestamp.1 {
            Relation::Less
        } else if self.timestamp.1 > other.timestamp.1 {
            Relation::Greater
        } else {
            Relation::Equal
        }
    }

    fn duplicate(&self) -> (copy: OpOrder) {
        *self
    }
}

/// The light form of an operation: its variant and the addresses of what it
/// carries, with the address under which the network holds it.
#[derive(Debug, PartialEq, Eq, Hash)]
pub struct DhtOpLight {
    pub op_type: DhtOpType,
    pub header_hash: HeaderHash,
    pub entry_hash: Option<EntryHash>,
    pub basis: AnyDhtHash,
}

pub ghost struct DhtOpLightView {
    pub op_type: DhtOpType,
    pub header_hash: Seq<u8>,
    pub entry_hash: Option<Seq<u8>>,
    pub basis: Seq<u8>,
}

impl View for DhtOpLight {
    type V = DhtOpLightView;

    open spec fn view(&self) -> DhtOpLightView {
        DhtOpLightView {
            op_type: self.op_type,
            header_hash: self.header_hash@,
            entry_hash: self.entry_hash.deep_view(),
            basis: self.basis@,
        }
    }
}

impl Clone for DhtOpLight {
    fn clone(&self) -> (copy: Self)
        ensures
            copy@ == self@,
    {
        let entry_hash = match &self.entry_hash {
            Some(hash) => Some(hash.clone()),
            None => None,
        };
        DhtOpLight {
            op_type: self.op_type,
            header_hash: self.header_hash.clone(),
            entry_hash,
            basis: self.basis.clone(),
        }
    }
}

impl DhtOpLight {
    pub fn get_type(&self) -> (t: DhtOpType)
        ensures
            t == self@.op_type,
    {
        self.op_type
    }

    pub fn header_hash(&self) -> (hash: &HeaderHash)
        ensures
            hash@ == self@.header_hash,
    {
        &self.header_hash
    }

    pub fn dht_basis(&self) -> (basis: &AnyDhtHash)
        ensures
            basis@ == self@.basis,
    {
        &self.basis
    }
}

impl DhtOpView {
    /// The address of the entry that the light form names: the entry that the
    /// header declares, for the operations that store or replace an entry.
    pub open spec fn light_entry_hash(self) -> Option<Seq<u8>> {
        match self {
            DhtOpView::StoreElement(_, h, _) => h.entry_hash(),
            DhtOpView::StoreEntry(_, h, _) => h.to_header().entry_hash(),
            DhtOpView::RegisterReplacedBy(_, h, _) => Some(h.entry_hash),
            _ => None,
        }
    }

    /// The light form of the operation, given the address of its header and
    /// its basis.
    pub open spec fn to_light(self, header_hash: Seq<u8>, basis: Seq<u8>) -> DhtOpLightView {
        DhtOpLightView {
            op_type: self.get_type(),
            header_hash,
            entry_hash: self.light_entry_hash(),
            basis,
        }
    }
}

impl DhtOp {
    /// The light form of the operation, given the address of its header and
    /// its basis.
    pub fn to_light(&self, header_hash: HeaderHash, basis: AnyDhtHash) -> (light: DhtOpLight)
        ensures
            light@ == self@.to_light(header_hash@, basis@),
    {
        let entry_hash = match self {
            DhtOp::StoreElement(_, h, _) => match h.entry_hash() {
                Some(hash) => Some(hash.clone()),
                None => None,
            },
            DhtOp::StoreEntry(_, h, _) => Some(h.entry().clone()),
            DhtOp::RegisterReplacedBy(_, h, _) => Some(h.entry_hash.clone()),
            _ => None,
        };
        DhtOpLight { op_type: self.get_type(), header_hash, entry_hash, basis }
    }
}

/// Every header yields operations, unless the entry that it declares is
/// missing: first the operation that stores the element, then the one that
/// records it with its author, then those of its variant. A header that
/// commits an entry yields three, an update one more for the original, a
/// delete and the headers of links three, and every other header two. Each
/// operation carries the signature and the header of the element.
pub proof fn lemma_derivation_is_total(
    signature: Seq<u8>,
    header: HeaderView,
    entry: Option<EntryView>,
)
    ensures
        derive_ops(signature, header, entry) is Err <==> lacks_entry(header, entry),
        derive_ops(signature, header, entry) matches Ok(ops) ==> {
            &&& ops == ops_of(signature, header, entry)
            &&& ops.len() == match header {
                HeaderView::Create(_) => 3int,
                HeaderView::Update(_) => 4int,
                HeaderView::Delete(_) => 3int,
                HeaderView::CreateLink(_) => 3int,
                HeaderView::DeleteLink(_) => 3int,
                _ => 2int,
            }
            &&& ops[0].get_type() == DhtOpType::StoreElement
            &&& ops[1] == DhtOpView::RegisterAgentActivity(signature, header)
            &&& forall|i: int|
                0 <= i < ops.len() ==> (#[trigger] ops[i]).header() == header && ops[i].signature()
                    == signature
        },
{
}

} // verus!
