//! The rows under which headers, entries and operations are persisted, and
//! the projection of each entity onto the columns of its row.
//!
//! A column that does not apply to a row holds nothing. The `blob` column
//! holds the whole entity; it is encoded where the row is written out.

use vstd::prelude::*;
use crate::dht_op::DhtOpLight;
use crate::dht_op::DhtOpLightView;
use crate::dht_op::DhtOpType;
use crate::dht_op::OpOrder;
use crate::element::EntryHashed;
use crate::element::EntryHashedView;
use crate::element::SignedHeader;
use crate::element::SignedHeaderHashed;
use crate::element::SignedHeaderHashedView;
use crate::element::SignedHeaderView;
use crate::entry::CapAccess;
use crate::entry::CapAccessView;
use crate::entry::Entry;
use crate::entry::EntryView;
use crate::hash::AgentPubKey;
use crate::hash::AnyDhtHash;
use crate::hash::DhtOpHash;
use crate::hash::EntryHash;
use crate::hash::HeaderHash;
use crate::hash::HoloHash;
use crate::header::EntryType;
use crate::header::EntryVisibility;
use crate::header::Header;
use crate::header::HeaderType;
use crate::header::HeaderView;
use crate::header::Timestamp;
use crate::validation::ValidationStatus;

verus! {

/// A copy of an address that may be absent.
pub fn clone_opt_hash(hash: Option<&HoloHash>) -> (copy: Option<HoloHash>)
    ensures
        copy.deep_view() == hash.deep_view(),
{
    match hash {
        Some(h) => Some(h.clone()),
        None => None,
    }
}

/// The row of a header.
#[derive(Debug, PartialEq, Eq)]
pub struct HeaderRow {
    pub hash: HeaderHash,
    pub header_type: HeaderType,
    pub seq: u32,
    pub author: AgentPubKey,
    pub prev_hash: Option<HeaderHash>,
    /// For `Create` and `Update`.
    pub entry_hash: Option<EntryHash>,
    /// For `Create` and `Update`.
    pub entry_type: Option<EntryType>,
    /// For `Create` and `Update`: whether the entry is private.
    pub private_entry: Option<bool>,
    /// For `Update`.
    pub original_entry_hash: Option<EntryHash>,
    /// For `Update`.
    pub original_header_hash: Option<HeaderHash>,
    /// For `Delete`.
    pub deletes_entry_hash: Option<EntryHash>,
    /// For `Delete`.
    pub deletes_header_hash: Option<HeaderHash>,
    /// For `CreateLink`.
    pub base_hash: Option<EntryHash>,
    /// For `CreateLink`.
    pub zome_id: Option<u32>,
    /// For `CreateLink`.
    pub tag: Option<Vec<u8>>,
    /// For `DeleteLink`.
    pub create_link_hash: Option<HeaderHash>,
    pub blob: SignedHeader,
}

pub ghost struct HeaderRowView {
    pub hash: Seq<u8>,
    pub header_type: HeaderType,
    pub seq: u32,
    pub author: Seq<u8>,
    pub prev_hash: Option<Seq<u8>>,
    pub entry_hash: Option<Seq<u8>>,
    pub entry_type: Option<EntryType>,
    pub private_entry: Option<bool>,
    pub original_entry_hash: Option<Seq<u8>>,
    pub original_header_hash: Option<Seq<u8>>,
    pub deletes_entry_hash: Option<Seq<u8>>,
    pub deletes_header_hash: Option<Seq<u8>>,
    pub base_hash: Option<Seq<u8>>,
    pub zome_id: Option<u32>,
    pub tag: Option<Seq<u8>>,
    pub create_link_hash: Option<Seq<u8>>,
    pub blob: SignedHeaderView,
}

impl View for HeaderRow {
    type V = HeaderRowView;

    open spec fn view(&self) -> HeaderRowView {
        HeaderRowView {
            hash: self.hash@,
            header_type: self.header_type,
            seq: self.seq,
            author: self.author@,
            prev_hash: self.prev_hash.deep_view(),
            entry_hash: self.entry_hash.deep_view(),
            entry_type: self.entry_type,
            private_entry: self.private_entry,
            original_entry_hash: self.original_entry_hash.deep_view(),
            original_header_hash: self.original_header_hash.deep_view(),
            deletes_entry_hash: self.deletes_entry_hash.deep_view(),
            deletes_header_hash: self.deletes_header_hash.deep_view(),
            base_hash: self.base_hash.deep_view(),
            zome_id: self.zome_id,
            tag: match self.tag {
                Some(tag) => Some(tag@),
                None => None,
            },
            create_link_hash: self.create_link_hash.deep_view(),
            blob: self.blob@,
        }
    }
}

/// The columns that every header row fills, with every other column empty.
pub open spec fn plain_header_row(signed: SignedHeaderHashedView) -> HeaderRowView {
    let header = signed.header.content;
    HeaderRowView {
        hash: signed.header.hash,
        header_type: header.header_type(),
        seq: header.header_seq(),
        author: header.author(),
        prev_hash: header.prev_header(),
        entry_hash: None,
        entry_type: None,
        private_entry: None,
        original_entry_hash: None,
        original_header_hash: None,
        deletes_entry_hash: None,
        deletes_header_hash: None,
        base_hash: None,
        zome_id: None,
        tag: None,
        create_link_hash: None,
        blob: SignedHeaderView { header, signature: signed.signature },
    }
}

/// The row of a signed header. Besides the columns of every header, the
/// headers that commit an entry fill the columns of the entry, an update and
/// a delete name what they act on, and the headers of links fill the columns
/// by which links are found.
pub open spec fn header_row_of(signed: SignedHeaderHashedView) -> HeaderRowView {
    let plain = plain_header_row(signed);
    match signed.header.content {
        HeaderView::Create(h) => HeaderRowView {
            entry_hash: Some(h.entry_hash),
            entry_type: Some(h.entry_type),
            private_entry: Some(signed.header.content.is_private()),
            ..plain
        },
        HeaderView::Update(h) => HeaderRowView {
            entry_hash: Some(h.entry_hash),
            entry_type: Some(h.entry_type),
            private_entry: Some(signed.header.content.is_private()),
            original_entry_hash: Some(h.original_entry_address),
            original_header_hash: Some(h.original_header_address),
            ..plain
        },
        HeaderView::Delete(h) => HeaderRowView {
            deletes_entry_hash: Some(h.deletes_entry_address),
            deletes_header_hash: Some(h.deletes_address),
            ..plain
        },
        HeaderView::CreateLink(h) => HeaderRowView {
            base_hash: Some(h.base_address),
            zome_id: Some(h.zome_id as u32),
            tag: Some(h.tag),
            ..plain
        },
        HeaderView::DeleteLink(h) => HeaderRowView {
            create_link_hash: Some(h.link_add_address),
            ..plain
        },
        _ => plain,
    }
}

/// Projects a signed header onto its row.
pub fn header_row(signed: SignedHeaderHashed) -> (row: HeaderRow)
    ensures
        row@ == header_row_of(signed@),
{
    let (hashed, signature) = signed.into_header_and_signature();
    let (header, hash) = hashed.into_inner();
    let header_type = header.header_type();
    let seq = header.header_seq();
    let author = header.author().clone();
    let prev_hash = clone_opt_hash(header.prev_header());
    let private = match header.entry_type() {
        Some(t) => match t.visibility() {
            EntryVisibility::Private => true,
            EntryVisibility::Public => false,
        },
        None => false,
    };
    let mut row = HeaderRow {
        hash,
        header_type,
        seq,
        author,
        prev_hash,
        entry_hash: None,
        entry_type: None,
        private_entry: None,
        original_entry_hash: None,
        original_header_hash: None,
        deletes_entry_hash: None,
        deletes_header_hash: None,
        base_hash: None,
        zome_id: None,
        tag: None,
        create_link_hash: None,
        blob: SignedHeader(header, signature),
    };
    match &row.blob.0 {
        Header::Create(h) => {
            let entry_hash = h.entry_hash.clone();
            let entry_type = h.entry_type;
            row.entry_hash = Some(entry_hash);
            row.entry_type = Some(entry_type);
            row.private_entry = Some(private);
        },
        Header::Update(h) => {
            let entry_hash = h.entry_hash.clone();
            let entry_type = h.entry_type;
            let original_entry = h.original_entry_address.clone();
            let original_header = h.original_header_address.clone();
            row.entry_hash = Some(entry_hash);
            row.entry_type = Some(entry_type);
            row.private_entry = Some(private);
            row.original_entry_hash = Some(original_entry);
            row.original_header_hash = Some(original_header);
        },
        Header::Delete(h) => {
            let deletes_entry = h.deletes_entry_address.clone();
            let deletes_header = h.deletes_address.clone();
            row.deletes_entry_hash = Some(deletes_entry);
            row.deletes_header_hash = Some(deletes_header);
        },
        Header::CreateLink(h) => {
            let base = h.base_address.clone();
            let zome_id = h.zome_id as u32;
            let tag = h.tag.clone();
            row.base_hash = Some(base);
            row.zome_id = Some(zome_id);
            row.tag = Some(tag);
        },
        Header::DeleteLink(h) => {
            let create_link = h.link_add_address.clone();
            row.create_link_hash = Some(create_link);
        },
        _ => {},
    }
    row
}

/// How a capability grant restricts access, as a row holds it.
#[derive(Debug, Clone, Copy, PartialEq, Eq, Structural, Hash)]
pub enum CapAccessType {
    Unrestricted,
    Transferable,
    Assigned,
}

impl CapAccessType {
    /// The word under which the kind of access is stored.
    pub fn name(self) -> (name: &'static str)
        ensures
            name@ == match self {
                CapAccessType::Unrestricted => "unrestricted"@,
                CapAccessType::Transferable => "transferable"@,
                CapAccessType::Assigned => "assigned"@,
            },
    {
        match self {
            CapAccessType::Unrestricted => "unrestricted",
            CapAccessType::Transferable => "transferable",
            CapAccessType::Assigned => "assigned",
        }
    }
}

/// The row of an entry. The capability columns are filled for grants and
/// claims only. Of a grant, the agents it is assigned to and the functions it
/// covers have no columns of their own: they are held in the blob alone.
#[derive(Debug, PartialEq, Eq)]
pub struct EntryRow {
    pub hash: EntryHash,
    pub blob: Entry,
    pub tag: Option<String>,
    pub access_type: Option<CapAccessType>,
    pub grantor: Option<AgentPubKey>,
    pub cap_secret: Option<Vec<u8>>,
}

pub ghost struct EntryRowView {
    pub hash: Seq<u8>,
    pub blob: EntryView,
    pub tag: Option<Seq<char>>,
    pub access_type: Option<CapAccessType>,
    pub grantor: Option<Seq<u8>>,
    pub cap_secret: Option<Seq<u8>>,
}

impl View for EntryRow {
    type V = EntryRowView;

    open spec fn view(&self) -> EntryRowView {
        EntryRowView {
            hash: self.hash@,
            blob: self.blob@,
            tag: self.tag.deep_view(),
            access_type: self.access_type,
            grantor: self.grantor.deep_view(),
            cap_secret: match self.cap_secret {
                Some(secret) => Some(secret@),
                None => None,
            },
        }
    }
}

/// The row of an entry with the given address.
pub open spec fn entry_row_of(entry: EntryHashedView) -> EntryRowView {
    let plain = EntryRowView {
        hash: entry.hash,
        blob: entry.content,
        tag: None,
        access_type: None,
        grantor: None,
        cap_secret: None,
    };
    match entry.content {
        EntryView::CapGrant(grant) => match grant.access {
            CapAccessView::Unrestricted => EntryRowView {
                tag: Some(grant.tag),
                access_type: Some(CapAccessType::Unrestricted),
                ..plain
            },
            CapAccessView::Transferable { secret } => EntryRowView {
                tag: Some(grant.tag),
                access_type: Some(CapAccessType::Transferable),
                cap_secret: Some(secret),
                ..plain
            },
            CapAccessView::Assigned { secret, assignees } => EntryRowView {
                tag: Some(grant.tag),
                access_type: Some(CapAccessType::Assigned),
                cap_secret: Some(secret),
                ..plain
            },
        },
        EntryView::CapClaim(claim) => EntryRowView {
            tag: Some(claim.tag),
            grantor: Some(claim.grantor),
            cap_secret: Some(claim.secret),
            ..plain
        },
        _ => plain,
    }
}

/// Projects an entry onto its row.
pub fn entry_row(entry: EntryHashed) -> (row: EntryRow)
    ensures
        row@ == entry_row_of(entry@),
{
    let (content, hash) = entry.into_inner();
    let mut row = EntryRow {
        hash,
        blob: content,
        tag: None,
        access_type: None,
        grantor: None,
        cap_secret: None,
    };
    match &row.blob {
        Entry::CapGrant(grant) => {
            let tag = grant.tag.clone();
            let (access_type, secret) = match &grant.access {
                CapAccess::Unrestricted => (CapAccessType::Unrestricted, None),
                CapAccess::Transferable { secret } => (
                    CapAccessType::Transferable,
                    Some(secret.clone()),
                ),
                CapAccess::Assigned { secret, assignees: _ } => (
                    CapAccessType::Assigned,
                    Some(secret.clone()),
                ),
            };
            row.tag = Some(tag);
            row.access_type = Some(access_type);
            row.cap_secret = secret;
        },
        Entry::CapClaim(claim) => {
            let tag = claim.tag.clone();
            let grantor = claim.grantor.clone();
            let secret = claim.secret.clone();
            row.tag = Some(tag);
            row.grantor = Some(grantor);
            row.cap_secret = Some(secret);
        },
        _ => {},
    }
    row
}

/// The row of an operation. The columns from `validation_status` on are
/// bookkeeping: they start out empty and are written in place by the
/// validation workflow and by the publishing of the operation.
#[derive(Debug, PartialEq, Eq)]
pub struct DhtOpRow {
    pub hash: DhtOpHash,
    pub op_type: DhtOpType,
    pub basis_hash: AnyDhtHash,
    pub header_hash: HeaderHash,
    pub authored_timestamp_ms: i64,
    pub op_order: OpOrder,
    pub is_authored: bool,
    pub require_receipt: bool,
    pub blob: DhtOpLight,
    pub validation_status: Option<ValidationStatus>,
    pub validation_stage: Option<u8>,
    pub num_validation_attempts: Option<u32>,
    pub last_validation_attempt: Option<Timestamp>,
    pub when_integrated: Option<Timestamp>,
    pub receipt_count: Option<u32>,
    /// Seconds since the epoch.
    pub last_publish_time: Option<u64>,
}

pub ghost struct DhtOpRowView {
    pub hash: Seq<u8>,
    pub op_type: DhtOpType,
    pub basis_hash: Seq<u8>,
    pub header_hash: Seq<u8>,
    pub authored_timestamp_ms: i64,
    pub op_order: OpOrder,
    pub is_authored: bool,
    pub require_receipt: bool,
    pub blob: DhtOpLightView,
    pub validation_status: Option<ValidationStatus>,
    pub validation_stage: Option<u8>,
    pub num_validation_attempts: Option<u32>,
    pub last_validation_attempt: Option<Timestamp>,
    pub when_integrated: Option<Timestamp>,
    pub receipt_count: Option<u32>,
    pub last_publish_time: Option<u64>,
}

impl View for DhtOpRow {
    type V = DhtOpRowView;

    open spec fn view(&self) -> DhtOpRowView {
        DhtOpRowView {
            hash: self.hash@,
            op_type: self.op_type,
            basis_hash: self.basis_hash@,
            header_hash: self.header_hash@,
            authored_timestamp_ms: self.authored_timestamp_ms,
            op_order: self.op_order,
            is_authored: self.is_authored,
            require_receipt: self.require_receipt,
            blob: self.blob@,
            validation_status: self.validation_status,
            validation_stage: self.validation_stage,
            num_validation_attempts: self.num_validation_attempts,
            last_validation_attempt: self.last_validation_attempt,
            when_integrated: self.when_integrated,
            receipt_count: self.receipt_count,
            last_publish_time: self.last_publish_time,
        }
    }
}

/// The row of an operation as it is first written: no receipt is required,
/// and the bookkeeping columns are empty.
pub open spec fn op_row_of(
    light: DhtOpLightView,
    hash: Seq<u8>,
    is_authored: bool,
    order: OpOrder,
    timestamp: Timestamp,
) -> DhtOpRowView {
    DhtOpRowView {
        hash,
        op_type: light.op_type,
        basis_hash: light.basis,
        header_hash: light.header_hash,
        authored_timestamp_ms: timestamp.spec_to_sql_ms_lossy() as i64,
        op_order: order,
        is_authored,
        require_receipt: false,
        blob: light,
        validation_status: None,
        validation_stage: None,
        num_validation_attempts: None,
        last_validation_attempt: None,
        when_integrated: None,
        receipt_count: None,
        last_publish_time: None,
    }
}

/// Projects the light form of an operation onto its row.
pub fn op_row(
    light: DhtOpLight,
    hash: DhtOpHash,
    is_authored: bool,
    order: OpOrder,
    timestamp: Timestamp,
) -> (row: DhtOpRow)
    ensures
        row@ == op_row_of(light@, hash@, is_authored, order, timestamp),
{
    DhtOpRow {
        hash,
        op_type: light.get_type(),
        basis_hash: light.dht_basis().clone(),
        header_hash: light.header_hash().clone(),
        authored_timestamp_ms: timestamp.to_sql_ms_lossy(),
        op_order: order,
        is_authored,
        require_receipt: false,
        blob: light,
        validation_status: None,
        validation_stage: None,
        num_validation_attempts: None,
        last_validation_attempt: None,
        when_integrated: None,
        receipt_count: None,
        last_publish_time: None,
    }
}

/// The row of a validation receipt: the receipt as encoded, under the hash of
/// its encoding, with the operation that it is a receipt for.
#[derive(Debug, PartialEq, Eq)]
pub struct ReceiptRow {
    pub hash: Vec<u8>,
    pub op_hash: DhtOpHash,
    pub blob: Vec<u8>,
}

pub ghost struct ReceiptRowView {
    pub hash: Seq<u8>,
    pub op_hash: Seq<u8>,
    pub blob: Seq<u8>,
}

impl View for ReceiptRow {
    type V = ReceiptRowView;

    open spec fn view(&self) -> ReceiptRowView {
        ReceiptRowView { hash: self.hash@, op_hash: self.op_hash@, blob: self.blob@ }
    }
}

} // verus!
