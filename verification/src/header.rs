//! Headers: the records an agent appends to its source chain.

use vstd::prelude::*;
use crate::hash::AgentPubKey;
use crate::hash::DnaHash;
use crate::hash::EntryHash;
use crate::hash::HeaderHash;

verus! {

/// A point in time: seconds since the epoch, and nanoseconds within the second.
#[derive(Debug, Clone, Copy, PartialEq, Eq, Structural, Hash)]
pub struct Timestamp(pub i64, pub u32);

impl Timestamp {
    /// The time in milliseconds since the epoch, rounded down and held within
    /// `0 ..= i64::MAX`.
    pub open spec fn spec_to_sql_ms_lossy(self) -> int {
        let ms = self.0 * 1000 + self.1 / 1_000_000;
        if ms < 0 {
            0
        } else if ms > i64::MAX {
            i64::MAX as int
        } else {
            ms
        }
    }

    /// The time in milliseconds since the epoch, as a store holds it. Times
    /// before the epoch become 0, and times too late to count become `i64::MAX`.
    pub fn to_sql_ms_lossy(self) -> (ms: i64)
        ensures
            ms == self.spec_to_sql_ms_lossy(),
    {
        let ms: i128 = (self.0 as i128) * 1000 + (self.1 / 1_000_000) as i128;
        if ms < 0 {
            0
        } else if ms > i64::MAX as i128 {
            i64::MAX
        } else {
            ms as i64
        }
    }
}

/// Whether an entry may leave the agent that authored it.
#[derive(Debug, Clone, Copy, PartialEq, Eq, Structural, Hash)]
pub enum EntryVisibility {
    Public,
    Private,
}

/// The declared type of an application entry.
#[derive(Debug, Clone, Copy, PartialEq, Eq, Structural, Hash)]
pub struct AppEntryType {
    /// Position of the entry definition within its zome.
    pub id: u8,
    /// Position of the zome within the DNA.
    pub zome_id: u8,
    pub visibility: EntryVisibility,
}

/// The declared type of the entry that a header refers to.
#[derive(Debug, Clone, Copy, PartialEq, Eq, Structural, Hash)]
pub enum EntryType {
    AgentPubKey,
    App(AppEntryType),
    CapClaim,
    CapGrant,
}

impl EntryType {
    /// Agent keys are public, capability entries private, and an application
    /// entry is what its definition says.
    pub open spec fn spec_visibility(self) -> EntryVisibility {
        match self {
            EntryType::AgentPubKey => EntryVisibility::Public,
            EntryType::App(t) => t.visibility,
            EntryType::CapClaim => EntryVisibility::Private,
            EntryType::CapGrant => EntryVisibility::Private,
        }
    }

    #[verifier::when_used_as_spec(spec_visibility)]
    pub fn visibility(self) -> (v: EntryVisibility)
        ensures
            v == self.spec_visibility(),
    {
        match self {
            EntryType::AgentPubKey => EntryVisibility::Public,
            EntryType::App(t) => t.visibility,
            EntryType::CapClaim => EntryVisibility::Private,
            EntryType::CapGrant => EntryVisibility::Private,
        }
    }
}

/// The variant of a header, without its content.
#[derive(Debug, Clone, Copy, PartialEq, Eq, Structural, Hash)]
pub enum HeaderType {
    Dna,
    AgentValidationPkg,
    InitZomesComplete,
    OpenChain,
    CloseChain,
    Create,
    Update,
    Delete,
    CreateLink,
    DeleteLink,
}

/// The signature of an agent over a header.
#[derive(Debug, PartialEq, Eq, Hash)]
pub struct Signature(pub Vec<u8>);

impl View for Signature {
    type V = Seq<u8>;

    open spec fn view(&self) -> Seq<u8> {
        self.0@
    }
}

impl DeepView for Signature {
    type V = Seq<u8>;

    open spec fn deep_view(&self) -> Seq<u8> {
        self@
    }
}

impl Clone for Signature {
    fn clone(&self) -> (copy: Self)
        ensures
            copy@ == self@,
    {
        Signature(self.0.clone())
    }
}

/// What every header but the first of a chain carries.
#[derive(Debug, PartialEq, Eq, Hash)]
pub struct HeaderCommon {
    pub author: AgentPubKey,
    pub timestamp: Timestamp,
    pub header_seq: u32,
    pub prev_header: HeaderHash,
}

pub ghost struct HeaderCommonView {
    pub author: Seq<u8>,
    pub timestamp: Timestamp,
    pub header_seq: u32,
    pub prev_header: Seq<u8>,
}

impl View for HeaderCommon {
    type V = HeaderCommonView;

    open spec fn view(&self) -> HeaderCommonView {
        HeaderCommonView {
            author: self.author@,
            timestamp: self.timestamp,
            header_seq: self.header_seq,
            prev_header: self.prev_header@,
        }
    }
}

impl Clone for HeaderCommon {
    fn clone(&self) -> (copy: Self)
        ensures
            copy@ == self@,
    {
        HeaderCommon {
            author: self.author.clone(),
            timestamp: self.timestamp,
            header_seq: self.header_seq,
            prev_header: self.prev_header.clone(),
        }
    }
}

/// The first header of every chain: it names the DNA the chain runs under.
#[derive(Debug, PartialEq, Eq, Hash)]
pub struct Dna {
    pub author: AgentPubKey,
    pub timestamp: Timestamp,
    pub hash: DnaHash,
}

pub ghost struct DnaView {
    pub author: Seq<u8>,
    pub timestamp: Timestamp,
    pub hash: Seq<u8>,
}

impl View for Dna {
    type V = DnaView;

    open spec fn view(&self) -> DnaView {
        DnaView { author: self.author@, timestamp: self.timestamp, hash: self.hash@ }
    }
}

impl Clone for Dna {
    fn clone(&self) -> (copy: Self)
        ensures
            copy@ == self@,
    {
        Dna { author: self.author.clone(), timestamp: self.timestamp, hash: self.hash.clone() }
    }
}

/// The proof that the agent may join the network.
#[derive(Debug, PartialEq, Eq, Hash)]
pub struct AgentValidationPkg {
    pub common: HeaderCommon,
    pub membrane_proof: Option<Vec<u8>>,
}

pub ghost struct AgentValidationPkgView {
    pub common: HeaderCommonView,
    pub membrane_proof: Option<Seq<u8>>,
}

impl View for AgentValidationPkg {
    type V = AgentValidationPkgView;

    open spec fn view(&self) -> AgentValidationPkgView {
        AgentValidationPkgView {
            common: self.common@,
            membrane_proof: match self.membrane_proof {
                Some(proof) => Some(proof@),
                None => None,
            },
        }
    }
}

impl Clone for AgentValidationPkg {
    fn clone(&self) -> (copy: Self)
        ensures
            copy@ == self@,
    {
        let membrane_proof = match &self.membrane_proof {
            Some(proof) => Some(proof.clone()),
            None => None,
        };
        AgentValidationPkg { common: self.common.clone(), membrane_proof }
    }
}

/// Marks that every zome has run its initialisation.
#[derive(Debug, PartialEq, Eq, Hash)]
pub struct InitZomesComplete {
    pub common: HeaderCommon,
}

pub ghost struct InitZomesCompleteView {
    pub common: HeaderCommonView,
}

impl View for InitZomesComplete {
    type V = InitZomesCompleteView;

    open spec fn view(&self) -> InitZomesCompleteView {
        InitZomesCompleteView { common: self.common@ }
    }
}

impl Clone for InitZomesComplete {
    fn clone(&self) -> (copy: Self)
        ensures
            copy@ == self@,
    {
        InitZomesComplete { common: self.common.clone() }
    }
}

/// Declares that this chain continues one that ran under an earlier DNA.
#[derive(Debug, PartialEq, Eq, Hash)]
pub struct OpenChain {
    pub common: HeaderCommon,
    pub prev_dna_hash: DnaHash,
}

pub ghost struct OpenChainView {
    pub common: HeaderCommonView,
    pub prev_dna_hash: Seq<u8>,
}

impl View for OpenChain {
    type V = OpenChainView;

    open spec fn view(&self) -> OpenChainView {
        OpenChainView { common: self.common@, prev_dna_hash: self.prev_dna_hash@ }
    }
}

impl Clone for OpenChain {
    fn clone(&self) -> (copy: Self)
        ensures
            copy@ == self@,
    {
        OpenChain { common: self.common.clone(), prev_dna_hash: self.prev_dna_hash.clone() }
    }
}

/// Declares that this chain ends here and continues under a later DNA.
#[derive(Debug, PartialEq, Eq, Hash)]
pub struct CloseChain {
    pub common: HeaderCommon,
    pub new_dna_hash: DnaHash,
}

pub ghost struct CloseChainView {
    pub common: HeaderCommonView,
    pub new_dna_hash: Seq<u8>,
}

impl View for CloseChain {
    type V = CloseChainView;

    open spec fn view(&self) -> CloseChainView {
        CloseChainView { common: self.common@, new_dna_hash: self.new_dna_hash@ }
    }
}

impl Clone for CloseChain {
    fn clone(&self) -> (copy: Self)
        ensures
            copy@ == self@,
    {
        CloseChain { common: self.common.clone(), new_dna_hash: self.new_dna_hash.clone() }
    }
}

/// Commits a new entry.
#[derive(Debug, PartialEq, Eq, Hash)]
pub struct Create {
    pub common: HeaderCommon,
    pub entry_type: EntryType,
    pub entry_hash: EntryHash,
}

pub ghost struct CreateView {
    pub common: HeaderCommonView,
    pub entry_type: EntryType,
    pub entry_hash: Seq<u8>,
}

impl View for Create {
    type V = CreateView;

    open spec fn view(&self) -> CreateView {
        CreateView {
            common: self.common@,
            entry_type: self.entry_type,
            entry_hash: self.entry_hash@,
        }
    }
}

impl Clone for Create {
    fn clone(&self) -> (copy: Self)
        ensures
            copy@ == self@,
    {
        Create {
            common: self.common.clone(),
            entry_type: self.entry_type,
            entry_hash: self.entry_hash.clone(),
        }
    }
}

/// Commits an entry that replaces an earlier one.
#[derive(Debug, PartialEq, Eq, Hash)]
pub struct Update {
    pub common: HeaderCommon,
    /// The header that committed the entry being replaced.
    pub original_header_address: HeaderHash,
    /// The entry being replaced.
    pub original_entry_address: EntryHash,
    pub entry_type: EntryType,
    pub entry_hash: EntryHash,
}

pub ghost struct UpdateView {
    pub common: HeaderCommonView,
    pub original_header_address: Seq<u8>,
    pub original_entry_address: Seq<u8>,
    pub entry_type: EntryType,
    pub entry_hash: Seq<u8>,
}

impl View for Update {
    type V = UpdateView;

    open spec fn view(&self) -> UpdateView {
        UpdateView {
            common: self.common@,
            original_header_address: self.original_header_address@,
            original_entry_address: self.original_entry_address@,
            entry_type: self.entry_type,
            entry_hash: self.entry_hash@,
        }
    }
}

impl Clone for Update {
    fn clone(&self) -> (copy: Self)
        ensures
            copy@ == self@,
    {
        Update {
            common: self.common.clone(),
            original_header_address: self.original_header_address.clone(),
            original_entry_address: self.original_entry_address.clone(),
            entry_type: self.entry_type,
            entry_hash: self.entry_hash.clone(),
        }
    }
}

/// Marks an earlier element as deleted.
#[derive(Debug, PartialEq, Eq, Hash)]
pub struct Delete {
    pub common: HeaderCommon,
    /// The header being deleted.
    pub deletes_address: HeaderHash,
    /// The entry that the deleted header committed.
    pub deletes_entry_address: EntryHash,
}

pub ghost struct DeleteView {
    pub common: HeaderCommonView,
    pub deletes_address: Seq<u8>,
    pub deletes_entry_address: Seq<u8>,
}

impl View for Delete {
    type V = DeleteView;

    open spec fn view(&self) -> DeleteView {
        DeleteView {
            common: self.common@,
            deletes_address: self.deletes_address@,
            deletes_entry_address: self.deletes_entry_address@,
        }
    }
}

impl Clone for Delete {
    fn clone(&self) -> (copy: Self)
        ensures
            copy@ == self@,
    {
        Delete {
            common: self.common.clone(),
            deletes_address: self.deletes_address.clone(),
            deletes_entry_address: self.deletes_entry_address.clone(),
        }
    }
}

/// Links a base entry to a target entry.
#[derive(Debug, PartialEq, Eq, Hash)]
pub struct CreateLink {
    pub common: HeaderCommon,
    pub base_address: EntryHash,
    pub target_address: EntryHash,
    /// Position of the zome within the DNA.
    pub zome_id: u8,
    pub tag: Vec<u8>,
}

pub ghost struct CreateLinkView {
    pub common: HeaderCommonView,
    pub base_address: Seq<u8>,
    pub target_address: Seq<u8>,
    pub zome_id: u8,
    pub tag: Seq<u8>,
}

impl View for CreateLink {
    type V = CreateLinkView;

    open spec fn view(&self) -> CreateLinkView {
        CreateLinkView {
            common: self.common@,
            base_address: self.base_address@,
            target_address: self.target_address@,
            zome_id: self.zome_id,
            tag: self.tag@,
        }
    }
}

impl Clone for CreateLink {
    fn clone(&self) -> (copy: Self)
        ensures
            copy@ == self@,
    {
        CreateLink {
            common: self.common.clone(),
            base_address: self.base_address.clone(),
            target_address: self.target_address.clone(),
            zome_id: self.zome_id,
            tag: self.tag.clone(),
        }
    }
}

/// Removes a link that an earlier header created.
#[derive(Debug, PartialEq, Eq, Hash)]
pub struct DeleteLink {
    pub common: HeaderCommon,
    /// The base of the link being removed.
    pub base_address: EntryHash,
    /// The header that created the link.
    pub link_add_address: HeaderHash,
}

pub ghost struct DeleteLinkView {
    pub common: HeaderCommonView,
    pub base_address: Seq<u8>,
    pub link_add_address: Seq<u8>,
}

impl View for DeleteLink {
    type V = DeleteLinkView;

    open spec fn view(&self) -> DeleteLinkView {
        DeleteLinkView {
            common: self.common@,
            base_address: self.base_address@,
            link_add_address: self.link_add_address@,
        }
    }
}

impl Clone for DeleteLink {
    fn clone(&self) -> (copy: Self)
        ensures
            copy@ == self@,
    {
        DeleteLink {
            common: self.common.clone(),
            base_address: self.base_address.clone(),
            link_add_address: self.link_add_address.clone(),
        }
    }
}

/// A header of any variant.
#[derive(Debug, PartialEq, Eq, Hash)]
pub enum Header {
    Dna(Dna),
    AgentValidationPkg(AgentValidationPkg),
    InitZomesComplete(InitZomesComplete),
    OpenChain(OpenChain),
    CloseChain(CloseChain),
    Create(Create),
    Update(Update),
    Delete(Delete),
    CreateLink(CreateLink),
    DeleteLink(DeleteLink),
}

pub ghost enum HeaderView {
    Dna(DnaView),
    AgentValidationPkg(AgentValidationPkgView),
    InitZomesComplete(InitZomesCompleteView),
    OpenChain(OpenChainView),
    CloseChain(CloseChainView),
    Create(CreateView),
    Update(UpdateView),
    Delete(DeleteView),
    CreateLink(CreateLinkView),
    DeleteLink(DeleteLinkView),
}

impl View for Header {
    type V = HeaderView;

    open spec fn view(&self) -> HeaderView {
        match *self {
            Header::Dna(h) => HeaderView::Dna(h@),
            Header::AgentValidationPkg(h) => HeaderView::AgentValidationPkg(h@),
            Header::InitZomesComplete(h) => HeaderView::InitZomesComplete(h@),
            Header::OpenChain(h) => HeaderView::OpenChain(h@),
            Header::CloseChain(h) => HeaderView::CloseChain(h@),
            Header::Create(h) => HeaderView::Create(h@),
            Header::Update(h) => HeaderView::Update(h@),
            Header::Delete(h) => HeaderView::Delete(h@),
            Header::CreateLink(h) => HeaderView::CreateLink(h@),
            Header::DeleteLink(h) => HeaderView::DeleteLink(h@),
        }
    }
}

impl Clone for Header {
    fn clone(&self) -> (copy: Self)
        ensures
            copy@ == self@,
    {
        match self {
            Header::Dna(h) => Header::Dna(h.clone()),
            Header::AgentValidationPkg(h) => Header::AgentValidationPkg(h.clone()),
            Header::InitZomesComplete(h) => Header::InitZomesComplete(h.clone()),
            Header::OpenChain(h) => Header::OpenChain(h.clone()),
            Header::CloseChain(h) => Header::CloseChain(h.clone()),
            Header::Create(h) => Header::Create(h.clone()),
            Header::Update(h) => Header::Update(h.clone()),
            Header::Delete(h) => Header::Delete(h.clone()),
            Header::CreateLink(h) => Header::CreateLink(h.clone()),
            Header::DeleteLink(h) => Header::DeleteLink(h.clone()),
        }
    }
}

impl HeaderView {
    /// The variant of the header.
    pub open spec fn header_type(self) -> HeaderType {
        match self {
            HeaderView::Dna(_) => HeaderType::Dna,
            HeaderView::AgentValidationPkg(_) => HeaderType::AgentValidationPkg,
            HeaderView::InitZomesComplete(_) => HeaderType::InitZomesComplete,
            HeaderView::OpenChain(_) => HeaderType::OpenChain,
            HeaderView::CloseChain(_) => HeaderType::CloseChain,
            HeaderView::Create(_) => HeaderType::Create,
            HeaderView::Update(_) => HeaderType::Update,
            HeaderView::Delete(_) => HeaderType::Delete,
            HeaderView::CreateLink(_) => HeaderType::CreateLink,
            HeaderView::DeleteLink(_) => HeaderType::DeleteLink,
        }
    }

    /// The agent that authored the header.
    pub open spec fn author(self) -> Seq<u8> {
        match self {
            HeaderView::Dna(h) => h.author,
            HeaderView::AgentValidationPkg(h) => h.common.author,
            HeaderView::InitZomesComplete(h) => h.common.author,
            HeaderView::OpenChain(h) => h.common.author,
            HeaderView::CloseChain(h) => h.common.author,
            HeaderView::Create(h) => h.common.author,
            HeaderView::Update(h) => h.common.author,
            HeaderView::Delete(h) => h.common.author,
            HeaderView::CreateLink(h) => h.common.author,
            HeaderView::DeleteLink(h) => h.common.author,
        }
    }

    /// When the header was authored.
    pub open spec fn timestamp(self) -> Timestamp {
        match self {
            HeaderView::Dna(h) => h.timestamp,
            HeaderView::AgentValidationPkg(h) => h.common.timestamp,
            HeaderView::InitZomesComplete(h) => h.common.timestamp,
            HeaderView::OpenChain(h) => h.common.timestamp,
            HeaderView::CloseChain(h) => h.common.timestamp,
            HeaderView::Create(h) => h.common.timestamp,
            HeaderView::Update(h) => h.common.timestamp,
            HeaderView::Delete(h) => h.common.timestamp,
            HeaderView::CreateLink(h) => h.common.timestamp,
            HeaderView::DeleteLink(h) => h.common.timestamp,
        }
    }

    /// The position of the header in its chain; the first header has position 0.
    pub open spec fn header_seq(self) -> u32 {
        match self {
            HeaderView::Dna(_) => 0,
            HeaderView::AgentValidationPkg(h) => h.common.header_seq,
            HeaderView::InitZomesComplete(h) => h.common.header_seq,
            HeaderView::OpenChain(h) => h.common.header_seq,
            HeaderView::CloseChain(h) => h.common.header_seq,
            HeaderView::Create(h) => h.common.header_seq,
            HeaderView::Update(h) => h.common.header_seq,
            HeaderView::Delete(h) => h.common.header_seq,
            HeaderView::CreateLink(h) => h.common.header_seq,
            HeaderView::DeleteLink(h) => h.common.header_seq,
        }
    }

    /// The header before this one in the chain; the first header has none.
    pub open spec fn prev_header(self) -> Option<Seq<u8>> {
        match self {
            HeaderView::Dna(_) => None,
            HeaderView::AgentValidationPkg(h) => Some(h.common.prev_header),
            HeaderView::InitZomesComplete(h) => Some(h.common.prev_header),
            HeaderView::OpenChain(h) => Some(h.common.prev_header),
            HeaderView::CloseChain(h) => Some(h.common.prev_header),
            HeaderView::Create(h) => Some(h.common.prev_header),
            HeaderView::Update(h) => Some(h.common.prev_header),
            HeaderView::Delete(h) => Some(h.common.prev_header),
            HeaderView::CreateLink(h) => Some(h.common.prev_header),
            HeaderView::DeleteLink(h) => Some(h.common.prev_header),
        }
    }

    /// The type of the entry that the header declares, if it declares one.
    pub open spec fn entry_type(self) -> Option<EntryType> {
        match self {
            HeaderView::Create(h) => Some(h.entry_type),
            HeaderView::Update(h) => Some(h.entry_type),
            _ => None,
        }
    }

    /// The hash of the entry that the header declares, if it declares one.
    pub open spec fn entry_hash(self) -> Option<Seq<u8>> {
        match self {
            HeaderView::Create(h) => Some(h.entry_hash),
            HeaderView::Update(h) => Some(h.entry_hash),
            _ => None,
        }
    }

    /// Whether the declared entry is private; a header without an entry is not.
    pub open spec fn is_private(self) -> bool {
        self.entry_type() matches Some(t) && t.spec_visibility() == EntryVisibility::Private
    }
}

impl Header {
    /// The variant of the header.
    pub fn header_type(&self) -> (t: HeaderType)
        ensures
            t == self@.header_type(),
    {
        match self {
            Header::Dna(_) => HeaderType::Dna,
            Header::AgentValidationPkg(_) => HeaderType::AgentValidationPkg,
            Header::InitZomesComplete(_) => HeaderType::InitZomesComplete,
            Header::OpenChain(_) => HeaderType::OpenChain,
            Header::CloseChain(_) => HeaderType::CloseChain,
            Header::Create(_) => HeaderType::Create,
            Header::Update(_) => HeaderType::Update,
            Header::Delete(_) => HeaderType::Delete,
            Header::CreateLink(_) => HeaderType::CreateLink,
            Header::DeleteLink(_) => HeaderType::DeleteLink,
        }
    }

    /// The agent that authored the header.
    pub fn author(&self) -> (author: &AgentPubKey)
        ensures
            author@ == self@.author(),
    {
        match self {
            Header::Dna(h) => &h.author,
            Header::AgentValidationPkg(h) => &h.common.author,
            Header::InitZomesComplete(h) => &h.common.author,
            Header::OpenChain(h) => &h.common.author,
            Header::CloseChain(h) => &h.common.author,
            Header::Create(h) => &h.common.author,
            Header::Update(h) => &h.common.author,
            Header::Delete(h) => &h.common.author,
            Header::CreateLink(h) => &h.common.author,
            Header::DeleteLink(h) => &h.common.author,
        }
    }

    /// When the header was authored.
    pub fn timestamp(&self) -> (t: Timestamp)
        ensures
            t == self@.timestamp(),
    {
        match self {
            Header::Dna(h) => h.timestamp,
            Header::AgentValidationPkg(h) => h.common.timestamp,
            Header::InitZomesComplete(h) => h.common.timestamp,
            Header::OpenChain(h) => h.common.timestamp,
            Header::CloseChain(h) => h.common.timestamp,
            Header::Create(h) => h.common.timestamp,
            Header::Update(h) => h.common.timestamp,
            Header::Delete(h) => h.common.timestamp,
            Header::CreateLink(h) => h.common.timestamp,
            Header::DeleteLink(h) => h.common.timestamp,
        }
    }

    /// The position of the header in its chain; the first header has position 0.
    pub fn header_seq(&self) -> (seq: u32)
        ensures
            seq == self@.header_seq(),
    {
        match self {
            Header::Dna(_) => 0,
            Header::AgentValidationPkg(h) => h.common.header_seq,
            Header::InitZomesComplete(h) => h.common.header_seq,
            Header::OpenChain(h) => h.common.header_seq,
            Header::CloseChain(h) => h.common.header_seq,
            Header::Create(h) => h.common.header_seq,
            Header::Update(h) => h.common.header_seq,
            Header::Delete(h) => h.common.header_seq,
            Header::CreateLink(h) => h.common.header_seq,
            Header::DeleteLink(h) => h.common.header_seq,
        }
    }

    /// The header before this one in the chain; the first header has none.
    pub fn prev_header(&self) -> (prev: Option<&HeaderHash>)
        ensures
            prev.deep_view() == self@.prev_header(),
    {
        match self {
            Header::Dna(_) => None,
            Header::AgentValidationPkg(h) => Some(&h.common.prev_header),
            Header::InitZomesComplete(h) => Some(&h.common.prev_header),
            Header::OpenChain(h) => Some(&h.common.prev_header),
            Header::CloseChain(h) => Some(&h.common.prev_header),
            Header::Create(h) => Some(&h.common.prev_header),
            Header::Update(h) => Some(&h.common.prev_header),
            Header::Delete(h) => Some(&h.common.prev_header),
            Header::CreateLink(h) => Some(&h.common.prev_header),
            Header::DeleteLink(h) => Some(&h.common.prev_header),
        }
    }

    /// The type of the entry that the header declares, if it declares one.
    pub fn entry_type(&self) -> (t: Option<EntryType>)
        ensures
            t == self@.entry_type(),
    {
        match self {
            Header::Create(h) => Some(h.entry_type),
            Header::Update(h) => Some(h.entry_type),
            _ => None,
        }
    }

    /// The hash of the entry that the header declares, if it declares one.
    pub fn entry_hash(&self) -> (hash: Option<&EntryHash>)
        ensures
            hash.deep_view() == self@.entry_hash(),
    {
        match self {
            Header::Create(h) => Some(&h.entry_hash),
            Header::Update(h) => Some(&h.entry_hash),
            _ => None,
        }
    }
}

/// A header that commits an entry: the narrow form in which an entry is stored.
#[derive(Debug, PartialEq, Eq, Hash)]
pub enum NewEntryHeader {
    Create(Create),
    Update(Update),
}

pub ghost enum NewEntryHeaderView {
    Create(CreateView),
    Update(UpdateView),
}

impl View for NewEntryHeader {
    type V = NewEntryHeaderView;

    open spec fn view(&self) -> NewEntryHeaderView {
        match *self {
            NewEntryHeader::Create(h) => NewEntryHeaderView::Create(h@),
            NewEntryHeader::Update(h) => NewEntryHeaderView::Update(h@),
        }
    }
}

impl NewEntryHeaderView {
    /// The same header in its general form.
    pub open spec fn to_header(self) -> HeaderView {
        match self {
            NewEntryHeaderView::Create(h) => HeaderView::Create(h),
            NewEntryHeaderView::Update(h) => HeaderView::Update(h),
        }
    }
}

impl Clone for NewEntryHeader {
    fn clone(&self) -> (copy: Self)
        ensures
            copy@ == self@,
    {
        match self {
            NewEntryHeader::Create(h) => NewEntryHeader::Create(h.clone()),
            NewEntryHeader::Update(h) => NewEntryHeader::Update(h.clone()),
        }
    }
}

impl NewEntryHeader {
    /// The same header in its general form.
    pub fn into_header(self) -> (header: Header)
        ensures
            header@ == self@.to_header(),
    {
        match self {
            NewEntryHeader::Create(h) => Header::Create(h),
            NewEntryHeader::Update(h) => Header::Update(h),
        }
    }

    /// The hash of the entry that the header commits.
    pub fn entry(&self) -> (hash: &EntryHash)
        ensures
            Some(hash@) == self@.to_header().entry_hash(),
    {
        match self {
            NewEntryHeader::Create(h) => &h.entry_hash,
            NewEntryHeader::Update(h) => &h.entry_hash,
        }
    }
}

} // verus!
