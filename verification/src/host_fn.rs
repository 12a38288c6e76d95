//! What the host decides when a zome asks it to commit an entry: which entry
//! definition the entry falls under, and which header commits it. Appending
//! the header to the source chain is the caller's part.

use vstd::prelude::*;
use crate::entry::Entry;
use crate::entry::EntryView;
use crate::hash::holo_hash_of;
use crate::hash::EntryHash;
use crate::hash::HashType;
use crate::hash::HoloHash;
use crate::header::AppEntryType;
use crate::header::Create;
use crate::header::CreateView;
use crate::header::EntryType;
use crate::header::EntryVisibility;
use crate::header::HeaderCommon;

verus! {

/// How a zome names the definition of an entry.
#[derive(Debug, PartialEq, Eq)]
pub enum EntryDefId {
    /// An application entry, by the name of its definition.
    App(String),
    CapClaim,
    CapGrant,
}

pub ghost enum EntryDefIdView {
    App(Seq<char>),
    CapClaim,
    CapGrant,
}

impl View for EntryDefId {
    type V = EntryDefIdView;

    open spec fn view(&self) -> EntryDefIdView {
        match *self {
            EntryDefId::App(name) => EntryDefIdView::App(name@),
            EntryDefId::CapClaim => EntryDefIdView::CapClaim,
            EntryDefId::CapGrant => EntryDefIdView::CapGrant,
        }
    }
}

impl Clone for EntryDefId {
    fn clone(&self) -> (copy: Self)
        ensures
            copy@ == self@,
    {
        match self {
            EntryDefId::App(name) => EntryDefId::App(name.clone()),
            EntryDefId::CapClaim => EntryDefId::CapClaim,
            EntryDefId::CapGrant => EntryDefId::CapGrant,
        }
    }
}

impl EntryDefId {
    /// Whether two names are the same.
    pub fn same_as(&self, other: &EntryDefId) -> (same: bool)
        ensures
            same == (self@ == other@),
    {
        match (self, other) {
            (EntryDefId::App(a), EntryDefId::App(b)) => *a == *b,
            (EntryDefId::CapClaim, EntryDefId::CapClaim) => true,
            (EntryDefId::CapGrant, EntryDefId::CapGrant) => true,
            _ => false,
        }
    }
}

/// The definition of an entry, as a zome declares it.
#[derive(Debug, PartialEq, Eq)]
pub struct EntryDef {
    pub id: EntryDefId,
    pub visibility: EntryVisibility,
}

pub ghost struct EntryDefView {
    pub id: EntryDefIdView,
    pub visibility: EntryVisibility,
}

impl View for EntryDef {
    type V = EntryDefView;

    open spec fn view(&self) -> EntryDefView {
        EntryDefView { id: self.id@, visibility: self.visibility }
    }
}

impl DeepView for EntryDef {
    type V = EntryDefView;

    open spec fn deep_view(&self) -> EntryDefView {
        self@
    }
}

/// The entry definitions of one zome, in the order in which it declares them.
#[derive(Debug, PartialEq, Eq)]
pub struct ZomeEntryDefs {
    pub zome_name: String,
    pub defs: Vec<EntryDef>,
}

pub ghost struct ZomeEntryDefsView {
    pub zome_name: Seq<char>,
    pub defs: Seq<EntryDefView>,
}

impl View for ZomeEntryDefs {
    type V = ZomeEntryDefsView;

    open spec fn view(&self) -> ZomeEntryDefsView {
        ZomeEntryDefsView { zome_name: self.zome_name@, defs: self.defs.deep_view() }
    }
}

impl DeepView for ZomeEntryDefs {
    type V = ZomeEntryDefsView;

    open spec fn deep_view(&self) -> ZomeEntryDefsView {
        self@
    }
}

/// What asking the zomes for their entry definitions gave.
#[derive(Debug, PartialEq, Eq)]
pub enum EntryDefsResult {
    /// The definitions, zome by zome.
    Defs(Vec<ZomeEntryDefs>),
    /// A zome failed to give its definitions: its name, and what it said.
    Failed(String, String),
}

pub ghost enum EntryDefsResultView {
    Defs(Seq<ZomeEntryDefsView>),
    Failed(Seq<char>, Seq<char>),
}

impl View for EntryDefsResult {
    type V = EntryDefsResultView;

    open spec fn view(&self) -> EntryDefsResultView {
        match *self {
            EntryDefsResult::Defs(zomes) => EntryDefsResultView::Defs(zomes.deep_view()),
            EntryDefsResult::Failed(zome, message) => EntryDefsResultView::Failed(zome@, message@),
        }
    }
}

/// Why the host could not do what a zome asked.
#[derive(Debug, PartialEq, Eq)]
pub enum HostFnError {
    /// The zome declares no entry definition of that name.
    EntryDefNotFound { zome_name: String, entry_def_id: EntryDefId },
}

pub ghost enum HostFnErrorView {
    EntryDefNotFound { zome_name: Seq<char>, entry_def_id: EntryDefIdView },
}

impl View for HostFnError {
    type V = HostFnErrorView;

    open spec fn view(&self) -> HostFnErrorView {
        match *self {
            HostFnError::EntryDefNotFound { zome_name, entry_def_id } => {
                HostFnErrorView::EntryDefNotFound {
                    zome_name: zome_name@,
                    entry_def_id: entry_def_id@,
                }
            },
        }
    }
}

/// The place of the first zome of that name at or after `from`; the number
/// of zomes if there is none.
pub open spec fn zome_position(zomes: Seq<ZomeEntryDefsView>, zome_name: Seq<char>, from: int) -> int
    decreases zomes.len() - from,
{
    if from < 0 || from >= zomes.len() {
        zomes.len() as int
    } else if zomes[from].zome_name == zome_name {
        from
    } else {
        zome_position(zomes, zome_name, from + 1)
    }
}

/// The place of the first definition of that name at or after `from`; the
/// number of definitions if there is none.
pub open spec fn def_position(defs: Seq<EntryDefView>, id: EntryDefIdView, from: int) -> int
    decreases defs.len() - from,
{
    if from < 0 || from >= defs.len() {
        defs.len() as int
    } else if defs[from].id == id {
        from
    } else {
        def_position(defs, id, from + 1)
    }
}

/// The place and the visibility of the definition that a name stands for in
/// a zome: the first definition of that name that the zome declares, if its
/// place can be counted in a byte.
pub open spec fn entry_def_of(
    result: EntryDefsResultView,
    zome_name: Seq<char>,
    id: EntryDefIdView,
) -> Option<(u8, EntryVisibility)> {
    match result {
        EntryDefsResultView::Defs(zomes) => {
            let z = zome_position(zomes, zome_name, 0);
            if z < zomes.len() {
                let d = def_position(zomes[z].defs, id, 0);
                if d < zomes[z].defs.len() && d <= u8::MAX {
                    Some((d as u8, zomes[z].defs[d].visibility))
                } else {
                    None
                }
            } else {
                None
            }
        },
        EntryDefsResultView::Failed(..) => None,
    }
}

/// The view of a found definition or a failure.
pub open spec fn entry_def_view(result: Result<(u8, EntryVisibility), HostFnError>) -> Result<
    (u8, EntryVisibility),
    HostFnErrorView,
> {
    match result {
        Ok(found) => Ok(found),
        Err(e) => Err(e@),
    }
}

/// What looking a definition up yields.
pub open spec fn extracted_entry_def(
    result: EntryDefsResultView,
    zome_name: Seq<char>,
    id: EntryDefIdView,
) -> Result<(u8, EntryVisibility), HostFnErrorView> {
    match entry_def_of(result, zome_name, id) {
        Some(found) => Ok(found),
        None => Err(HostFnErrorView::EntryDefNotFound { zome_name, entry_def_id: id }),
    }
}

/// Finds the place and the visibility of an entry definition among what the
/// zomes declared.
#[verifier::loop_isolation(false)]
pub fn extract_entry_def(defs: &EntryDefsResult, zome_name: &String, entry_def_id: &EntryDefId) -> (result:
    Result<(u8, EntryVisibility), HostFnError>)
    ensures
        entry_def_view(result) == extracted_entry_def(defs@, zome_name@, entry_def_id@),
{
    match defs {
        EntryDefsResult::Defs(zomes) => {
            let mut z: usize = 0;
            while z < zomes.len()
                invariant
                    z <= zomes.len(),
                    zome_position(zomes.deep_view(), zome_name@, 0) == zome_position(
                        zomes.deep_view(),
                        zome_name@,
                        z as int,
                    ),
                decreases zomes.len() - z,
            {
                assert(zomes.deep_view()[z as int] == zomes[z as int]@);
                if zomes[z].zome_name == *zome_name {
                    let entry_defs = &zomes[z].defs;
                    let mut d: usize = 0;
                    assert(zome_position(zomes.deep_view(), zome_name@, 0) == z);
                    assert(zomes.deep_view()[z as int].defs == entry_defs.deep_view());
                    while d < entry_defs.len()
                        invariant
                            d <= entry_defs.len(),
                            def_position(entry_defs.deep_view(), entry_def_id@, 0) == def_position(
                                entry_defs.deep_view(),
                                entry_def_id@,
                                d as int,
                            ),
                        decreases entry_defs.len() - d,
                    {
                        assert(entry_defs.deep_view()[d as int] == entry_defs[d as int]@);
                        if entry_defs[d].id.same_as(entry_def_id) {
                            if d <= 0xff {
                                return Ok((d as u8, entry_defs[d].visibility));
                            } else {
                                return Err(
                                    HostFnError::EntryDefNotFound {
                                        zome_name: zome_name.clone(),
                                        entry_def_id: entry_def_id.clone(),
                                    },
                                );
                            }
                        }
                        d += 1;
                    }
                    return Err(
                        HostFnError::EntryDefNotFound {
                            zome_name: zome_name.clone(),
                            entry_def_id: entry_def_id.clone(),
                        },
                    );
                }
                z += 1;
            }
            Err(
                HostFnError::EntryDefNotFound {
                    zome_name: zome_name.clone(),
                    entry_def_id: entry_def_id.clone(),
                },
            )
        },
        EntryDefsResult::Failed(..) => Err(
            HostFnError::EntryDefNotFound {
                zome_name: zome_name.clone(),
                entry_def_id: entry_def_id.clone(),
            },
        ),
    }
}

/// An entry together with the name of its definition: what a zome hands over
/// to have the entry committed.
#[derive(Debug, PartialEq, Eq)]
pub struct EntryWithDefId {
    pub entry_def_id: EntryDefId,
    pub entry: Entry,
}

/// The header that commits an entry, before it has its place in the chain.
#[derive(Debug, PartialEq, Eq)]
pub struct CreateBuilder {
    pub entry_type: EntryType,
    pub entry_hash: EntryHash,
}

pub ghost struct CreateBuilderView {
    pub entry_type: EntryType,
    pub entry_hash: Seq<u8>,
}

impl View for CreateBuilder {
    type V = CreateBuilderView;

    open spec fn view(&self) -> CreateBuilderView {
        CreateBuilderView { entry_type: self.entry_type, entry_hash: self.entry_hash@ }
    }
}

impl CreateBuilder {
    /// The header, at the place in the chain that `common` gives.
    pub fn build(self, common: HeaderCommon) -> (header: Create)
        ensures
            header@ == (CreateView {
                common: common@,
                entry_type: self@.entry_type,
                entry_hash: self@.entry_hash,
            }),
    {
        Create { common, entry_type: self.entry_type, entry_hash: self.entry_hash }
    }
}

/// The type that a header declares for an entry with the given definition,
/// committed by the zome at position `zome_id`.
pub open spec fn entry_type_for(
    defs: EntryDefsResultView,
    zome_name: Seq<char>,
    zome_id: u8,
    id: EntryDefIdView,
) -> Result<EntryType, HostFnErrorView> {
    match id {
        EntryDefIdView::App(_) => match extracted_entry_def(defs, zome_name, id) {
            Ok((index, visibility)) => Ok(
                EntryType::App(AppEntryType { id: index, zome_id, visibility }),
            ),
            Err(e) => Err(e),
        },
        EntryDefIdView::CapGrant => Ok(EntryType::CapGrant),
        EntryDefIdView::CapClaim => Ok(EntryType::CapClaim),
    }
}

/// What is to be appended to the source chain, or the failure. The entry is
/// committed under the address of its canonical encoding.
pub open spec fn created(
    defs: EntryDefsResultView,
    zome_name: Seq<char>,
    zome_id: u8,
    id: EntryDefIdView,
    entry: EntryView,
    encoded_entry: Seq<u8>,
) -> Result<(CreateBuilderView, EntryView), HostFnErrorView> {
    match entry_type_for(defs, zome_name, zome_id, id) {
        Ok(entry_type) => Ok(
            (
                CreateBuilderView {
                    entry_type,
                    entry_hash: holo_hash_of(HashType::Entry, encoded_entry),
                },
                entry,
            ),
        ),
        Err(e) => Err(e),
    }
}

/// The view of what `create` returns.
pub open spec fn create_view(result: Result<(CreateBuilder, Entry), HostFnError>) -> Result<
    (CreateBuilderView, EntryView),
    HostFnErrorView,
> {
    match result {
        Ok((builder, entry)) => Ok((builder@, entry@)),
        Err(e) => Err(e@),
    }
}

/// Prepares the commit of an entry for the zome `zome_name`, which stands at
/// position `zome_id` of the DNA: hashes the entry, given in its canonical
/// encoding as well, and builds the header that commits it, with the entry
/// type that its definition gives. The caller appends the header and the
/// entry to the source chain, and hands the address of the new chain head
/// back to the zome.
pub fn create(
    defs: &EntryDefsResult,
    zome_name: &String,
    zome_id: u8,
    input: EntryWithDefId,
    encoded_entry: &Vec<u8>,
) -> (result: Result<(CreateBuilder, Entry), HostFnError>)
    ensures
        create_view(result) == created(
            defs@,
            zome_name@,
            zome_id,
            input.entry_def_id@,
            input.entry@,
            encoded_entry@,
        ),
{
    let entry_hash = HoloHash::with_data(HashType::Entry, encoded_entry);
    let entry_type = match &input.entry_def_id {
        EntryDefId::App(_) => {
            match extract_entry_def(defs, zome_name, &input.entry_def_id) {
                Ok((index, visibility)) => EntryType::App(
                    AppEntryType { id: index, zome_id, visibility },
                ),
                Err(e) => {
                    return Err(e);
                },
            }
        },
        EntryDefId::CapGrant => EntryType::CapGrant,
        EntryDefId::CapClaim => EntryType::CapClaim,
    };
    Ok((CreateBuilder { entry_type, entry_hash }, input.entry))
}

} // verus!
