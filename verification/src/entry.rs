//! Entries: the content that `Create` and `Update` headers commit.

use vstd::prelude::*;
use crate::hash::AgentPubKey;
use crate::hash::HoloHash;

verus! {

/// A copy of a list of addresses.
pub fn clone_hashes(hashes: &Vec<HoloHash>) -> (copy: Vec<HoloHash>)
    ensures
        copy.deep_view() == hashes.deep_view(),
{
    let mut copy: Vec<HoloHash> = Vec::new();
    let mut i: usize = 0;
    while i < hashes.len()
        invariant
            i <= hashes.len(),
            copy.len() == i,
            forall|j: int| 0 <= j < i ==> copy[j]@ == hashes[j]@,
        decreases hashes.len() - i,
    {
        copy.push(hashes[i].clone());
        i += 1;
    }
    assert(copy.deep_view() =~= hashes.deep_view());
    copy
}

/// A claim on a capability that another agent granted.
#[derive(Debug, PartialEq, Eq, Hash)]
pub struct CapClaim {
    pub tag: String,
    pub grantor: AgentPubKey,
    pub secret: Vec<u8>,
}

pub ghost struct CapClaimView {
    pub tag: Seq<char>,
    pub grantor: Seq<u8>,
    pub secret: Seq<u8>,
}

impl View for CapClaim {
    type V = CapClaimView;

    open spec fn view(&self) -> CapClaimView {
        CapClaimView { tag: self.tag@, grantor: self.grantor@, secret: self.secret@ }
    }
}

impl Clone for CapClaim {
    fn clone(&self) -> (copy: Self)
        ensures
            copy@ == self@,
    {
        CapClaim {
            tag: self.tag.clone(),
            grantor: self.grantor.clone(),
            secret: self.secret.clone(),
        }
    }
}

/// Who may use a granted capability.
#[derive(Debug, PartialEq, Eq, Hash)]
pub enum CapAccess {
    /// Anybody, without a secret.
    Unrestricted,
    /// Whoever holds the secret.
    Transferable { secret: Vec<u8> },
    /// The named agents, if they hold the secret.
    Assigned { secret: Vec<u8>, assignees: Vec<AgentPubKey> },
}

pub ghost enum CapAccessView {
    Unrestricted,
    Transferable { secret: Seq<u8> },
    Assigned { secret: Seq<u8>, assignees: Seq<Seq<u8>> },
}

impl View for CapAccess {
    type V = CapAccessView;

    open spec fn view(&self) -> CapAccessView {
        match *self {
            CapAccess::Unrestricted => CapAccessView::Unrestricted,
            CapAccess::Transferable { secret } => CapAccessView::Transferable { secret: secret@ },
            CapAccess::Assigned { secret, assignees } => CapAccessView::Assigned {
                secret: secret@,
                assignees: assignees.deep_view(),
            },
        }
    }
}

impl Clone for CapAccess {
    fn clone(&self) -> (copy: Self)
        ensures
            copy@ == self@,
    {
        match self {
            CapAccess::Unrestricted => CapAccess::Unrestricted,
            CapAccess::Transferable { secret } => CapAccess::Transferable { secret: secret.clone() },
            CapAccess::Assigned { secret, assignees } => CapAccess::Assigned {
                secret: secret.clone(),
                assignees: clone_hashes(assignees),
            },
        }
    }
}

/// A function of a zome that a grant gives access to.
#[derive(Debug, PartialEq, Eq, Hash)]
pub struct GrantedFunction {
    pub zome: String,
    pub function: String,
}

impl View for GrantedFunction {
    type V = (Seq<char>, Seq<char>);

    open spec fn view(&self) -> (Seq<char>, Seq<char>) {
        (self.zome@, self.function@)
    }
}

impl DeepView for GrantedFunction {
    type V = (Seq<char>, Seq<char>);

    open spec fn deep_view(&self) -> (Seq<char>, Seq<char>) {
        self@
    }
}

impl Clone for GrantedFunction {
    fn clone(&self) -> (copy: Self)
        ensures
            copy@ == self@,
    {
        GrantedFunction { zome: self.zome.clone(), function: self.function.clone() }
    }
}

/// A copy of a list of granted functions.
pub fn clone_functions(functions: &Vec<GrantedFunction>) -> (copy: Vec<GrantedFunction>)
    ensures
        copy.deep_view() == functions.deep_view(),
{
    let mut copy: Vec<GrantedFunction> = Vec::new();
    let mut i: usize = 0;
    while i < functions.len()
        invariant
            i <= functions.len(),
            copy.len() == i,
            forall|j: int| 0 <= j < i ==> copy[j]@ == functions[j]@,
        decreases functions.len() - i,
    {
        copy.push(functions[i].clone());
        i += 1;
    }
    assert(copy.deep_view() =~= functions.deep_view());
    copy
}

/// A capability that the author grants for calls into its zomes.
#[derive(Debug, PartialEq, Eq, Hash)]
pub struct ZomeCallCapGrant {
    pub tag: String,
    pub access: CapAccess,
    pub functions: Vec<GrantedFunction>,
}

pub ghost struct ZomeCallCapGrantView {
    pub tag: Seq<char>,
    pub access: CapAccessView,
    pub functions: Seq<(Seq<char>, Seq<char>)>,
}

impl View for ZomeCallCapGrant {
    type V = ZomeCallCapGrantView;

    open spec fn view(&self) -> ZomeCallCapGrantView {
        ZomeCallCapGrantView {
            tag: self.tag@,
            access: self.access@,
            functions: self.functions.deep_view(),
        }
    }
}

impl Clone for ZomeCallCapGrant {
    fn clone(&self) -> (copy: Self)
        ensures
            copy@ == self@,
    {
        ZomeCallCapGrant {
            tag: self.tag.clone(),
            access: self.access.clone(),
            functions: clone_functions(&self.functions),
        }
    }
}

/// The content of an entry.
#[derive(Debug, PartialEq, Eq, Hash)]
pub enum Entry {
    /// The public key of the agent.
    Agent(AgentPubKey),
    /// Application data, opaque to the store.
    App(Vec<u8>),
    CapClaim(CapClaim),
    CapGrant(ZomeCallCapGrant),
}

pub ghost enum EntryView {
    Agent(Seq<u8>),
    App(Seq<u8>),
    CapClaim(CapClaimView),
    CapGrant(ZomeCallCapGrantView),
}

impl View for Entry {
    type V = EntryView;

    open spec fn view(&self) -> EntryView {
        match *self {
            Entry::Agent(key) => EntryView::Agent(key@),
            Entry::App(bytes) => EntryView::App(bytes@),
            Entry::CapClaim(claim) => EntryView::CapClaim(claim@),
            Entry::CapGrant(grant) => EntryView::CapGrant(grant@),
        }
    }
}

impl DeepView for Entry {
    type V = EntryView;

    open spec fn deep_view(&self) -> EntryView {
        self@
    }
}

impl Clone for Entry {
    fn clone(&self) -> (copy: Self)
        ensures
            copy@ == self@,
    {
        match self {
            Entry::Agent(key) => Entry::Agent(key.clone()),
            Entry::App(bytes) => Entry::App(bytes.clone()),
            Entry::CapClaim(claim) => Entry::CapClaim(claim.clone()),
            Entry::CapGrant(grant) => Entry::CapGrant(grant.clone()),
        }
    }
}

} // verus!
