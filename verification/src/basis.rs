//! The basis of an operation: the address that decides which part of the
//! network holds it.
//!
//! Most operations live at the address of their own header. Those that record
//! a change at an original live at the original, and links live at their
//! base. Only for an update that is to live at the original entry the
//! original header has to be looked up, which the caller does, for as long as
//! it sees fit: resolution is a step that either names the basis or asks for
//! the lookup, and a second step that takes what the lookup gave.

use vstd::prelude::*;
use crate::dht_op::DhtOp;
use crate::dht_op::DhtOpView;
use crate::error::DhtOpError;
use crate::error::DhtOpErrorView;
use crate::hash::AnyDhtHash;
use crate::hash::HeaderHash;
use crate::header::Header;
use crate::header::HeaderView;

verus! {

/// Where the record that an entry was replaced lives.
#[derive(Debug, Clone, Copy, PartialEq, Eq, Structural, Hash)]
pub enum UpdateBasis {
    /// At the address of the original entry.
    Entry,
    /// At the address of the header that committed the original entry.
    Header,
}

/// What the first step of resolution yields.
#[derive(Debug, PartialEq, Eq)]
pub enum BasisStep {
    /// The basis.
    Resolved(AnyDhtHash),
    /// The header at this address has to be looked up; `basis_after_lookup`
    /// takes the outcome.
    Lookup(HeaderHash),
}

pub ghost enum BasisStepView {
    Resolved(Seq<u8>),
    Lookup(Seq<u8>),
}

impl View for BasisStep {
    type V = BasisStepView;

    open spec fn view(&self) -> BasisStepView {
        match *self {
            BasisStep::Resolved(hash) => BasisStepView::Resolved(hash@),
            BasisStep::Lookup(hash) => BasisStepView::Lookup(hash@),
        }
    }
}

/// How a lookup of a header ended.
#[derive(Debug, PartialEq, Eq)]
pub enum LookupOutcome {
    /// The header was found, locally or on the network.
    Found(Header),
    /// Nobody holds the header.
    Missing,
    /// The lookup was given up after the time that the caller allowed.
    TimedOut,
}

pub ghost enum LookupOutcomeView {
    Found(HeaderView),
    Missing,
    TimedOut,
}

impl View for LookupOutcome {
    type V = LookupOutcomeView;

    open spec fn view(&self) -> LookupOutcomeView {
        match *self {
            LookupOutcome::Found(header) => LookupOutcomeView::Found(header@),
            LookupOutcome::Missing => LookupOutcomeView::Missing,
            LookupOutcome::TimedOut => LookupOutcomeView::TimedOut,
        }
    }
}

/// The first step of resolution for an operation whose header has the
/// address `header_hash`.
pub open spec fn basis_step(op: DhtOpView, header_hash: Seq<u8>, mode: UpdateBasis) -> BasisStepView {
    match op {
        DhtOpView::StoreElement(..) => BasisStepView::Resolved(header_hash),
        DhtOpView::StoreEntry(..) => BasisStepView::Resolved(header_hash),
        DhtOpView::RegisterAgentActivity(..) => BasisStepView::Resolved(header_hash),
        DhtOpView::RegisterReplacedBy(_, update, _) => match mode {
            UpdateBasis::Header => BasisStepView::Resolved(update.original_header_address),
            UpdateBasis::Entry => BasisStepView::Lookup(update.original_header_address),
        },
        DhtOpView::RegisterDeletedBy(_, delete) => BasisStepView::Resolved(delete.deletes_address),
        DhtOpView::RegisterAddLink(_, link) => BasisStepView::Resolved(link.base_address),
        DhtOpView::RegisterRemoveLink(_, link) => BasisStepView::Resolved(link.base_address),
    }
}

/// The basis that follows from a lookup of the original header at `original`:
/// the address of the entry that the original committed. There is none if the
/// lookup found nothing, found a header that commits no entry, or ran out of
/// time.
pub open spec fn basis_of_lookup(original: Seq<u8>, outcome: LookupOutcomeView) -> Result<
    Seq<u8>,
    DhtOpErrorView,
> {
    match outcome {
        LookupOutcomeView::Found(header) => match header.entry_hash() {
            Some(entry_hash) => Ok(entry_hash),
            None => Err(DhtOpErrorView::MissingOriginal(original)),
        },
        LookupOutcomeView::Missing => Err(DhtOpErrorView::MissingOriginal(original)),
        LookupOutcomeView::TimedOut => Err(DhtOpErrorView::LookupTimeout(original)),
    }
}

/// The view of a resolved basis or a failure.
pub open spec fn basis_result_view(result: Result<AnyDhtHash, DhtOpError>) -> Result<
    Seq<u8>,
    DhtOpErrorView,
> {
    match result {
        Ok(hash) => Ok(hash@),
        Err(e) => Err(e@),
    }
}

/// The first step of resolving the basis of an operation. No lookup is ever
/// asked for a link or a delete.
pub fn dht_basis(op: &DhtOp, header_hash: &HeaderHash, mode: UpdateBasis) -> (step: BasisStep)
    ensures
        step@ == basis_step(op@, header_hash@, mode),
{
    match op {
        DhtOp::StoreElement(..) => BasisStep::Resolved(header_hash.clone()),
        DhtOp::StoreEntry(..) => BasisStep::Resolved(header_hash.clone()),
        DhtOp::RegisterAgentActivity(..) => BasisStep::Resolved(header_hash.clone()),
        DhtOp::RegisterReplacedBy(_, update, _) => match mode {
            UpdateBasis::Header => BasisStep::Resolved(update.original_header_address.clone()),
            UpdateBasis::Entry => BasisStep::Lookup(update.original_header_address.clone()),
        },
        DhtOp::RegisterDeletedBy(_, delete) => BasisStep::Resolved(delete.deletes_address.clone()),
        DhtOp::RegisterAddLink(_, link) => BasisStep::Resolved(link.base_address.clone()),
        DhtOp::RegisterRemoveLink(_, link) => BasisStep::Resolved(link.base_address.clone()),
    }
}

/// The second step of resolving a basis: takes the outcome of the lookup
/// that the first step asked for.
pub fn basis_after_lookup(original: HeaderHash, outcome: LookupOutcome) -> (result: Result<
    AnyDhtHash,
    DhtOpError,
>)
    ensures
        basis_result_view(result) == basis_of_lookup(original@, outcome@),
{
    match outcome {
        LookupOutcome::Found(header) => match header.entry_hash() {
            Some(entry_hash) => Ok(entry_hash.clone()),
            None => Err(DhtOpError::MissingOriginal(original)),
        },
        LookupOutcome::Missing => Err(DhtOpError::MissingOriginal(original)),
        LookupOutcome::TimedOut => Err(DhtOpError::LookupTimeout(original)),
    }
}

/// The record that an entry was replaced never lives at the address of the
/// replacing header itself: in header mode it lives at the original header
/// that the update names, and in entry mode, once the original header is
/// found, at the entry that the original committed.
pub proof fn lemma_replaced_by_basis(
    op: DhtOpView,
    header_hash: Seq<u8>,
    other_header_hash: Seq<u8>,
    original: HeaderView,
    entry_hash: Seq<u8>,
)
    requires
        op is RegisterReplacedBy,
        original.entry_hash() == Some(entry_hash),
    ensures
        basis_step(op, header_hash, UpdateBasis::Header) == BasisStepView::Resolved(
            op->RegisterReplacedBy_1.original_header_address,
        ),
        basis_step(op, header_hash, UpdateBasis::Entry) == BasisStepView::Lookup(
            op->RegisterReplacedBy_1.original_header_address,
        ),
        basis_of_lookup(
            op->RegisterReplacedBy_1.original_header_address,
            LookupOutcomeView::Found(original),
        ) == Ok::<Seq<u8>, DhtOpErrorView>(entry_hash),
        basis_step(op, header_hash, UpdateBasis::Entry) == basis_step(
            op,
            other_header_hash,
            UpdateBasis::Entry,
        ),
        basis_step(op, header_hash, UpdateBasis::Header) == basis_step(
            op,
            other_header_hash,
            UpdateBasis::Header,
        ),
{
}

} // verus!
