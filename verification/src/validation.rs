//! The stages that an operation passes through between its arrival and its
//! integration.
//!
//! `Pending → AwaitingSysDeps → SysValidated → AwaitingAppDeps →
//! AwaitingIntegration`, and then integrated. The validation workflow decides
//! when an operation moves on; the store holds the stage that it was last
//! given. That an operation is integrated shows in the time of its
//! integration, not in a stage of its own.

use vstd::prelude::*;
use crate::entry::clone_hashes;
use crate::hash::AnyDhtHash;

verus! {

/// The verdict of validation on an operation.
#[derive(Debug, Clone, Copy, PartialEq, Eq, Structural, Hash)]
pub enum ValidationStatus {
    /// Every check passed.
    Valid,
    /// A check failed.
    Rejected,
    /// Validation was given up, for want of what the operation depends on.
    Abandoned,
}

/// Where an operation stands in validation.
#[derive(Debug, PartialEq, Eq)]
pub enum ValidationLimboStatus {
    /// Nothing was tried yet.
    Pending,
    /// System validation waits for what the operation depends on.
    AwaitingSysDeps(Vec<AnyDhtHash>),
    /// System validation passed.
    SysValidated,
    /// Application validation waits for what the operation depends on.
    AwaitingAppDeps(Vec<AnyDhtHash>),
    /// Validation passed; the operation waits to be integrated.
    AwaitingIntegration,
}

pub ghost enum ValidationLimboStatusView {
    Pending,
    AwaitingSysDeps(Seq<Seq<u8>>),
    SysValidated,
    AwaitingAppDeps(Seq<Seq<u8>>),
    AwaitingIntegration,
}

impl View for ValidationLimboStatus {
    type V = ValidationLimboStatusView;

    open spec fn view(&self) -> ValidationLimboStatusView {
        match *self {
            ValidationLimboStatus::Pending => ValidationLimboStatusView::Pending,
            ValidationLimboStatus::AwaitingSysDeps(deps) => {
                ValidationLimboStatusView::AwaitingSysDeps(deps.deep_view())
            },
            ValidationLimboStatus::SysValidated => ValidationLimboStatusView::SysValidated,
            ValidationLimboStatus::AwaitingAppDeps(deps) => {
                ValidationLimboStatusView::AwaitingAppDeps(deps.deep_view())
            },
            ValidationLimboStatus::AwaitingIntegration => {
                ValidationLimboStatusView::AwaitingIntegration
            },
        }
    }
}

impl Clone for ValidationLimboStatus {
    fn clone(&self) -> (copy: Self)
        ensures
            copy@ == self@,
    {
        match self {
            ValidationLimboStatus::Pending => ValidationLimboStatus::Pending,
            ValidationLimboStatus::AwaitingSysDeps(deps) => ValidationLimboStatus::AwaitingSysDeps(
                clone_hashes(deps),
            ),
            ValidationLimboStatus::SysValidated => ValidationLimboStatus::SysValidated,
            ValidationLimboStatus::AwaitingAppDeps(deps) => ValidationLimboStatus::AwaitingAppDeps(
                clone_hashes(deps),
            ),
            ValidationLimboStatus::AwaitingIntegration => ValidationLimboStatus::AwaitingIntegration,
        }
    }
}

impl ValidationLimboStatusView {
    /// The number under which the stage is stored. A pending operation has none.
    pub open spec fn stage(self) -> Option<u8> {
        match self {
            ValidationLimboStatusView::Pending => None,
            ValidationLimboStatusView::AwaitingSysDeps(_) => Some(0u8),
            ValidationLimboStatusView::SysValidated => Some(1u8),
            ValidationLimboStatusView::AwaitingAppDeps(_) => Some(2u8),
            ValidationLimboStatusView::AwaitingIntegration => Some(3u8),
        }
    }

    /// How far the stage is along the way to integration, from 0.
    pub open spec fn progress(self) -> int {
        match self.stage() {
            None => 0,
            Some(n) => n + 1,
        }
    }

    /// The stage that follows on the way to integration. After the last
    /// stage comes integration itself.
    pub open spec fn next(self) -> Option<ValidationLimboStatusView> {
        match self {
            ValidationLimboStatusView::Pending => Some(
                ValidationLimboStatusView::AwaitingSysDeps(Seq::empty()),
            ),
            ValidationLimboStatusView::AwaitingSysDeps(_) => Some(
                ValidationLimboStatusView::SysValidated,
            ),
            ValidationLimboStatusView::SysValidated => Some(
                ValidationLimboStatusView::AwaitingAppDeps(Seq::empty()),
            ),
            ValidationLimboStatusView::AwaitingAppDeps(_) => Some(
                ValidationLimboStatusView::AwaitingIntegration,
            ),
            ValidationLimboStatusView::AwaitingIntegration => None,
        }
    }
}

impl ValidationLimboStatus {
    /// The number under which the stage is stored. A pending operation has none.
    pub fn stage(&self) -> (stage: Option<u8>)
        ensures
            stage == self@.stage(),
    {
        match self {
            ValidationLimboStatus::Pending => None,
            ValidationLimboStatus::AwaitingSysDeps(_) => Some(0),
            ValidationLimboStatus::SysValidated => Some(1),
            ValidationLimboStatus::AwaitingAppDeps(_) => Some(2),
            ValidationLimboStatus::AwaitingIntegration => Some(3),
        }
    }

    /// The stage that follows on the way to integration, with nothing to wait
    /// for. After the last stage comes integration itself.
    pub fn next(&self) -> (next: Option<Self>)
        ensures
            next.is_some() == self@.next().is_some(),
            next matches Some(n) ==> Some(n@) == self@.next(),
    {
        match self {
            ValidationLimboStatus::Pending => {
                let deps: Vec<AnyDhtHash> = Vec::new();
                assert(deps.deep_view() =~= Seq::<Seq<u8>>::empty());
                Some(ValidationLimboStatus::AwaitingSysDeps(deps))
            },
            ValidationLimboStatus::AwaitingSysDeps(_) => Some(ValidationLimboStatus::SysValidated),
            ValidationLimboStatus::SysValidated => {
                let deps: Vec<AnyDhtHash> = Vec::new();
                assert(deps.deep_view() =~= Seq::<Seq<u8>>::empty());
                Some(ValidationLimboStatus::AwaitingAppDeps(deps))
            },
            ValidationLimboStatus::AwaitingAppDeps(_) => Some(
                ValidationLimboStatus::AwaitingIntegration,
            ),
            ValidationLimboStatus::AwaitingIntegration => None,
        }
    }
}

/// Each stage leads to the stage that is one further along, and the numbers
/// under which the stages are stored ascend along the way.
pub proof fn lemma_stages_advance(status: ValidationLimboStatusView)
    ensures
        status.next() matches Some(n) ==> n.progress() == status.progress() + 1,
        status.next() is None <==> status is AwaitingIntegration,
        0 <= status.progress() <= 4,
{
}

} // verus!
