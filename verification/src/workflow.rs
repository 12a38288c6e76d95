//! The failure of a workflow: whatever failed in the part of the core that
//! the workflow ran.

use vstd::prelude::*;
use vstd::std_specs::convert::FromSpecImpl;
use crate::error::DhtOpError;
use crate::host_fn::HostFnError;
use crate::mutations::StateMutationError;
use crate::schema::SchemaError;

verus! {

/// Why a workflow failed.
#[derive(Debug, PartialEq, Eq)]
pub enum WorkflowError {
    /// The genesis self-check failed, for the reason given. The app cannot be installed.
    GenesisFailure(String),
    /// The capability token is missing.
    CapabilityMissing,
    DhtOpError(DhtOpError),
    StateMutationError(StateMutationError),
    SchemaError(SchemaError),
    HostFnError(HostFnError),
}

/// What a workflow returns.
pub type WorkflowResult<T> = Result<T, WorkflowError>;

impl From<DhtOpError> for WorkflowError {
    fn from(e: DhtOpError) -> (error: Self) {
        WorkflowError::DhtOpError(e)
    }
}

impl FromSpecImpl<DhtOpError> for WorkflowError {
    open spec fn obeys_from_spec() -> bool {
        true
    }

    open spec fn from_spec(e: DhtOpError) -> Self {
        WorkflowError::DhtOpError(e)
    }
}

impl From<StateMutationError> for WorkflowError {
    fn from(e: StateMutationError) -> (error: Self) {
        WorkflowError::StateMutationError(e)
    }
}

impl FromSpecImpl<StateMutationError> for WorkflowError {
    open spec fn obeys_from_spec() -> bool {
        true
    }

    open spec fn from_spec(e: StateMutationError) -> Self {
        WorkflowError::StateMutationError(e)
    }
}

impl From<SchemaError> for WorkflowError {
    fn from(e: SchemaError) -> (error: Self) {
        WorkflowError::SchemaError(e)
    }
}

impl FromSpecImpl<SchemaError> for WorkflowError {
    open spec fn obeys_from_spec() -> bool {
        true
    }

    open spec fn from_spec(e: SchemaError) -> Self {
        WorkflowError::SchemaError(e)
    }
}

impl From<HostFnError> for WorkflowError {
    fn from(e: HostFnError) -> (error: Self) {
        WorkflowError::HostFnError(e)
    }
}

impl FromSpecImpl<HostFnError> for WorkflowError {
    open spec fn obeys_from_spec() -> bool {
        true
    }

    open spec fn from_spec(e: HostFnError) -> Self {
        WorkflowError::HostFnError(e)
    }
}

} // verus!
