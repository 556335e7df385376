//! The error taxonomy of the transaction core.
//!
//! `NotFound` means an entity is absent for a merchant-scoped key,
//! `OperationNotAllowed` that a flow's status guard was violated,
//! `InvalidRequest`/`MissingRequiredField` that a request field is missing or
//! malformed. `NoFieldsToUpdate` is internal to the storage layer: callers
//! must translate it into success with the unmodified entity, and it is never
//! surfaced to an API caller.

use vstd::prelude::*;

use crate::enums::IntentStatus;

verus! {

/// Failures of the storage collaborator.
#[derive(Clone, Copy, Debug, PartialEq, Eq, Structural)]
pub enum StorageError {
    /// No row matches the merchant-scoped key of the query.
    NotFound,
    /// A typed update computed an empty change set: the storage layer's
    /// refusal to build a zero-column write. Every update operation
    /// translates it into success with the unmodified entity before it
    /// reaches a caller; no public result carries it.
    NoFieldsToUpdate,
    /// A write conflicted with an existing row under the same unique key.
    UniqueViolation,
    /// An unclassified backend failure.
    Others,
}

/// Caller-visible failures of a flow's pipeline.
#[derive(Clone, Debug)]
pub enum ApiError {
    /// The intent or attempt is absent for the merchant-scoped key.
    PaymentNotFound,
    /// The payout or its current attempt is absent for the merchant-scoped
    /// key.
    PayoutNotFound,
    /// The business profile referenced by the intent is absent.
    ProfileNotFound { profile_id: u64 },
    /// The flow's status guard refused the current intent status; carries
    /// the attempted action and the disallowed set.
    OperationNotAllowed {
        operation: String,
        current_status: IntentStatus,
        not_allowed: Vec<IntentStatus>,
    },
    /// A field the flow needs is missing from the loaded state or request.
    MissingRequiredField { field_name: String },
    /// An invariant of the stored data was broken.
    InternalServerError,
}

/// Failures raised while a background job runs a flow's pipeline.
#[derive(Clone, Debug)]
pub enum WorkflowError {
    /// The job's tracking payload does not decode for its job kind; fatal,
    /// the job is marked errored and never retried.
    DeserializationFailed,
    /// The tracking payload carries no merchant id.
    MissingMerchantId,
    /// The merchant embedded in the payload has no account on record.
    MerchantAccountNotFound,
    /// The flow re-entered by the job failed.
    Api(ApiError),
    /// The storage collaborator failed.
    Storage(StorageError),
}

/// A deserialization failure is the one error class the retry policy never
/// requeues: re-running the job cannot make an undecodable payload decode.
pub open spec fn is_fatal_workflow_error(e: WorkflowError) -> bool {
    e is DeserializationFailed
}

impl WorkflowError {
    /// Executable test for [`is_fatal_workflow_error`].
    pub fn is_fatal(&self) -> (r: bool)
        ensures
            r == is_fatal_workflow_error(*self),
    {
        match self {
            WorkflowError::DeserializationFailed => true,
            _ => false,
        }
    }
}

} // verus!
