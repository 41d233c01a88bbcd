//! The failure conditions of the three ledgers.
//!
//! Every failed check aborts the whole operation: a function that returns one
//! of these errors leaves its ledger unchanged. Each condition carries a fixed
//! human-readable message, and callers must treat every error as
//! non-retriable without changing inputs.

use vstd::prelude::*;

verus! {

/// The error taxonomy: not-found, authorization, lifecycle-state and payment
/// failures, plus the hard failure of a cross-ledger read between ledgers
/// that are not co-located in the same execution partition.
#[derive(Clone, Copy, Debug, PartialEq, Eq, Structural)]
pub enum RegistryError {
    /// The referenced job has no live record.
    JobNotFound,
    /// A live record already exists for the job id.
    JobAlreadyInitialized,
    /// The referenced agent credential does not exist.
    AgentNotFound,
    /// The referenced service configuration does not exist.
    ServiceNotFound,
    /// The caller address already holds an agent credential.
    AgentAlreadyRegistered,
    /// The credential token was already issued.
    TokenAlreadyIssued,
    /// The credential token has not been issued yet.
    TokenNotIssued,
    /// The operation is reserved to the ledger's administrator.
    NotContractOwner,
    /// The operation is reserved to the owner of the referenced agent.
    NotAgentOwner,
    /// Only the agent's owner may update the agent's details.
    NotAgentUpdateOwner,
    /// Feedback may only come from the job's employer.
    NotEmployer,
    /// Feedback requires the job to have been verified.
    JobNotVerified,
    /// The agent owner has not authorized the caller for this job.
    FeedbackNotAuthorized,
    /// Feedback was already accepted for this job.
    FeedbackAlreadyProvided,
    /// The payment token identifier or nonce does not match the service.
    InvalidPaymentToken,
    /// The payment amount is below the configured service price.
    InsufficientPayment,
    /// The foreign ledger is not resident in the same execution partition,
    /// so the read fails closed instead of returning stale or wrong data.
    /// This is a deployment constraint, not a logic failure.
    CrossLedgerReadFailed,
}

impl RegistryError {
    /// The fixed message reported for this condition.
    pub open spec fn spec_message(self) -> Seq<char> {
        match self {
            RegistryError::JobNotFound => "Job not found"@,
            RegistryError::JobAlreadyInitialized => "Job already initialized"@,
            RegistryError::AgentNotFound => "Agent not found"@,
            RegistryError::ServiceNotFound => "Service not found"@,
            RegistryError::AgentAlreadyRegistered => "Agent already registered for this address"@,
            RegistryError::TokenAlreadyIssued => "Token already issued"@,
            RegistryError::TokenNotIssued => "Token not issued"@,
            RegistryError::NotContractOwner => "Endpoint can only be called by owner"@,
            RegistryError::NotAgentOwner => "Only the agent owner can perform this action"@,
            RegistryError::NotAgentUpdateOwner => "Only owner can update agent"@,
            RegistryError::NotEmployer => "Only the employer can provide feedback"@,
            RegistryError::JobNotVerified => "Job not verified"@,
            RegistryError::FeedbackNotAuthorized => "Feedback not authorized by agent"@,
            RegistryError::FeedbackAlreadyProvided => "Feedback already provided for this job"@,
            RegistryError::InvalidPaymentToken => "Invalid payment token"@,
            RegistryError::InsufficientPayment => "Insufficient payment"@,
            RegistryError::CrossLedgerReadFailed => "Cross-ledger read failed: ledgers not co-located"@,
        }
    }

    /// The fixed message reported for this condition.
    pub fn message(&self) -> (r: &'static str)
        ensures
            r@ == self.spec_message(),
    {
        match self {
            RegistryError::JobNotFound => "Job not found",
            RegistryError::JobAlreadyInitialized => "Job already initialized",
            RegistryError::AgentNotFound => "Agent not found",
            RegistryError::ServiceNotFound => "Service not found",
            RegistryError::AgentAlreadyRegistered => "Agent already registered for this address",
            RegistryError::TokenAlreadyIssued => "Token already issued",
            RegistryError::TokenNotIssued => "Token not issued",
            RegistryError::NotContractOwner => "Endpoint can only be called by owner",
            RegistryError::NotAgentOwner => "Only the agent owner can perform this action",
            RegistryError::NotAgentUpdateOwner => "Only owner can update agent",
            RegistryError::NotEmployer => "Only the employer can provide feedback",
            RegistryError::JobNotVerified => "Job not verified",
            RegistryError::FeedbackNotAuthorized => "Feedback not authorized by agent",
            RegistryError::FeedbackAlreadyProvided => "Feedback already provided for this job",
            RegistryError::InvalidPaymentToken => "Invalid payment token",
            RegistryError::InsufficientPayment => "Insufficient payment",
            RegistryError::CrossLedgerReadFailed => "Cross-ledger read failed: ledgers not co-located",
        }
    }
}

} // verus!
