//! A trust protocol for autonomous agents, modeled as three cooperating
//! ledgers over plain values.
//!
//! - [`identity::IdentityRegistry`] issues one non-transferable credential per
//!   owner address and records each agent's details, mutable metadata and
//!   per-service price configuration.
//! - [`validation::ValidationRegistry`] owns the job lifecycle state machine:
//!   creation with optional escrowed payment, proof submission, administrator
//!   verification, per-job feedback authorization and age-based cleanup.
//! - [`reputation::ReputationRegistry`] accepts exactly one feedback
//!   submission per job, keeps a running score per agent and an open response
//!   slot per job.
//!
//! The ledgers are independently owned stores with no shared transaction:
//! consistency is enforced through read-time checks. A ledger reads another
//! ledger's state only through that ledger's read-only accessors, which fail
//! closed when the two ledgers do not live in the same execution partition.
pub mod errors;
pub mod identity;
pub mod laws;
pub mod reputation;
pub mod store;
pub mod validation;
