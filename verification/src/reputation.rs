//! The reputation ledger: authorization-gated feedback and aggregate scores.
//!
//! The ledger consumes verified job data by cross-reading the job ledger's
//! persisted records, accepts exactly one feedback submission per job, keeps
//! a running score and a completed-job counter per agent, and offers an open
//! response slot per job that anyone may overwrite once the job is
//! authenticated. It never mutates job-ledger state.

use vstd::prelude::*;

use crate::errors::RegistryError;
use crate::store::copy_bytes;
use crate::store::StoreMap;
use crate::validation::JobStatus;
use crate::validation::ValidationRegistry;
use crate::validation::ValidationState;

verus! {

/// The pluggable score aggregation rule: a pure function of the agent, the
/// previous score and the new rating.
pub trait ScorePolicy: Sized {
    /// What the aggregation rule computes.
    spec fn spec_new_score(agent_nonce: u64, previous: u64, rating: u64) -> u64;

    /// Computes the aggregation rule.
    fn new_score(&self, agent_nonce: u64, previous: u64, rating: u64) -> (r: u64)
        ensures
            r == Self::spec_new_score(agent_nonce, previous, rating),
    ;
}

/// The reference aggregation policy: the running score is replaced with the
/// latest accepted rating.
pub struct LatestRating;

impl ScorePolicy for LatestRating {
    open spec fn spec_new_score(agent_nonce: u64, previous: u64, rating: u64) -> u64 {
        rating
    }

    fn new_score(&self, _agent_nonce: u64, _previous: u64, rating: u64) -> u64 {
        rating
    }
}

/// Mathematical view of the reputation ledger's persisted state.
#[verifier::ext_equal]
pub struct ReputationState {
    /// The ledger's administrator.
    pub owner: u64,
    /// The ledger's own address.
    pub address: u64,
    /// The execution partition the ledger is resident in.
    pub shard: u64,
    /// The configured address of the job ledger.
    pub validation_address: u64,
    /// The configured address of the identity ledger.
    pub identity_address: u64,
    /// Running score by agent credential nonce.
    pub scores: Map<u64, u64>,
    /// Completed (feedback-accepted) job count by agent credential nonce.
    pub total_jobs: Map<u64, u64>,
    /// Job ids for which feedback has been accepted; membership is permanent.
    pub feedback_given: Map<Seq<u8>, bool>,
    /// The open response slot per job id.
    pub responses: Map<Seq<u8>, Seq<u8>>,
}

/// The running score of an agent; zero until a feedback is accepted.
pub open spec fn score_of(s: ReputationState, agent_nonce: u64) -> u64 {
    if s.scores.contains_key(agent_nonce) {
        s.scores[agent_nonce]
    } else {
        0
    }
}

/// The completed-job count of an agent; zero until a feedback is accepted.
pub open spec fn total_jobs_of(s: ReputationState, agent_nonce: u64) -> u64 {
    if s.total_jobs.contains_key(agent_nonce) {
        s.total_jobs[agent_nonce]
    } else {
        0
    }
}

/// Whether feedback has been accepted for the job.
pub open spec fn has_feedback(s: ReputationState, job_id: Seq<u8>) -> bool {
    s.feedback_given.contains_key(job_id) && s.feedback_given[job_id]
}

/// Increments a counter, stopping at the largest representable value.
pub open spec fn sat_inc(x: u64) -> u64 {
    if x == u64::MAX {
        x
    } else {
        (x + 1) as u64
    }
}

/// The outcome of a feedback submission, with its checks in order: the
/// cross-ledger read of the job record (failing closed across partitions),
/// the job's existence, the frontrunning check against the employer, the
/// verification check, the agent-owner authorization check, and the
/// duplicate check. The first failing check determines the error. On success
/// the score is aggregated by the policy, the completed-job counter advances,
/// and the job is permanently marked.
pub open spec fn spec_submit_feedback<P: ScorePolicy>(
    pre: ReputationState,
    validation: ValidationState,
    caller: u64,
    job_id: Seq<u8>,
    agent_nonce: u64,
    rating: u64,
) -> (ReputationState, Result<u64, RegistryError>) {
    if validation.shard != pre.shard {
        (pre, Err(RegistryError::CrossLedgerReadFailed))
    } else if !validation.jobs.contains_key(job_id) {
        (pre, Err(RegistryError::JobNotFound))
    } else if caller != validation.jobs[job_id].employer {
        (pre, Err(RegistryError::NotEmployer))
    } else if validation.jobs[job_id].status != JobStatus::Verified {
        (pre, Err(RegistryError::JobNotVerified))
    } else if !(validation.authorizations.contains_key(job_id)
        && validation.authorizations[job_id] == caller) {
        (pre, Err(RegistryError::FeedbackNotAuthorized))
    } else if has_feedback(pre, job_id) {
        (pre, Err(RegistryError::FeedbackAlreadyProvided))
    } else {
        let new_score = P::spec_new_score(agent_nonce, score_of(pre, agent_nonce), rating);
        (
            ReputationState {
                scores: pre.scores.insert(agent_nonce, new_score),
                total_jobs: pre.total_jobs.insert(
                    agent_nonce,
                    sat_inc(total_jobs_of(pre, agent_nonce)),
                ),
                feedback_given: pre.feedback_given.insert(job_id, true),
                ..pre
            },
            Ok(new_score),
        )
    }
}

/// The outcome of appending a response: the job must be authenticated by a
/// cross-ledger read, and then anyone may overwrite the single response slot;
/// there is no caller restriction by design.
pub open spec fn spec_append_response(
    pre: ReputationState,
    validation: ValidationState,
    job_id: Seq<u8>,
    response_uri: Seq<u8>,
) -> (ReputationState, Result<(), RegistryError>) {
    if validation.shard != pre.shard {
        (pre, Err(RegistryError::CrossLedgerReadFailed))
    } else if !validation.jobs.contains_key(job_id) {
        (pre, Err(RegistryError::JobNotFound))
    } else {
        (ReputationState { responses: pre.responses.insert(job_id, response_uri), ..pre }, Ok(()))
    }
}

/// The reputation ledger.
pub struct ReputationRegistry {
    owner: u64,
    address: u64,
    shard: u64,
    validation_address: u64,
    identity_address: u64,
    scores: StoreMap<u64, u64>,
    total_jobs: StoreMap<u64, u64>,
    feedback_given: StoreMap<Vec<u8>, bool>,
    responses: StoreMap<Vec<u8>, Vec<u8>>,
}

impl View for ReputationRegistry {
    type V = ReputationState;

    closed spec fn view(&self) -> ReputationState {
        ReputationState {
            owner: self.owner,
            address: self.address,
            shard: self.shard,
            validation_address: self.validation_address,
            identity_address: self.identity_address,
            scores: self.scores@,
            total_jobs: self.total_jobs@,
            feedback_given: self.feedback_given@,
            responses: self.responses@,
        }
    }
}

impl ReputationRegistry {
    /// Deploys the reputation ledger with the given administrator, at the
    /// given address, in the given execution partition, configured against
    /// the job ledger at `validation_address` and the identity ledger at
    /// `identity_address`.
    pub fn new(
        owner: u64,
        address: u64,
        shard: u64,
        validation_address: u64,
        identity_address: u64,
    ) -> (r: Self)
        ensures
            r@ == (ReputationState {
                owner,
                address,
                shard,
                validation_address,
                identity_address,
                scores: Map::empty(),
                total_jobs: Map::empty(),
                feedback_given: Map::empty(),
                responses: Map::empty(),
            }),
    {
        ReputationRegistry {
            owner,
            address,
            shard,
            validation_address,
            identity_address,
            scores: StoreMap::new(),
            total_jobs: StoreMap::new(),
            feedback_given: StoreMap::new(),
            responses: StoreMap::new(),
        }
    }

    /// Reconfigures the job ledger address. Administrator-only.
    pub fn set_validation_contract_address(&mut self, caller: u64, validation_address: u64) -> (r:
        Result<(), RegistryError>)
        ensures
            caller != old(self)@.owner ==> r == Err::<(), RegistryError>(
                RegistryError::NotContractOwner,
            ) && final(self)@ == old(self)@,
            caller == old(self)@.owner ==> r == Ok::<(), RegistryError>(()) && final(self)@
                == (ReputationState { validation_address, ..old(self)@ }),
    {
        if caller != self.owner {
            return Err(RegistryError::NotContractOwner);
        }
        self.validation_address = validation_address;
        Ok(())
    }

    /// Reconfigures the identity ledger address. Administrator-only.
    pub fn set_identity_contract_address(&mut self, caller: u64, identity_address: u64) -> (r:
        Result<(), RegistryError>)
        ensures
            caller != old(self)@.owner ==> r == Err::<(), RegistryError>(
                RegistryError::NotContractOwner,
            ) && final(self)@ == old(self)@,
            caller == old(self)@.owner ==> r == Ok::<(), RegistryError>(()) && final(self)@
                == (ReputationState { identity_address, ..old(self)@ }),
    {
        if caller != self.owner {
            return Err(RegistryError::NotContractOwner);
        }
        self.identity_address = identity_address;
        Ok(())
    }

    /// Submits feedback for a job. The job record and the feedback
    /// authorization are cross-read from the job ledger; the checks and their
    /// order are those of [`spec_submit_feedback`]. On success the new score
    /// is returned, which is also the payload of the reputation-updated
    /// event.
    ///
    /// `validation` must be the ledger this ledger is configured against.
    pub fn submit_feedback<P: ScorePolicy>(
        &mut self,
        policy: &P,
        validation: &ValidationRegistry,
        caller: u64,
        job_id: &Vec<u8>,
        agent_nonce: u64,
        rating: u64,
    ) -> (r: Result<u64, RegistryError>)
        requires
            validation@.address == old(self)@.validation_address,
        ensures
            final(self)@ == spec_submit_feedback::<P>(
                old(self)@,
                validation@,
                caller,
                job_id@,
                agent_nonce,
                rating,
            ).0,
            r == spec_submit_feedback::<P>(
                old(self)@,
                validation@,
                caller,
                job_id@,
                agent_nonce,
                rating,
            ).1,
    {
        let employer: u64;
        let status: JobStatus;
        match validation.read_job(self.shard, job_id) {
            Err(e) => {
                return Err(e);
            },
            Ok(None) => {
                return Err(RegistryError::JobNotFound);
            },
            Ok(Some(record)) => {
                employer = record.employer;
                status = record.status;
            },
        }
        if caller != employer {
            return Err(RegistryError::NotEmployer);
        }
        match status {
            JobStatus::Verified => {},
            _ => {
                return Err(RegistryError::JobNotVerified);
            },
        }
        match validation.read_authorization(self.shard, job_id) {
            Err(e) => {
                return Err(e);
            },
            Ok(authorized) => {
                let allowed: bool = match authorized {
                    Some(client) => client == caller,
                    None => false,
                };
                if !allowed {
                    return Err(RegistryError::FeedbackNotAuthorized);
                }
            },
        }
        if self.has_given_feedback(job_id) {
            return Err(RegistryError::FeedbackAlreadyProvided);
        }
        let previous: u64 = self.get_reputation_score(agent_nonce);
        let new_score: u64 = policy.new_score(agent_nonce, previous, rating);
        self.scores.insert(agent_nonce, new_score);
        let previous_total: u64 = self.get_total_jobs(agent_nonce);
        let new_total: u64 = if previous_total == u64::MAX {
            previous_total
        } else {
            previous_total + 1
        };
        self.total_jobs.insert(agent_nonce, new_total);
        self.feedback_given.insert(copy_bytes(job_id), true);
        Ok(new_score)
    }

    /// Appends a response for a job: anyone may call once the referenced job
    /// exists, and the single response slot is overwritten.
    ///
    /// `validation` must be the ledger this ledger is configured against.
    pub fn append_response(
        &mut self,
        validation: &ValidationRegistry,
        job_id: &Vec<u8>,
        response_uri: Vec<u8>,
    ) -> (r: Result<(), RegistryError>)
        requires
            validation@.address == old(self)@.validation_address,
        ensures
            final(self)@ == spec_append_response(old(self)@, validation@, job_id@, response_uri@).0,
            r == spec_append_response(old(self)@, validation@, job_id@, response_uri@).1,
    {
        match validation.read_job(self.shard, job_id) {
            Err(e) => {
                return Err(e);
            },
            Ok(None) => {
                return Err(RegistryError::JobNotFound);
            },
            Ok(Some(_)) => {},
        }
        self.responses.insert(copy_bytes(job_id), response_uri);
        Ok(())
    }

    /// The ledger's administrator.
    pub fn owner(&self) -> (r: u64)
        ensures
            r == self@.owner,
    {
        self.owner
    }

    /// The ledger's own address.
    pub fn address(&self) -> (r: u64)
        ensures
            r == self@.address,
    {
        self.address
    }

    /// The execution partition the ledger is resident in.
    pub fn shard(&self) -> (r: u64)
        ensures
            r == self@.shard,
    {
        self.shard
    }

}

/// The read-only views over a reputation ledger's persisted state.
pub trait StorageModule {
    /// The reputation-ledger state the views read.
    spec fn storage_state(&self) -> ReputationState;

    /// The running score of an agent; zero until a feedback is accepted.
    fn get_reputation_score(&self, agent_nonce: u64) -> (r: u64)
        ensures
            r == score_of(self.storage_state(), agent_nonce),
    ;

    /// The completed-job count of an agent; zero until a feedback is
    /// accepted.
    fn get_total_jobs(&self, agent_nonce: u64) -> (r: u64)
        ensures
            r == total_jobs_of(self.storage_state(), agent_nonce),
    ;

    /// Whether feedback has been accepted for the job.
    fn has_given_feedback(&self, job_id: &Vec<u8>) -> (r: bool)
        ensures
            r == has_feedback(self.storage_state(), job_id@),
    ;

    /// The response recorded for the job, if any.
    fn get_agent_response(&self, job_id: &Vec<u8>) -> (r: Option<&Vec<u8>>)
        ensures
            match r {
                Some(v) => self.storage_state().responses.contains_key(job_id@) && v@
                    == self.storage_state().responses[job_id@],
                None => !self.storage_state().responses.contains_key(job_id@),
            },
    ;

    /// The configured address of the job ledger.
    fn get_validation_contract_address(&self) -> (r: u64)
        ensures
            r == self.storage_state().validation_address,
    ;

    /// The configured address of the identity ledger.
    fn get_identity_contract_address(&self) -> (r: u64)
        ensures
            r == self.storage_state().identity_address,
    ;
}

impl StorageModule for ReputationRegistry {
    open spec fn storage_state(&self) -> ReputationState {
        self@
    }

    fn get_reputation_score(&self, agent_nonce: u64) -> (r: u64) {
        match self.scores.get(&agent_nonce) {
            Some(s) => *s,
            None => 0,
        }
    }

    fn get_total_jobs(&self, agent_nonce: u64) -> (r: u64) {
        match self.total_jobs.get(&agent_nonce) {
            Some(t) => *t,
            None => 0,
        }
    }

    fn has_given_feedback(&self, job_id: &Vec<u8>) -> (r: bool) {
        match self.feedback_given.get(job_id) {
            Some(b) => *b,
            None => false,
        }
    }

    fn get_agent_response(&self, job_id: &Vec<u8>) -> (r: Option<&Vec<u8>>) {
        self.responses.get(job_id)
    }

    fn get_validation_contract_address(&self) -> (r: u64) {
        self.validation_address
    }

    fn get_identity_contract_address(&self) -> (r: u64) {
        self.identity_address
    }
}

} // verus!
