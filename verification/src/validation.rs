//! The job ledger: the job lifecycle state machine.
//!
//! A job is created against an agent, optionally with an escrowed payment
//! validated against the agent's configured service price (read from the
//! identity ledger), passes through proof submission and administrator
//! verification, and is garbage-collected by age. The ledger also keeps the
//! agent-owner-controlled whitelist of which client address may submit
//! feedback for each job.

use vstd::prelude::*;

use crate::errors::RegistryError;
use crate::identity::IdentityRegistry;
use crate::identity::IdentityState;
use crate::store::bytes_eq;
use crate::store::StoreMap;

verus! {

/// A job record disappears only via explicit cleanup, once its age reaches
/// this threshold: three days, in milliseconds of block timestamp.
pub const JOB_EXPIRY_MS: u64 = 259_200_000;

/// The lifecycle states of a job. Feedback becomes possible only in
/// `Verified`.
#[derive(Clone, Copy, Debug, PartialEq, Eq, Structural)]
pub enum JobStatus {
    /// Created, no proof submitted yet.
    New,
    /// A proof of work has been submitted.
    Pending,
    /// The administrator verified the job.
    Verified,
}

/// The position of a status in the lifecycle order `New, Pending, Verified`.
pub open spec fn status_rank(s: JobStatus) -> int {
    match s {
        JobStatus::New => 0,
        JobStatus::Pending => 1,
        JobStatus::Verified => 2,
    }
}

/// A payment accompanying job creation.
#[derive(Debug)]
pub struct Payment {
    /// The token identifier transferred.
    pub token_id: Vec<u8>,
    /// The token nonce transferred.
    pub token_nonce: u64,
    /// The amount transferred.
    pub amount: u64,
}

/// Mathematical view of [`Payment`].
#[verifier::ext_equal]
pub struct PaymentView {
    /// The token identifier transferred.
    pub token_id: Seq<u8>,
    /// The token nonce transferred.
    pub token_nonce: u64,
    /// The amount transferred.
    pub amount: u64,
}

impl View for Payment {
    type V = PaymentView;

    open spec fn view(&self) -> PaymentView {
        PaymentView {
            token_id: self.token_id@,
            token_nonce: self.token_nonce,
            amount: self.amount,
        }
    }
}

/// The view of an optional payment.
pub open spec fn payment_view(p: Option<Payment>) -> Option<PaymentView> {
    match p {
        Some(q) => Some(q@),
        None => None,
    }
}

/// One live job record.
#[derive(Debug)]
pub struct JobRecord {
    /// The address that created the job; the only address eligible to submit
    /// feedback for it.
    pub employer: u64,
    /// The credential nonce of the agent the job is opened against.
    pub agent_nonce: u64,
    /// Lifecycle state.
    pub status: JobStatus,
    /// The submitted proof of work; empty until submitted.
    pub proof_data: Vec<u8>,
    /// Block timestamp of creation, in milliseconds.
    pub created_at: u64,
    /// The service the job was opened for, if any.
    pub service_id: Option<u64>,
    /// The escrowed payment reference, if any.
    pub payment: Option<Payment>,
}

/// Mathematical view of [`JobRecord`].
#[verifier::ext_equal]
pub struct JobRecordView {
    /// The address that created the job.
    pub employer: u64,
    /// The credential nonce of the agent the job is opened against.
    pub agent_nonce: u64,
    /// Lifecycle state.
    pub status: JobStatus,
    /// The submitted proof of work; empty until submitted.
    pub proof_data: Seq<u8>,
    /// Block timestamp of creation, in milliseconds.
    pub created_at: u64,
    /// The service the job was opened for, if any.
    pub service_id: Option<u64>,
    /// The escrowed payment reference, if any.
    pub payment: Option<PaymentView>,
}

impl View for JobRecord {
    type V = JobRecordView;

    open spec fn view(&self) -> JobRecordView {
        JobRecordView {
            employer: self.employer,
            agent_nonce: self.agent_nonce,
            status: self.status,
            proof_data: self.proof_data@,
            created_at: self.created_at,
            service_id: self.service_id,
            payment: match self.payment {
                Some(p) => Some(p@),
                None => None,
            },
        }
    }
}

/// Mathematical view of the job ledger's persisted state.
#[verifier::ext_equal]
pub struct ValidationState {
    /// The ledger's administrator.
    pub owner: u64,
    /// The ledger's own address.
    pub address: u64,
    /// The execution partition the ledger is resident in.
    pub shard: u64,
    /// The configured address of the identity ledger.
    pub identity_address: u64,
    /// Live job records by job id.
    pub jobs: Map<Seq<u8>, JobRecordView>,
    /// The sole feedback-authorized client address per job id.
    pub authorizations: Map<Seq<u8>, u64>,
}

/// The outcome of opening a job: the duplicate check, then — when a service
/// is named — the cross-ledger price lookup and the exact payment validation.
/// No service id means no payment requirement.
pub open spec fn spec_init_job(
    pre: ValidationState,
    identity: IdentityState,
    caller: u64,
    now: u64,
    job_id: Seq<u8>,
    agent_nonce: u64,
    service_id: Option<u64>,
    payment: Option<PaymentView>,
) -> (ValidationState, Result<(), RegistryError>) {
    if pre.jobs.contains_key(job_id) {
        (pre, Err(RegistryError::JobAlreadyInitialized))
    } else {
        let accepted = ValidationState {
            jobs: pre.jobs.insert(
                job_id,
                JobRecordView {
                    employer: caller,
                    agent_nonce,
                    status: JobStatus::New,
                    proof_data: Seq::empty(),
                    created_at: now,
                    service_id,
                    payment,
                },
            ),
            ..pre
        };
        match service_id {
            None => (accepted, Ok(())),
            Some(sid) => {
                if identity.shard != pre.shard {
                    (pre, Err(RegistryError::CrossLedgerReadFailed))
                } else if !identity.services.contains_key((agent_nonce, sid)) {
                    (pre, Err(RegistryError::ServiceNotFound))
                } else {
                    let cfg = identity.services[(agent_nonce, sid)];
                    match payment {
                        None => (pre, Err(RegistryError::InvalidPaymentToken)),
                        Some(p) => {
                            if p.token_id != cfg.payment_token_id || p.token_nonce
                                != cfg.payment_token_nonce {
                                (pre, Err(RegistryError::InvalidPaymentToken))
                            } else if p.amount < cfg.price {
                                (pre, Err(RegistryError::InsufficientPayment))
                            } else {
                                (accepted, Ok(()))
                            }
                        },
                    }
                }
            },
        }
    }
}

/// The outcome of submitting a proof of work: overwrites the proof and moves
/// the job to `Pending` whatever its current status; any caller may submit.
pub open spec fn spec_submit_proof(
    pre: ValidationState,
    job_id: Seq<u8>,
    proof_data: Seq<u8>,
) -> (ValidationState, Result<(), RegistryError>) {
    if !pre.jobs.contains_key(job_id) {
        (pre, Err(RegistryError::JobNotFound))
    } else {
        (
            ValidationState {
                jobs: pre.jobs.insert(
                    job_id,
                    JobRecordView { status: JobStatus::Pending, proof_data, ..pre.jobs[job_id] },
                ),
                ..pre
            },
            Ok(()),
        )
    }
}

/// The outcome of verifying a job: administrator-only; moves the job to
/// `Verified` from any status.
pub open spec fn spec_verify_job(pre: ValidationState, caller: u64, job_id: Seq<u8>) -> (
    ValidationState,
    Result<(), RegistryError>,
) {
    if caller != pre.owner {
        (pre, Err(RegistryError::NotContractOwner))
    } else if !pre.jobs.contains_key(job_id) {
        (pre, Err(RegistryError::JobNotFound))
    } else {
        (
            ValidationState {
                jobs: pre.jobs.insert(
                    job_id,
                    JobRecordView { status: JobStatus::Verified, ..pre.jobs[job_id] },
                ),
                ..pre
            },
            Ok(()),
        )
    }
}

/// The outcome of authorizing a feedback client for a job: only the owner of
/// the agent the job references (read from the identity ledger) may do so;
/// the new authorization overwrites any prior one.
pub open spec fn spec_authorize_feedback(
    pre: ValidationState,
    identity: IdentityState,
    caller: u64,
    job_id: Seq<u8>,
    client: u64,
) -> (ValidationState, Result<(), RegistryError>) {
    if !pre.jobs.contains_key(job_id) {
        (pre, Err(RegistryError::JobNotFound))
    } else if identity.shard != pre.shard {
        (pre, Err(RegistryError::CrossLedgerReadFailed))
    } else if !identity.agents.contains_key(pre.jobs[job_id].agent_nonce) {
        (pre, Err(RegistryError::AgentNotFound))
    } else if caller != identity.agents[pre.jobs[job_id].agent_nonce].owner {
        (pre, Err(RegistryError::NotAgentOwner))
    } else {
        (
            ValidationState { authorizations: pre.authorizations.insert(job_id, client), ..pre },
            Ok(()),
        )
    }
}

/// Whether a job created at `created_at` is stale at time `now`.
pub open spec fn job_is_stale(created_at: u64, now: u64) -> bool {
    now >= created_at + JOB_EXPIRY_MS
}

/// The effect of one cleanup attempt: a stale job is deleted together with
/// its feedback authorization, whatever its status; a fresh or unknown id is
/// left untouched.
pub open spec fn spec_clean_one(pre: ValidationState, now: u64, job_id: Seq<u8>) -> ValidationState {
    if pre.jobs.contains_key(job_id) && job_is_stale(pre.jobs[job_id].created_at, now) {
        ValidationState {
            jobs: pre.jobs.remove(job_id),
            authorizations: pre.authorizations.remove(job_id),
            ..pre
        }
    } else {
        pre
    }
}

/// The effect of a batch cleanup: each id is treated independently, in order;
/// an id with no record is not an error.
pub open spec fn spec_clean(pre: ValidationState, now: u64, job_ids: Seq<Seq<u8>>) -> ValidationState
    decreases job_ids.len(),
{
    if job_ids.len() == 0 {
        pre
    } else {
        spec_clean_one(spec_clean(pre, now, job_ids.drop_last()), now, job_ids.last())
    }
}

/// The job ledger.
pub struct ValidationRegistry {
    owner: u64,
    address: u64,
    shard: u64,
    identity_address: u64,
    jobs: StoreMap<Vec<u8>, JobRecord>,
    authorizations: StoreMap<Vec<u8>, u64>,
}

impl View for ValidationRegistry {
    type V = ValidationState;

    closed spec fn view(&self) -> ValidationState {
        ValidationState {
            owner: self.owner,
            address: self.address,
            shard: self.shard,
            identity_address: self.identity_address,
            jobs: self.jobs@,
            authorizations: self.authorizations@,
        }
    }
}

impl ValidationRegistry {
    /// Deploys the job ledger with the given administrator, at the given
    /// address, in the given execution partition, configured against the
    /// identity ledger at `identity_address`.
    pub fn new(owner: u64, address: u64, shard: u64, identity_address: u64) -> (r: Self)
        ensures
            r@ == (ValidationState {
                owner,
                address,
                shard,
                identity_address,
                jobs: Map::empty(),
                authorizations: Map::empty(),
            }),
    {
        ValidationRegistry {
            owner,
            address,
            shard,
            identity_address,
            jobs: StoreMap::new(),
            authorizations: StoreMap::new(),
        }
    }

    /// Reconfigures the identity ledger address. Administrator-only.
    pub fn set_identity_registry_address(&mut self, caller: u64, identity_address: u64) -> (r:
        Result<(), RegistryError>)
        ensures
            caller != old(self)@.owner ==> r == Err::<(), RegistryError>(
                RegistryError::NotContractOwner,
            ) && final(self)@ == old(self)@,
            caller == old(self)@.owner ==> r == Ok::<(), RegistryError>(()) && final(self)@
                == (ValidationState { identity_address, ..old(self)@ }),
    {
        if caller != self.owner {
            return Err(RegistryError::NotContractOwner);
        }
        self.identity_address = identity_address;
        Ok(())
    }

    /// Opens a job under a globally unique id. Fails on a duplicate id; when
    /// a service id is named, the agent's configured price is read from the
    /// identity ledger and the accompanying payment must match the configured
    /// token exactly and reach the price. Excess is not refunded. On success
    /// a `New` record is stored with the caller as employer.
    ///
    /// `identity` must be the ledger this ledger is configured against.
    pub fn init_job(
        &mut self,
        identity: &IdentityRegistry,
        caller: u64,
        now: u64,
        job_id: Vec<u8>,
        agent_nonce: u64,
        service_id: Option<u64>,
        payment: Option<Payment>,
    ) -> (r: Result<(), RegistryError>)
        requires
            identity@.address == old(self)@.identity_address,
        ensures
            final(self)@ == spec_init_job(
                old(self)@,
                identity@,
                caller,
                now,
                job_id@,
                agent_nonce,
                service_id,
                payment_view(payment),
            ).0,
            r == spec_init_job(
                old(self)@,
                identity@,
                caller,
                now,
                job_id@,
                agent_nonce,
                service_id,
                payment_view(payment),
            ).1,
    {
        if self.jobs.contains_key(&job_id) {
            return Err(RegistryError::JobAlreadyInitialized);
        }
        if let Some(sid) = service_id {
            match identity.read_service_config(self.shard, agent_nonce, sid) {
                Err(e) => {
                    return Err(e);
                },
                Ok(None) => {
                    return Err(RegistryError::ServiceNotFound);
                },
                Ok(Some(cfg)) => {
                    match &payment {
                        None => {
                            return Err(RegistryError::InvalidPaymentToken);
                        },
                        Some(p) => {
                            if !bytes_eq(
                                p.token_id.as_slice(),
                                cfg.payment_token_id.as_slice(),
                            ) || p.token_nonce != cfg.payment_token_nonce {
                                return Err(RegistryError::InvalidPaymentToken);
                            }
                            if p.amount < cfg.price {
                                return Err(RegistryError::InsufficientPayment);
                            }
                        },
                    }
                },
            }
        }
        let record = JobRecord {
            employer: caller,
            agent_nonce,
            status: JobStatus::New,
            proof_data: Vec::new(),
            created_at: now,
            service_id,
            payment,
        };
        self.jobs.insert(job_id, record);
        Ok(())
    }

    /// Submits a proof of work: overwrites the job's proof and moves it to
    /// `Pending` whatever its current status. Any caller may submit; worker
    /// identity is not separately validated in this design.
    pub fn submit_proof(&mut self, job_id: &Vec<u8>, proof_data: Vec<u8>) -> (r: Result<
        (),
        RegistryError,
    >)
        ensures
            final(self)@ == spec_submit_proof(old(self)@, job_id@, proof_data@).0,
            r == spec_submit_proof(old(self)@, job_id@, proof_data@).1,
    {
        match self.jobs.take(job_id) {
            None => Err(RegistryError::JobNotFound),
            Some(record) => {
                let updated = JobRecord {
                    status: JobStatus::Pending,
                    proof_data,
                    ..record
                };
                let key = crate::store::copy_bytes(job_id);
                self.jobs.insert(key, updated);
                proof {
                    assert(self@.jobs =~= spec_submit_proof(old(self)@, job_id@, proof_data@).0.jobs);
                }
                Ok(())
            },
        }
    }

    /// Verifies a job: administrator-only, and moves the job to `Verified`
    /// from any status. Reaching `Pending` first is not required; tightening
    /// that is a policy choice this design leaves open.
    pub fn verify_job(&mut self, caller: u64, job_id: &Vec<u8>) -> (r: Result<(), RegistryError>)
        ensures
            final(self)@ == spec_verify_job(old(self)@, caller, job_id@).0,
            r == spec_verify_job(old(self)@, caller, job_id@).1,
    {
        if caller != self.owner {
            return Err(RegistryError::NotContractOwner);
        }
        match self.jobs.take(job_id) {
            None => Err(RegistryError::JobNotFound),
            Some(record) => {
                let updated = JobRecord { status: JobStatus::Verified, ..record };
                let key = crate::store::copy_bytes(job_id);
                self.jobs.insert(key, updated);
                proof {
                    assert(self@.jobs =~= spec_verify_job(old(self)@, caller, job_id@).0.jobs);
                }
                Ok(())
            },
        }
    }

    /// Authorizes `client` as the sole address allowed to submit feedback for
    /// the job. Only the owner of the agent the job references may authorize;
    /// the agent's owner is cross-read from the identity ledger.
    ///
    /// `identity` must be the ledger this ledger is configured against.
    pub fn authorize_feedback(
        &mut self,
        identity: &IdentityRegistry,
        caller: u64,
        job_id: &Vec<u8>,
        client: u64,
    ) -> (r: Result<(), RegistryError>)
        requires
            identity@.address == old(self)@.identity_address,
        ensures
            final(self)@ == spec_authorize_feedback(old(self)@, identity@, caller, job_id@, client).0,
            r == spec_authorize_feedback(old(self)@, identity@, caller, job_id@, client).1,
    {
        let agent_nonce = match self.jobs.get(job_id) {
            None => {
                return Err(RegistryError::JobNotFound);
            },
            Some(record) => record.agent_nonce,
        };
        match identity.read_agent_owner(self.shard, agent_nonce) {
            Err(e) => Err(e),
            Ok(None) => Err(RegistryError::AgentNotFound),
            Ok(Some(agent_owner)) => {
                if caller != agent_owner {
                    Err(RegistryError::NotAgentOwner)
                } else {
                    let key = crate::store::copy_bytes(job_id);
                    self.authorizations.insert(key, client);
                    Ok(())
                }
            },
        }
    }

    /// Deletes each listed job whose age reached the staleness threshold,
    /// together with its feedback authorization, whatever its status. Each id
    /// is independent; ids without a record are skipped. Anyone may invoke
    /// this with an arbitrary batch of ids.
    pub fn clean_old_jobs(&mut self, now: u64, job_ids: &Vec<Vec<u8>>)
        ensures
            final(self)@ == spec_clean(old(self)@, now, job_ids.deep_view()),
    {
        let ghost all_ids = job_ids.deep_view();
        let mut i: usize = 0;
        while i < job_ids.len()
            invariant
                0 <= i <= job_ids@.len(),
                all_ids == job_ids.deep_view(),
                all_ids.len() == job_ids@.len(),
                forall|j: int| 0 <= j < job_ids@.len() ==> all_ids[j] == job_ids@[j]@,
                self@ == spec_clean(old(self)@, now, all_ids.take(i as int)),
            decreases job_ids@.len() - i,
        {
            let job_id = &job_ids[i];
            let ghost pre = self@;
            let created_opt: Option<u64> = match self.jobs.get(job_id) {
                Some(record) => Some(record.created_at),
                None => None,
            };
            match created_opt {
                Some(created_at) => {
                    if now >= created_at && now - created_at >= JOB_EXPIRY_MS {
                        self.jobs.remove(job_id);
                        self.authorizations.remove(job_id);
                    }
                },
                None => {},
            }
            proof {
                assert(self@ =~= spec_clean_one(pre, now, all_ids[i as int]));
                assert(all_ids.take(i + 1).drop_last() =~= all_ids.take(i as int));
                assert(all_ids.take(i + 1).last() == all_ids[i as int]);
            }
            i = i + 1;
        }
        proof {
            assert(all_ids.take(all_ids.len() as int) =~= all_ids);
        }
    }

    /// Whether `address` is the authorized feedback client for the job.
    pub fn is_feedback_authorized(&self, job_id: &Vec<u8>, address: u64) -> (r: bool)
        ensures
            r == (self@.authorizations.contains_key(job_id@) && self@.authorizations[job_id@]
                == address),
    {
        match self.authorizations.get(job_id) {
            None => false,
            Some(client) => *client == address,
        }
    }

    /// The ledger's administrator.
    pub fn owner(&self) -> (r: u64)
        ensures
            r == self@.owner,
    {
        self.owner
    }

    /// The ledger's own address.
    pub fn address(&self) -> (r: u64)
        ensures
            r == self@.address,
    {
        self.address
    }

    /// The execution partition the ledger is resident in.
    pub fn shard(&self) -> (r: u64)
        ensures
            r == self@.shard,
    {
        self.shard
    }

    /// The configured address of the identity ledger.
    pub fn identity_address(&self) -> (r: u64)
        ensures
            r == self@.identity_address,
    {
        self.identity_address
    }

    /// Cross-ledger read of a job record: a direct fetch of this ledger's
    /// persisted record, for a reader resident in `reader_shard`. Fails
    /// closed when the reader is not co-located with this ledger.
    pub fn read_job(&self, reader_shard: u64, job_id: &Vec<u8>) -> (r: Result<
        Option<&JobRecord>,
        RegistryError,
    >)
        ensures
            reader_shard != self@.shard ==> r is Err && (match r {
                Err(e) => e == RegistryError::CrossLedgerReadFailed,
                Ok(_) => false,
            }),
            reader_shard == self@.shard ==> (match r {
                Ok(Some(record)) => self@.jobs.contains_key(job_id@) && record@ == self@.jobs[
                    job_id@
                ],
                Ok(None) => !self@.jobs.contains_key(job_id@),
                Err(_) => false,
            }),
    {
        if reader_shard != self.shard {
            return Err(RegistryError::CrossLedgerReadFailed);
        }
        Ok(self.jobs.get(job_id))
    }

    /// Cross-ledger read of a job's authorized feedback client: a direct
    /// fetch of this ledger's persisted record, for a reader resident in
    /// `reader_shard`. Fails closed when the reader is not co-located with
    /// this ledger.
    pub fn read_authorization(&self, reader_shard: u64, job_id: &Vec<u8>) -> (r: Result<
        Option<u64>,
        RegistryError,
    >)
        ensures
            reader_shard != self@.shard ==> r == Err::<Option<u64>, RegistryError>(
                RegistryError::CrossLedgerReadFailed,
            ),
            reader_shard == self@.shard ==> r == Ok::<Option<u64>, RegistryError>(
                if self@.authorizations.contains_key(job_id@) {
                    Some(self@.authorizations[job_id@])
                } else {
                    None
                },
            ),
    {
        if reader_shard != self.shard {
            return Err(RegistryError::CrossLedgerReadFailed);
        }
        match self.authorizations.get(job_id) {
            Some(client) => Ok(Some(*client)),
            None => Ok(None),
        }
    }
}

/// The read-only views over a job ledger's state.
pub trait ViewsModule {
    /// The job-ledger state the views read.
    spec fn views_state(&self) -> ValidationState;

    /// Whether a live record exists for the job and has been verified.
    fn is_job_verified(&self, job_id: &Vec<u8>) -> (r: bool)
        ensures
            r == (self.views_state().jobs.contains_key(job_id@)
                && self.views_state().jobs[job_id@].status == JobStatus::Verified),
    ;

    /// The live record for the job, if any.
    fn get_job_data(&self, job_id: &Vec<u8>) -> (r: Option<&JobRecord>)
        ensures
            match r {
                Some(record) => self.views_state().jobs.contains_key(job_id@) && record@
                    == self.views_state().jobs[job_id@],
                None => !self.views_state().jobs.contains_key(job_id@),
            },
    ;
}

impl ViewsModule for ValidationRegistry {
    open spec fn views_state(&self) -> ValidationState {
        self@
    }

    fn is_job_verified(&self, job_id: &Vec<u8>) -> (r: bool) {
        match self.jobs.get(job_id) {
            None => false,
            Some(record) => match record.status {
                JobStatus::Verified => true,
                _ => false,
            },
        }
    }

    fn get_job_data(&self, job_id: &Vec<u8>) -> (r: Option<&JobRecord>) {
        self.jobs.get(job_id)
    }
}

} // verus!
