//! The protocol's laws, proved over the ledgers' transition functions.
//!
//! Each law quantifies over whole ledger states and transition inputs; the
//! exec entry points are tied to the same transition functions by their
//! `ensures`, so every law carries over to the executable ledgers.

use vstd::prelude::*;

use crate::errors::RegistryError;
use crate::identity::IdentityState;
use crate::reputation::has_feedback;
use crate::reputation::sat_inc;
use crate::reputation::score_of;
use crate::reputation::spec_append_response;
use crate::reputation::spec_submit_feedback;
use crate::reputation::total_jobs_of;
use crate::reputation::ReputationState;
use crate::reputation::ScorePolicy;
use crate::validation::job_is_stale;
use crate::validation::spec_authorize_feedback;
use crate::validation::spec_clean;
use crate::validation::spec_init_job;
use crate::validation::spec_submit_proof;
use crate::validation::spec_verify_job;
use crate::validation::status_rank;
use crate::validation::JobStatus;
use crate::validation::PaymentView;
use crate::validation::ValidationState;

verus! {

/// Law (uniqueness): once a job id holds a live record, opening a job under
/// the same id fails with the duplicate-job error and changes nothing,
/// regardless of every other parameter of the second attempt.
pub proof fn lemma_job_id_unique(
    pre: ValidationState,
    first_identity: IdentityState,
    second_identity: IdentityState,
    first_caller: u64,
    second_caller: u64,
    first_now: u64,
    second_now: u64,
    job_id: Seq<u8>,
    first_nonce: u64,
    second_nonce: u64,
    first_service: Option<u64>,
    second_service: Option<u64>,
    first_payment: Option<PaymentView>,
    second_payment: Option<PaymentView>,
)
    requires
        spec_init_job(
            pre,
            first_identity,
            first_caller,
            first_now,
            job_id,
            first_nonce,
            first_service,
            first_payment,
        ).1 is Ok,
    ensures
        ({
            let mid = spec_init_job(
                pre,
                first_identity,
                first_caller,
                first_now,
                job_id,
                first_nonce,
                first_service,
                first_payment,
            ).0;
            spec_init_job(
                mid,
                second_identity,
                second_caller,
                second_now,
                job_id,
                second_nonce,
                second_service,
                second_payment,
            ) == (mid, Err::<(), RegistryError>(RegistryError::JobAlreadyInitialized))
        }),
{
}

/// Law (monotonic status, verification): `verify_job` never decreases any
/// job's position in the lifecycle order `New, Pending, Verified`, and never
/// creates or deletes a record.
pub proof fn lemma_status_monotonic_verify(
    pre: ValidationState,
    caller: u64,
    job_id: Seq<u8>,
    watched_id: Seq<u8>,
)
    ensures
        ({
            let post = spec_verify_job(pre, caller, job_id).0;
            &&& post.jobs.contains_key(watched_id) <==> pre.jobs.contains_key(watched_id)
            &&& post.jobs.contains_key(watched_id) ==> status_rank(pre.jobs[watched_id].status)
                <= status_rank(post.jobs[watched_id].status)
        }),
{
}

/// Law (monotonic status, proof submission): as long as the job has not been
/// verified yet, `submit_proof` never decreases any job's position in the
/// lifecycle order, and never creates or deletes a record. (Submitting a
/// proof for an already verified job resets it to `Pending` by design, so
/// that input is excluded here.)
pub proof fn lemma_status_monotonic_submit_proof(
    pre: ValidationState,
    job_id: Seq<u8>,
    proof_data: Seq<u8>,
    watched_id: Seq<u8>,
)
    requires
        pre.jobs.contains_key(job_id) ==> pre.jobs[job_id].status != JobStatus::Verified,
    ensures
        ({
            let post = spec_submit_proof(pre, job_id, proof_data).0;
            &&& post.jobs.contains_key(watched_id) <==> pre.jobs.contains_key(watched_id)
            &&& post.jobs.contains_key(watched_id) ==> status_rank(pre.jobs[watched_id].status)
                <= status_rank(post.jobs[watched_id].status)
        }),
{
}

/// Law (feedback at most once): after a feedback submission succeeds for a
/// job, every further submission for that job fails and changes nothing,
/// whatever the caller, the rating, the agent nonce or the state of the job
/// ledger at that later time.
pub proof fn lemma_feedback_at_most_once<P: ScorePolicy>(
    pre: ReputationState,
    first_validation: ValidationState,
    second_validation: ValidationState,
    first_caller: u64,
    second_caller: u64,
    job_id: Seq<u8>,
    first_nonce: u64,
    second_nonce: u64,
    first_rating: u64,
    second_rating: u64,
)
    requires
        spec_submit_feedback::<P>(
            pre,
            first_validation,
            first_caller,
            job_id,
            first_nonce,
            first_rating,
        ).1 is Ok,
    ensures
        ({
            let mid = spec_submit_feedback::<P>(
                pre,
                first_validation,
                first_caller,
                job_id,
                first_nonce,
                first_rating,
            ).0;
            let second = spec_submit_feedback::<P>(
                mid,
                second_validation,
                second_caller,
                job_id,
                second_nonce,
                second_rating,
            );
            second.1 is Err && second.0 == mid
        }),
{
}

/// Law (feedback exactly once, the duplicate error): after a feedback
/// submission succeeds, the same employer repeating the submission against
/// the unchanged job ledger fails with the duplicate-feedback error, with any
/// rating.
pub proof fn lemma_second_feedback_is_duplicate<P: ScorePolicy>(
    pre: ReputationState,
    validation: ValidationState,
    caller: u64,
    job_id: Seq<u8>,
    first_nonce: u64,
    second_nonce: u64,
    first_rating: u64,
    second_rating: u64,
)
    requires
        spec_submit_feedback::<P>(pre, validation, caller, job_id, first_nonce, first_rating).1
            is Ok,
    ensures
        ({
            let mid = spec_submit_feedback::<P>(
                pre,
                validation,
                caller,
                job_id,
                first_nonce,
                first_rating,
            ).0;
            spec_submit_feedback::<P>(
                mid,
                validation,
                caller,
                job_id,
                second_nonce,
                second_rating,
            ) == (mid, Err::<u64, RegistryError>(RegistryError::FeedbackAlreadyProvided))
        }),
{
}

/// Law (frontrunning resistance): a feedback submission by any address other
/// than the job's employer fails with the not-employer error and changes
/// nothing — even if that address is the one separately authorized by the
/// agent owner, and whatever the job's status or the feedback history.
pub proof fn lemma_frontrunning_resistance<P: ScorePolicy>(
    pre: ReputationState,
    validation: ValidationState,
    caller: u64,
    job_id: Seq<u8>,
    agent_nonce: u64,
    rating: u64,
)
    requires
        validation.shard == pre.shard,
        validation.jobs.contains_key(job_id),
        caller != validation.jobs[job_id].employer,
    ensures
        spec_submit_feedback::<P>(pre, validation, caller, job_id, agent_nonce, rating) == (
            pre,
            Err::<u64, RegistryError>(RegistryError::NotEmployer),
        ),
{
}

/// Law (authorization required): a feedback submission by the employer of a
/// verified job fails with the not-authorized error and changes nothing
/// unless the agent owner previously authorized exactly the employer for
/// this job.
pub proof fn lemma_authorization_required<P: ScorePolicy>(
    pre: ReputationState,
    validation: ValidationState,
    job_id: Seq<u8>,
    agent_nonce: u64,
    rating: u64,
)
    requires
        validation.shard == pre.shard,
        validation.jobs.contains_key(job_id),
        validation.jobs[job_id].status == JobStatus::Verified,
        !(validation.authorizations.contains_key(job_id) && validation.authorizations[job_id]
            == validation.jobs[job_id].employer),
    ensures
        spec_submit_feedback::<P>(
            pre,
            validation,
            validation.jobs[job_id].employer,
            job_id,
            agent_nonce,
            rating,
        ) == (pre, Err::<u64, RegistryError>(RegistryError::FeedbackNotAuthorized)),
{
}

/// A batch cleanup never creates a record, and a surviving record is exactly
/// the record the ledger held before.
pub proof fn lemma_clean_frame(
    pre: ValidationState,
    now: u64,
    job_ids: Seq<Seq<u8>>,
    watched_id: Seq<u8>,
)
    ensures
        ({
            let post = spec_clean(pre, now, job_ids);
            &&& post.owner == pre.owner
            &&& post.address == pre.address
            &&& post.shard == pre.shard
            &&& post.identity_address == pre.identity_address
            &&& post.jobs.contains_key(watched_id) ==> pre.jobs.contains_key(watched_id)
                && post.jobs[watched_id] == pre.jobs[watched_id]
        }),
    decreases job_ids.len(),
{
    if job_ids.len() > 0 {
        lemma_clean_frame(pre, now, job_ids.drop_last(), watched_id);
    }
}

/// Law (staleness cleanup, fresh side): a job younger than the staleness
/// threshold is unaffected by any batch cleanup — its record survives
/// unchanged, and so does its in-flight feedback authorization. In
/// particular a job created at time T still stands after a cleanup one day
/// later.
pub proof fn lemma_clean_keeps_fresh(
    pre: ValidationState,
    now: u64,
    job_ids: Seq<Seq<u8>>,
    job_id: Seq<u8>,
)
    requires
        pre.jobs.contains_key(job_id),
        !job_is_stale(pre.jobs[job_id].created_at, now),
    ensures
        ({
            let post = spec_clean(pre, now, job_ids);
            &&& post.jobs.contains_key(job_id)
            &&& post.jobs[job_id] == pre.jobs[job_id]
            &&& pre.authorizations.contains_key(job_id) ==> post.authorizations.contains_key(
                job_id,
            ) && post.authorizations[job_id] == pre.authorizations[job_id]
        }),
    decreases job_ids.len(),
{
    if job_ids.len() > 0 {
        lemma_clean_keeps_fresh(pre, now, job_ids.drop_last(), job_id);
    }
}

/// Law (staleness cleanup, stale side): a job whose age reached the
/// staleness threshold is deleted by any batch cleanup that lists its id,
/// whatever its status. In particular a job created at time T is gone after
/// a cleanup four days later that names it.
pub proof fn lemma_clean_removes_stale(
    pre: ValidationState,
    now: u64,
    job_ids: Seq<Seq<u8>>,
    job_id: Seq<u8>,
)
    requires
        job_ids.contains(job_id),
        pre.jobs.contains_key(job_id) ==> job_is_stale(pre.jobs[job_id].created_at, now),
    ensures
        !spec_clean(pre, now, job_ids).jobs.contains_key(job_id),
    decreases job_ids.len(),
{
    let mid = spec_clean(pre, now, job_ids.drop_last());
    if job_ids.drop_last().contains(job_id) {
        lemma_clean_removes_stale(pre, now, job_ids.drop_last(), job_id);
    } else {
        assert(job_ids.last() == job_id) by {
            let k = choose|k: int| 0 <= k < job_ids.len() && job_ids[k] == job_id;
            assert(k == job_ids.len() - 1) by {
                if k < job_ids.len() - 1 {
                    assert(job_ids.drop_last()[k] == job_id);
                }
            }
        }
        lemma_clean_frame(pre, now, job_ids.drop_last(), job_id);
    }
}

/// Law (open response): once the referenced job exists on a co-located job
/// ledger, appending a response succeeds and records exactly the given
/// response — the transition takes no caller at all, so no caller
/// restriction is even expressible, employer and agent owner included.
pub proof fn lemma_open_response(
    pre: ReputationState,
    validation: ValidationState,
    job_id: Seq<u8>,
    response_uri: Seq<u8>,
)
    requires
        validation.shard == pre.shard,
        validation.jobs.contains_key(job_id),
    ensures
        ({
            let out = spec_append_response(pre, validation, job_id, response_uri);
            &&& out.1 is Ok
            &&& out.0.responses.contains_key(job_id)
            &&& out.0.responses[job_id] == response_uri
            &&& out.0.scores == pre.scores
            &&& out.0.total_jobs == pre.total_jobs
            &&& out.0.feedback_given == pre.feedback_given
        }),
{
}

/// Law (payment gate): opening a job under a fresh id against a configured
/// service fails with the wrong-token error when the payment's token
/// identifier or nonce differs from the configuration, fails with the
/// insufficient-payment error when the token matches but the amount is below
/// the configured price, and succeeds — storing the record — when the token
/// matches and the amount reaches the price.
pub proof fn lemma_payment_gate(
    pre: ValidationState,
    identity: IdentityState,
    caller: u64,
    now: u64,
    job_id: Seq<u8>,
    agent_nonce: u64,
    service_id: u64,
    payment: PaymentView,
)
    requires
        !pre.jobs.contains_key(job_id),
        identity.shard == pre.shard,
        identity.services.contains_key((agent_nonce, service_id)),
    ensures
        ({
            let cfg = identity.services[(agent_nonce, service_id)];
            let out = spec_init_job(
                pre,
                identity,
                caller,
                now,
                job_id,
                agent_nonce,
                Some(service_id),
                Some(payment),
            );
            &&& (payment.token_id != cfg.payment_token_id || payment.token_nonce
                != cfg.payment_token_nonce) ==> out == (
                pre,
                Err::<(), RegistryError>(RegistryError::InvalidPaymentToken),
            )
            &&& (payment.token_id == cfg.payment_token_id && payment.token_nonce
                == cfg.payment_token_nonce && payment.amount < cfg.price) ==> out == (
                pre,
                Err::<(), RegistryError>(RegistryError::InsufficientPayment),
            )
            &&& (payment.token_id == cfg.payment_token_id && payment.token_nonce
                == cfg.payment_token_nonce && payment.amount >= cfg.price) ==> out.1 is Ok
                && out.0.jobs.contains_key(job_id) && out.0.jobs[job_id].employer == caller
                && out.0.jobs[job_id].status == JobStatus::New && out.0.jobs[job_id].created_at
                == now
        }),
{
}

/// Law (authorization unlocks feedback): for a live verified job on
/// co-located ledgers, once the owner of the job's agent authorizes exactly
/// the job's employer, a first feedback submission by that employer
/// succeeds. Together with the authorization-required law this pins down
/// when the employer's feedback is accepted.
pub proof fn lemma_authorize_then_feedback<P: ScorePolicy>(
    rep: ReputationState,
    validation: ValidationState,
    identity: IdentityState,
    job_id: Seq<u8>,
    agent_nonce: u64,
    rating: u64,
)
    requires
        validation.shard == rep.shard,
        identity.shard == validation.shard,
        validation.jobs.contains_key(job_id),
        validation.jobs[job_id].status == JobStatus::Verified,
        identity.agents.contains_key(validation.jobs[job_id].agent_nonce),
        !has_feedback(rep, job_id),
    ensures
        ({
            let employer = validation.jobs[job_id].employer;
            let agent_owner = identity.agents[validation.jobs[job_id].agent_nonce].owner;
            let auth = spec_authorize_feedback(validation, identity, agent_owner, job_id, employer);
            &&& auth.1 is Ok
            &&& spec_submit_feedback::<P>(rep, auth.0, employer, job_id, agent_nonce, rating).1
                is Ok
        }),
{
}

/// Law (feedback success): when every gate passes — co-located ledgers, a
/// live verified job, the caller both its employer and its authorized
/// client, and no feedback yet — submission succeeds, the score becomes the
/// policy's aggregate, the completed-job counter advances, and the job is
/// permanently marked.
pub proof fn lemma_feedback_success<P: ScorePolicy>(
    pre: ReputationState,
    validation: ValidationState,
    caller: u64,
    job_id: Seq<u8>,
    agent_nonce: u64,
    rating: u64,
)
    requires
        validation.shard == pre.shard,
        validation.jobs.contains_key(job_id),
        caller == validation.jobs[job_id].employer,
        validation.jobs[job_id].status == JobStatus::Verified,
        validation.authorizations.contains_key(job_id),
        validation.authorizations[job_id] == caller,
        !has_feedback(pre, job_id),
    ensures
        ({
            let out = spec_submit_feedback::<P>(pre, validation, caller, job_id, agent_nonce, rating);
            &&& out.1 == Ok::<u64, RegistryError>(
                P::spec_new_score(
                    agent_nonce,
                    score_of(pre, agent_nonce),
                    rating,
                ),
            )
            &&& has_feedback(out.0, job_id)
            &&& score_of(out.0, agent_nonce) == P::spec_new_score(
                agent_nonce,
                score_of(pre, agent_nonce),
                rating,
            )
            &&& total_jobs_of(out.0, agent_nonce) == sat_inc(
                total_jobs_of(pre, agent_nonce),
            )
        }),
{
}

} // verus!
