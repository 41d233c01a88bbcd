use agent_registry::errors::RegistryError;
use agent_registry::identity::IdentityRegistry;
use agent_registry::identity::ServiceConfig;
use agent_registry::validation::JobStatus;
use agent_registry::validation::Payment;
use agent_registry::validation::ValidationRegistry;
use agent_registry::validation::ViewsModule;
use agent_registry::validation::JOB_EXPIRY_MS;

const OWNER: u64 = 100;
const AGENT_OWNER: u64 = 7;
const CLIENT: u64 = 5;
const WORKER: u64 = 6;
const IDENTITY_ADDR: u64 = 10;
const VALIDATION_ADDR: u64 = 20;
const SHARD: u64 = 1;

const ONE_DAY_MS: u64 = 24 * 60 * 60 * 1000;
const FOUR_DAYS_MS: u64 = 4 * 24 * 60 * 60 * 1000;

fn setup() -> (IdentityRegistry, ValidationRegistry) {
    let mut identity = IdentityRegistry::new(OWNER, IDENTITY_ADDR, SHARD);
    identity
        .issue_token(OWNER, b"AGENT-123456".to_vec())
        .unwrap();
    identity
        .register_agent(
            AGENT_OWNER,
            b"TestAgent".to_vec(),
            b"https://agent.example.com".to_vec(),
            b"pubkey123".to_vec(),
        )
        .unwrap();
    let validation = ValidationRegistry::new(OWNER, VALIDATION_ADDR, SHARD, IDENTITY_ADDR);
    (identity, validation)
}

fn usdc(amount: u64) -> Payment {
    Payment {
        token_id: b"USDC-abcdef".to_vec(),
        token_nonce: 0,
        amount,
    }
}

fn usdc_config(price: u64) -> ServiceConfig {
    ServiceConfig {
        price,
        payment_token_id: b"USDC-abcdef".to_vec(),
        payment_token_nonce: 0,
    }
}

#[test]
fn test_deploy_all_contracts() {
    let (identity, validation) = setup();
    assert_eq!(identity.address(), IDENTITY_ADDR);
    assert_eq!(validation.address(), VALIDATION_ADDR);
    assert_eq!(validation.identity_address(), IDENTITY_ADDR);
    assert_eq!(validation.owner(), OWNER);
}

#[test]
fn test_init_job_with_payment() {
    let (mut identity, mut validation) = setup();
    identity
        .set_service_config(AGENT_OWNER, 1, 1, usdc_config(100))
        .unwrap();

    validation
        .init_job(
            &identity,
            CLIENT,
            0,
            b"job1".to_vec(),
            1,
            Some(1),
            Some(usdc(100)),
        )
        .unwrap();

    let job = validation.get_job_data(&b"job1".to_vec()).unwrap();
    assert_eq!(job.status, JobStatus::New);
    assert_eq!(job.agent_nonce, 1);
    assert_eq!(job.employer, CLIENT);
}

#[test]
fn test_init_job_no_service() {
    let (identity, mut validation) = setup();
    validation
        .init_job(&identity, CLIENT, 0, b"job_free".to_vec(), 1, None, None)
        .unwrap();
    assert!(validation.get_job_data(&b"job_free".to_vec()).is_some());
}

#[test]
fn test_init_job_invalid_payment() {
    let (mut identity, mut validation) = setup();
    identity
        .set_service_config(AGENT_OWNER, 1, 1, usdc_config(100))
        .unwrap();

    let err = validation
        .init_job(
            &identity,
            CLIENT,
            0,
            b"job_bad".to_vec(),
            1,
            Some(1),
            Some(usdc(50)),
        )
        .unwrap_err();
    assert_eq!(err, RegistryError::InsufficientPayment);
    assert_eq!(err.message(), "Insufficient payment");
    assert!(validation.get_job_data(&b"job_bad".to_vec()).is_none());
}

#[test]
fn test_init_job_wrong_token() {
    let (mut identity, mut validation) = setup();
    identity
        .set_service_config(AGENT_OWNER, 1, 1, usdc_config(100))
        .unwrap();

    let wrong = Payment {
        token_id: b"WRONG-abcdef".to_vec(),
        token_nonce: 0,
        amount: 100,
    };
    let err = validation
        .init_job(
            &identity,
            CLIENT,
            0,
            b"job-wrong-tok".to_vec(),
            1,
            Some(1),
            Some(wrong),
        )
        .unwrap_err();
    assert_eq!(err, RegistryError::InvalidPaymentToken);
    assert_eq!(err.message(), "Invalid payment token");
}

#[test]
fn test_init_job_missing_service() {
    let (identity, mut validation) = setup();
    let err = validation
        .init_job(
            &identity,
            CLIENT,
            0,
            b"job_nosvc".to_vec(),
            1,
            Some(9),
            Some(usdc(100)),
        )
        .unwrap_err();
    assert_eq!(err, RegistryError::ServiceNotFound);
    assert_eq!(err.message(), "Service not found");
}

#[test]
fn test_init_job_service_without_payment() {
    let (mut identity, mut validation) = setup();
    identity
        .set_service_config(AGENT_OWNER, 1, 1, usdc_config(100))
        .unwrap();
    let err = validation
        .init_job(&identity, CLIENT, 0, b"job_nopay".to_vec(), 1, Some(1), None)
        .unwrap_err();
    assert_eq!(err, RegistryError::InvalidPaymentToken);
}

#[test]
fn test_init_job_duplicate() {
    let (identity, mut validation) = setup();
    validation
        .init_job(&identity, CLIENT, 0, b"job-dup".to_vec(), 1, None, None)
        .unwrap();
    let err = validation
        .init_job(&identity, CLIENT, 0, b"job-dup".to_vec(), 1, None, None)
        .unwrap_err();
    assert_eq!(err, RegistryError::JobAlreadyInitialized);
    assert_eq!(err.message(), "Job already initialized");
}

#[test]
fn test_submit_proof() {
    let (identity, mut validation) = setup();
    validation
        .init_job(&identity, CLIENT, 0, b"job_proof".to_vec(), 1, None, None)
        .unwrap();
    validation
        .submit_proof(&b"job_proof".to_vec(), b"proof_data_here".to_vec())
        .unwrap();

    let job = validation.get_job_data(&b"job_proof".to_vec()).unwrap();
    assert_eq!(job.status, JobStatus::Pending);
    assert_eq!(job.proof_data, b"proof_data_here".to_vec());
}

#[test]
fn test_submit_proof_overwrites() {
    let (identity, mut validation) = setup();
    validation
        .init_job(&identity, CLIENT, 0, b"job_proof2".to_vec(), 1, None, None)
        .unwrap();
    validation
        .submit_proof(&b"job_proof2".to_vec(), b"first".to_vec())
        .unwrap();
    validation
        .submit_proof(&b"job_proof2".to_vec(), b"second".to_vec())
        .unwrap();
    let job = validation.get_job_data(&b"job_proof2".to_vec()).unwrap();
    assert_eq!(job.status, JobStatus::Pending);
    assert_eq!(job.proof_data, b"second".to_vec());
}

#[test]
fn test_submit_proof_nonexistent_job() {
    let (_identity, mut validation) = setup();
    let err = validation
        .submit_proof(&b"nonexistent-job".to_vec(), b"proof-data".to_vec())
        .unwrap_err();
    assert_eq!(err, RegistryError::JobNotFound);
    assert_eq!(err.message(), "Job not found");
}

#[test]
fn test_verify_job() {
    let (identity, mut validation) = setup();
    validation
        .init_job(&identity, CLIENT, 0, b"job_verify".to_vec(), 1, None, None)
        .unwrap();
    validation
        .submit_proof(&b"job_verify".to_vec(), b"proof123".to_vec())
        .unwrap();
    validation.verify_job(OWNER, &b"job_verify".to_vec()).unwrap();

    assert!(validation.is_job_verified(&b"job_verify".to_vec()));
    let job = validation.get_job_data(&b"job_verify".to_vec()).unwrap();
    assert_eq!(job.status, JobStatus::Verified);
}

#[test]
fn test_verify_job_not_owner() {
    let (identity, mut validation) = setup();
    validation
        .init_job(&identity, CLIENT, 0, b"job_notowner".to_vec(), 1, None, None)
        .unwrap();
    validation
        .submit_proof(&b"job_notowner".to_vec(), b"proof".to_vec())
        .unwrap();

    let err = validation
        .verify_job(CLIENT, &b"job_notowner".to_vec())
        .unwrap_err();
    assert_eq!(err, RegistryError::NotContractOwner);
    assert_eq!(err.message(), "Endpoint can only be called by owner");
    assert!(!validation.is_job_verified(&b"job_notowner".to_vec()));
}

#[test]
fn test_verify_new_job_directly() {
    // Verification does not require a proof first; verifying a `New` job is
    // structurally possible in this design.
    let (identity, mut validation) = setup();
    validation
        .init_job(&identity, CLIENT, 0, b"job_direct".to_vec(), 1, None, None)
        .unwrap();
    validation.verify_job(OWNER, &b"job_direct".to_vec()).unwrap();
    assert!(validation.is_job_verified(&b"job_direct".to_vec()));
}

#[test]
fn test_status_order_full_lifecycle() {
    let (identity, mut validation) = setup();
    let job = b"job_order".to_vec();
    validation
        .init_job(&identity, CLIENT, 0, job.clone(), 1, None, None)
        .unwrap();
    assert_eq!(validation.get_job_data(&job).unwrap().status, JobStatus::New);
    validation.submit_proof(&job, b"proof".to_vec()).unwrap();
    assert_eq!(
        validation.get_job_data(&job).unwrap().status,
        JobStatus::Pending
    );
    validation.verify_job(OWNER, &job).unwrap();
    assert_eq!(
        validation.get_job_data(&job).unwrap().status,
        JobStatus::Verified
    );
}

#[test]
fn test_clean_old_jobs() {
    let (identity, mut validation) = setup();
    validation
        .init_job(&identity, CLIENT, 0, b"job_old".to_vec(), 1, None, None)
        .unwrap();

    validation.clean_old_jobs(FOUR_DAYS_MS, &vec![b"job_old".to_vec()]);
    assert!(validation.get_job_data(&b"job_old".to_vec()).is_none());
}

#[test]
fn test_clean_old_jobs_not_old_enough() {
    let (identity, mut validation) = setup();
    validation
        .init_job(&identity, CLIENT, 0, b"job_recent".to_vec(), 1, None, None)
        .unwrap();

    validation.clean_old_jobs(ONE_DAY_MS, &vec![b"job_recent".to_vec()]);
    assert!(
        validation.get_job_data(&b"job_recent".to_vec()).is_some(),
        "Job should not be cleaned — not old enough"
    );
}

#[test]
fn test_clean_at_exact_threshold() {
    let (identity, mut validation) = setup();
    validation
        .init_job(&identity, CLIENT, 0, b"job_edge".to_vec(), 1, None, None)
        .unwrap();
    // One millisecond short of the threshold: untouched.
    validation.clean_old_jobs(JOB_EXPIRY_MS - 1, &vec![b"job_edge".to_vec()]);
    assert!(validation.get_job_data(&b"job_edge".to_vec()).is_some());
    // Exactly at the threshold: deleted.
    validation.clean_old_jobs(JOB_EXPIRY_MS, &vec![b"job_edge".to_vec()]);
    assert!(validation.get_job_data(&b"job_edge".to_vec()).is_none());
}

#[test]
fn test_clean_ignores_unknown_ids() {
    let (identity, mut validation) = setup();
    validation
        .init_job(&identity, CLIENT, 0, b"job_keep".to_vec(), 1, None, None)
        .unwrap();
    validation.clean_old_jobs(
        FOUR_DAYS_MS,
        &vec![b"no-such-job".to_vec(), b"job_keep".to_vec()],
    );
    assert!(validation.get_job_data(&b"job_keep".to_vec()).is_none());
}

#[test]
fn test_job_id_reusable_after_cleanup() {
    let (identity, mut validation) = setup();
    validation
        .init_job(&identity, CLIENT, 0, b"job_again".to_vec(), 1, None, None)
        .unwrap();
    validation.clean_old_jobs(FOUR_DAYS_MS, &vec![b"job_again".to_vec()]);
    // The record disappeared via explicit cleanup, so the id may be reused.
    validation
        .init_job(
            &identity,
            WORKER,
            FOUR_DAYS_MS,
            b"job_again".to_vec(),
            1,
            None,
            None,
        )
        .unwrap();
    let job = validation.get_job_data(&b"job_again".to_vec()).unwrap();
    assert_eq!(job.employer, WORKER);
    assert_eq!(job.status, JobStatus::New);
}

#[test]
fn test_init_job_cross_shard_fails() {
    // The price lookup is a cross-ledger read: it must fail closed when the
    // identity ledger lives in another execution partition.
    let mut identity = IdentityRegistry::new(OWNER, IDENTITY_ADDR, 2);
    identity
        .issue_token(OWNER, b"AGENT-123456".to_vec())
        .unwrap();
    identity
        .register_agent(
            AGENT_OWNER,
            b"TestAgent".to_vec(),
            b"https://agent.example.com".to_vec(),
            b"pubkey123".to_vec(),
        )
        .unwrap();
    identity
        .set_service_config(AGENT_OWNER, 1, 1, usdc_config(100))
        .unwrap();
    let mut validation = ValidationRegistry::new(OWNER, VALIDATION_ADDR, SHARD, IDENTITY_ADDR);

    let err = validation
        .init_job(
            &identity,
            CLIENT,
            0,
            b"job_far".to_vec(),
            1,
            Some(1),
            Some(usdc(100)),
        )
        .unwrap_err();
    assert_eq!(err, RegistryError::CrossLedgerReadFailed);

    // Without a service id no cross-ledger read happens, so creation works.
    validation
        .init_job(&identity, CLIENT, 0, b"job_far".to_vec(), 1, None, None)
        .unwrap();
}

#[test]
fn test_set_identity_registry_address() {
    let (_identity, mut validation) = setup();
    validation
        .set_identity_registry_address(OWNER, IDENTITY_ADDR)
        .unwrap();
    assert_eq!(validation.identity_address(), IDENTITY_ADDR);
}

#[test]
fn test_set_identity_registry_address_not_owner() {
    let (_identity, mut validation) = setup();
    let err = validation
        .set_identity_registry_address(CLIENT, IDENTITY_ADDR)
        .unwrap_err();
    assert_eq!(err.message(), "Endpoint can only be called by owner");
}

#[test]
fn test_is_feedback_authorized_view() {
    let (identity, mut validation) = setup();
    validation
        .init_job(&identity, CLIENT, 0, b"job_auth_view".to_vec(), 1, None, None)
        .unwrap();
    assert!(!validation.is_feedback_authorized(&b"job_auth_view".to_vec(), CLIENT));
    validation
        .authorize_feedback(&identity, AGENT_OWNER, &b"job_auth_view".to_vec(), CLIENT)
        .unwrap();
    assert!(validation.is_feedback_authorized(&b"job_auth_view".to_vec(), CLIENT));
    assert!(!validation.is_feedback_authorized(&b"job_auth_view".to_vec(), WORKER));
}

#[test]
fn test_authorize_overwrites_prior_authorization() {
    let (identity, mut validation) = setup();
    validation
        .init_job(&identity, CLIENT, 0, b"job_re_auth".to_vec(), 1, None, None)
        .unwrap();
    validation
        .authorize_feedback(&identity, AGENT_OWNER, &b"job_re_auth".to_vec(), CLIENT)
        .unwrap();
    validation
        .authorize_feedback(&identity, AGENT_OWNER, &b"job_re_auth".to_vec(), WORKER)
        .unwrap();
    assert!(!validation.is_feedback_authorized(&b"job_re_auth".to_vec(), CLIENT));
    assert!(validation.is_feedback_authorized(&b"job_re_auth".to_vec(), WORKER));
}
