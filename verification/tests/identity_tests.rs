use agent_registry::errors::RegistryError;
use agent_registry::identity::IdentityRegistry;
use agent_registry::identity::ServiceConfig;

const OWNER: u64 = 100;
const AGENT_OWNER: u64 = 7;
const CLIENT: u64 = 5;
const IDENTITY_ADDR: u64 = 10;
const SHARD: u64 = 1;

fn setup_identity() -> IdentityRegistry {
    let mut identity = IdentityRegistry::new(OWNER, IDENTITY_ADDR, SHARD);
    identity
        .issue_token(OWNER, b"AGENT-123456".to_vec())
        .unwrap();
    identity
}

fn register(identity: &mut IdentityRegistry, caller: u64, name: &[u8], uri: &[u8], pk: &[u8]) -> u64 {
    let (nonce, event) = identity
        .register_agent(caller, name.to_vec(), uri.to_vec(), pk.to_vec())
        .unwrap();
    assert_eq!(event.name, name.to_vec());
    assert_eq!(event.uri, uri.to_vec());
    nonce
}

fn usdc_config(price: u64) -> ServiceConfig {
    ServiceConfig {
        price,
        payment_token_id: b"USDC-abcdef".to_vec(),
        payment_token_nonce: 0,
    }
}

#[test]
fn test_register_duplicate_agent() {
    let mut identity = setup_identity();
    register(
        &mut identity,
        AGENT_OWNER,
        b"Moltbot-01",
        b"ipfs://manifest",
        b"pubkey",
    );
    let err = identity
        .register_agent(
            AGENT_OWNER,
            b"Moltbot-02".to_vec(),
            b"ipfs://manifest".to_vec(),
            b"pubkey".to_vec(),
        )
        .unwrap_err();
    assert_eq!(err, RegistryError::AgentAlreadyRegistered);
    assert_eq!(err.message(), "Agent already registered for this address");
}

#[test]
fn test_register_agent() {
    let mut identity = setup_identity();
    let nonce = register(
        &mut identity,
        AGENT_OWNER,
        b"TestAgent",
        b"https://agent.example.com",
        b"pubkey123",
    );
    assert_eq!(nonce, 1);
    identity
        .set_metadata(AGENT_OWNER, 1, b"key1".to_vec(), b"val1".to_vec())
        .unwrap();
    identity
        .set_service_config(AGENT_OWNER, 1, 1, usdc_config(100))
        .unwrap();

    let details = identity.get_agent(1).unwrap();
    assert_eq!(details.name, b"TestAgent".to_vec());
    assert_eq!(details.public_key, b"pubkey123".to_vec());

    assert_eq!(identity.get_agent_owner(1), Some(AGENT_OWNER));
    assert!(identity.get_metadata(1, &b"key1".to_vec()).is_some());
    assert!(identity.get_service_config(1, 1).is_some());
}

#[test]
fn test_register_agent_duplicate() {
    let mut identity = setup_identity();
    register(
        &mut identity,
        AGENT_OWNER,
        b"TestAgent",
        b"https://agent.example.com",
        b"pubkey123",
    );
    let err = identity
        .register_agent(
            AGENT_OWNER,
            b"TestAgent2".to_vec(),
            b"https://agent2.example.com".to_vec(),
            b"pubkey456".to_vec(),
        )
        .unwrap_err();
    assert_eq!(err.message(), "Agent already registered for this address");
}

#[test]
fn test_register_agent_token_not_issued() {
    let mut identity = IdentityRegistry::new(OWNER, IDENTITY_ADDR, SHARD);
    let err = identity
        .register_agent(
            AGENT_OWNER,
            b"TestAgent".to_vec(),
            b"https://agent.example.com".to_vec(),
            b"pubkey123".to_vec(),
        )
        .unwrap_err();
    assert_eq!(err, RegistryError::TokenNotIssued);
    assert_eq!(err.message(), "Token not issued");
}

#[test]
fn test_set_metadata() {
    let mut identity = setup_identity();
    register(
        &mut identity,
        AGENT_OWNER,
        b"TestAgent",
        b"https://agent.example.com",
        b"pubkey123",
    );
    identity
        .set_metadata(AGENT_OWNER, 1, b"desc".to_vec(), b"A cool agent".to_vec())
        .unwrap();
    let meta = identity.get_metadata(1, &b"desc".to_vec());
    assert_eq!(meta, Some(&b"A cool agent".to_vec()));
}

#[test]
fn test_remove_metadata() {
    let mut identity = setup_identity();
    register(
        &mut identity,
        AGENT_OWNER,
        b"TestAgent",
        b"https://agent.example.com",
        b"pubkey123",
    );
    identity
        .set_metadata(AGENT_OWNER, 1, b"key1".to_vec(), b"val1".to_vec())
        .unwrap();
    assert!(identity.get_metadata(1, &b"key1".to_vec()).is_some());

    identity
        .remove_metadata(AGENT_OWNER, 1, &b"key1".to_vec())
        .unwrap();
    assert!(identity.get_metadata(1, &b"key1".to_vec()).is_none());
}

#[test]
fn test_set_service_configs() {
    let mut identity = setup_identity();
    register(
        &mut identity,
        AGENT_OWNER,
        b"TestAgent",
        b"https://agent.example.com",
        b"pubkey123",
    );
    identity
        .set_service_config(AGENT_OWNER, 1, 42, usdc_config(500))
        .unwrap();
    let svc = identity.get_service_config(1, 42).unwrap();
    assert_eq!(svc.price, 500);
    assert_eq!(svc.payment_token_id, b"USDC-abcdef".to_vec());
}

#[test]
fn test_remove_service_configs() {
    let mut identity = setup_identity();
    register(
        &mut identity,
        AGENT_OWNER,
        b"TestAgent",
        b"https://agent.example.com",
        b"pubkey123",
    );
    identity
        .set_service_config(AGENT_OWNER, 1, 1, usdc_config(100))
        .unwrap();
    assert!(identity.get_service_config(1, 1).is_some());

    identity
        .remove_service_config(AGENT_OWNER, 1, 1)
        .unwrap();
    assert!(identity.get_service_config(1, 1).is_none());
}

#[test]
fn test_issue_token_already_issued() {
    let mut identity = setup_identity();
    let err = identity
        .issue_token(OWNER, b"AGENT-654321".to_vec())
        .unwrap_err();
    assert_eq!(err, RegistryError::TokenAlreadyIssued);
    assert_eq!(err.message(), "Token already issued");
}

#[test]
fn test_issue_token_not_owner() {
    let mut identity = IdentityRegistry::new(OWNER, IDENTITY_ADDR, SHARD);
    let err = identity
        .issue_token(CLIENT, b"AGENT-123456".to_vec())
        .unwrap_err();
    assert_eq!(err.message(), "Endpoint can only be called by owner");
}

#[test]
fn test_query_agent_token_id() {
    let identity = setup_identity();
    assert_eq!(identity.agent_token_id(), Some(&b"AGENT-123456".to_vec()));
}

#[test]
fn test_query_agents_bidi() {
    let mut identity = setup_identity();
    register(
        &mut identity,
        AGENT_OWNER,
        b"TestAgent",
        b"https://agent.example.com",
        b"pubkey123",
    );
    assert_eq!(identity.agent_count(), 1);
    assert_eq!(identity.get_agent_owner(1), Some(AGENT_OWNER));
    assert_eq!(identity.get_registered_nonce(AGENT_OWNER), Some(1));
}

#[test]
fn test_query_get_agent_view() {
    let mut identity = setup_identity();
    register(
        &mut identity,
        AGENT_OWNER,
        b"TestAgent",
        b"https://agent.example.com",
        b"pubkey123",
    );
    let agent = identity.get_agent(1).unwrap();
    assert_eq!(agent.name, b"TestAgent".to_vec());
    assert_eq!(agent.public_key, b"pubkey123".to_vec());
}

#[test]
fn test_query_agent_metadata_bulk() {
    let mut identity = setup_identity();
    register(
        &mut identity,
        AGENT_OWNER,
        b"TestAgent",
        b"https://agent.example.com",
        b"pubkey123",
    );
    identity
        .set_metadata(AGENT_OWNER, 1, b"key1".to_vec(), b"val1".to_vec())
        .unwrap();
    identity
        .set_metadata(AGENT_OWNER, 1, b"key2".to_vec(), b"val2".to_vec())
        .unwrap();
    assert_eq!(
        identity.get_metadata(1, &b"key1".to_vec()),
        Some(&b"val1".to_vec())
    );
    assert_eq!(
        identity.get_metadata(1, &b"key2".to_vec()),
        Some(&b"val2".to_vec())
    );
}

#[test]
fn test_query_agent_service_bulk() {
    let mut identity = setup_identity();
    register(
        &mut identity,
        AGENT_OWNER,
        b"TestAgent",
        b"https://agent.example.com",
        b"pubkey123",
    );
    identity
        .set_service_config(AGENT_OWNER, 1, 1, usdc_config(100))
        .unwrap();
    identity
        .set_service_config(AGENT_OWNER, 1, 2, usdc_config(200))
        .unwrap();
    assert_eq!(identity.get_service_config(1, 1).unwrap().price, 100);
    assert_eq!(identity.get_service_config(1, 2).unwrap().price, 200);
}

#[test]
fn test_set_metadata_not_owner() {
    let mut identity = setup_identity();
    register(
        &mut identity,
        AGENT_OWNER,
        b"TestAgent",
        b"https://agent.example.com",
        b"pubkey123",
    );
    let err = identity
        .set_metadata(CLIENT, 1, b"key1".to_vec(), b"val1".to_vec())
        .unwrap_err();
    assert_eq!(err.message(), "Only the agent owner can perform this action");
}

#[test]
fn test_set_service_configs_not_owner() {
    let mut identity = setup_identity();
    register(
        &mut identity,
        AGENT_OWNER,
        b"TestAgent",
        b"https://agent.example.com",
        b"pubkey123",
    );
    let err = identity
        .set_service_config(CLIENT, 1, 1, usdc_config(100))
        .unwrap_err();
    assert_eq!(err.message(), "Only the agent owner can perform this action");
}

#[test]
fn test_remove_metadata_not_owner() {
    let mut identity = setup_identity();
    register(
        &mut identity,
        AGENT_OWNER,
        b"TestAgent",
        b"https://agent.example.com",
        b"pubkey123",
    );
    identity
        .set_metadata(AGENT_OWNER, 1, b"key1".to_vec(), b"val1".to_vec())
        .unwrap();
    let err = identity
        .remove_metadata(CLIENT, 1, &b"key1".to_vec())
        .unwrap_err();
    assert_eq!(err.message(), "Only the agent owner can perform this action");
    assert!(identity.get_metadata(1, &b"key1".to_vec()).is_some());
}

#[test]
fn test_remove_service_configs_not_owner() {
    let mut identity = setup_identity();
    register(
        &mut identity,
        AGENT_OWNER,
        b"TestAgent",
        b"https://agent.example.com",
        b"pubkey123",
    );
    identity
        .set_service_config(AGENT_OWNER, 1, 1, usdc_config(100))
        .unwrap();
    let err = identity
        .remove_service_config(CLIENT, 1, 1)
        .unwrap_err();
    assert_eq!(err.message(), "Only the agent owner can perform this action");
    assert!(identity.get_service_config(1, 1).is_some());
}

#[test]
fn test_update_agent() {
    let mut identity = setup_identity();
    register(
        &mut identity,
        AGENT_OWNER,
        b"TestAgent",
        b"https://agent.example.com",
        b"pubkey123",
    );
    identity
        .update_agent(
            AGENT_OWNER,
            1,
            b"https://updated.example.com".to_vec(),
            b"newpubkey".to_vec(),
        )
        .unwrap();
    let agent = identity.get_agent(1).unwrap();
    assert_eq!(agent.uri, b"https://updated.example.com".to_vec());
    assert_eq!(agent.public_key, b"newpubkey".to_vec());
    assert_eq!(agent.name, b"TestAgent".to_vec());
    assert_eq!(identity.get_agent_owner(1), Some(AGENT_OWNER));
}

#[test]
fn test_update_agent_not_agent_owner() {
    let mut identity = setup_identity();
    register(
        &mut identity,
        AGENT_OWNER,
        b"TestAgent",
        b"https://agent.example.com",
        b"pubkey123",
    );
    let err = identity
        .update_agent(CLIENT, 1, b"https://new.uri".to_vec(), b"newpubkey".to_vec())
        .unwrap_err();
    assert_eq!(err, RegistryError::NotAgentUpdateOwner);
    assert_eq!(err.message(), "Only owner can update agent");
    let agent = identity.get_agent(1).unwrap();
    assert_eq!(agent.uri, b"https://agent.example.com".to_vec());
}

#[test]
fn test_update_agent_missing_agent() {
    let mut identity = setup_identity();
    let err = identity
        .update_agent(
            AGENT_OWNER,
            2,
            b"https://new.uri".to_vec(),
            b"newpubkey".to_vec(),
        )
        .unwrap_err();
    assert_eq!(err, RegistryError::AgentNotFound);
    assert_eq!(err.message(), "Agent not found");
}

#[test]
fn test_set_metadata_missing_agent() {
    let mut identity = setup_identity();
    let err = identity
        .set_metadata(AGENT_OWNER, 9, b"key1".to_vec(), b"val1".to_vec())
        .unwrap_err();
    assert_eq!(err, RegistryError::AgentNotFound);
}

#[test]
fn test_register_two_agents_distinct_nonces() {
    let mut identity = setup_identity();
    let first = register(
        &mut identity,
        AGENT_OWNER,
        b"TestAgent",
        b"https://agent.example.com",
        b"pubkey123",
    );
    let second = register(
        &mut identity,
        CLIENT,
        b"TestAgent2",
        b"https://agent2.example.com",
        b"pubkey456",
    );
    assert_eq!(first, 1);
    assert_eq!(second, 2);
    assert_eq!(identity.get_agent_owner(1), Some(AGENT_OWNER));
    assert_eq!(identity.get_agent_owner(2), Some(CLIENT));
}
