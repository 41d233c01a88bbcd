//! The identity ledger: one non-transferable agent credential per owner
//! address, plus the agent's mutable attributes and per-service price
//! configuration read by the job ledger at job-creation time.
//!
//! Minting and transferring the credential token itself is the chain
//! runtime's work; this ledger records the resulting identity state and
//! enforces the protocol's rules over it.

use vstd::prelude::*;

use crate::errors::RegistryError;
use crate::store::copy_bytes;
use crate::store::StoreMap;

verus! {

/// The attributes of one registered agent.
#[derive(Debug)]
pub struct AgentDetails {
    /// Display name.
    pub name: Vec<u8>,
    /// Manifest location.
    pub uri: Vec<u8>,
    /// Public key advertised for the agent.
    pub public_key: Vec<u8>,
    /// The address holding the credential; immutable once set.
    pub owner: u64,
}

/// Mathematical view of [`AgentDetails`].
#[verifier::ext_equal]
pub struct AgentDetailsView {
    /// Display name.
    pub name: Seq<u8>,
    /// Manifest location.
    pub uri: Seq<u8>,
    /// Public key advertised for the agent.
    pub public_key: Seq<u8>,
    /// The address holding the credential.
    pub owner: u64,
}

impl View for AgentDetails {
    type V = AgentDetailsView;

    open spec fn view(&self) -> AgentDetailsView {
        AgentDetailsView {
            name: self.name@,
            uri: self.uri@,
            public_key: self.public_key@,
            owner: self.owner,
        }
    }
}

/// The data reported when an agent registers.
#[derive(Debug)]
pub struct AgentRegisteredEventData {
    /// Display name.
    pub name: Vec<u8>,
    /// Manifest location.
    pub uri: Vec<u8>,
}

/// Mathematical view of [`AgentRegisteredEventData`].
#[verifier::ext_equal]
pub struct AgentRegisteredEventDataView {
    /// Display name.
    pub name: Seq<u8>,
    /// Manifest location.
    pub uri: Seq<u8>,
}

impl View for AgentRegisteredEventData {
    type V = AgentRegisteredEventDataView;

    open spec fn view(&self) -> AgentRegisteredEventDataView {
        AgentRegisteredEventDataView { name: self.name@, uri: self.uri@ }
    }
}

/// The price configuration of one service offered by an agent.
#[derive(Debug)]
pub struct ServiceConfig {
    /// Minimum payment amount required to open a job for this service.
    pub price: u64,
    /// The token identifier in which the price is denominated.
    pub payment_token_id: Vec<u8>,
    /// The token nonce in which the price is denominated.
    pub payment_token_nonce: u64,
}

/// Mathematical view of [`ServiceConfig`].
#[verifier::ext_equal]
pub struct ServiceConfigView {
    /// Minimum payment amount required to open a job for this service.
    pub price: u64,
    /// The token identifier in which the price is denominated.
    pub payment_token_id: Seq<u8>,
    /// The token nonce in which the price is denominated.
    pub payment_token_nonce: u64,
}

impl View for ServiceConfig {
    type V = ServiceConfigView;

    open spec fn view(&self) -> ServiceConfigView {
        ServiceConfigView {
            price: self.price,
            payment_token_id: self.payment_token_id@,
            payment_token_nonce: self.payment_token_nonce,
        }
    }
}

/// Mathematical view of the identity ledger's persisted state.
#[verifier::ext_equal]
pub struct IdentityState {
    /// The ledger's administrator.
    pub owner: u64,
    /// The ledger's own address.
    pub address: u64,
    /// The execution partition the ledger is resident in.
    pub shard: u64,
    /// The credential token identifier, once issued.
    pub token_id: Option<Seq<u8>>,
    /// The highest credential nonce issued so far.
    pub agent_count: u64,
    /// Agent attributes by credential nonce.
    pub agents: Map<u64, AgentDetailsView>,
    /// Credential nonce by owner address: one credential per address.
    pub registered: Map<u64, u64>,
    /// Free-form attributes by (credential nonce, attribute key).
    pub metadata: Map<(u64, Seq<u8>), Seq<u8>>,
    /// Service price configuration by (credential nonce, service id).
    pub services: Map<(u64, u64), ServiceConfigView>,
}

/// The identity ledger.
pub struct IdentityRegistry {
    owner: u64,
    address: u64,
    shard: u64,
    token_id: Option<Vec<u8>>,
    agent_count: u64,
    agents: StoreMap<u64, AgentDetails>,
    registered: StoreMap<u64, u64>,
    metadata: StoreMap<(u64, Vec<u8>), Vec<u8>>,
    services: StoreMap<(u64, u64), ServiceConfig>,
}

impl View for IdentityRegistry {
    type V = IdentityState;

    closed spec fn view(&self) -> IdentityState {
        IdentityState {
            owner: self.owner,
            address: self.address,
            shard: self.shard,
            token_id: match self.token_id {
                Some(t) => Some(t@),
                None => None,
            },
            agent_count: self.agent_count,
            agents: self.agents@,
            registered: self.registered@,
            metadata: self.metadata@,
            services: self.services@,
        }
    }
}

impl IdentityRegistry {
    /// Deploys the identity ledger with the given administrator, at the given
    /// address, in the given execution partition.
    pub fn new(owner: u64, address: u64, shard: u64) -> (r: Self)
        ensures
            r@ == (IdentityState {
                owner,
                address,
                shard,
                token_id: None,
                agent_count: 0,
                agents: Map::empty(),
                registered: Map::empty(),
                metadata: Map::empty(),
                services: Map::empty(),
            }),
    {
        IdentityRegistry {
            owner,
            address,
            shard,
            token_id: None,
            agent_count: 0,
            agents: StoreMap::new(),
            registered: StoreMap::new(),
            metadata: StoreMap::new(),
            services: StoreMap::new(),
        }
    }

    /// Records the credential token identifier. Administrator-only, and only
    /// once; the minting of the token itself is the chain runtime's work.
    pub fn issue_token(&mut self, caller: u64, token_id: Vec<u8>) -> (r: Result<
        (),
        RegistryError,
    >)
        ensures
            caller != old(self)@.owner ==> r == Err::<(), RegistryError>(
                RegistryError::NotContractOwner,
            ) && final(self)@ == old(self)@,
            caller == old(self)@.owner && old(self)@.token_id is Some ==> r == Err::<
                (),
                RegistryError,
            >(RegistryError::TokenAlreadyIssued) && final(self)@ == old(self)@,
            caller == old(self)@.owner && old(self)@.token_id is None ==> r == Ok::<
                (),
                RegistryError,
            >(()) && final(self)@ == (IdentityState { token_id: Some(token_id@), ..old(self)@ }),
    {
        if caller != self.owner {
            return Err(RegistryError::NotContractOwner);
        }
        if self.token_id.is_some() {
            return Err(RegistryError::TokenAlreadyIssued);
        }
        self.token_id = Some(token_id);
        Ok(())
    }

    /// Registers a new agent for the calling address: assigns the next
    /// credential nonce, stores the agent's details with the caller as owner,
    /// and reports the registration event data. At most one credential per
    /// address; registration requires the credential token to exist.
    pub fn register_agent(
        &mut self,
        caller: u64,
        name: Vec<u8>,
        uri: Vec<u8>,
        public_key: Vec<u8>,
    ) -> (r: Result<(u64, AgentRegisteredEventData), RegistryError>)
        requires
            old(self)@.agent_count < u64::MAX,
        ensures
            old(self)@.token_id is None ==> r == Err::<
                (u64, AgentRegisteredEventData),
                RegistryError,
            >(RegistryError::TokenNotIssued) && final(self)@ == old(self)@,
            old(self)@.token_id is Some && old(self)@.registered.contains_key(caller) ==> r
                == Err::<(u64, AgentRegisteredEventData), RegistryError>(
                RegistryError::AgentAlreadyRegistered,
            ) && final(self)@ == old(self)@,
            old(self)@.token_id is Some && !old(self)@.registered.contains_key(caller) ==> ({
                let nonce = (old(self)@.agent_count + 1) as u64;
                &&& (match r {
                    Ok(p) => p.0 == nonce && p.1@ == (AgentRegisteredEventDataView {
                        name: name@,
                        uri: uri@,
                    }),
                    Err(_) => false,
                })
                &&& final(self)@ == (IdentityState {
                    agent_count: nonce,
                    agents: old(self)@.agents.insert(
                        nonce,
                        AgentDetailsView {
                            name: name@,
                            uri: uri@,
                            public_key: public_key@,
                            owner: caller,
                        },
                    ),
                    registered: old(self)@.registered.insert(caller, nonce),
                    ..old(self)@
                })
            }),
    {
        if self.token_id.is_none() {
            return Err(RegistryError::TokenNotIssued);
        }
        if self.registered.contains_key(&caller) {
            return Err(RegistryError::AgentAlreadyRegistered);
        }
        let nonce: u64 = self.agent_count + 1;
        self.agent_count = nonce;
        let event = AgentRegisteredEventData { name: copy_bytes(&name), uri: copy_bytes(&uri) };
        let details = AgentDetails { name, uri, public_key, owner: caller };
        self.agents.insert(nonce, details);
        self.registered.insert(caller, nonce);
        Ok((nonce, event))
    }

    /// Updates an agent's manifest location and public key. Only the agent's
    /// owner may update; name and owner are preserved.
    pub fn update_agent(
        &mut self,
        caller: u64,
        nonce: u64,
        new_uri: Vec<u8>,
        new_public_key: Vec<u8>,
    ) -> (r: Result<(), RegistryError>)
        ensures
            old(self)@.token_id is None ==> r == Err::<(), RegistryError>(
                RegistryError::TokenNotIssued,
            ) && final(self)@ == old(self)@,
            old(self)@.token_id is Some && !old(self)@.agents.contains_key(nonce) ==> r
                == Err::<(), RegistryError>(RegistryError::AgentNotFound) && final(self)@ == old(self)@,
            old(self)@.token_id is Some && old(self)@.agents.contains_key(nonce) && caller
                != old(self)@.agents[nonce].owner ==> r == Err::<(), RegistryError>(
                RegistryError::NotAgentUpdateOwner,
            ) && final(self)@ == old(self)@,
            old(self)@.token_id is Some && old(self)@.agents.contains_key(nonce) && caller
                == old(self)@.agents[nonce].owner ==> r == Ok::<(), RegistryError>(()) && final(self)@ == (IdentityState {
                agents: old(self)@.agents.insert(
                    nonce,
                    AgentDetailsView {
                        uri: new_uri@,
                        public_key: new_public_key@,
                        ..old(self)@.agents[nonce]
                    },
                ),
                ..old(self)@
            }),
    {
        if self.token_id.is_none() {
            return Err(RegistryError::TokenNotIssued);
        }
        match self.agents.take(&nonce) {
            None => Err(RegistryError::AgentNotFound),
            Some(details) => {
                if caller != details.owner {
                    self.agents.insert(nonce, details);
                    proof {
                        assert(self@.agents =~= old(self)@.agents);
                    }
                    Err(RegistryError::NotAgentUpdateOwner)
                } else {
                    let updated = AgentDetails {
                        name: details.name,
                        uri: new_uri,
                        public_key: new_public_key,
                        owner: details.owner,
                    };
                    self.agents.insert(nonce, updated);
                    Ok(())
                }
            },
        }
    }

    /// Sets one free-form attribute of an agent. Only the agent's owner.
    pub fn set_metadata(&mut self, caller: u64, nonce: u64, key: Vec<u8>, value: Vec<u8>) -> (r:
        Result<(), RegistryError>)
        ensures
            !old(self)@.agents.contains_key(nonce) ==> r == Err::<(), RegistryError>(
                RegistryError::AgentNotFound,
            ) && final(self)@ == old(self)@,
            old(self)@.agents.contains_key(nonce) && caller != old(self)@.agents[nonce].owner
                ==> r == Err::<(), RegistryError>(RegistryError::NotAgentOwner) && final(self)@
                == old(self)@,
            old(self)@.agents.contains_key(nonce) && caller == old(self)@.agents[nonce].owner
                ==> r == Ok::<(), RegistryError>(()) && final(self)@ == (IdentityState {
                metadata: old(self)@.metadata.insert((nonce, key@), value@),
                ..old(self)@
            }),
    {
        match self.agents.get(&nonce) {
            None => Err(RegistryError::AgentNotFound),
            Some(details) => {
                if caller != details.owner {
                    Err(RegistryError::NotAgentOwner)
                } else {
                    self.metadata.insert((nonce, key), value);
                    Ok(())
                }
            },
        }
    }

    /// Removes one free-form attribute of an agent. Only the agent's owner.
    pub fn remove_metadata(&mut self, caller: u64, nonce: u64, key: &Vec<u8>) -> (r: Result<
        (),
        RegistryError,
    >)
        ensures
            !old(self)@.agents.contains_key(nonce) ==> r == Err::<(), RegistryError>(
                RegistryError::AgentNotFound,
            ) && final(self)@ == old(self)@,
            old(self)@.agents.contains_key(nonce) && caller != old(self)@.agents[nonce].owner
                ==> r == Err::<(), RegistryError>(RegistryError::NotAgentOwner) && final(self)@
                == old(self)@,
            old(self)@.agents.contains_key(nonce) && caller == old(self)@.agents[nonce].owner
                ==> r == Ok::<(), RegistryError>(()) && final(self)@ == (IdentityState {
                metadata: old(self)@.metadata.remove((nonce, key@)),
                ..old(self)@
            }),
    {
        match self.agents.get(&nonce) {
            None => Err(RegistryError::AgentNotFound),
            Some(details) => {
                if caller != details.owner {
                    Err(RegistryError::NotAgentOwner)
                } else {
                    let k = (nonce, copy_bytes(key));
                    self.metadata.remove(&k);
                    Ok(())
                }
            },
        }
    }

    /// Sets the price configuration of one service of an agent. Only the
    /// agent's owner; overwrites any previous configuration.
    pub fn set_service_config(
        &mut self,
        caller: u64,
        nonce: u64,
        service_id: u64,
        config: ServiceConfig,
    ) -> (r: Result<(), RegistryError>)
        ensures
            !old(self)@.agents.contains_key(nonce) ==> r == Err::<(), RegistryError>(
                RegistryError::AgentNotFound,
            ) && final(self)@ == old(self)@,
            old(self)@.agents.contains_key(nonce) && caller != old(self)@.agents[nonce].owner
                ==> r == Err::<(), RegistryError>(RegistryError::NotAgentOwner) && final(self)@
                == old(self)@,
            old(self)@.agents.contains_key(nonce) && caller == old(self)@.agents[nonce].owner
                ==> r == Ok::<(), RegistryError>(()) && final(self)@ == (IdentityState {
                services: old(self)@.services.insert((nonce, service_id), config@),
                ..old(self)@
            }),
    {
        match self.agents.get(&nonce) {
            None => Err(RegistryError::AgentNotFound),
            Some(details) => {
                if caller != details.owner {
                    Err(RegistryError::NotAgentOwner)
                } else {
                    self.services.insert((nonce, service_id), config);
                    Ok(())
                }
            },
        }
    }

    /// Removes the price configuration of one service of an agent. Only the
    /// agent's owner.
    pub fn remove_service_config(&mut self, caller: u64, nonce: u64, service_id: u64) -> (r:
        Result<(), RegistryError>)
        ensures
            !old(self)@.agents.contains_key(nonce) ==> r == Err::<(), RegistryError>(
                RegistryError::AgentNotFound,
            ) && final(self)@ == old(self)@,
            old(self)@.agents.contains_key(nonce) && caller != old(self)@.agents[nonce].owner
                ==> r == Err::<(), RegistryError>(RegistryError::NotAgentOwner) && final(self)@
                == old(self)@,
            old(self)@.agents.contains_key(nonce) && caller == old(self)@.agents[nonce].owner
                ==> r == Ok::<(), RegistryError>(()) && final(self)@ == (IdentityState {
                services: old(self)@.services.remove((nonce, service_id)),
                ..old(self)@
            }),
    {
        match self.agents.get(&nonce) {
            None => Err(RegistryError::AgentNotFound),
            Some(details) => {
                if caller != details.owner {
                    Err(RegistryError::NotAgentOwner)
                } else {
                    let k = (nonce, service_id);
                    self.services.remove(&k);
                    Ok(())
                }
            },
        }
    }

    /// The details of the agent with the given credential nonce.
    pub fn get_agent(&self, nonce: u64) -> (r: Option<&AgentDetails>)
        ensures
            match r {
                Some(d) => self@.agents.contains_key(nonce) && d@ == self@.agents[nonce],
                None => !self@.agents.contains_key(nonce),
            },
    {
        self.agents.get(&nonce)
    }

    /// The owner address of the agent with the given credential nonce.
    pub fn get_agent_owner(&self, nonce: u64) -> (r: Option<u64>)
        ensures
            match r {
                Some(o) => self@.agents.contains_key(nonce) && o == self@.agents[nonce].owner,
                None => !self@.agents.contains_key(nonce),
            },
    {
        match self.agents.get(&nonce) {
            Some(d) => Some(d.owner),
            None => None,
        }
    }

    /// The credential nonce registered for the given owner address, if any.
    pub fn get_registered_nonce(&self, owner: u64) -> (r: Option<u64>)
        ensures
            match r {
                Some(n) => self@.registered.contains_key(owner) && n == self@.registered[owner],
                None => !self@.registered.contains_key(owner),
            },
    {
        match self.registered.get(&owner) {
            Some(n) => Some(*n),
            None => None,
        }
    }

    /// One free-form attribute of an agent.
    pub fn get_metadata(&self, nonce: u64, key: &Vec<u8>) -> (r: Option<&Vec<u8>>)
        ensures
            match r {
                Some(v) => self@.metadata.contains_key((nonce, key@)) && v@ == self@.metadata[
                    (nonce, key@)
                ],
                None => !self@.metadata.contains_key((nonce, key@)),
            },
    {
        let k = (nonce, copy_bytes(key));
        self.metadata.get(&k)
    }

    /// The price configuration of one service of an agent.
    pub fn get_service_config(&self, nonce: u64, service_id: u64) -> (r: Option<&ServiceConfig>)
        ensures
            match r {
                Some(c) => self@.services.contains_key((nonce, service_id)) && c@
                    == self@.services[(nonce, service_id)],
                None => !self@.services.contains_key((nonce, service_id)),
            },
    {
        let k = (nonce, service_id);
        self.services.get(&k)
    }

    /// The credential token identifier, once issued.
    pub fn agent_token_id(&self) -> (r: Option<&Vec<u8>>)
        ensures
            match r {
                Some(t) => self@.token_id == Some(t@),
                None => self@.token_id is None,
            },
    {
        match &self.token_id {
            Some(t) => Some(t),
            None => None,
        }
    }

    /// The highest credential nonce issued so far.
    pub fn agent_count(&self) -> (r: u64)
        ensures
            r == self@.agent_count,
    {
        self.agent_count
    }

    /// The ledger's administrator.
    pub fn owner(&self) -> (r: u64)
        ensures
            r == self@.owner,
    {
        self.owner
    }

    /// The ledger's own address.
    pub fn address(&self) -> (r: u64)
        ensures
            r == self@.address,
    {
        self.address
    }

    /// The execution partition the ledger is resident in.
    pub fn shard(&self) -> (r: u64)
        ensures
            r == self@.shard,
    {
        self.shard
    }

    /// Cross-ledger read of an agent's owner: a direct fetch of this ledger's
    /// persisted record, for a reader resident in `reader_shard`. Fails
    /// closed when the reader is not co-located with this ledger.
    pub fn read_agent_owner(&self, reader_shard: u64, nonce: u64) -> (r: Result<
        Option<u64>,
        RegistryError,
    >)
        ensures
            reader_shard != self@.shard ==> r == Err::<Option<u64>, RegistryError>(
                RegistryError::CrossLedgerReadFailed,
            ),
            reader_shard == self@.shard ==> r == Ok::<Option<u64>, RegistryError>(
                if self@.agents.contains_key(nonce) {
                    Some(self@.agents[nonce].owner)
                } else {
                    None
                },
            ),
    {
        if reader_shard != self.shard {
            return Err(RegistryError::CrossLedgerReadFailed);
        }
        Ok(self.get_agent_owner(nonce))
    }

    /// Cross-ledger read of a service's price configuration: a direct fetch
    /// of this ledger's persisted record, for a reader resident in
    /// `reader_shard`. Fails closed when the reader is not co-located with
    /// this ledger.
    pub fn read_service_config(&self, reader_shard: u64, nonce: u64, service_id: u64) -> (r:
        Result<Option<&ServiceConfig>, RegistryError>)
        ensures
            reader_shard != self@.shard ==> r is Err && (match r {
                Err(e) => e == RegistryError::CrossLedgerReadFailed,
                Ok(_) => false,
            }),
            reader_shard == self@.shard ==> (match r {
                Ok(Some(c)) => self@.services.contains_key((nonce, service_id)) && c@
                    == self@.services[(nonce, service_id)],
                Ok(None) => !self@.services.contains_key((nonce, service_id)),
                Err(_) => false,
            }),
    {
        if reader_shard != self.shard {
            return Err(RegistryError::CrossLedgerReadFailed);
        }
        Ok(self.get_service_config(nonce, service_id))
    }
}

} // verus!
