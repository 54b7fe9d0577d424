//! An authorization-gated registry of agents with a batched, append-only
//! Merkle audit trail per agent.
//!
//! Every operation is a state transition over the records that the host
//! ledger hands in: the host authenticates the caller, loads and persists the
//! records at their derived addresses, and applies each operation atomically.
use vstd::prelude::*;

pub mod address;
pub mod errors;
pub mod instructions;
pub mod state;

use crate::address::Address;
use crate::errors::RegistryError;
use crate::instructions::register_agent::RegisterAgent;
use crate::instructions::update_agent::{too_long, updated, UpdateAgent};
use crate::instructions::update_reputation::{apply_delta, delta_in_bounds, UpdateReputation};
use crate::instructions::verify_agent::VerifyAgent;
use crate::state::{is_model_hash, AgentAccount, RegistryState};

verus! {

/// Creates the registry singleton with `admin` as its administrator.
pub fn initialize(admin: Address, bump: u8) -> (r: RegistryState)
    ensures
        r.admin == admin,
        r.total_agents == 0,
        r.bump == bump,
{
    instructions::initialize::handler(admin, bump)
}

/// Registers a new agent; see [`instructions::register_agent::handler`].
pub fn register_agent(
    ctx: &mut RegisterAgent,
    agent_id: u64,
    agent_bump: u8,
    name: String,
    model_hash: String,
    capabilities: String,
    now: i64,
) -> (r: Result<AgentAccount, RegistryError>)
    ensures
        (r == Err::<AgentAccount, _>(RegistryError::NameTooLong)) <==> name@.len() > 64,
        (r == Err::<AgentAccount, _>(RegistryError::InvalidModelHash)) <==> (name@.len() <= 64
            && !is_model_hash(model_hash@)),
        (r == Err::<AgentAccount, _>(RegistryError::CapabilitiesTooLong)) <==> (name@.len() <= 64
            && is_model_hash(model_hash@) && capabilities@.len() > 256),
        (r == Err::<AgentAccount, _>(RegistryError::RegistryFull)) <==> (name@.len() <= 64
            && is_model_hash(model_hash@) && capabilities@.len() <= 256
            && old(ctx).registry.total_agents == u64::MAX),
        r is Ok <==> (name@.len() <= 64 && is_model_hash(model_hash@) && capabilities@.len() <= 256
            && old(ctx).registry.total_agents < u64::MAX),
        r is Err ==> *final(ctx) == *old(ctx),
        r matches Ok(a) ==> {
            &&& a.owner == old(ctx).owner
            &&& a.agent_id == agent_id
            &&& a.name@ == name@
            &&& a.model_hash@ == model_hash@
            &&& a.capabilities@ == capabilities@
            &&& !a.verified
            &&& a.reputation_score == 0
            &&& a.challenges_passed == 0
            &&& a.challenges_failed == 0
            &&& a.updated_at == now
            &&& a.bump == agent_bump
            &&& final(ctx).registry.total_agents == old(ctx).registry.total_agents + 1
            &&& final(ctx).registry.admin == old(ctx).registry.admin
            &&& final(ctx).registry.bump == old(ctx).registry.bump
            &&& final(ctx).owner == old(ctx).owner
        },
{
    instructions::register_agent::handler(ctx, agent_id, agent_bump, name, model_hash, capabilities, now)
}

/// Updates an agent's metadata; see [`instructions::update_agent::handler`].
pub fn update_agent(ctx: &mut UpdateAgent, name: Option<String>, capabilities: Option<String>, now: i64) -> (r: Result<(), RegistryError>)
    ensures
        (r == Err::<(), _>(RegistryError::Unauthorized)) <==> old(ctx).owner@ != old(ctx).agent.owner@,
        (r == Err::<(), _>(RegistryError::NameTooLong)) <==> (old(ctx).owner@ == old(ctx).agent.owner@
            && too_long(name, 64)),
        (r == Err::<(), _>(RegistryError::CapabilitiesTooLong)) <==> (old(ctx).owner@ == old(ctx).agent.owner@
            && !too_long(name, 64) && too_long(capabilities, 256)),
        r is Ok <==> (old(ctx).owner@ == old(ctx).agent.owner@ && !too_long(name, 64) && !too_long(
            capabilities,
            256,
        )),
        r is Err ==> *final(ctx) == *old(ctx),
        r is Ok ==> {
            let o = old(ctx).agent;
            let a = final(ctx).agent;
            &&& a.name@ == updated(o.name@, name)
            &&& a.capabilities@ == updated(o.capabilities@, capabilities)
            &&& a.owner == o.owner
            &&& a.agent_id == o.agent_id
            &&& a.model_hash == o.model_hash
            &&& a.verified == o.verified
            &&& a.reputation_view() == o.reputation_view()
            &&& a.bump == o.bump
            &&& a.updated_at == now
            &&& final(ctx).owner == old(ctx).owner
        },
{
    instructions::update_agent::handler(ctx, name, capabilities, now)
}

/// Certifies an agent; see [`instructions::verify_agent::handler`].
pub fn verify_agent(ctx: &mut VerifyAgent, now: i64) -> (r: Result<(), RegistryError>)
    ensures
        (r == Err::<(), _>(RegistryError::Unauthorized)) <==> old(ctx).admin@ != old(ctx).registry.admin@,
        (r == Err::<(), _>(RegistryError::AlreadyVerified)) <==> (old(ctx).admin@ == old(ctx).registry.admin@
            && old(ctx).agent.verified),
        r is Ok <==> (old(ctx).admin@ == old(ctx).registry.admin@ && !old(ctx).agent.verified),
        r is Err ==> *final(ctx) == *old(ctx),
        old(ctx).agent.verified ==> final(ctx).agent.verified,
        r is Ok ==> {
            &&& final(ctx).agent.verified
            &&& final(ctx).agent.updated_at == now
            &&& final(ctx).agent.same_identity_and_metadata(&old(ctx).agent)
            &&& final(ctx).agent.reputation_view() == old(ctx).agent.reputation_view()
            &&& final(ctx).admin == old(ctx).admin
            &&& final(ctx).registry == old(ctx).registry
        },
{
    instructions::verify_agent::handler(ctx, now)
}

/// Adjusts an agent's reputation; see [`instructions::update_reputation::handler`].
pub fn update_reputation(ctx: &mut UpdateReputation, delta: i32, now: i64) -> (r: Result<(), RegistryError>)
    ensures
        (r == Err::<(), _>(RegistryError::Unauthorized)) <==> old(ctx).authority@ != old(ctx).registry.admin@,
        (r == Err::<(), _>(RegistryError::ReputationDeltaTooLarge)) <==> (old(ctx).authority@
            == old(ctx).registry.admin@ && !delta_in_bounds(delta)),
        r is Ok <==> (old(ctx).authority@ == old(ctx).registry.admin@ && delta_in_bounds(delta)),
        r is Err ==> *final(ctx) == *old(ctx),
        r is Ok ==> {
            &&& final(ctx).agent.reputation_view() == apply_delta(old(ctx).agent.reputation_view(), delta)
            &&& final(ctx).agent.same_identity_and_metadata(&old(ctx).agent)
            &&& final(ctx).agent.verified == old(ctx).agent.verified
            &&& final(ctx).agent.updated_at == now
            &&& final(ctx).authority == old(ctx).authority
            &&& final(ctx).registry == old(ctx).registry
        },
{
    instructions::update_reputation::handler(ctx, delta, now)
}

} // verus!
