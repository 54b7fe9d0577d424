//! Registration of a new agent by its owner.
use crate::address::Address;
use crate::errors::RegistryError;
use crate::state::{is_hex_digit, is_model_hash, AgentAccount, RegistryState, MAX_CAPABILITIES_LEN, MAX_NAME_LEN};
use vstd::prelude::*;

verus! {

/// The records a registration works on.
#[derive(Clone, Copy, Debug)]
pub struct RegisterAgent {
    /// The authenticated caller, who becomes the agent's owner.
    pub owner: Address,
    pub registry: RegistryState,
}

fn is_hex_char(c: char) -> (r: bool)
    ensures
        r == is_hex_digit(c),
{
    ('0' <= c && c <= '9') || ('a' <= c && c <= 'f') || ('A' <= c && c <= 'F')
}

/// Whether `s` has the shape `sha256:<hex>`.
pub fn is_valid_model_hash(s: &str) -> (r: bool)
    ensures
        r == is_model_hash(s@),
{
    let n = s.unicode_len();
    if n <= 7 {
        return false;
    }
    if s.get_char(0) != 's' || s.get_char(1) != 'h' || s.get_char(2) != 'a' || s.get_char(3) != '2'
        || s.get_char(4) != '5' || s.get_char(5) != '6' || s.get_char(6) != ':' {
        return false;
    }
    let mut i: usize = 7;
    while i < n
        invariant
            7 <= i <= n,
            n == s@.len(),
            forall|j: int| 7 <= j < i ==> is_hex_digit(#[trigger] s@[j]),
        decreases n - i,
    {
        if !is_hex_char(s.get_char(i)) {
            return false;
        }
        i = i + 1;
    }
    true
}

/// Registers the agent `(owner, agent_id)` at time `now`, and counts it in the registry.
///
/// The name is at most 64 characters (else `NameTooLong`), the model hash has
/// the shape `sha256:<hex>` (else `InvalidModelHash`), the capability
/// description is at most 256 characters (else `CapabilitiesTooLong`), and
/// the registry's count has room for one more (else `RegistryFull`); the
/// checks run in this order and a rejected call changes nothing. The new agent
/// holds the given values verbatim, is unverified, and has a zero score and
/// zero challenge counts.
pub fn handler(
    ctx: &mut RegisterAgent,
    agent_id: u64,
    agent_bump: u8,
    name: String,
    model_hash: String,
    capabilities: String,
    now: i64,
) -> (r: Result<AgentAccount, RegistryError>)
    ensures
        (r == Err::<AgentAccount, _>(RegistryError::NameTooLong)) <==> name@.len() > 64,
        (r == Err::<AgentAccount, _>(RegistryError::InvalidModelHash)) <==> (name@.len() <= 64
            && !is_model_hash(model_hash@)),
        (r == Err::<AgentAccount, _>(RegistryError::CapabilitiesTooLong)) <==> (name@.len() <= 64
            && is_model_hash(model_hash@) && capabilities@.len() > 256),
        (r == Err::<AgentAccount, _>(RegistryError::RegistryFull)) <==> (name@.len() <= 64
            && is_model_hash(model_hash@) && capabilities@.len() <= 256
            && old(ctx).registry.total_agents == u64::MAX),
        r is Ok <==> (name@.len() <= 64 && is_model_hash(model_hash@) && capabilities@.len() <= 256
            && old(ctx).registry.total_agents < u64::MAX),
        r is Err ==> *final(ctx) == *old(ctx),
        r matches Ok(a) ==> {
            &&& a.owner == old(ctx).owner
            &&& a.agent_id == agent_id
            &&& a.name@ == name@
            &&& a.model_hash@ == model_hash@
            &&& a.capabilities@ == capabilities@
            &&& !a.verified
            &&& a.reputation_score == 0
            &&& a.challenges_passed == 0
            &&& a.challenges_failed == 0
            &&& a.updated_at == now
            &&& a.bump == agent_bump
            &&& final(ctx).registry.total_agents == old(ctx).registry.total_agents + 1
            &&& final(ctx).registry.admin == old(ctx).registry.admin
            &&& final(ctx).registry.bump == old(ctx).registry.bump
            &&& final(ctx).owner == old(ctx).owner
        },
{
    if name.as_str().unicode_len() > MAX_NAME_LEN {
        return Err(RegistryError::NameTooLong);
    }
    if !is_valid_model_hash(model_hash.as_str()) {
        return Err(RegistryError::InvalidModelHash);
    }
    if capabilities.as_str().unicode_len() > MAX_CAPABILITIES_LEN {
        return Err(RegistryError::CapabilitiesTooLong);
    }
    if ctx.registry.total_agents == u64::MAX {
        return Err(RegistryError::RegistryFull);
    }
    ctx.registry.total_agents = ctx.registry.total_agents + 1;
    Ok(AgentAccount {
        owner: ctx.owner,
        agent_id,
        name,
        model_hash,
        capabilities,
        verified: false,
        reputation_score: 0,
        challenges_passed: 0,
        challenges_failed: 0,
        updated_at: now,
        bump: agent_bump,
    })
}

} // verus!
