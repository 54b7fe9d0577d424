//! Changes to an agent's metadata by its owner.
use crate::address::Address;
use crate::errors::RegistryError;
use crate::state::{AgentAccount, MAX_CAPABILITIES_LEN, MAX_NAME_LEN};
use vstd::prelude::*;

verus! {

/// The records a metadata update works on.
#[derive(Clone, Debug)]
pub struct UpdateAgent {
    /// The authenticated caller, who must own the agent.
    pub owner: Address,
    pub agent: AgentAccount,
}

/// The value of a field after an update that may provide a replacement.
pub open spec fn updated(current: Seq<char>, given: Option<String>) -> Seq<char> {
    match given {
        Some(s) => s@,
        None => current,
    }
}

/// A provided value is longer than `max` characters.
pub open spec fn too_long(given: Option<String>, max: nat) -> bool {
    match given {
        Some(s) => s@.len() > max,
        None => false,
    }
}

fn check_len(given: &Option<String>, max: usize) -> (r: bool)
    ensures
        r == !too_long(*given, max as nat),
{
    match given {
        Some(s) => s.as_str().unicode_len() <= max,
        None => true,
    }
}

/// Replaces the agent's name and capability description where a new value is
/// given, at time `now`.
///
/// Only the owner may do so (else `Unauthorized`). A given name is at most 64
/// characters (else `NameTooLong`), a given description at most 256 characters (else
/// `CapabilitiesTooLong`); a rejected call changes nothing. Otherwise the
/// given fields are replaced, the others kept, and `updated_at` becomes `now`.
pub fn handler(ctx: &mut UpdateAgent, name: Option<String>, capabilities: Option<String>, now: i64) -> (r: Result<(), RegistryError>)
    ensures
        (r == Err::<(), _>(RegistryError::Unauthorized)) <==> old(ctx).owner@ != old(ctx).agent.owner@,
        (r == Err::<(), _>(RegistryError::NameTooLong)) <==> (old(ctx).owner@ == old(ctx).agent.owner@
            && too_long(name, 64)),
        (r == Err::<(), _>(RegistryError::CapabilitiesTooLong)) <==> (old(ctx).owner@ == old(ctx).agent.owner@
            && !too_long(name, 64) && too_long(capabilities, 256)),
        r is Ok <==> (old(ctx).owner@ == old(ctx).agent.owner@ && !too_long(name, 64) && !too_long(
            capabilities,
            256,
        )),
        r is Err ==> *final(ctx) == *old(ctx),
        r is Ok ==> {
            let o = old(ctx).agent;
            let a = final(ctx).agent;
            &&& a.name@ == updated(o.name@, name)
            &&& a.capabilities@ == updated(o.capabilities@, capabilities)
            &&& a.owner == o.owner
            &&& a.agent_id == o.agent_id
            &&& a.model_hash == o.model_hash
            &&& a.verified == o.verified
            &&& a.reputation_view() == o.reputation_view()
            &&& a.bump == o.bump
            &&& a.updated_at == now
            &&& final(ctx).owner == old(ctx).owner
        },
{
    if !ctx.agent.owner.same_as(&ctx.owner) {
        return Err(RegistryError::Unauthorized);
    }
    if !check_len(&name, MAX_NAME_LEN) {
        return Err(RegistryError::NameTooLong);
    }
    if !check_len(&capabilities, MAX_CAPABILITIES_LEN) {
        return Err(RegistryError::CapabilitiesTooLong);
    }
    if let Some(new_name) = name {
        ctx.agent.name = new_name;
    }
    if let Some(new_capabilities) = capabilities {
        ctx.agent.capabilities = new_capabilities;
    }
    ctx.agent.updated_at = now;
    Ok(())
}

} // verus!
