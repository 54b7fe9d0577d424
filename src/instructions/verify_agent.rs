//! Certification of an agent by the administrator.
use crate::address::Address;
use crate::errors::RegistryError;
use crate::state::{AgentAccount, RegistryState};
use vstd::prelude::*;

verus! {

/// The records a certification works on.
#[derive(Clone, Debug)]
pub struct VerifyAgent {
    /// The authenticated caller, who must be the registry's administrator.
    pub admin: Address,
    pub registry: RegistryState,
    pub agent: AgentAccount,
}

/// Marks the agent as verified at time `now`.
///
/// Only the administrator may do so (else `Unauthorized`), and only once:
/// on an agent that is already verified every later call fails with
/// `AlreadyVerified` and the agent stays verified and unchanged.
pub fn handler(ctx: &mut VerifyAgent, now: i64) -> (r: Result<(), RegistryError>)
    ensures
        (r == Err::<(), _>(RegistryError::Unauthorized)) <==> old(ctx).admin@ != old(ctx).registry.admin@,
        (r == Err::<(), _>(RegistryError::AlreadyVerified)) <==> (old(ctx).admin@ == old(ctx).registry.admin@
            && old(ctx).agent.verified),
        r is Ok <==> (old(ctx).admin@ == old(ctx).registry.admin@ && !old(ctx).agent.verified),
        r is Err ==> *final(ctx) == *old(ctx),
        old(ctx).agent.verified ==> final(ctx).agent.verified,
        r is Ok ==> {
            &&& final(ctx).agent.verified
            &&& final(ctx).agent.updated_at == now
            &&& final(ctx).agent.same_identity_and_metadata(&old(ctx).agent)
            &&& final(ctx).agent.reputation_view() == old(ctx).agent.reputation_view()
            &&& final(ctx).admin == old(ctx).admin
            &&& final(ctx).registry == old(ctx).registry
        },
{
    if !ctx.registry.admin.same_as(&ctx.admin) {
        return Err(RegistryError::Unauthorized);
    }
    if ctx.agent.verified {
        return Err(RegistryError::AlreadyVerified);
    }
    ctx.agent.verified = true;
    ctx.agent.updated_at = now;
    Ok(())
}

} // verus!
