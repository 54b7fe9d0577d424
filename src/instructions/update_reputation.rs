//! Bounded reputation adjustments by the administrator.
use crate::address::Address;
use crate::errors::RegistryError;
use crate::state::{clamp_i64, sat_add, AgentAccount, RegistryState, ReputationView, MAX_REPUTATION_DELTA};
use vstd::prelude::*;

verus! {

/// The records a reputation adjustment works on.
#[derive(Clone, Debug)]
pub struct UpdateReputation {
    /// The authenticated caller, who must be the registry's administrator.
    pub authority: Address,
    pub registry: RegistryState,
    pub agent: AgentAccount,
}

/// `delta` lies within the accepted magnitude.
pub open spec fn delta_in_bounds(delta: i32) -> bool {
    -1000 <= delta <= 1000
}

/// Score, passed and failed counts after one adjustment by `delta`: the score
/// moves by `delta`, clamped to `i64`; a positive delta counts a passed
/// challenge, a negative one a failed challenge, both counts held at `u64::MAX`.
pub open spec fn apply_delta(v: ReputationView, delta: i32) -> ReputationView {
    (
        clamp_i64(v.0 + delta),
        if delta > 0 { sat_add(v.1, 1) } else { v.1 },
        if delta < 0 { sat_add(v.2, 1) } else { v.2 },
    )
}

/// Score, passed and failed counts after the adjustments `ds` in order.
pub open spec fn apply_deltas(v: ReputationView, ds: Seq<i32>) -> ReputationView
    decreases ds.len(),
{
    if ds.len() == 0 {
        v
    } else {
        apply_delta(apply_deltas(v, ds.drop_last()), ds.last())
    }
}

/// The running sum of `ds` from zero, clamped to `i64` after each step.
pub open spec fn saturating_sum(ds: Seq<i32>) -> i64
    decreases ds.len(),
{
    if ds.len() == 0 {
        0
    } else {
        clamp_i64(saturating_sum(ds.drop_last()) + ds.last())
    }
}

/// How many of `ds` are not zero.
pub open spec fn count_nonzero(ds: Seq<i32>) -> nat
    decreases ds.len(),
{
    if ds.len() == 0 {
        0
    } else {
        count_nonzero(ds.drop_last()) + if ds.last() != 0 { 1nat } else { 0nat }
    }
}

/// From a fresh agent, a sequence of accepted adjustments leaves the score at
/// the saturating sum of the deltas and counts one challenge, passed or
/// failed, for each non-zero delta.
pub proof fn lemma_reputation_sequence(ds: Seq<i32>)
    requires
        ds.len() <= u64::MAX,
        forall|i: int| 0 <= i < ds.len() ==> delta_in_bounds(#[trigger] ds[i]),
    ensures
        apply_deltas((0i64, 0u64, 0u64), ds).0 == saturating_sum(ds),
        apply_deltas((0i64, 0u64, 0u64), ds).1 + apply_deltas((0i64, 0u64, 0u64), ds).2
            == count_nonzero(ds),
    decreases ds.len(),
{
    if ds.len() > 0 {
        let init = ds.drop_last();
        assert forall|i: int| 0 <= i < init.len() implies delta_in_bounds(#[trigger] init[i]) by {
            assert(init[i] == ds[i]);
        }
        lemma_reputation_sequence(init);
        lemma_count_bound(init);
    }
}

proof fn lemma_count_bound(ds: Seq<i32>)
    ensures
        count_nonzero(ds) <= ds.len(),
    decreases ds.len(),
{
    if ds.len() > 0 {
        lemma_count_bound(ds.drop_last());
    }
}

/// Adjusts the agent's reputation by `delta` at time `now`.
///
/// Only the administrator may do so (else `Unauthorized`), and only by at
/// most 1000 either way (else `ReputationDeltaTooLarge`); a rejected call
/// changes nothing. Otherwise the score and challenge counts change as
/// `apply_delta` says and `updated_at` becomes `now`.
pub fn handler(ctx: &mut UpdateReputation, delta: i32, now: i64) -> (r: Result<(), RegistryError>)
    ensures
        (r == Err::<(), _>(RegistryError::Unauthorized)) <==> old(ctx).authority@ != old(ctx).registry.admin@,
        (r == Err::<(), _>(RegistryError::ReputationDeltaTooLarge)) <==> (old(ctx).authority@
            == old(ctx).registry.admin@ && !delta_in_bounds(delta)),
        r is Ok <==> (old(ctx).authority@ == old(ctx).registry.admin@ && delta_in_bounds(delta)),
        r is Err ==> *final(ctx) == *old(ctx),
        r is Ok ==> {
            &&& final(ctx).agent.reputation_view() == apply_delta(old(ctx).agent.reputation_view(), delta)
            &&& final(ctx).agent.same_identity_and_metadata(&old(ctx).agent)
            &&& final(ctx).agent.verified == old(ctx).agent.verified
            &&& final(ctx).agent.updated_at == now
            &&& final(ctx).authority == old(ctx).authority
            &&& final(ctx).registry == old(ctx).registry
        },
{
    if !ctx.registry.admin.same_as(&ctx.authority) {
        return Err(RegistryError::Unauthorized);
    }
    if delta < -MAX_REPUTATION_DELTA || delta > MAX_REPUTATION_DELTA {
        return Err(RegistryError::ReputationDeltaTooLarge);
    }
    if delta > 0 {
        ctx.agent.challenges_passed = ctx.agent.challenges_passed.saturating_add(1);
    } else if delta < 0 {
        ctx.agent.challenges_failed = ctx.agent.challenges_failed.saturating_add(1);
    }
    ctx.agent.reputation_score = match ctx.agent.reputation_score.checked_add(delta as i64) {
        Some(v) => v,
        None => if delta > 0 { i64::MAX } else { i64::MIN },
    };
    ctx.agent.updated_at = now;
    Ok(())
}

} // verus!
