//! Appending one batch commitment to an agent's audit trail.
use crate::address::Address;
use crate::state::{sat_add, AgentAccount, AuditTotals, MerkleAuditRoot, MerkleAuditSummary};
use vstd::prelude::*;

verus! {

/// The records a batch commit works on.
#[derive(Clone, Debug)]
pub struct StoreMerkleAudit {
    /// The authenticated caller, who must own the agent.
    pub owner: Address,
    /// The agent being audited.
    pub agent: AgentAccount,
    /// The address of the agent's record.
    pub agent_key: Address,
    /// The agent's audit summary, as created empty on the first commit.
    pub audit_summary: MerkleAuditSummary,
    /// The bump seed of the summary's address.
    pub summary_bump: u8,
    /// The new batch record, at the address keyed by the summary's batch count.
    pub audit_root: MerkleAuditRoot,
    /// The bump seed of the new batch record's address.
    pub root_bump: u8,
}

/// Why a batch commit was rejected.
#[derive(Clone, Copy, Debug, PartialEq, Eq, Structural)]
pub enum StoreMerkleAuditError {
    NotAgentOwner,
    EmptyBatch,
}

impl StoreMerkleAuditError {
    /// A human-readable description of the error.
    pub fn message(&self) -> &'static str {
        match self {
            StoreMerkleAuditError::NotAgentOwner => "Only agent owner can store audit roots",
            StoreMerkleAuditError::EmptyBatch => "Entries count must be greater than 0",
        }
    }
}

/// The summary's counters after one commit of `entries` entries.
pub open spec fn commit_step(t: AuditTotals, entries: u32) -> AuditTotals {
    (sat_add(t.0, 1), sat_add(t.1, entries as u64))
}

/// The summary's counters after committing the batches `es` in order.
pub open spec fn totals_after(t: AuditTotals, es: Seq<u32>) -> AuditTotals
    decreases es.len(),
{
    if es.len() == 0 {
        t
    } else {
        commit_step(totals_after(t, es.drop_last()), es.last())
    }
}

/// The batch index that each of the commits `es` receives, in order.
pub open spec fn batch_indices(t: AuditTotals, es: Seq<u32>) -> Seq<u64> {
    Seq::new(es.len(), |i: int| totals_after(t, es.subrange(0, i)).0)
}

/// The sum of the entry counts `es`.
pub open spec fn sum_entries(es: Seq<u32>) -> nat
    decreases es.len(),
{
    if es.len() == 0 {
        0
    } else {
        sum_entries(es.drop_last()) + (es.last() as nat)
    }
}

proof fn lemma_totals_from_empty(es: Seq<u32>)
    requires
        es.len() <= u32::MAX,
    ensures
        totals_after((0u64, 0u64), es) == (es.len() as u64, sum_entries(es) as u64),
        sum_entries(es) <= es.len() * (u32::MAX as nat),
    decreases es.len(),
{
    if es.len() > 0 {
        let n = es.len();
        lemma_totals_from_empty(es.drop_last());
        let s = sum_entries(es.drop_last());
        assert(s + es.last() <= n * (u32::MAX as nat)) by (nonlinear_arith)
            requires
                s <= (n - 1) * (u32::MAX as nat),
                es.last() <= u32::MAX,
                n >= 1,
        ;
        assert(n * (u32::MAX as nat) <= u64::MAX) by (nonlinear_arith)
            requires
                n <= u32::MAX,
        ;
    }
}

/// Starting from an empty summary, commits of the batches `es` (each of one
/// entry or more) receive the batch indices `0, 1, 2, ...` in order, with no
/// gap or repeat, and leave `total_batches == es.len()` and `total_entries`
/// equal to the sum of the entry counts.
pub proof fn lemma_commit_sequence(es: Seq<u32>)
    requires
        es.len() <= u32::MAX,
        forall|i: int| 0 <= i < es.len() ==> es[i] >= 1,
    ensures
        totals_after((0u64, 0u64), es) == (es.len() as u64, sum_entries(es) as u64),
        batch_indices((0u64, 0u64), es) == Seq::new(es.len(), |i: int| i as u64),
{
    lemma_totals_from_empty(es);
    assert forall|i: int| 0 <= i < es.len() implies #[trigger] batch_indices((0u64, 0u64), es)[i]
        == i as u64 by {
        lemma_totals_from_empty(es.subrange(0, i));
    }
    assert(batch_indices((0u64, 0u64), es) =~= Seq::new(es.len(), |i: int| i as u64));
}

/// Commits a batch of `entries_count` audit entries, whose Merkle root was
/// computed elsewhere, as the agent's next batch at time `now`.
///
/// The caller must own the agent (else `NotAgentOwner`) and the batch must
/// hold an entry (else `EmptyBatch`); a rejected commit changes nothing. The
/// new record takes the summary's batch count before the commit as its
/// index; the summary counts one batch more and `entries_count` entries more,
/// both held at `u64::MAX`. The first commit also binds the summary to the agent.
pub fn handler(ctx: &mut StoreMerkleAudit, merkle_root: [u8; 32], entries_count: u32, now: i64) -> (r: Result<(), StoreMerkleAuditError>)
    ensures
        (r == Err::<(), _>(StoreMerkleAuditError::NotAgentOwner)) <==> old(ctx).owner@ != old(ctx).agent.owner@,
        (r == Err::<(), _>(StoreMerkleAuditError::EmptyBatch)) <==> (old(ctx).owner@ == old(ctx).agent.owner@
            && entries_count == 0),
        r is Ok <==> (old(ctx).owner@ == old(ctx).agent.owner@ && entries_count > 0),
        r is Err ==> *final(ctx) == *old(ctx),
        r is Ok ==> {
            let o = old(ctx).audit_summary;
            let s = final(ctx).audit_summary;
            &&& s.totals() == commit_step(o.totals(), entries_count)
            &&& s.last_batch_at == now
            &&& s.agent == (if o.total_batches == 0 { old(ctx).agent_key } else { o.agent })
            &&& s.bump == (if o.total_batches == 0 { old(ctx).summary_bump } else { o.bump })
            &&& final(ctx).audit_root == (MerkleAuditRoot {
                agent: old(ctx).agent_key,
                merkle_root,
                entries_count,
                timestamp: now,
                batch_index: o.total_batches,
                bump: old(ctx).root_bump,
            })
            &&& final(ctx).owner == old(ctx).owner
            &&& final(ctx).agent == old(ctx).agent
            &&& final(ctx).agent_key == old(ctx).agent_key
            &&& final(ctx).summary_bump == old(ctx).summary_bump
            &&& final(ctx).root_bump == old(ctx).root_bump
        },
{
    if !ctx.agent.owner.same_as(&ctx.owner) {
        return Err(StoreMerkleAuditError::NotAgentOwner);
    }
    if entries_count == 0 {
        return Err(StoreMerkleAuditError::EmptyBatch);
    }
    let agent_key = ctx.agent_key;

    if ctx.audit_summary.total_batches == 0 {
        ctx.audit_summary.agent = agent_key;
        ctx.audit_summary.bump = ctx.summary_bump;
    }

    let batch_index = ctx.audit_summary.total_batches;
    ctx.audit_root = MerkleAuditRoot {
        agent: agent_key,
        merkle_root,
        entries_count,
        timestamp: now,
        batch_index,
        bump: ctx.root_bump,
    };

    ctx.audit_summary.total_batches = ctx.audit_summary.total_batches.saturating_add(1);
    ctx.audit_summary.total_entries = ctx.audit_summary.total_entries.saturating_add(entries_count as u64);
    ctx.audit_summary.last_batch_at = now;
    Ok(())
}

} // verus!
