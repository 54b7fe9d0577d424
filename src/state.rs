//! The persisted records: the registry singleton, agents and their audit trail.
use crate::address::Address;
use vstd::prelude::*;

verus! {

/// Longest accepted agent name, in characters.
pub const MAX_NAME_LEN: usize = 64;

/// Longest accepted capability description, in characters.
pub const MAX_CAPABILITIES_LEN: usize = 256;

/// Largest accepted magnitude of one reputation adjustment.
pub const MAX_REPUTATION_DELTA: i32 = 1000;

/// A hexadecimal digit, in either case.
pub open spec fn is_hex_digit(c: char) -> bool {
    ('0' <= c && c <= '9') || ('a' <= c && c <= 'f') || ('A' <= c && c <= 'F')
}

/// `s` has the shape `sha256:<hex>`, with at least one hex digit.
pub open spec fn is_model_hash(s: Seq<char>) -> bool {
    &&& s.len() > 7
    &&& s[0] == 's' && s[1] == 'h' && s[2] == 'a' && s[3] == '2'
    &&& s[4] == '5' && s[5] == '6' && s[6] == ':'
    &&& forall|i: int| 7 <= i < s.len() ==> is_hex_digit(#[trigger] s[i])
}

/// `x` clamped into the range of `i64`.
pub open spec fn clamp_i64(x: int) -> i64 {
    if x < i64::MIN {
        i64::MIN
    } else if x > i64::MAX {
        i64::MAX
    } else {
        x as i64
    }
}

/// `x + y`, held at `u64::MAX`.
pub open spec fn sat_add(x: u64, y: u64) -> u64 {
    if x + y > u64::MAX {
        u64::MAX
    } else {
        (x + y) as u64
    }
}

/// The global singleton: the administrator and the number of agents registered.
#[derive(Clone, Copy, Debug)]
pub struct RegistryState {
    pub admin: Address,
    pub total_agents: u64,
    pub bump: u8,
}

/// One registered agent, keyed by `(owner, agent_id)`.
#[derive(Clone, Debug)]
pub struct AgentAccount {
    pub owner: Address,
    pub agent_id: u64,
    pub name: String,
    pub model_hash: String,
    pub capabilities: String,
    pub verified: bool,
    pub reputation_score: i64,
    pub challenges_passed: u64,
    pub challenges_failed: u64,
    pub updated_at: i64,
    pub bump: u8,
}

/// The reputation-related part of an agent: score, challenges passed, challenges failed.
pub type ReputationView = (i64, u64, u64);

impl AgentAccount {
    pub open spec fn reputation_view(&self) -> ReputationView {
        (self.reputation_score, self.challenges_passed, self.challenges_failed)
    }

    /// Every field but the reputation part and the time of the last change agrees.
    pub open spec fn same_identity_and_metadata(&self, other: &AgentAccount) -> bool {
        &&& self.owner@ == other.owner@
        &&& self.agent_id == other.agent_id
        &&& self.name@ == other.name@
        &&& self.model_hash@ == other.model_hash@
        &&& self.capabilities@ == other.capabilities@
        &&& self.bump == other.bump
    }
}

/// One committed audit batch: the Merkle root of its entries and its place in the trail.
#[derive(Clone, Copy, Debug)]
pub struct MerkleAuditRoot {
    pub agent: Address,
    pub merkle_root: [u8; 32],
    pub entries_count: u32,
    pub timestamp: i64,
    pub batch_index: u64,
    pub bump: u8,
}

/// The per-agent running totals of the audit trail.
#[derive(Clone, Copy, Debug)]
pub struct MerkleAuditSummary {
    pub agent: Address,
    pub total_batches: u64,
    pub total_entries: u64,
    pub last_batch_at: i64,
    pub bump: u8,
}

/// The counters of a summary: batches committed and entries committed.
pub type AuditTotals = (u64, u64);

impl MerkleAuditSummary {
    pub open spec fn totals(&self) -> AuditTotals {
        (self.total_batches, self.total_entries)
    }

    /// The summary of an agent that has committed nothing yet, as the host
    /// allocates it.
    pub fn empty() -> (r: MerkleAuditSummary)
        ensures
            r.totals() == (0u64, 0u64),
            r.agent@ == Seq::new(32, |i: int| 0u8),
            r.last_batch_at == 0,
            r.bump == 0,
    {
        let r = MerkleAuditSummary {
            agent: Address { bytes: [0u8; 32] },
            total_batches: 0,
            total_entries: 0,
            last_batch_at: 0,
            bump: 0,
        };
        assert(r.agent@ =~= Seq::new(32, |i: int| 0u8));
        r
    }
}

} // verus!
