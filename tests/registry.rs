use agent_registry::address::{agent_address, audit_root_address, registry_address, summary_address, u64_le_bytes, Address};
use agent_registry::errors::RegistryError;
use agent_registry::instructions::register_agent::{is_valid_model_hash, RegisterAgent};
use agent_registry::instructions::store_merkle_audit::{handler as commit_batch, StoreMerkleAudit, StoreMerkleAuditError};
use agent_registry::instructions::update_agent::UpdateAgent;
use agent_registry::instructions::update_reputation::UpdateReputation;
use agent_registry::instructions::verify_agent::VerifyAgent;
use agent_registry::state::{AgentAccount, MerkleAuditRoot, MerkleAuditSummary, RegistryState};
use agent_registry::{initialize, register_agent, update_agent, update_reputation, verify_agent};
use anchor_lang::solana_program::pubkey::Pubkey;

const HASH: &str = "sha256:ab12cd34ef56";

fn key(b: u8) -> Address {
    Address { bytes: [b; 32] }
}

fn fresh_registry() -> RegistryState {
    initialize(key(0xAD), 254)
}

fn new_agent(owner: Address, id: u64) -> AgentAccount {
    let mut ctx = RegisterAgent { owner, registry: fresh_registry() };
    register_agent(&mut ctx, id, 255, "X".to_string(), HASH.to_string(), "c".to_string(), 100).unwrap()
}

fn empty_root() -> MerkleAuditRoot {
    MerkleAuditRoot { agent: key(0), merkle_root: [0; 32], entries_count: 0, timestamp: 0, batch_index: 0, bump: 0 }
}

fn audit_ctx(caller: Address) -> StoreMerkleAudit {
    StoreMerkleAudit {
        owner: caller,
        agent: new_agent(key(0xA1), 7),
        agent_key: key(0x77),
        audit_summary: MerkleAuditSummary::empty(),
        summary_bump: 250,
        audit_root: empty_root(),
        root_bump: 251,
    }
}

#[test]
fn initialize_sets_admin_and_zero_count() {
    let r = fresh_registry();
    assert_eq!(r.admin, key(0xAD));
    assert_eq!(r.total_agents, 0);
    assert_eq!(r.bump, 254);
}

#[test]
fn register_then_read_fresh_agent() {
    let mut ctx = RegisterAgent { owner: key(0xA1), registry: fresh_registry() };
    let a = register_agent(&mut ctx, 7, 255, "X".to_string(), "sha256:ab12".to_string(), "c".to_string(), 100).unwrap();
    assert_eq!(a.owner, key(0xA1));
    assert_eq!(a.agent_id, 7);
    assert_eq!(a.name, "X");
    assert_eq!(a.model_hash, "sha256:ab12");
    assert_eq!(a.capabilities, "c");
    assert!(!a.verified);
    assert_eq!(a.reputation_score, 0);
    assert_eq!(a.challenges_passed, 0);
    assert_eq!(a.challenges_failed, 0);
    assert_eq!(a.updated_at, 100);
    assert_eq!(ctx.registry.total_agents, 1);
}

#[test]
fn register_name_boundary() {
    let mut ctx = RegisterAgent { owner: key(1), registry: fresh_registry() };
    let ok = register_agent(&mut ctx, 1, 0, "n".repeat(64), HASH.to_string(), String::new(), 0);
    assert!(ok.is_ok());
    let err = register_agent(&mut ctx, 2, 0, "n".repeat(65), HASH.to_string(), String::new(), 0);
    assert_eq!(err.unwrap_err(), RegistryError::NameTooLong);
    assert_eq!(ctx.registry.total_agents, 1);
}

#[test]
fn register_rejects_malformed_model_hashes() {
    for bad in ["", "sha256:", "sha256:xyz", "SHA256:ab", "md5:ab12", "sha256ab12", "sha256:ab 12"] {
        let mut ctx = RegisterAgent { owner: key(1), registry: fresh_registry() };
        let r = register_agent(&mut ctx, 1, 0, "a".to_string(), bad.to_string(), String::new(), 0);
        assert_eq!(r.unwrap_err(), RegistryError::InvalidModelHash, "{bad}");
        assert_eq!(ctx.registry.total_agents, 0);
    }
    assert!(is_valid_model_hash("sha256:0123456789abcdefABCDEF"));
    assert!(!is_valid_model_hash("sha256:g"));
}

#[test]
fn register_capabilities_boundary() {
    let mut ctx = RegisterAgent { owner: key(1), registry: fresh_registry() };
    assert!(register_agent(&mut ctx, 1, 0, "a".to_string(), HASH.to_string(), "c".repeat(256), 0).is_ok());
    let r = register_agent(&mut ctx, 2, 0, "a".to_string(), HASH.to_string(), "c".repeat(257), 0);
    assert_eq!(r.unwrap_err(), RegistryError::CapabilitiesTooLong);
}

#[test]
fn register_checks_name_before_hash() {
    let mut ctx = RegisterAgent { owner: key(1), registry: fresh_registry() };
    let r = register_agent(&mut ctx, 1, 0, "n".repeat(65), "bad".to_string(), "c".repeat(300), 0);
    assert_eq!(r.unwrap_err(), RegistryError::NameTooLong);
}

#[test]
fn register_full_registry() {
    let mut registry = fresh_registry();
    registry.total_agents = u64::MAX;
    let mut ctx = RegisterAgent { owner: key(1), registry };
    let r = register_agent(&mut ctx, 1, 0, "a".to_string(), HASH.to_string(), String::new(), 0);
    assert_eq!(r.unwrap_err(), RegistryError::RegistryFull);
    assert_eq!(ctx.registry.total_agents, u64::MAX);
}

#[test]
fn update_agent_replaces_given_fields_only() {
    let mut ctx = UpdateAgent { owner: key(0xA1), agent: new_agent(key(0xA1), 7) };
    update_agent(&mut ctx, Some("Y".to_string()), None, 200).unwrap();
    assert_eq!(ctx.agent.name, "Y");
    assert_eq!(ctx.agent.capabilities, "c");
    assert_eq!(ctx.agent.updated_at, 200);
    update_agent(&mut ctx, None, Some("d".to_string()), 300).unwrap();
    assert_eq!(ctx.agent.name, "Y");
    assert_eq!(ctx.agent.capabilities, "d");
    update_agent(&mut ctx, None, None, 400).unwrap();
    assert_eq!(ctx.agent.updated_at, 400);
}

#[test]
fn update_agent_length_errors_change_nothing() {
    let mut ctx = UpdateAgent { owner: key(0xA1), agent: new_agent(key(0xA1), 7) };
    let r = update_agent(&mut ctx, Some("n".repeat(65)), Some("d".to_string()), 200);
    assert_eq!(r.unwrap_err(), RegistryError::NameTooLong);
    let r = update_agent(&mut ctx, Some("Z".to_string()), Some("d".repeat(257)), 200);
    assert_eq!(r.unwrap_err(), RegistryError::CapabilitiesTooLong);
    assert_eq!(ctx.agent.name, "X");
    assert_eq!(ctx.agent.capabilities, "c");
    assert_eq!(ctx.agent.updated_at, 100);
}

#[test]
fn non_owner_cannot_update_or_commit() {
    let mut ctx = UpdateAgent { owner: key(0xB2), agent: new_agent(key(0xA1), 7) };
    let r = update_agent(&mut ctx, Some("Y".to_string()), None, 200);
    assert_eq!(r.unwrap_err(), RegistryError::Unauthorized);
    assert_eq!(ctx.agent.name, "X");

    let mut audit = audit_ctx(key(0xB2));
    let r = commit_batch(&mut audit, [9; 32], 3, 200);
    assert_eq!(r.unwrap_err(), StoreMerkleAuditError::NotAgentOwner);
    assert_eq!(audit.audit_summary.total_batches, 0);
}

#[test]
fn non_admin_cannot_verify_or_adjust() {
    let mut v = VerifyAgent { admin: key(0xA1), registry: fresh_registry(), agent: new_agent(key(0xA1), 7) };
    assert_eq!(verify_agent(&mut v, 200).unwrap_err(), RegistryError::Unauthorized);
    assert!(!v.agent.verified);
    let mut u = UpdateReputation { authority: key(0xA1), registry: fresh_registry(), agent: new_agent(key(0xA1), 7) };
    assert_eq!(update_reputation(&mut u, 10, 200).unwrap_err(), RegistryError::Unauthorized);
    assert_eq!(u.agent.reputation_score, 0);
}

#[test]
fn verify_twice_rejects_second() {
    let mut v = VerifyAgent { admin: key(0xAD), registry: fresh_registry(), agent: new_agent(key(0xA1), 7) };
    verify_agent(&mut v, 200).unwrap();
    assert!(v.agent.verified);
    assert_eq!(v.agent.updated_at, 200);
    assert_eq!(verify_agent(&mut v, 300).unwrap_err(), RegistryError::AlreadyVerified);
    assert!(v.agent.verified);
    assert_eq!(v.agent.updated_at, 200);
}

#[test]
fn reputation_sequence_counts_and_sums() {
    let mut u = UpdateReputation { authority: key(0xAD), registry: fresh_registry(), agent: new_agent(key(0xA1), 7) };
    let deltas = [1000, -300, 0, 5, -1000, 0, 1];
    for d in deltas {
        update_reputation(&mut u, d, 500).unwrap();
    }
    assert_eq!(u.agent.reputation_score, -294);
    assert_eq!(u.agent.challenges_passed, 3);
    assert_eq!(u.agent.challenges_failed, 2);
    assert_eq!(u.agent.challenges_passed + u.agent.challenges_failed, 5);
    assert_eq!(u.agent.updated_at, 500);
}

#[test]
fn reputation_saturates_at_bounds() {
    let mut u = UpdateReputation { authority: key(0xAD), registry: fresh_registry(), agent: new_agent(key(0xA1), 7) };
    u.agent.reputation_score = i64::MAX - 10;
    u.agent.challenges_passed = u64::MAX;
    update_reputation(&mut u, 1000, 1).unwrap();
    assert_eq!(u.agent.reputation_score, i64::MAX);
    assert_eq!(u.agent.challenges_passed, u64::MAX);
    u.agent.reputation_score = i64::MIN + 3;
    update_reputation(&mut u, -1000, 2).unwrap();
    assert_eq!(u.agent.reputation_score, i64::MIN);
    assert_eq!(u.agent.challenges_failed, 1);
}

#[test]
fn reputation_delta_too_large() {
    let mut u = UpdateReputation { authority: key(0xAD), registry: fresh_registry(), agent: new_agent(key(0xA1), 7) };
    for d in [1500, -1500, 1001, -1001, i32::MIN, i32::MAX] {
        assert_eq!(update_reputation(&mut u, d, 9).unwrap_err(), RegistryError::ReputationDeltaTooLarge);
    }
    assert_eq!(u.agent.reputation_score, 0);
    assert_eq!(u.agent.challenges_passed, 0);
    assert_eq!(u.agent.challenges_failed, 0);
    assert_eq!(u.agent.updated_at, 100);
    assert!(update_reputation(&mut u, -1000, 9).is_ok());
    assert_eq!(u.agent.reputation_score, -1000);
}

#[test]
fn commit_batches_are_contiguous() {
    let mut ctx = audit_ctx(key(0xA1));
    let counts = [3u32, 1, 10, 7];
    for (i, e) in counts.iter().enumerate() {
        commit_batch(&mut ctx, [i as u8; 32], *e, 1000 + i as i64).unwrap();
        assert_eq!(ctx.audit_root.batch_index, i as u64);
        assert_eq!(ctx.audit_root.entries_count, *e);
        assert_eq!(ctx.audit_root.merkle_root, [i as u8; 32]);
        assert_eq!(ctx.audit_root.timestamp, 1000 + i as i64);
        assert_eq!(ctx.audit_root.agent, key(0x77));
        assert_eq!(ctx.audit_root.bump, 251);
    }
    assert_eq!(ctx.audit_summary.total_batches, 4);
    assert_eq!(ctx.audit_summary.total_entries, 21);
    assert_eq!(ctx.audit_summary.last_batch_at, 1003);
    assert_eq!(ctx.audit_summary.agent, key(0x77));
    assert_eq!(ctx.audit_summary.bump, 250);
}

#[test]
fn commit_empty_batch_is_rejected() {
    let mut ctx = audit_ctx(key(0xA1));
    assert_eq!(commit_batch(&mut ctx, [1; 32], 0, 5).unwrap_err(), StoreMerkleAuditError::EmptyBatch);
    assert_eq!(ctx.audit_summary.total_batches, 0);
    assert_eq!(ctx.audit_summary.total_entries, 0);
    assert_eq!(ctx.audit_root.timestamp, 0);
}

#[test]
fn commit_totals_saturate() {
    let mut ctx = audit_ctx(key(0xA1));
    ctx.audit_summary.total_batches = u64::MAX;
    ctx.audit_summary.total_entries = u64::MAX - 1;
    commit_batch(&mut ctx, [1; 32], u32::MAX, 5).unwrap();
    assert_eq!(ctx.audit_root.batch_index, u64::MAX);
    assert_eq!(ctx.audit_summary.total_batches, u64::MAX);
    assert_eq!(ctx.audit_summary.total_entries, u64::MAX);
}

#[test]
fn error_messages() {
    assert_eq!(RegistryError::AlreadyVerified.message(), "Agent is already verified");
    assert_eq!(StoreMerkleAuditError::EmptyBatch.message(), "Entries count must be greater than 0");
}

#[test]
fn le_bytes_of_u64() {
    assert_eq!(u64_le_bytes(7), 7u64.to_le_bytes().to_vec());
    assert_eq!(u64_le_bytes(0x0102_0304_0506_0708), vec![8, 7, 6, 5, 4, 3, 2, 1]);
    assert_eq!(u64_le_bytes(u64::MAX), vec![255; 8]);
}

#[test]
fn agent_address_is_a_function_of_its_key() {
    let program = key(0x42);
    let a1 = agent_address(&program, &key(0xA1), 7).unwrap();
    let a2 = agent_address(&program, &key(0xA1), 7).unwrap();
    let b = agent_address(&program, &key(0xA1), 8).unwrap();
    assert_eq!(a1, a2);
    assert_ne!(a1.0, b.0);
    let pid = Pubkey::new_from_array(program.bytes);
    let owner = Pubkey::new_from_array(key(0xA1).bytes);
    let (expected, bump) = Pubkey::find_program_address(&[b"agent", owner.as_ref(), &7u64.to_le_bytes()], &pid);
    assert_eq!(a1.0.bytes, expected.to_bytes());
    assert_eq!(a1.1, bump);
    assert_ne!(a1.0, program);
}

#[test]
fn other_addresses_match_their_seeds() {
    let program = key(0x42);
    let pid = Pubkey::new_from_array(program.bytes);
    let agent = key(0x77);
    let ak = Pubkey::new_from_array(agent.bytes);
    let (reg, rb) = Pubkey::find_program_address(&[b"registry"], &pid);
    assert_eq!(registry_address(&program).unwrap(), (Address { bytes: reg.to_bytes() }, rb));
    let (sum, sb) = Pubkey::find_program_address(&[b"merkle_summary", ak.as_ref()], &pid);
    assert_eq!(summary_address(&program, &agent).unwrap(), (Address { bytes: sum.to_bytes() }, sb));
    let (root, rtb) = Pubkey::find_program_address(&[b"merkle_audit", ak.as_ref(), &3u64.to_le_bytes()], &pid);
    assert_eq!(audit_root_address(&program, &agent, 3).unwrap(), (Address { bytes: root.to_bytes() }, rtb));
    assert_ne!(audit_root_address(&program, &agent, 3).unwrap().0, audit_root_address(&program, &agent, 4).unwrap().0);
}
