//! Record identities and deterministic, seed-derived record addresses.
use anchor_lang::solana_program::pubkey::Pubkey;
use vstd::prelude::*;
use vstd::arithmetic::div_mod::lemma_fundamental_div_mod;

verus! {

/// A 32-byte identity: a signer's public key or a record's address.
#[derive(Clone, Copy, Debug, Hash)]
pub struct Address {
    pub bytes: [u8; 32],
}

impl View for Address {
    type V = Seq<u8>;

    open spec fn view(&self) -> Seq<u8> {
        self.bytes@
    }
}

impl Address {
    /// The 32 bytes as a vector.
    pub fn to_byte_vec(&self) -> (r: Vec<u8>)
        ensures
            r@ == self@,
    {
        let mut out: Vec<u8> = Vec::new();
        let mut i: usize = 0;
        while i < 32
            invariant
                i <= 32,
                out@ == self@.subrange(0, i as int),
            decreases 32 - i,
        {
            out.push(self.bytes[i]);
            i = i + 1;
            assert(out@ =~= self@.subrange(0, i as int));
        }
        assert(self@.subrange(0, 32) =~= self@);
        out
    }

    /// Compares two identities byte by byte.
    pub fn same_as(&self, other: &Address) -> (r: bool)
        ensures
            r == (self@ == other@),
    {
        let mut i: usize = 0;
        while i < 32
            invariant
                i <= 32,
                forall|j: int| 0 <= j < i ==> self@[j] == other@[j],
            decreases 32 - i,
        {
            if self.bytes[i] != other.bytes[i] {
                return false;
            }
            i = i + 1;
        }
        assert(self@ =~= other@);
        true
    }
}

impl PartialEq for Address {
    fn eq(&self, other: &Address) -> (r: bool) {
        self.same_as(other)
    }
}

impl Eq for Address {}

impl vstd::std_specs::cmp::PartialEqSpecImpl for Address {
    open spec fn obeys_eq_spec() -> bool {
        true
    }

    open spec fn eq_spec(&self, other: &Address) -> bool {
        self@ == other@
    }
}

/// The address and bump seed that the program-derived-address search finds
/// for the given seeds under the given program, or `None` where it finds none.
pub uninterp spec fn program_address_of(seeds: Seq<Seq<u8>>, program_id: Seq<u8>) -> Option<(Seq<u8>, u8)>;

/// The seeds of a derivation as plain byte sequences.
pub open spec fn seeds_view(seeds: Seq<Vec<u8>>) -> Seq<Seq<u8>> {
    seeds.map_values(|s: Vec<u8>| s@)
}

/// Relies on `Pubkey::try_find_program_address` of solana-program: a pure
/// function of the seeds and the program id that returns `None`, without
/// panicking, where no bump seed gives an address or a seed is malformed.
#[verifier::external_body]
fn try_find_program_address(seeds: &Vec<Vec<u8>>, program_id: &Address) -> (r: Option<(Address, u8)>)
    ensures
        r is None <==> program_address_of(seeds_view(seeds@), program_id@) is None,
        r matches Some((a, b)) ==> program_address_of(seeds_view(seeds@), program_id@) == Some((a@, b)),
{
    let slices: Vec<&[u8]> = seeds.iter().map(|s| s.as_slice()).collect();
    Pubkey::try_find_program_address(&slices, &Pubkey::new_from_array(program_id.bytes))
        .map(|(key, bump)| (Address { bytes: key.to_bytes() }, bump))
}

/// The little-endian encoding of the lowest `n` bytes of `x`.
pub open spec fn le_bytes(x: nat, n: nat) -> Seq<u8>
    decreases n,
{
    if n == 0 {
        Seq::empty()
    } else {
        seq![(x % 256) as u8] + le_bytes(x / 256, (n - 1) as nat)
    }
}

/// The eight-byte little-endian encoding of `x`, as `u64::to_le_bytes` gives it.
pub fn u64_le_bytes(x: u64) -> (r: Vec<u8>)
    ensures
        r@ == le_bytes(x as nat, 8),
{
    let mut out: Vec<u8> = Vec::new();
    let mut rest: u64 = x;
    let mut i: usize = 0;
    while i < 8
        invariant
            i <= 8,
            out@ + le_bytes(rest as nat, (8 - i) as nat) == le_bytes(x as nat, 8),
        decreases 8 - i,
    {
        let ghost before = out@;
        assert(le_bytes(rest as nat, (8 - i) as nat) == seq![(rest % 256) as u8] + le_bytes(
            (rest / 256) as nat,
            (8 - i - 1) as nat,
        ));
        out.push((rest % 256) as u8);
        assert(out@ + le_bytes((rest / 256) as nat, (8 - i - 1) as nat) =~= before + (seq![(rest
            % 256) as u8] + le_bytes((rest / 256) as nat, (8 - i - 1) as nat)));
        rest = rest / 256;
        i = i + 1;
    }
    assert(out@ =~= out@ + le_bytes(rest as nat, 0));
    out
}

/// 256 to the power `n`.
pub open spec fn pow256(n: nat) -> nat
    decreases n,
{
    if n == 0 {
        1
    } else {
        256 * pow256((n - 1) as nat)
    }
}

proof fn lemma_pow256_8()
    ensures
        pow256(8) == 0x1_0000_0000_0000_0000,
{
    reveal_with_fuel(pow256, 9);
}

/// Two numbers below `256^n` with the same `n`-byte encoding are equal.
pub proof fn lemma_le_bytes_injective(x: nat, y: nat, n: nat)
    requires
        x < pow256(n),
        y < pow256(n),
        le_bytes(x, n) == le_bytes(y, n),
    ensures
        x == y,
    decreases n,
{
    if n > 0 {
        let p = pow256((n - 1) as nat);
        let lx = le_bytes(x, n);
        let ly = le_bytes(y, n);
        assert(lx[0] == ly[0]);
        assert(x % 256 == y % 256);
        assert(le_bytes(x / 256, (n - 1) as nat) =~= lx.subrange(1, lx.len() as int));
        assert(le_bytes(y / 256, (n - 1) as nat) =~= ly.subrange(1, ly.len() as int));
        assert(x / 256 < p) by (nonlinear_arith)
            requires
                x < 256 * p,
        ;
        assert(y / 256 < p) by (nonlinear_arith)
            requires
                y < 256 * p,
        ;
        lemma_le_bytes_injective(x / 256, y / 256, (n - 1) as nat);
        lemma_fundamental_div_mod(x as int, 256);
        lemma_fundamental_div_mod(y as int, 256);
    }
}

/// The seed prefix of an agent record's address.
pub open spec fn agent_prefix() -> Seq<u8> {
    seq![97u8, 103u8, 101u8, 110u8, 116u8]  // "agent"
}

/// The seed prefix of the registry singleton's address.
pub open spec fn registry_prefix() -> Seq<u8> {
    seq![114u8, 101u8, 103u8, 105u8, 115u8, 116u8, 114u8, 121u8]  // "registry"
}

/// The seed prefix of an agent's audit summary address.
pub open spec fn summary_prefix() -> Seq<u8> {
    seq![109u8, 101u8, 114u8, 107u8, 108u8, 101u8, 95u8, 115u8, 117u8, 109u8, 109u8, 97u8, 114u8, 121u8]  // "merkle_summary"
}

/// The seed prefix of an audit batch record's address.
pub open spec fn audit_root_prefix() -> Seq<u8> {
    seq![109u8, 101u8, 114u8, 107u8, 108u8, 101u8, 95u8, 97u8, 117u8, 100u8, 105u8, 116u8]  // "merkle_audit"
}

/// The key `("registry")` as seeds.
pub open spec fn registry_seeds() -> Seq<Seq<u8>> {
    seq![registry_prefix()]
}

/// The key `("agent", owner, agent_id)` as seeds.
pub open spec fn agent_seeds(owner: Seq<u8>, agent_id: u64) -> Seq<Seq<u8>> {
    seq![agent_prefix(), owner, le_bytes(agent_id as nat, 8)]
}

/// The key `("audit_summary", agent)` as seeds.
pub open spec fn summary_seeds(agent: Seq<u8>) -> Seq<Seq<u8>> {
    seq![summary_prefix(), agent]
}

/// The key `("audit_root", agent, batch_index)` as seeds.
pub open spec fn audit_root_seeds(agent: Seq<u8>, batch_index: u64) -> Seq<Seq<u8>> {
    seq![audit_root_prefix(), agent, le_bytes(batch_index as nat, 8)]
}

/// `r` is the derivation `d` carried into the library's types.
pub open spec fn derived_as(r: Option<(Address, u8)>, d: Option<(Seq<u8>, u8)>) -> bool {
    match r {
        None => d is None,
        Some((a, bump)) => d == Some((a@, bump)),
    }
}

fn derive(seeds: Vec<Vec<u8>>, program_id: &Address) -> (r: Option<(Address, u8)>)
    ensures
        derived_as(r, program_address_of(seeds_view(seeds@), program_id@)),
{
    try_find_program_address(&seeds, program_id)
}

/// The address of the registry singleton under `program_id`, with its bump seed.
pub fn registry_address(program_id: &Address) -> (r: Option<(Address, u8)>)
    ensures
        derived_as(r, program_address_of(registry_seeds(), program_id@)),
{
    let seeds: Vec<Vec<u8>> = vec![vec![114u8, 101u8, 103u8, 105u8, 115u8, 116u8, 114u8, 121u8]];
    assert(seeds_view(seeds@) =~= registry_seeds());
    derive(seeds, program_id)
}

/// The address of the agent record keyed by `(owner, agent_id)`, with its bump seed.
pub fn agent_address(program_id: &Address, owner: &Address, agent_id: u64) -> (r: Option<(Address, u8)>)
    ensures
        derived_as(r, program_address_of(agent_seeds(owner@, agent_id), program_id@)),
{
    let seeds: Vec<Vec<u8>> = vec![
        vec![97u8, 103u8, 101u8, 110u8, 116u8],
        owner.to_byte_vec(),
        u64_le_bytes(agent_id),
    ];
    assert(seeds_view(seeds@) =~= agent_seeds(owner@, agent_id));
    derive(seeds, program_id)
}

/// The address of the audit summary of the agent record at `agent`, with its bump seed.
pub fn summary_address(program_id: &Address, agent: &Address) -> (r: Option<(Address, u8)>)
    ensures
        derived_as(r, program_address_of(summary_seeds(agent@), program_id@)),
{
    let seeds: Vec<Vec<u8>> = vec![
        vec![109u8, 101u8, 114u8, 107u8, 108u8, 101u8, 95u8, 115u8, 117u8, 109u8, 109u8, 97u8, 114u8, 121u8],
        agent.to_byte_vec(),
    ];
    assert(seeds_view(seeds@) =~= summary_seeds(agent@));
    derive(seeds, program_id)
}

/// The address of batch `batch_index` of the agent record at `agent`, with its bump seed.
pub fn audit_root_address(program_id: &Address, agent: &Address, batch_index: u64) -> (r: Option<(Address, u8)>)
    ensures
        derived_as(r, program_address_of(audit_root_seeds(agent@, batch_index), program_id@)),
{
    let seeds: Vec<Vec<u8>> = vec![
        vec![109u8, 101u8, 114u8, 107u8, 108u8, 101u8, 95u8, 97u8, 117u8, 100u8, 105u8, 116u8],
        agent.to_byte_vec(),
        u64_le_bytes(batch_index),
    ];
    assert(seeds_view(seeds@) =~= audit_root_seeds(agent@, batch_index));
    derive(seeds, program_id)
}

/// Record addresses are a function of their key alone, and distinct keys give
/// distinct seeds: two agent keys derive their addresses from the same seeds
/// exactly when owner and id agree, and equal keys give equal derivations.
pub proof fn lemma_agent_key_addressing(o1: Seq<u8>, id1: u64, o2: Seq<u8>, id2: u64, program_id: Seq<u8>)
    ensures
        (agent_seeds(o1, id1) == agent_seeds(o2, id2)) <==> (o1 == o2 && id1 == id2),
        (o1 == o2 && id1 == id2) ==> program_address_of(agent_seeds(o1, id1), program_id)
            == program_address_of(agent_seeds(o2, id2), program_id),
{
    if agent_seeds(o1, id1) == agent_seeds(o2, id2) {
        assert(agent_seeds(o1, id1)[1] == agent_seeds(o2, id2)[1]);
        assert(agent_seeds(o1, id1)[2] == agent_seeds(o2, id2)[2]);
        lemma_pow256_8();
        lemma_le_bytes_injective(id1 as nat, id2 as nat, 8);
    }
}

/// Distinct batch indices of one agent give distinct seeds, so each batch
/// claims a slot of its own.
pub proof fn lemma_audit_root_seeds_distinct(agent: Seq<u8>, i: u64, j: u64)
    requires
        i != j,
    ensures
        audit_root_seeds(agent, i) != audit_root_seeds(agent, j),
{
    if audit_root_seeds(agent, i) == audit_root_seeds(agent, j) {
        assert(audit_root_seeds(agent, i)[2] == audit_root_seeds(agent, j)[2]);
        lemma_pow256_8();
        lemma_le_bytes_injective(i as nat, j as nat, 8);
    }
}

} // verus!
