//! Creation of the registry singleton.
use crate::address::Address;
use crate::state::RegistryState;
use vstd::prelude::*;

verus! {

/// Creates the registry with the caller `admin` as its administrator and no
/// agents. The host creates the singleton at most once.
pub fn handler(admin: Address, bump: u8) -> (r: RegistryState)
    ensures
        r.admin == admin,
        r.total_agents == 0,
        r.bump == bump,
{
    RegistryState { admin, total_agents: 0, bump }
}

} // verus!
