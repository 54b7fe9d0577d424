//! The reasons an operation is rejected.
use vstd::prelude::*;

verus! {

/// Why a registry operation was rejected.
#[derive(Clone, Copy, Debug, PartialEq, Eq, Structural)]
pub enum RegistryError {
    NameTooLong,
    InvalidModelHash,
    CapabilitiesTooLong,
    AlreadyVerified,
    Unauthorized,
    ReputationDeltaTooLarge,
    AgentNotFound,
    RegistryFull,
}

impl RegistryError {
    /// A human-readable description of the error.
    pub fn message(&self) -> &'static str {
        match self {
            RegistryError::NameTooLong => "Name is too long (max 64 characters)",
            RegistryError::InvalidModelHash => "Model hash is invalid (must be sha256:...)",
            RegistryError::CapabilitiesTooLong => "Capabilities string is too long (max 256 characters)",
            RegistryError::AlreadyVerified => "Agent is already verified",
            RegistryError::Unauthorized => "Unauthorized: only owner can update agent",
            RegistryError::ReputationDeltaTooLarge => "Reputation delta too large",
            RegistryError::AgentNotFound => "Agent not found",
            RegistryError::RegistryFull => "Registry is full",
        }
    }
}

} // verus!
