//! The operations, one module each: the accounts each one is handed and its handler.
pub mod initialize;
pub mod register_agent;
pub mod store_merkle_audit;
pub mod update_agent;
pub mod update_reputation;
pub mod verify_agent;
