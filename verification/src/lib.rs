//! Verified core of the Lance marketplace: the escrow contract's state
//! machine, the reputation contract's scoring rules, reputation badges, and
//! the backend's configuration logic.
pub mod address;
pub mod escrow_types;
pub mod escrow_spec;
pub mod escrow;
pub mod escrow_laws;
pub mod reputation;
pub mod reputation_laws;
pub mod profile;
pub mod job_registry;
pub mod db;
pub mod write_recovery;
