//! The mining engine: difficulty targets, the nonce search and batch hashing.

pub mod control;
pub mod cuda_manager;
pub mod difficulty;
pub mod miner;
