//! Bills: their identity, their hashes, and the issuing and verifying of them.

pub mod bill_registry;
pub mod digital_bill;
pub mod genesis;
