//! The node's own business: keys and addresses, the peers it knows, and the
//! kinds of transaction its wallets see.

pub mod blockchain;
pub mod crypto;
pub mod daemon;
pub mod mempool;
pub mod p2p;
pub mod sm2;
pub mod wallet;
pub mod wallet_manager;
pub mod wallet_sync_helper;
