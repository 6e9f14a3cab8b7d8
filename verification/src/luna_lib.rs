//! The front door of the library: its version, what it offers, and ready-made
//! parts.

use vstd::prelude::*;
use vstd::string::*;
use crate::mining::miner::{GenesisMiner, MiningStats};
use crate::node::blockchain::{Block, BlockchainManager};
use crate::node::mempool::MempoolManager;
use crate::node::wallet::LunaWallet;
use crate::text::without_trailing;
use crate::transactions::transactions::{has_usual_fees, TransactionManager};

verus! {

/// Handle for the library as callers see it.
pub struct LunaLib;

/// The parts of the library, each with a line on what it is for.
pub open spec fn available_classes() -> Seq<(Seq<char>, Seq<char>)> {
    seq![
        ("Wallet"@, "LunaWallet - Cryptocurrency wallet management"@),
        ("Miner"@, "GenesisMiner - Mining operations"@),
        ("GTX"@, "GTXGenesis - GTX token operations"@),
        ("Transaction"@, "TransactionManager - Transaction handling"@),
        ("Blockchain"@, "BlockchainManager - Blockchain operations with endpoint support"@),
        ("Mempool"@, "MempoolManager - Memory Pool management and endpoint"@),
    ]
}

impl LunaLib {
    /// The version of the library.
    pub fn get_version() -> (version: &'static str)
        ensures
            version@ == "1.0.0"@,
    {
        "1.0.0"
    }

    /// The parts of the library, each with a line on what it is for.
    pub fn get_available_classes() -> (classes: Vec<(&'static str, &'static str)>)
        ensures
            classes@.len() == 6,
            forall|i: int|
                0 <= i < 6 ==> (#[trigger] classes@[i]).0@ == available_classes()[i].0
                    && classes@[i].1@ == available_classes()[i].1,
    {
        let mut classes: Vec<(&'static str, &'static str)> = Vec::new();
        classes.push(("Wallet", "LunaWallet - Cryptocurrency wallet management"));
        classes.push(("Miner", "GenesisMiner - Mining operations"));
        classes.push(("GTX", "GTXGenesis - GTX token operations"));
        classes.push(("Transaction", "TransactionManager - Transaction handling"));
        classes.push(
            ("Blockchain", "BlockchainManager - Blockchain operations with endpoint support"),
        );
        classes.push(("Mempool", "MempoolManager - Memory Pool management and endpoint"));
        classes
    }
}

/// The endpoint that is asked where none is given.
pub open spec fn default_endpoint() -> Seq<char> {
    "https://bank.linglin.art"@
}

/// A wallet to try things out with: locked, empty, with made-up names.
pub fn create_wallet() -> (wallet: LunaWallet)
    ensures
        wallet.address@ == "test_address"@,
        wallet.public_key@ == "test_pubkey"@,
        wallet.encrypted_private_key@.len() == 0,
        wallet.label@ == "test_label"@,
        wallet.is_locked,
        wallet.balance == 0,
        wallet.available_balance == 0,
        wallet.created == 0,
{
    LunaWallet::new(
        String::from_str("test_address"),
        String::from_str("test_pubkey"),
        Vec::new(),
        String::from_str("test_label"),
        0,
    )
}

/// A manager for the chain at `endpoint_url`, or at the usual endpoint.
pub fn create_blockchain_manager(endpoint_url: Option<&str>) -> (manager: BlockchainManager)
    ensures
        manager.endpoint_url@ == without_trailing(
            match endpoint_url {
                Some(url) => url@,
                None => default_endpoint(),
            },
            '/',
        ),
        !manager.network_connected,
        manager.cache@ == Map::<u64, Block>::empty(),
{
    let url = match endpoint_url {
        Some(url) => url,
        None => "https://bank.linglin.art",
    };
    BlockchainManager::new(url, 1)
}

/// An empty pool. The pool is kept here and asks no endpoint.
pub fn create_mempool_manager(_endpoint_url: Option<&str>) -> (pool: MempoolManager)
    ensures
        pool.local_mempool@.len() == 0,
        pool.confirmed_transactions@.len() == 0,
        pool.max_mempool_size == 10000,
{
    MempoolManager::new()
}

/// A maker of transactions with the usual fees.
pub fn get_transaction_manager() -> (manager: TransactionManager)
    ensures
        has_usual_fees(manager.fee_calculator.fee_config@),
{
    TransactionManager::new()
}

/// A miner at rest, without a batch hasher.
pub fn create_miner() -> (miner: GenesisMiner)
    ensures
        miner.mining_stats == MiningStats::zero(),
        miner.cuda_manager is None,
{
    GenesisMiner::new(None)
}

} // verus!
