use lunalib::luna_lib::{
    create_blockchain_manager, create_mempool_manager, create_wallet, get_transaction_manager,
};
use lunalib::node::blockchain::{Block, BlockchainManager, Transaction};
use lunalib::node::crypto::Crypto;
use lunalib::node::mempool::MempoolManager;
use lunalib::node::wallet::LunaWallet;

fn sample_tx(hash: &str) -> lunalib::node::mempool::Transaction {
    lunalib::node::mempool::Transaction {
        hash: hash.to_string(),
        from: "alice".to_string(),
        to: "bob".to_string(),
        amount: 1_000_000,
        timestamp: 123456,
        tx_type: "transaction".to_string(),
    }
}

#[test]
fn test_normalize_address() {
    assert_eq!(BlockchainManager::normalize_address("LUN_abc123"), "abc123");
    assert_eq!(BlockchainManager::normalize_address("lun_ABC123"), "abc123");
    assert_eq!(BlockchainManager::normalize_address("abc123"), "abc123");
    assert_eq!(BlockchainManager::normalize_address("").as_str(), "");
}

#[test]
fn normalize_address_strips_quotes_and_spaces() {
    assert_eq!(BlockchainManager::normalize_address(" 'LUN_Ab' "), "ab");
    assert_eq!(BlockchainManager::normalize_address("\"x y\""), "x y");
    assert_eq!(BlockchainManager::normalize_address("lun_"), "");
    assert_eq!(BlockchainManager::normalize_address("' \""), "");
    assert_eq!(BlockchainManager::normalize_address("LUN_LUN_a"), "lun_a");
}

#[test]
fn test_validate_transaction_before_broadcast() {
    let mut tx = Transaction::new();
    assert!(!BlockchainManager::validate_transaction_before_broadcast(&tx));
    tx.tx_type = Some("transfer".to_string());
    tx.from = Some("LUN_from".to_string());
    tx.to = Some("LUN_to".to_string());
    tx.amount = Some(1_000_000);
    tx.timestamp = Some(1234567890);
    tx.hash = Some("1234567890abcdef".to_string());
    tx.signature = Some("abcdef1234567890".to_string());
    assert!(BlockchainManager::validate_transaction_before_broadcast(&tx));
}

#[test]
fn broadcast_validation_names_each_fault() {
    let good = Transaction {
        tx_type: Some("transfer".to_string()),
        from: Some("LUN_from".to_string()),
        to: Some("LUN_to".to_string()),
        amount: Some(1),
        timestamp: Some(1),
        hash: Some("0123456789".to_string()),
        signature: Some("0123456789".to_string()),
    };
    assert!(BlockchainManager::validate_transaction_before_broadcast(&good));
    let mut tx = good.clone();
    tx.from = Some("lun_from".to_string());
    assert!(!BlockchainManager::validate_transaction_before_broadcast(&tx));
    let mut tx = good.clone();
    tx.to = Some("to".to_string());
    assert!(!BlockchainManager::validate_transaction_before_broadcast(&tx));
    let mut tx = good.clone();
    tx.amount = Some(0);
    assert!(!BlockchainManager::validate_transaction_before_broadcast(&tx));
    tx.amount = Some(-5);
    assert!(!BlockchainManager::validate_transaction_before_broadcast(&tx));
    let mut tx = good.clone();
    tx.signature = Some("012345678".to_string());
    assert!(!BlockchainManager::validate_transaction_before_broadcast(&tx));
    let mut tx = good.clone();
    tx.hash = Some("012345678".to_string());
    assert!(!BlockchainManager::validate_transaction_before_broadcast(&tx));
    let mut tx = good.clone();
    tx.timestamp = None;
    assert!(!BlockchainManager::validate_transaction_before_broadcast(&tx));
}

#[test]
fn blocks_range_comes_from_the_cache_in_order() {
    let mut manager = BlockchainManager::new("https://node.example///", 2);
    assert_eq!(manager.endpoint_url, "https://node.example");
    assert!(!manager.network_connected);
    for height in [5u64, 2, 3] {
        let mut block = Block::new();
        block.index = height;
        block.hash = format!("h{}", height);
        manager.cache.insert(height, block);
    }
    let range = manager.get_blocks_range(1, 5);
    let heights: Vec<u64> = range.iter().map(|b| b.index).collect();
    assert_eq!(heights, vec![2, 3, 5]);
    assert_eq!(range[2].hash, "h5");
    assert!(manager.get_blocks_range(4, 4).is_empty());
    assert!(manager.get_blocks_range(5, 2).is_empty());
    assert_eq!(manager.get_blocks_range(u64::MAX - 1, u64::MAX).len(), 0);
    assert!(manager.get_mempool().is_empty());
    assert!(manager.check_network_connection());
    assert!(manager.network_connected);
}

#[test]
fn test_get_key_info() {
    let crypto = Crypto::new();
    let (privk, pubk, _) = crypto.generate_keypair();
    let info = crypto.get_key_info(Some(&privk), Some(&pubk));
    assert_eq!(info["crypto_standard"], "SM2 (GB/T 32918)");
    assert_eq!(info["curve"], "SM2 P-256");
    assert_eq!(info["key_size_bits"], 256);
}

#[test]
fn key_info_is_exact() {
    let crypto = Crypto::new();
    let info = crypto.get_key_info(Some("0123456789abcdef"), Some("04ff"));
    assert_eq!(info["private_key_length"], 16);
    assert_eq!(info["private_key_prefix"], "01234567");
    assert_eq!(info["public_key_length"], 4);
    assert_eq!(info["public_key_format"], "uncompressed");
    assert_eq!(info["address"], crypto.derive_address("04ff").as_str());
    let info = crypto.get_key_info(Some("abc"), Some("ff"));
    assert_eq!(info["private_key_prefix"], "abc");
    assert_eq!(info["public_key_format"], "unknown");
    let info = crypto.get_key_info(None, None);
    assert_eq!(info.as_object().unwrap().len(), 3);
}

#[test]
fn test_add_and_get_transaction() {
    let mut mempool = MempoolManager::new();
    let tx = sample_tx("tx1");
    assert!(mempool.add_transaction(tx.clone()));
    assert_eq!(mempool.get_transaction("tx1"), Some(tx.clone()));
    assert!(!mempool.add_transaction(tx.clone())); // duplicate
}

#[test]
fn test_remove_and_confirmed() {
    let mut mempool = MempoolManager::new();
    let tx = sample_tx("tx2");
    mempool.add_transaction(tx.clone());
    mempool.remove_transaction("tx2");
    assert!(!mempool.is_transaction_pending("tx2"));
    assert!(mempool.is_transaction_confirmed("tx2"));
}

#[test]
fn test_get_pending_transactions() {
    let mut mempool = MempoolManager::new();
    mempool.add_transaction(sample_tx("tx3"));
    mempool.add_transaction(sample_tx("tx4"));
    let txs = mempool.get_pending_transactions();
    assert_eq!(txs.len(), 2);
}

#[test]
fn test_clear_mempool() {
    let mut mempool = MempoolManager::new();
    mempool.add_transaction(sample_tx("tx5"));
    mempool.clear_mempool();
    assert_eq!(mempool.get_mempool_size(), 0);
}

#[test]
fn mempool_refuses_what_it_does_not_admit() {
    let mut mempool = MempoolManager::new();
    let mut bad = sample_tx("b1");
    bad.amount = 0;
    assert!(!mempool.validate_transaction_basic(&bad));
    assert!(!mempool.add_transaction(bad));
    let mut bad = sample_tx("b2");
    bad.timestamp = 0;
    assert!(!mempool.add_transaction(bad));
    let mut bad = sample_tx("");
    bad.tx_type = "t".to_string();
    assert!(!mempool.add_transaction(bad));
    let mut bad = sample_tx("b3");
    bad.to = String::new();
    assert!(!mempool.add_transaction(bad));
    // a confirmed hash is not taken in again
    assert!(mempool.add_transaction(sample_tx("c1")));
    mempool.remove_transaction("c1");
    assert!(!mempool.add_transaction(sample_tx("c1")));
    assert_eq!(mempool.confirmed_transactions, vec!["c1".to_string()]);
    mempool.remove_transaction("c1");
    assert_eq!(mempool.confirmed_transactions.len(), 1);
    // the limit holds
    mempool.max_mempool_size = 2;
    assert!(mempool.add_transaction(sample_tx("l1")));
    assert!(mempool.add_transaction(sample_tx("l2")));
    assert!(!mempool.add_transaction(sample_tx("l3")));
    assert_eq!(mempool.get_mempool_size(), 2);
    assert_eq!(mempool.get_pending_transactions()[1].hash, "l2");
    assert_eq!(mempool.get_transaction("l3"), None);
}

#[test]
fn test_wallet_creation() {
    let wallet = LunaWallet::new(
        "LUN_testaddress".to_string(),
        "testpubkey".to_string(),
        vec![1, 2, 3, 4],
        "Test Wallet".to_string(),
        1234567890,
    );
    assert_eq!(wallet.address, "LUN_testaddress");
    assert_eq!(wallet.public_key, "testpubkey");
    assert_eq!(wallet.label, "Test Wallet");
    assert!(wallet.is_locked);
    assert_eq!(wallet.balance, 0);
    assert_eq!(wallet.available_balance, 0);
    assert_eq!(wallet.created, 1234567890);
}

#[test]
fn test_create_wallet() {
    let wallet = create_wallet();
    assert_eq!(wallet.address, "test_address");
    assert!(wallet.encrypted_private_key.is_empty());
}

#[test]
fn test_create_blockchain_manager() {
    let manager = create_blockchain_manager(None);
    assert_eq!(manager.endpoint_url, "https://bank.linglin.art");
    assert_eq!(create_blockchain_manager(Some("http://x/")).endpoint_url, "http://x");
}

#[test]
fn test_create_mempool_manager() {
    let manager = create_mempool_manager(None);
    assert_eq!(manager.max_mempool_size, 10000);
}

#[test]
fn test_get_transaction_manager() {
    let tx_manager = get_transaction_manager();
    assert_eq!(tx_manager.fee_calculator.get_fee("transfer"), 1000);
}
