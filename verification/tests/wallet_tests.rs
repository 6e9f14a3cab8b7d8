use lunalib::node::wallet_manager::{
    calculate_balance_from_transactions, categorize_confirmed_transaction,
    categorize_pending_transaction, Transaction, TransactionSource, TransactionStatus,
    TransactionType, WalletBalance, WalletManager,
};
use lunalib::node::wallet_sync_helper::{BlockchainSync, MempoolSync, WalletSyncHelper};

fn make_tx(
    hash: &str,
    tx_type: TransactionType,
    from: &str,
    to: &str,
    amount: u64,
    fee: u64,
    status: TransactionStatus,
) -> Transaction {
    Transaction {
        hash: hash.to_string(),
        tx_type,
        from_address: from.to_string(),
        to_address: to.to_string(),
        amount,
        fee,
        timestamp: 0,
        status,
        block_height: None,
        confirmations: 0,
        memo: String::new(),
    }
}

#[test]
fn test_remove_wallet() {
    let mut mgr = WalletManager::new();
    mgr.register_wallet("addr2");
    mgr.remove_wallet("addr2");
    assert!(mgr.get_wallet_state("addr2").is_none());
}

#[test]
fn test_clear_all_caches() {
    let mut mgr = WalletManager::new();
    mgr.register_wallet("addr3");
    mgr.clear_all_caches();
    assert!(mgr.get_wallet_state("addr3").is_none());
}

#[test]
fn wallet_manager_test_sync_and_balance() {
    let mut mgr = WalletManager::new();
    mgr.register_wallet("alice");
    mgr.register_wallet("bob");
    let mut blockchain_txs = TransactionSource::new();
    let mut mempool_txs = TransactionSource::new();
    blockchain_txs.insert(
        "alice",
        vec![
            make_tx("h1", TransactionType::Transfer, "bob", "alice", 100_000_000, 1_000_000, TransactionStatus::Confirmed),
            make_tx("h2", TransactionType::Transfer, "alice", "bob", 50_000_000, 500_000, TransactionStatus::Confirmed),
        ],
    );
    blockchain_txs.insert(
        "bob",
        vec![make_tx("h2", TransactionType::Transfer, "alice", "bob", 50_000_000, 500_000, TransactionStatus::Confirmed)],
    );
    let pending_tx = make_tx("h3", TransactionType::Transfer, "alice", "bob", 10_000_000, 100_000, TransactionStatus::Pending);
    mempool_txs.insert("alice", vec![pending_tx.clone()]);
    mempool_txs.insert("bob", vec![pending_tx]);
    mgr.sync_wallets_from_sources(&blockchain_txs, &mempool_txs);
    let alice = mgr.get_wallet_state("alice").unwrap();
    let bob = mgr.get_wallet_state("bob").unwrap();
    assert_eq!(alice.balance.confirmed_balance, 100_000_000 - 50_000_000 - 500_000);
    assert_eq!(bob.balance.confirmed_balance, 50_000_000);
    assert_eq!(alice.balance.pending_outgoing, 10_000_000 + 100_000);
    assert_eq!(bob.balance.pending_incoming, 10_000_000);
}

struct DummyBlockchainManager;
struct DummyMempoolManager;

impl BlockchainSync for DummyBlockchainManager {
    fn scan_transactions_for_addresses(&self, addresses: &[String]) -> TransactionSource {
        let mut source = TransactionSource::new();
        for addr in addresses {
            let mut tx = make_tx("h1", TransactionType::Transfer, "bob", addr, 100_000_000, 1_000_000, TransactionStatus::Confirmed);
            tx.block_height = Some(1);
            tx.confirmations = 10;
            source.insert(addr, vec![tx]);
        }
        source
    }
}

impl MempoolSync for DummyMempoolManager {
    fn get_pending_transactions_for_addresses(&self, addresses: &[String]) -> TransactionSource {
        let mut source = TransactionSource::new();
        for addr in addresses {
            source.insert(
                addr,
                vec![make_tx("h2", TransactionType::Transfer, addr, "bob", 10_000_000, 100_000, TransactionStatus::Pending)],
            );
        }
        source
    }
}

#[test]
fn wallet_sync_helper_test_sync_and_balance() {
    let mut helper = WalletSyncHelper::new(WalletManager::new(), DummyBlockchainManager, DummyMempoolManager);
    let addresses = vec!["alice".to_string()];
    helper.register_wallets(&addresses);
    assert!(helper.sync_wallets_now());
    let bal = helper.get_wallet_balance("alice").unwrap();
    assert_eq!(bal.confirmed_balance, 100_000_000);
    assert_eq!(bal.pending_outgoing, 10_100_000);
    let txs = helper.get_wallet_transactions("alice", Some("all"));
    assert_eq!(txs.len(), 2);
}

#[test]
fn wallet_transactions_are_chosen_by_kind() {
    let mut helper = WalletSyncHelper::new(WalletManager::new(), DummyBlockchainManager, DummyMempoolManager);
    helper.register_wallets(&["alice".to_string()]);
    helper.sync_wallets_now();
    assert_eq!(helper.get_wallet_transactions("alice", Some("confirmed"))[0].hash, "h1");
    assert_eq!(helper.get_wallet_transactions("alice", Some("pending"))[0].hash, "h2");
    let all = helper.get_wallet_transactions("alice", None);
    assert_eq!(all.len(), 2);
    assert_eq!(all[0].hash, "h1");
    assert_eq!(all[1].hash, "h2");
    assert!(helper.get_wallet_transactions("alice", Some("other")).is_empty());
    assert!(helper.get_wallet_transactions("nobody", Some("all")).is_empty());
    assert_eq!(helper.get_wallet_balance("nobody"), None);
}

#[test]
fn balance_is_exact() {
    let confirmed = vec![
        make_tx("a", TransactionType::Transfer, "x", "me", 7, 1, TransactionStatus::Confirmed),
        make_tx("b", TransactionType::Transfer, "me", "y", 10, 2, TransactionStatus::Confirmed),
        make_tx("c", TransactionType::Transfer, "me", "me", 5, 1, TransactionStatus::Confirmed),
        make_tx("d", TransactionType::Transfer, "x", "y", 99, 9, TransactionStatus::Confirmed),
    ];
    let pending = vec![
        make_tx("e", TransactionType::Transfer, "x", "me", 3, 1, TransactionStatus::Pending),
        make_tx("f", TransactionType::Transfer, "me", "y", u64::MAX, u64::MAX, TransactionStatus::Pending),
    ];
    let balance = calculate_balance_from_transactions("me", &confirmed, &pending);
    let settled: i128 = 7 + 5 - (10 + 2) - (5 + 1);
    let outgoing: i128 = 2 * (u64::MAX as i128);
    assert_eq!(
        balance,
        WalletBalance {
            total_balance: settled,
            available_balance: settled + 3 - outgoing,
            pending_incoming: 3,
            pending_outgoing: outgoing,
            confirmed_balance: settled,
        }
    );
    assert_eq!(calculate_balance_from_transactions("me", &[], &[]), WalletBalance::default());
}

#[test]
fn transactions_are_sorted_into_their_lists() {
    let reward = make_tx("r", TransactionType::Reward, "network", "me", 1, 0, TransactionStatus::Confirmed);
    let genesis = make_tx("g", TransactionType::Genesis, "mining", "me", 1, 0, TransactionStatus::Confirmed);
    let transfer = make_tx("t", TransactionType::Transfer, "x", "me", 1, 0, TransactionStatus::Confirmed);
    let unknown = make_tx("u", TransactionType::Unknown, "x", "me", 1, 0, TransactionStatus::Unknown);
    assert_eq!(categorize_confirmed_transaction(&reward, "me"), vec!["confirmed_transactions", "rewards"]);
    assert_eq!(categorize_confirmed_transaction(&genesis, "me"), vec!["confirmed_transactions", "genesis_transactions"]);
    assert_eq!(categorize_confirmed_transaction(&transfer, "me"), vec!["confirmed_transactions", "confirmed_transfers"]);
    assert_eq!(categorize_pending_transaction(&unknown, "me"), vec!["pending_transactions", "pending_transfers"]);
    assert_eq!(categorize_pending_transaction(&reward, "me"), vec!["pending_transactions", "rewards"]);
    assert_eq!(TransactionType::default(), TransactionType::Unknown);
    assert_eq!(TransactionStatus::default(), TransactionStatus::Unknown);

    let mut mgr = WalletManager::new();
    mgr.register_wallets(&["me".to_string(), "me".to_string(), "you".to_string()]);
    assert_eq!(mgr.get_all_wallet_states().len(), 2);
    let mut chain = TransactionSource::new();
    chain.insert("me", vec![reward.clone(), genesis.clone(), transfer.clone(), unknown.clone()]);
    let mut pool = TransactionSource::new();
    let new_reward = make_tx("r2", TransactionType::Reward, "network", "me", 2, 0, TransactionStatus::Pending);
    pool.insert("me", vec![reward.clone(), new_reward.clone(), new_reward.clone(), transfer.clone()]);
    mgr.sync_wallets_at(&chain, &pool, 77);
    let me = mgr.get_wallet_state("me").unwrap();
    assert_eq!(me.last_updated, 77);
    assert_eq!(me.confirmed_transactions.len(), 4);
    assert_eq!(me.pending_transactions.len(), 4);
    assert_eq!(me.confirmed_transfers, vec![transfer.clone(), unknown.clone()]);
    assert_eq!(me.pending_transfers, vec![transfer.clone()]);
    assert_eq!(me.rewards, vec![reward.clone(), new_reward.clone()]);
    assert_eq!(me.genesis_transactions, vec![genesis.clone()]);
    let you = mgr.get_wallet_state("you").unwrap();
    assert_eq!(you.last_updated, 77);
    assert!(you.confirmed_transactions.is_empty());
    assert_eq!(you.balance, WalletBalance::default());
}

#[test]
fn wallets_are_synced_with_given_answers() {
    let mut helper = WalletSyncHelper::new(WalletManager::new(), DummyBlockchainManager, DummyMempoolManager);
    helper.register_wallets(&["alice".to_string(), "bob".to_string()]);
    assert_eq!(helper.tracked_addresses(), vec!["alice".to_string(), "bob".to_string()]);
    let mut chain = TransactionSource::new();
    chain.insert(
        "bob",
        vec![make_tx("c1", TransactionType::Transfer, "alice", "bob", 5, 1, TransactionStatus::Confirmed)],
    );
    let pool = TransactionSource::new();
    assert!(helper.sync_wallets_with(&chain, &pool));
    assert_eq!(helper.get_wallet_balance("bob").unwrap().confirmed_balance, 5);
    assert_eq!(helper.get_wallet_balance("alice").unwrap().confirmed_balance, 0);
    assert_eq!(helper.get_wallet_transactions("bob", Some("confirmed")).len(), 1);
    assert!(helper.get_wallet_transactions("alice", None).is_empty());
}

#[test]
fn a_later_entry_takes_the_place_of_an_earlier_one() {
    let mut source = TransactionSource::new();
    assert!(source.get("alice").is_empty());
    source.insert("alice", vec![make_tx("old", TransactionType::Transfer, "x", "alice", 1, 0, TransactionStatus::Confirmed)]);
    source.insert("bob", vec![]);
    source.insert(
        "alice",
        vec![
            make_tx("new1", TransactionType::Transfer, "x", "alice", 2, 0, TransactionStatus::Confirmed),
            make_tx("new2", TransactionType::Transfer, "x", "alice", 3, 0, TransactionStatus::Confirmed),
        ],
    );
    let held = source.get("alice");
    assert_eq!(held.len(), 2);
    assert_eq!(held[0].hash, "new1");
    assert_eq!(held[1].hash, "new2");
    assert!(source.get("bob").is_empty());
    assert!(source.get("carol").is_empty());
}
