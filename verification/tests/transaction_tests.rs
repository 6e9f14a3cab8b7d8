use lunalib::json::JsonObject;
use lunalib::transactions::security::{Finding, TransactionKind, TransactionSecurity};
use lunalib::transactions::transactions::{FeeCalculator, TransactionManager};
use lunalib::transactions::validator::TransactionValidator;
use serde_json::Value;
use sha2::{Digest, Sha256};

fn sha256_hex(text: &str) -> String {
    hex::encode(Sha256::digest(text.as_bytes()))
}

fn make_tx(tx_type: &str) -> JsonObject {
    let mut tx = JsonObject::new();
    tx.insert("type".to_string(), Value::from(tx_type));
    tx
}

fn signature() -> String {
    // 128 hex chars, starts with '04'
    format!("04{:0<126}", "a")
}

fn transfer(hash: &str, amount: u64) -> Value {
    let mut tx = make_tx("transfer");
    tx.insert("from".to_string(), Value::from("alice"));
    tx.insert("to".to_string(), Value::from("bob"));
    tx.insert("amount".to_string(), Value::from(amount));
    tx.insert("fee".to_string(), Value::from(1000u64));
    tx.insert("timestamp".to_string(), Value::from(1234567890u64));
    tx.insert("signature".to_string(), Value::from(signature()));
    tx.insert("public_key".to_string(), Value::from("04abcdef"));
    tx.insert("nonce".to_string(), Value::from(123u64));
    tx.insert("hash".to_string(), Value::from(hash));
    Value::Object(tx)
}

#[test]
fn test_genesis_validation() {
    let mut tx = make_tx("gtx_genesis");
    tx.insert("bill_serial".to_string(), Value::from("A"));
    tx.insert("denomination".to_string(), Value::from(100u64));
    tx.insert("mining_difficulty".to_string(), Value::from(2u64));
    tx.insert("hash".to_string(), Value::from("00abcdef"));
    tx.insert("nonce".to_string(), Value::from(123u64));
    let mut sec = TransactionSecurity::new(false);
    let (ok, msg) = sec.validate_transaction_security(&Value::Object(tx));
    assert!(ok, "{}", msg);
}

#[test]
fn test_reward_validation() {
    let mut tx = make_tx("reward");
    tx.insert("from".to_string(), Value::from("network"));
    tx.insert("to".to_string(), Value::from("user"));
    tx.insert("amount".to_string(), Value::from(1_000_000u64));
    tx.insert("block_height".to_string(), Value::from(1u64));
    tx.insert("hash".to_string(), Value::from("abc"));
    let mut sec = TransactionSecurity::new(false);
    let (ok, msg) = sec.validate_transaction_security(&Value::Object(tx));
    assert!(ok, "{}", msg);
}

#[test]
fn test_transfer_validation() {
    let mut tx = make_tx("transfer");
    tx.insert("from".to_string(), Value::from("user1"));
    tx.insert("to".to_string(), Value::from("user2"));
    tx.insert("amount".to_string(), Value::from(1_000_000u64));
    tx.insert("fee".to_string(), Value::from(10u64));
    tx.insert("signature".to_string(), Value::from(signature()));
    tx.insert("public_key".to_string(), Value::from("04abcdef"));
    tx.insert("nonce".to_string(), Value::from(123u64));
    let mut sec = TransactionSecurity::new(false);
    let (ok, msg) = sec.validate_transaction_security(&Value::Object(tx));
    assert!(ok, "{}", msg);
}

#[test]
fn test_blacklist() {
    let mut sec = TransactionSecurity::new(false);
    sec.blacklist_address("badguy");
    assert!(sec.is_blacklisted("badguy"));
}

#[test]
fn test_rate_limit() {
    let mut sec = TransactionSecurity::new(false);
    let addr = "user1";
    for _ in 0..10 {
        assert!(sec.check_rate_limit(addr));
    }
    assert!(!sec.check_rate_limit(addr));
}

#[test]
fn test_security_score() {
    let mut tx = make_tx("transfer");
    tx.insert("signature".to_string(), Value::from(signature()));
    tx.insert("public_key".to_string(), Value::from("04abcdef"));
    let now = std::time::SystemTime::now().duration_since(std::time::UNIX_EPOCH).unwrap().as_secs();
    tx.insert("timestamp".to_string(), Value::from(now));
    tx.insert("nonce".to_string(), Value::from(123u64));
    tx.insert("security_hash".to_string(), Value::from("abc"));
    let sec = TransactionSecurity::new(false);
    let score = sec.calculate_security_score(&Value::Object(tx));
    assert_eq!(score, 100);
}

#[test]
fn security_findings_are_exact() {
    let mut sec = TransactionSecurity::new(false);
    let now = 1_000_000;
    let examine = |sec: &mut TransactionSecurity, tx: &JsonObject| {
        let value = Value::Object(tx.clone());
        let found = sec.examine_at(&value, now);
        (found, sec.message(found, &value))
    };
    assert_eq!(examine(&mut sec, &make_tx("Barter")), (Finding::UnknownType, "Unknown transaction type: barter".to_string()));
    assert_eq!(examine(&mut sec, &JsonObject::new()).1, "Unknown transaction type: ");

    let mut tx = make_tx("GTX_Genesis");
    assert_eq!(examine(&mut sec, &tx), (Finding::MissingField(TransactionKind::Genesis, 0), "Missing GTX field: bill_serial".to_string()));
    tx.insert("bill_serial".to_string(), Value::from("A"));
    tx.insert("denomination".to_string(), Value::from(7u64));
    tx.insert("mining_difficulty".to_string(), Value::from(2u64));
    tx.insert("hash".to_string(), Value::from("0abc"));
    assert_eq!(examine(&mut sec, &tx).1, "Missing GTX field: nonce");
    tx.insert("nonce".to_string(), Value::from(1u64));
    assert_eq!(examine(&mut sec, &tx), (Finding::InvalidDenomination, "Invalid denomination: 7".to_string()));
    tx.insert("denomination".to_string(), Value::from("ten"));
    assert_eq!(examine(&mut sec, &tx).1, "Invalid denomination: -1");
    tx.insert("denomination".to_string(), Value::from(10u64));
    assert_eq!(examine(&mut sec, &tx), (Finding::InvalidMiningProof, "Invalid mining proof".to_string()));
    tx.insert("hash".to_string(), Value::from("00abc"));
    assert_eq!(examine(&mut sec, &tx), (Finding::Valid(TransactionKind::Genesis), "Valid GTX Genesis transaction".to_string()));

    let mut tx = make_tx("reward");
    tx.insert("from".to_string(), Value::from("me"));
    tx.insert("to".to_string(), Value::from("me"));
    tx.insert("amount".to_string(), Value::from(1u64));
    assert_eq!(examine(&mut sec, &tx).1, "Missing reward field: block_height");
    tx.insert("block_height".to_string(), Value::from(1u64));
    tx.insert("hash".to_string(), Value::from("h"));
    assert_eq!(examine(&mut sec, &tx), (Finding::UnauthorizedReward, "Unauthorized reward creation".to_string()));
    tx.insert("from".to_string(), Value::from("network"));
    assert_eq!(examine(&mut sec, &tx).1, "Valid reward transaction");

    let mut tx = make_tx("transfer");
    tx.insert("from".to_string(), Value::from("Sender"));
    tx.insert("to".to_string(), Value::from("bob"));
    tx.insert("amount".to_string(), Value::from(0u64));
    tx.insert("signature".to_string(), Value::from("bad"));
    tx.insert("public_key".to_string(), Value::from("04ab"));
    assert_eq!(examine(&mut sec, &tx).1, "Missing field: nonce");
    tx.insert("nonce".to_string(), Value::from(1u64));
    assert_eq!(examine(&mut sec, &tx), (Finding::AmountBelowMinimum, "Amount below minimum: 1".to_string()));
    tx.insert("amount".to_string(), Value::from(100_000_000_000_001u64));
    assert_eq!(examine(&mut sec, &tx), (Finding::AmountAboveMaximum, "Amount above maximum: 100000000000000".to_string()));
    tx.insert("amount".to_string(), Value::from(100_000_000_000_000u64));
    tx.insert("fee".to_string(), Value::from(9u64));
    assert_eq!(examine(&mut sec, &tx), (Finding::InsufficientFee, "Insufficient fee: 9 (required: 10)".to_string()));
    tx.insert("fee".to_string(), Value::from(10u64));
    assert_eq!(examine(&mut sec, &tx), (Finding::InvalidSignature, "Invalid SM2 signature".to_string()));
    assert!(sec.rate_limits.is_empty());
    tx.insert("signature".to_string(), Value::from("unsigned"));
    assert_eq!(examine(&mut sec, &tx), (Finding::Valid(TransactionKind::Transfer), "Valid transfer transaction".to_string()));
    assert_eq!(sec.rate_limits, vec![("sender".to_string(), vec![now])]);
    sec.blacklist_address("SENDER");
    assert_eq!(examine(&mut sec, &tx), (Finding::Blacklisted, "Address is blacklisted".to_string()));
    assert_eq!(sec.rate_limits[0].1.len(), 2);
    for _ in 0..8 {
        examine(&mut sec, &tx);
    }
    assert_eq!(examine(&mut sec, &tx), (Finding::RateLimitExceeded, "Rate limit exceeded".to_string()));
    assert_eq!(sec.rate_limits[0].1.len(), 10);
}

#[test]
fn signature_forms() {
    let sec = TransactionSecurity::new(false);
    let with = |signature: &str, public_key: &str, kind: &str| {
        let mut tx = make_tx(kind);
        tx.insert("signature".to_string(), Value::from(signature));
        tx.insert("public_key".to_string(), Value::from(public_key));
        sec.validate_signature_sm2(&Value::Object(tx))
    };
    assert!(with(&signature(), "04ab", "transfer"));
    assert!(with(&"AbCdEf09".repeat(16), "04", "transfer"));
    assert!(!with(&signature(), "03ab", "transfer"));
    assert!(!with(&"g".repeat(128), "04ab", "transfer"));
    assert!(!with(&"a".repeat(127), "04ab", "transfer"));
    assert!(!with(&"é".repeat(64), "04ab", "transfer"));
    assert!(with("system", "", "transfer"));
    assert!(with("unsigned", "", "transfer"));
    assert!(with("test", "", "transfer"));
    assert!(!with("", "", "transfer"));
    assert!(with("", "", "Reward"));
    assert!(with("", "", "gtx_genesis"));
}

#[test]
fn rate_limit_forgets_after_a_minute() {
    let mut sec = TransactionSecurity::new(false);
    for second in 0..10 {
        assert!(sec.check_rate_limit_at("User", 100 + second));
    }
    assert!(!sec.check_rate_limit_at("user", 109));
    assert!(!sec.check_rate_limit_at("USER", 159));
    assert!(sec.check_rate_limit_at("user", 160));
    assert_eq!(sec.rate_limits.len(), 1);
    assert_eq!(sec.rate_limits[0].0, "user");
    assert_eq!(sec.rate_limits[0].1, vec![101, 102, 103, 104, 105, 106, 107, 108, 109, 160]);
    assert!(sec.check_rate_limit_at("other", 50));
    assert!(sec.check_rate_limit_at("other", 10));
    assert_eq!(sec.rate_limits[1].1, vec![10]);
    assert!(!sec.is_blacklisted("user"));
}

#[test]
fn security_score_is_sum_capped_at_hundred() {
    let sec = TransactionSecurity::new(true);
    let mut tx = make_tx("transfer");
    assert_eq!(sec.calculate_security_score_at(&Value::Object(tx.clone()), 1000), 0);
    assert_eq!(sec.calculate_security_score_at(&Value::Object(tx.clone()), 599), 20);
    tx.insert("timestamp".to_string(), Value::from(5000u64));
    assert_eq!(sec.calculate_security_score_at(&Value::Object(tx.clone()), 1000), 20);
    assert_eq!(sec.calculate_security_score_at(&Value::Object(tx.clone()), 5600), 0);
    tx.insert("signature".to_string(), Value::from("a".repeat(64)));
    assert_eq!(sec.calculate_security_score_at(&Value::Object(tx.clone()), 5600), 40);
    tx.insert("public_key".to_string(), Value::from("04"));
    tx.insert("nonce".to_string(), Value::Null);
    assert_eq!(sec.calculate_security_score_at(&Value::Object(tx.clone()), 5600), 80);
    tx.insert("security_hash".to_string(), Value::from("s"));
    tx.insert("signature".to_string(), Value::from("a".repeat(128)));
    assert_eq!(sec.calculate_security_score_at(&Value::Object(tx.clone()), 5100), 100);
}

#[test]
fn test_create_transfer() {
    let mgr = TransactionManager::new();
    let tx = mgr.create_transaction("alice", "bob", 123_450_000, "memo", "transfer");
    assert_eq!(tx.get("type").unwrap().as_str().unwrap(), "transfer");
    assert_eq!(tx.get("from").unwrap().as_str().unwrap(), "alice");
    assert_eq!(tx.get("to").unwrap().as_str().unwrap(), "bob");
    assert_eq!(tx.get("amount").unwrap().as_u64().unwrap(), 123_450_000);
    assert_eq!(tx.get("fee").unwrap().as_u64().unwrap(), 1000);
    assert_eq!(tx.get("signature").unwrap().as_str().unwrap(), "unsigned");
    assert!(tx.get("hash").unwrap().as_str().unwrap().len() == 64);
}

#[test]
fn test_create_gtx_transaction() {
    let mgr = TransactionManager::new();
    let mut bill_info = JsonObject::new();
    bill_info.insert("owner_address".to_string(), Value::String("miner1".to_string()));
    bill_info.insert("denomination".to_string(), Value::from(100_000_000u64));
    bill_info.insert("serial".to_string(), Value::String("S123".to_string()));
    bill_info.insert("difficulty".to_string(), Value::from(2));
    let tx = mgr.create_gtx_transaction(&Value::Object(bill_info));
    assert_eq!(tx.get("type").unwrap().as_str().unwrap(), "gtx_genesis");
    assert_eq!(tx.get("from").unwrap().as_str().unwrap(), "mining");
    assert_eq!(tx.get("to").unwrap().as_str().unwrap(), "miner1");
    assert_eq!(tx.get("amount").unwrap().as_u64().unwrap(), 100_000_000);
    assert_eq!(tx.get("signature").unwrap().as_str().unwrap(), "system");
    assert!(tx.get("hash").unwrap().as_str().unwrap().len() == 64);
}

#[test]
fn test_create_reward_transaction() {
    let mgr = TransactionManager::new();
    let tx = mgr.create_reward_transaction("bob", 50_000_000, 42);
    assert_eq!(tx.get("type").unwrap().as_str().unwrap(), "reward");
    assert_eq!(tx.get("from").unwrap().as_str().unwrap(), "network");
    assert_eq!(tx.get("to").unwrap().as_str().unwrap(), "bob");
    assert_eq!(tx.get("amount").unwrap().as_u64().unwrap(), 50_000_000);
    assert_eq!(tx.get("block_height").unwrap().as_i64().unwrap(), 42);
    assert_eq!(tx.get("signature").unwrap().as_str().unwrap(), "system");
    assert!(tx.get("hash").unwrap().as_str().unwrap().len() == 64);
}

#[test]
fn test_validate_transaction() {
    let mgr = TransactionManager::new();
    let tx = mgr.create_transaction("alice", "bob", 1_000_000, "memo", "transfer");
    let (ok, msg) = mgr.security.validate_transaction(&tx);
    assert!(ok, "{}", msg);
}

#[test]
fn test_assess_risk() {
    let mgr = TransactionManager::new();
    let tx = mgr.create_transaction("alice", "bob", 1_000_001_000_000, "memo", "transfer");
    let (level, reason) = mgr.security.assess_risk(&tx);
    assert_eq!(level, "high");
    assert_eq!(reason, "Very large transaction");
}

#[test]
fn created_transactions_are_exact() {
    let mgr = TransactionManager::new();
    let tx = mgr.create_transaction_at("alice", "bob", 5, "hi", "other", 99);
    let unnamed = "{\"amount\":5,\"fee\":1000,\"from\":\"alice\",\"memo\":\"hi\",\"public_key\":\"unsigned\",\"signature\":\"unsigned\",\"timestamp\":99,\"to\":\"bob\",\"type\":\"other\",\"version\":\"2.0\"}";
    let hash = sha256_hex(unnamed);
    assert_eq!(tx["hash"], hash.as_str());
    assert_eq!(
        serde_json::to_string(&tx).unwrap(),
        unnamed.replace("\"memo\"", &format!("\"hash\":\"{}\",\"memo\"", hash))
    );
    assert_eq!(TransactionManager::calculate_transaction_hash(&tx), hash);
    assert_eq!(TransactionManager::calculate_transaction_hash(&Value::Null), sha256_hex("{}"));
    assert_eq!(mgr.create_transaction_at("a", "b", 1, "", "reward", 0)["fee"], 0);

    let reward = mgr.create_reward_transaction_at("bob", 7, -3, 10, 123456789);
    assert_eq!(reward["hash"], sha256_hex("reward_bob_7_-3_123456789").as_str());
    assert_eq!(reward["block_height"], -3);
    assert_eq!(reward["timestamp"], 10);
    assert_eq!(reward.as_object().unwrap().len(), 11);
    assert_eq!(TransactionManager::reward_hash_at("x", 0, 0, 0), sha256_hex("reward_x_0_0_0"));

    let gtx = mgr.create_gtx_transaction_at(&Value::Object(JsonObject::new()), 4);
    assert_eq!(gtx["to"], "unknown");
    assert_eq!(gtx["amount"], 0);
    assert_eq!(gtx["bill_serial"], "");
    assert_eq!(gtx["mining_difficulty"], 0);
    assert_eq!(gtx["hash"], TransactionManager::calculate_transaction_hash(&gtx).as_str());
}

#[test]
fn basic_checks_and_fees() {
    let mgr = TransactionManager::new();
    let mut tx = make_tx("transfer");
    assert_eq!(mgr.security.validate_transaction(&Value::Object(tx.clone())), (false, "Missing required field: from".to_string()));
    assert_eq!(mgr.security.validate_transaction(&Value::Null), (false, "Missing required field: type".to_string()));
    for key in ["from", "to", "timestamp", "hash"] {
        tx.insert(key.to_string(), Value::from("x"));
    }
    tx.insert("amount".to_string(), Value::from(0u64));
    assert_eq!(mgr.security.validate_transaction(&Value::Object(tx.clone())), (false, "Amount must be positive".to_string()));
    tx.insert("type".to_string(), Value::from("reward"));
    assert_eq!(mgr.security.validate_transaction(&Value::Object(tx.clone())), (true, "Valid".to_string()));
    assert_eq!(mgr.security.assess_risk(&Value::Object(tx.clone())), ("very_low".to_string(), "System transaction".to_string()));
    tx.insert("type".to_string(), Value::from("transfer"));
    tx.insert("amount".to_string(), Value::from(100_000_000_001u64));
    assert_eq!(mgr.security.assess_risk(&Value::Object(tx.clone())), ("medium".to_string(), "Large transaction".to_string()));
    tx.insert("amount".to_string(), Value::from(100_000_000_000u64));
    assert_eq!(mgr.security.assess_risk(&Value::Object(tx.clone())), ("low".to_string(), "Normal transaction".to_string()));
    let fees = FeeCalculator::new();
    assert_eq!(fees.get_fee("transfer"), 1000);
    assert_eq!(fees.get_fee("reward"), 0);
    assert_eq!(fees.get_fee("gtx_genesis"), 0);
    assert_eq!(fees.get_fee("anything"), 1000);
}

#[test]
fn test_duplicate_detection() {
    let mut validator = TransactionValidator::new();
    let tx1 = transfer("h1", 10_000_000);
    let tx2 = transfer("h1", 20_000_000);
    let (ok1, msg1) = validator.validate_transaction(&tx1);
    assert!(ok1, "{}", msg1);
    let (ok2, msg2) = validator.validate_transaction(&tx2);
    assert!(!ok2, "{}", msg2);
    assert_eq!(msg2, "Duplicate transaction detected");
}

#[test]
fn test_batch_validation() {
    let mut validator = TransactionValidator::new();
    let txs = vec![transfer("h2", 10_000_000), transfer("h3", 20_000_000)];
    let (all_valid, results) = validator.validate_transaction_batch(&txs);
    assert!(all_valid, "Batch validation failed: {:?}", results);
    assert_eq!(results.len(), 2);
}

#[test]
fn test_risk_level() {
    let validator = TransactionValidator::new();
    let tx = transfer("h4", 2_000_000_000_000);
    // Lower security score by removing nonce/security_hash and weakening signature/public_key
    let mut tx_low_score = tx.as_object().unwrap().clone();
    tx_low_score.remove("nonce");
    tx_low_score.remove("security_hash");
    tx_low_score.insert("signature".to_string(), Value::from("bad_sig"));
    tx_low_score.insert("public_key".to_string(), Value::from("abcdef"));
    let level = validator.get_transaction_risk_level(&Value::Object(tx_low_score));
    assert_eq!(level, "HIGH");
    // With all security fields, should be VERY_LOW
    let level2 = validator.get_transaction_risk_level(&tx);
    assert_eq!(level2, "VERY_LOW");
}

#[test]
fn test_inclusion() {
    let mut validator = TransactionValidator::new();
    let tx = transfer("h5", 10_000_000);
    let (ok, msg) = validator.validate_transaction(&tx);
    assert!(ok, "{}", msg);
    assert!(validator.verify_transaction_inclusion("h5", 0));
}

#[test]
fn validator_remembers_only_what_passed_and_forgets_the_oldest() {
    let mut validator = TransactionValidator::new();
    validator.max_recent_size = 2;
    let (ok, msg) = validator.validate_transaction_at(&Value::Object(make_tx("barter")), 5);
    assert_eq!((ok, msg.as_str()), (false, "Unknown transaction type: barter"));
    assert!(validator.recent_transactions.is_empty());
    for (i, hash) in ["a", "b", "c"].iter().enumerate() {
        assert!(validator.validate_transaction_at(&transfer(hash, 1), 100 * i as u64).0);
    }
    assert_eq!(validator.recent_transactions, vec!["b".to_string(), "c".to_string()]);
    assert!(!validator.verify_transaction_inclusion("a", 0));
    assert_eq!(validator.validate_transaction_at(&transfer("c", 1), 900).1, "Duplicate transaction detected");
    let batch = vec![transfer("d", 1), transfer("d", 1), Value::Null];
    let (all, words) = validator.validate_transaction_batch(&batch);
    assert!(!all);
    assert_eq!(words[0], "Valid transfer transaction");
    assert_eq!(words[1], "Duplicate transaction detected");
    assert_eq!(words[2], "Unknown transaction type: ");
    assert_eq!(validator.get_transaction_risk_level_at(&transfer("x", 10_000_000_001), u64::MAX), "VERY_LOW");
    let mut weak = JsonObject::new();
    weak.insert("amount".to_string(), Value::from(10_000_000_001u64));
    assert_eq!(validator.get_transaction_risk_level_at(&Value::Object(weak.clone()), u64::MAX), "MEDIUM");
    weak.insert("amount".to_string(), Value::from(10_000_000_000u64));
    assert_eq!(validator.get_transaction_risk_level_at(&Value::Object(weak), u64::MAX), "LOW");
}
