use lunalib::gtx::digital_bill::DigitalBill;
use lunalib::mining::cuda_manager::{CUDAManager, MiningMethod};
use lunalib::mining::miner::{after_failed_try, GenesisMiner};
use lunalib::json::JsonObject;
use serde_json::Value;
use sha2::{Digest, Sha256};

fn sha256_hex(text: &str) -> String {
    hex::encode(Sha256::digest(text.as_bytes()))
}

fn block(index: u64, miner: &str) -> JsonObject {
    let mut block_data = JsonObject::new();
    block_data.insert("index".to_string(), Value::from(index));
    block_data.insert("previous_hash".to_string(), Value::from("0".repeat(64)));
    block_data.insert("timestamp".to_string(), Value::from(0u64));
    block_data.insert("transactions".to_string(), Value::Array(vec![]));
    block_data.insert("miner".to_string(), Value::from(miner));
    block_data.insert("difficulty".to_string(), Value::from(1u64));
    block_data.insert("version".to_string(), Value::from("1.0"));
    block_data
}

#[test]
fn test_mine_bill_basic() {
    let mut miner = GenesisMiner::new(None);
    let result = miner.mine_bill(1, "user1", None, 1);
    assert!(result.is_some());
    let res = result.unwrap();
    assert_eq!(res.success, true);
    assert_eq!(res.hash.as_str().chars().next().unwrap(), '0');
}

#[test]
fn test_mine_block_basic() {
    let mut miner = GenesisMiner::new(None);
    let mut block_data = block(1, "user1");
    let result = miner.mine_block(&mut block_data, 1);
    assert!(result.is_some());
    let res = result.unwrap();
    assert_eq!(res["hash"].as_str().unwrap().chars().next().unwrap(), '0');
}

#[test]
fn test_stop_and_stats() {
    let miner = GenesisMiner::new(None);
    miner.stop_mining();
    let stats = miner.get_mining_stats();
    assert!(stats.get("bills_mined").is_some());
    assert!(stats.get("blocks_mined").is_some());
}

#[test]
fn test_mine_bill_with_custom_data() {
    let mut miner = GenesisMiner::new(None);
    let mut note = JsonObject::new();
    note.insert("note".to_string(), Value::from("test"));
    let custom_data = Value::Object(note);
    let result = miner.mine_bill(1, "user2", Some(custom_data.clone()), 1);
    assert!(result.is_some());
    let res = result.unwrap();
    assert_eq!(res.success, true);
}

#[test]
fn test_mine_block_stats_update() {
    let mut miner = GenesisMiner::new(None);
    let mut block_data = block(2, "user2");
    let _ = miner.mine_block(&mut block_data, 1);
    let stats = miner.get_mining_stats();
    assert!(stats.blocks_mined >= 1);
}

#[test]
fn test_invalid_difficulty_zero() {
    let mut miner = GenesisMiner::new(None);
    let result = miner.mine_bill(1, "user4", None, 0);
    // Should instantly succeed since target is empty string
    assert!(result.is_some());
    let res = result.unwrap();
    assert_eq!(res.success, true);
}

#[test]
fn zero_difficulty_succeeds_at_nonce_zero() {
    let mut miner = GenesisMiner::new(None);
    let res = miner.mine_bill(10, "user", None, 0).unwrap();
    assert_eq!(res.nonce, 0);
    assert_eq!(res.method, MiningMethod::Cpu);
    assert_eq!(res.hash, sha256_hex(&res.payload));
    let stats = miner.get_mining_stats();
    assert_eq!(stats.bills_mined, 1);
    assert_eq!(stats.blocks_mined, 0);
    assert_eq!(stats.total_hash_attempts, 0);
}

#[test]
fn proof_can_be_recomputed_from_payload_and_nonce() {
    let bill = DigitalBill::made_at(
        1700000000000,
        "GTX1_1700000000000_seedseed".to_string(),
        1,
        "user1".to_string(),
        1,
        None,
        None,
        None,
        None,
        None,
        None,
        None,
    );
    let mut miner = GenesisMiner::new(None);
    let res = miner.mine_prepared_bill(&bill).unwrap();
    assert!(res.hash.starts_with("0"));
    assert_eq!(res.hash, sha256_hex(&res.payload));
    assert_eq!(res.payload, serde_json::to_string(&bill.get_mining_data(res.nonce)).unwrap());
    assert!(res.payload.contains(&format!("\"nonce\":{},", res.nonce)));
    for earlier in 0..res.nonce {
        let text = serde_json::to_string(&bill.get_mining_data(earlier)).unwrap();
        assert!(!sha256_hex(&text).starts_with("0"));
    }
    let stats = miner.get_mining_stats();
    assert_eq!(stats.bills_mined, 1);
    assert_eq!(stats.total_hash_attempts, res.nonce);
    assert_eq!(stats.total_mining_time, res.mining_time / 1000);
    // the same bill gives the same proof again
    let again = miner.mine_prepared_bill(&bill).unwrap();
    assert_eq!(again.nonce, res.nonce);
    assert_eq!(again.hash, res.hash);
    assert_eq!(miner.get_mining_stats().bills_mined, 2);
    assert_eq!(miner.get_mining_stats().total_hash_attempts, 2 * res.nonce);
}

#[test]
fn mined_block_holds_nonce_hash_and_time() {
    let mut miner = GenesisMiner::new(Some(CUDAManager::new()));
    let mut block_data = block(3, "user3");
    let untouched = block_data.clone();
    let mined = miner.mine_block(&mut block_data, 1).unwrap();
    assert_eq!(mined, block_data);
    let nonce = mined["nonce"].as_u64().unwrap();
    let mut hashed = untouched.clone();
    hashed.insert("nonce".to_string(), Value::from(nonce));
    let hash = sha256_hex(&serde_json::to_string(&hashed).unwrap());
    assert_eq!(mined["hash"], Value::from(hash.as_str()));
    assert!(hash.starts_with("0"));
    assert!(mined["mining_time"].is_u64());
    assert_eq!(mined.len(), untouched.len() + 3);
    for earlier in 0..nonce {
        let mut tried = untouched.clone();
        tried.insert("nonce".to_string(), Value::from(earlier));
        assert!(!sha256_hex(&serde_json::to_string(&tried).unwrap()).starts_with("0"));
    }
    let stats = miner.get_mining_stats();
    assert_eq!(stats.blocks_mined, 1);
    assert_eq!(stats.bills_mined, 0);
    assert_eq!(stats.total_hash_attempts, nonce);
    assert!(miner.cuda_manager.is_some());
}

#[test]
fn stats_are_looked_up_by_name() {
    let miner = GenesisMiner::new(None);
    let stats = miner.get_mining_stats();
    assert_eq!(stats.get("bills_mined"), Some(0));
    assert_eq!(stats.get("blocks_mined"), Some(0));
    assert_eq!(stats.get("total_mining_time"), Some(0));
    assert_eq!(stats.get("total_hash_attempts"), Some(0));
    assert_eq!(stats.get("other"), None);
}

#[test]
fn stop_handle_is_on_the_miners_flag() {
    let miner = GenesisMiner::new(None);
    let handle = miner.stop_handle();
    miner.mining_active.set(true);
    assert!(handle.is_set());
    handle.set(false);
    assert!(!miner.mining_active.is_set());
    let second = handle.handle();
    second.set(true);
    assert!(miner.mining_active.is_set());
    miner.stop_mining();
    assert!(!second.is_set());
    // a flag of its own is lowered, and no other flag's business
    let other = lunalib::mining::control::MiningFlag::new();
    assert!(!other.is_set());
    other.set(true);
    assert!(!miner.mining_active.is_set());
}

#[test]
fn a_lowered_flag_ends_the_search_after_a_failed_try() {
    // while the flag stands raised the search goes on to the next nonce
    assert_eq!(after_failed_try(0, true), Some(1));
    assert_eq!(after_failed_try(41, true), Some(42));
    assert_eq!(after_failed_try(u64::MAX - 1, true), Some(u64::MAX));
    // a lowered flag ends it there and then, whatever the nonce
    assert_eq!(after_failed_try(0, false), None);
    assert_eq!(after_failed_try(41, false), None);
    assert_eq!(after_failed_try(u64::MAX, false), None);
    // and so does the last nonce
    assert_eq!(after_failed_try(u64::MAX, true), None);
}

#[test]
fn a_search_without_result_counts_nothing() {
    // a miner that has found proofs keeps its counters through whatever
    // follows: only a proof moves them
    let mut miner = GenesisMiner::new(None);
    let first = miner.mine_bill(1, "user", None, 0).unwrap();
    let before = miner.get_mining_stats();
    assert_eq!(before.bills_mined, 1);
    assert_eq!(before.blocks_mined, 0);
    miner.stop_mining();
    assert_eq!(miner.get_mining_stats(), before);
    assert_eq!(first.nonce, 0);
}
