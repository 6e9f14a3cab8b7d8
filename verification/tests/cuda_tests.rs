use lunalib::mining::cuda_manager::{
    block_text, first_valid, nonce_range, over_limit, CUDAManager, MiningMethod,
    BATCH_SEARCH_LIMIT_MS,
};
use lunalib::json::JsonObject;
use serde_json::Value;
use sha2::{Digest, Sha256};

fn sha256_hex(text: &str) -> String {
    hex::encode(Sha256::digest(text.as_bytes()))
}

#[test]
fn test_cuda_manager_cpu_fallback() {
    let manager = CUDAManager::new();
    let mut mining_data = JsonObject::new();
    mining_data.insert("data".to_string(), Value::from("test"));
    let result = manager.cuda_mine_batch(&mining_data, 1, 1000);
    // no accelerator is driven from here, so there is no result
    assert!(result.is_none() || result.as_ref().unwrap().success);
    assert!(result.is_none());
}

#[test]
fn test_compute_hashes_parallel() {
    let mut base_data = JsonObject::new();
    base_data.insert("data".to_string(), Value::from("abc"));
    let nonces = vec![1, 2, 3];
    let hashes = CUDAManager::compute_hashes_parallel(&base_data, &nonces);
    assert_eq!(hashes.len(), 3);
    for h in hashes {
        assert_eq!(h.len(), 64);
    }
}

#[test]
fn batch_hashes_are_exact_and_in_order() {
    let mut base_data = JsonObject::new();
    base_data.insert("data".to_string(), Value::from("abc"));
    let hashes = CUDAManager::compute_hashes_parallel(&base_data, &[5, 0, 5]);
    assert_eq!(hashes[0], sha256_hex("{\"data\":\"abc\",\"nonce\":5}"));
    assert_eq!(hashes[1], sha256_hex("{\"data\":\"abc\",\"nonce\":0}"));
    assert_eq!(hashes[2], hashes[0]);
    assert_eq!(block_text(&base_data, 18446744073709551615), "{\"data\":\"abc\",\"nonce\":18446744073709551615}");
    assert!(CUDAManager::compute_hashes_parallel(&base_data, &[]).is_empty());
}

#[test]
fn batch_search_finds_the_first_valid_nonce() {
    let manager = CUDAManager { cuda_available: true, device_name: None };
    let mut mining_data = JsonObject::new();
    mining_data.insert("data".to_string(), Value::from("test"));
    mining_data.insert("nonce".to_string(), Value::from("stale"));
    let found = manager.cuda_mine_batch(&mining_data, 1, 7).unwrap();
    assert!(found.success);
    assert_eq!(found.method, MiningMethod::Cuda);
    assert_eq!(found.payload, format!("{{\"data\":\"test\",\"nonce\":{}}}", found.nonce));
    assert_eq!(found.hash, sha256_hex(&found.payload));
    assert!(found.hash.starts_with("0"));
    for earlier in 0..found.nonce {
        assert!(!sha256_hex(&format!("{{\"data\":\"test\",\"nonce\":{}}}", earlier)).starts_with("0"));
    }
    assert!(manager.cuda_mine_batch(&mining_data, 1, 0).is_none());
    let at_once = manager.cuda_mine_batch(&mining_data, 0, 3).unwrap();
    assert_eq!(at_once.nonce, 0);
}

#[test]
fn first_valid_and_nonce_range() {
    assert_eq!(nonce_range(3, 6), vec![3, 4, 5]);
    assert!(nonce_range(9, 9).is_empty());
    let hashes = vec!["1a".to_string(), "0b".to_string(), "00".to_string()];
    assert_eq!(first_valid(&hashes, "0"), Some(1));
    assert_eq!(first_valid(&hashes, "00"), Some(2));
    assert_eq!(first_valid(&hashes, "000"), None);
    assert_eq!(first_valid(&hashes, ""), Some(0));
    assert_eq!(first_valid(&vec![], ""), None);
}

#[test]
fn cuda_info_reports_no_accelerator() {
    let info = CUDAManager::new().get_cuda_info();
    assert_eq!(info.len(), 1);
    assert_eq!(info["available"], Value::from(false));
    let claimed = CUDAManager { cuda_available: true, device_name: Some("gpu".to_string()) };
    let info = claimed.get_cuda_info();
    assert_eq!(info["available"], Value::from(false));
    assert_eq!(info["error"], Value::from("CUDA feature not enabled"));
}

#[test]
fn batch_search_gives_up_after_three_hundred_seconds() {
    assert_eq!(BATCH_SEARCH_LIMIT_MS, 300_000);
    assert!(!over_limit(1_000, 1_000));
    assert!(!over_limit(1_000, 300_999));
    assert!(!over_limit(1_000, 301_000));
    assert!(over_limit(1_000, 301_001));
    assert!(over_limit(0, u64::MAX));
    // a clock that went backwards counts as no time gone
    assert!(!over_limit(500_000, 1_000));
    assert!(!over_limit(u64::MAX, 0));
}
