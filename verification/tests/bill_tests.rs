use lunalib::gtx::bill_registry::BillInfo;
use lunalib::gtx::digital_bill::DigitalBill;
use lunalib::json::JsonObject;
use serde_json::Value;
use sha2::{Digest, Sha256};

fn sha256_hex(text: &str) -> String {
    hex::encode(Sha256::digest(text.as_bytes()))
}

fn foo_bar() -> Value {
    let mut data = JsonObject::new();
    data.insert("foo".to_string(), Value::from("bar"));
    Value::Object(data)
}

fn fixed_bill() -> DigitalBill {
    DigitalBill::made_at(
        1700000000000,
        "GTX100_1700000000000_abcdefgh".to_string(),
        100,
        "user1".to_string(),
        5,
        Some(foo_bar()),
        None,
        None,
        None,
        None,
        None,
        None,
    )
}

#[test]
fn test_digital_bill_basic() {
    let (priv_key, _pub_key) = DigitalBill::generate_key_pair();
    let mut bill = DigitalBill::new(
        100,
        "user1".to_string(),
        5,
        Some(foo_bar()),
        None,
        None,
        None,
        None,
        None,
        None,
    );
    let hash = bill.calculate_hash();
    let sig = bill.sign(&priv_key);
    bill.public_key = Some(priv_key.clone());
    bill.signature = Some(sig.clone());
    assert!(bill.verify());
    let mining_data = bill.get_mining_data(123);
    assert_eq!(mining_data["denomination"], 100);
    let finalized = bill.finalize(&hash, "nonce123", 1230, Some(&priv_key));
    assert!(finalized["success"].as_bool().unwrap());
}

#[test]
fn key_pair_is_random_key_and_its_hash() {
    let (private_key, public_key) = DigitalBill::generate_key_pair();
    assert_eq!(private_key.len(), 64);
    assert!(private_key.chars().all(|c| c.is_ascii_alphanumeric()));
    assert_eq!(public_key, sha256_hex(&private_key));
    assert_eq!(DigitalBill::derive_public_key("abc"), sha256_hex("abc"));
}

#[test]
fn new_bill_has_defaults_and_generated_serial() {
    let bill = DigitalBill::new(10, "alice".to_string(), 3, None, None, None, None, None, None, None);
    assert_eq!(bill.denomination, 10);
    assert_eq!(bill.user_address, "alice");
    assert_eq!(bill.issued_to, "alice");
    assert_eq!(bill.difficulty, 3);
    assert_eq!(bill.bill_type, "GTX_Genesis");
    assert_eq!(bill.back_serial, "");
    assert_eq!(bill.front_serial, bill.bill_serial);
    assert_eq!(bill.created_time, bill.timestamp);
    assert!(bill.bill_data.is_null());
    assert!(bill.public_key.is_none());
    assert!(bill.signature.is_none());
    let parts: Vec<&str> = bill.bill_serial.split('_').collect();
    assert_eq!(parts.len(), 3);
    assert_eq!(parts[0], "GTX10");
    assert_eq!(parts[1], bill.created_time.to_string());
    assert_eq!(parts[2].len(), 8);
    assert!(parts[2].chars().all(|c| c.is_ascii_alphanumeric()));
    assert_eq!(
        bill.metadata_hash,
        DigitalBill::generate_metadata_hash(10, "alice", 3, bill.timestamp, &bill.bill_serial)
    );
}

#[test]
fn given_parts_override_defaults() {
    let bill = DigitalBill::new(
        1,
        "bob".to_string(),
        2,
        None,
        Some("Custom".to_string()),
        Some("FRONT".to_string()),
        Some("BACK".to_string()),
        Some("HASH".to_string()),
        Some("PK".to_string()),
        Some("SIG".to_string()),
    );
    assert_eq!(bill.bill_serial, "FRONT");
    assert_eq!(bill.front_serial, "FRONT");
    assert_eq!(bill.back_serial, "BACK");
    assert_eq!(bill.bill_type, "Custom");
    assert_eq!(bill.metadata_hash, "HASH");
    assert_eq!(bill.public_key, Some("PK".to_string()));
    assert_eq!(bill.signature, Some("SIG".to_string()));
}

#[test]
fn serial_format_is_exact() {
    assert_eq!(DigitalBill::format_serial(1000, 1700000000123, "Ab3dEf9h"), "GTX1000_1700000000123_Ab3dEf9h");
    assert_eq!(DigitalBill::format_serial(0, 0, ""), "GTX0_0_");
}

#[test]
fn metadata_hash_is_hash_of_canonical_object() {
    let text = "{\"bill_serial\":\"S-1\",\"denomination\":100,\"difficulty\":5,\"timestamp\":1700000000000,\"user_address\":\"user1\"}";
    assert_eq!(
        DigitalBill::generate_metadata_hash(100, "user1", 5, 1700000000000, "S-1"),
        sha256_hex(text)
    );
    let escaped = "{\"bill_serial\":\"a\\\"b\",\"denomination\":1,\"difficulty\":0,\"timestamp\":0,\"user_address\":\"line\\nfeed\"}";
    assert_eq!(DigitalBill::generate_metadata_hash(1, "line\nfeed", 0, 0, "a\"b"), sha256_hex(escaped));
}

#[test]
fn mining_payload_is_exact_and_depends_on_nonce_only() {
    let bill = fixed_bill();
    let previous = sha256_hex("1700000000000");
    let expected = format!(
        "{{\"bill_data\":{{\"foo\":\"bar\"}},\"bill_serial\":\"GTX100_1700000000000_abcdefgh\",\"denomination\":100,\"difficulty\":5,\"nonce\":7,\"previous_hash\":\"{}\",\"timestamp\":1700000000000,\"type\":\"GTX_Genesis\",\"user_address\":\"user1\"}}",
        previous
    );
    assert_eq!(serde_json::to_string(&bill.get_mining_data(7)).unwrap(), expected);
    assert_eq!(bill.get_mining_data(7), bill.get_mining_data(7));
    assert_ne!(bill.get_mining_data(7), bill.get_mining_data(8));
}

#[test]
fn summary_hash_and_signature_are_exact() {
    let bill = fixed_bill();
    let summary = format!(
        "{{\"back_serial\":\"\",\"denomination\":100,\"front_serial\":\"GTX100_1700000000000_abcdefgh\",\"issued_to\":\"user1\",\"metadata_hash\":\"{}\",\"timestamp\":1700000000000,\"type\":\"GTX_Genesis\"}}",
        bill.metadata_hash
    );
    assert_eq!(serde_json::to_string(&bill.to_dict()).unwrap(), summary);
    assert_eq!(bill.calculate_hash(), sha256_hex(&summary));
    assert_eq!(bill.sign("key"), sha256_hex(&format!("key{}", sha256_hex(&summary))));
    assert!(!bill.verify());
}

#[test]
fn finalize_keeps_metadata_hash_and_signs() {
    let mut bill = fixed_bill();
    let before = bill.metadata_hash.clone();
    let summary_hash = bill.calculate_hash();
    let record = bill.finalize_at(1700000001000, "00ab", "42", 1500, Some("secret"));
    assert_eq!(bill.metadata_hash, before);
    assert_eq!(bill.calculate_hash(), summary_hash);
    assert_eq!(bill.public_key, Some(sha256_hex("secret")));
    assert_eq!(bill.signature, Some(sha256_hex(&format!("secret{}", summary_hash))));
    assert_eq!(record["success"], Value::from(true));
    assert_eq!(record["hash"], Value::from("00ab"));
    assert_eq!(record["nonce"], Value::from("42"));
    assert_eq!(record["mining_time"], Value::from(1500u64));
    assert_eq!(record["luna_value"], Value::from(100u64));
    assert_eq!(record["timestamp"], Value::from(1700000001000u64));
    assert_eq!(record["transaction_data"]["status"], Value::from("mined"));
    assert_eq!(record["transaction_data"]["from"], Value::from("genesis_network"));
    assert_eq!(record["transaction_data"]["to"], Value::from("user1"));
    assert_eq!(record["transaction_data"]["amount"], Value::from(100u64));
    assert_eq!(record["transaction_data"]["metadata_hash"], Value::from(before.as_str()));
    assert_eq!(record["transaction_data"]["mining_difficulty"], Value::from(5u64));
}

#[test]
fn finalize_without_key_leaves_bill_unsigned() {
    let mut bill = fixed_bill();
    let before = bill.metadata_hash.clone();
    let record = bill.finalize("00ab", "42", 10, None);
    assert_eq!(bill.metadata_hash, before);
    assert!(bill.public_key.is_none());
    assert!(bill.signature.is_none());
    assert_eq!(record["bill_serial"], Value::from("GTX100_1700000000000_abcdefgh"));
}

#[test]
fn record_urls_follow_from_hash_and_serial() {
    let mut info = BillInfo {
        bill_serial: "B123".to_string(),
        denomination: 100,
        user_address: "user1".to_string(),
        hash: "abc123".to_string(),
        mining_time: 123400,
        difficulty: 5,
        luna_value: 1,
        timestamp: 1234567890000,
        verification_url: String::new(),
        image_url: String::new(),
        metadata: foo_bar(),
        status: "active".to_string(),
    };
    info.assign_urls();
    assert_eq!(info.verification_url, "https://bank.linglin.art/verify/abc123");
    assert_eq!(info.image_url, "https://bank.linglin.art/bills/B123.png");
    assert_eq!(info.bill_serial, "B123");
    assert_eq!(info.metadata["foo"], "bar");
}

#[test]
fn hashes_are_sixty_four_lower_case_hex_digits() {
    let shaped = |h: &str| h.len() == 64 && h.chars().all(|c| matches!(c, '0'..='9' | 'a'..='f'));
    let bill = fixed_bill();
    assert!(shaped(&bill.metadata_hash));
    assert!(shaped(&bill.calculate_hash()));
    assert!(shaped(&bill.sign("key")));
    assert!(shaped(&DigitalBill::derive_public_key("key")));
    assert!(shaped(&DigitalBill::generate_metadata_hash(1, "a", 2, 3, "s")));
    assert!(shaped(&DigitalBill::generate_key_pair().1));
    assert_eq!(lunalib::digest::sha256_hex_of("abc"), sha256_hex("abc"));
    assert_eq!(
        lunalib::digest::sha256_hex_of(""),
        "e3b0c44298fc1c149afbf4c8996fb92427ae41e4649b934ca495991b7852b855"
    );
}
