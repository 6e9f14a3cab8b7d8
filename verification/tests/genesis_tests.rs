use lunalib::gtx::bill_registry::BillInfo;
use lunalib::gtx::digital_bill::DigitalBill;
use lunalib::gtx::genesis::{
    annotate, key_of, BillFields, GTXGenesis, GenesisError, VerificationError,
    VerificationMethod,
};
use lunalib::json::JsonObject;
use serde_json::Value;
use sha2::{Digest, Sha256};

fn sha256_hex(text: &str) -> String {
    hex::encode(Sha256::digest(text.as_bytes()))
}

fn record(metadata: Value) -> BillInfo {
    BillInfo {
        bill_serial: "S1".to_string(),
        denomination: 100,
        user_address: "owner".to_string(),
        hash: "00ff".to_string(),
        mining_time: 0,
        difficulty: 4,
        luna_value: 100,
        timestamp: 1700000000000,
        verification_url: String::new(),
        image_url: String::new(),
        metadata,
        status: "active".to_string(),
    }
}

fn owned(denomination: i64, luna_value: u64) -> BillInfo {
    let mut info = record(Value::Null);
    info.denomination = denomination;
    info.luna_value = luna_value;
    info
}

fn metadata(signature: &str, metadata_hash: &str, public_key: &str) -> JsonObject {
    let mut m = JsonObject::new();
    m.insert("signature".to_string(), Value::from(signature));
    m.insert("metadata_hash".to_string(), Value::from(metadata_hash));
    m.insert("public_key".to_string(), Value::from(public_key));
    m.insert("issued_to".to_string(), Value::from("owner"));
    m.insert("denomination".to_string(), Value::from(100u64));
    m.insert("front_serial".to_string(), Value::from("S1"));
    m.insert("timestamp".to_string(), Value::from(1700000000000u64));
    m.insert("type".to_string(), Value::from("GTX_Genesis"));
    m
}

fn verify(m: JsonObject) -> lunalib::gtx::genesis::VerificationResult {
    let info = record(Value::Object(m));
    GTXGenesis::new().verify_bill("S1", Some(&info))
}

const SUMMARY_WITHOUT_HASH: &str = "{\"back_serial\":\"\",\"denomination\":100,\"front_serial\":\"S1\",\"issued_to\":\"owner\",\"metadata_hash\":\"\",\"timestamp\":1700000000000,\"type\":\"GTX_Genesis\"}";

#[test]
fn test_create_and_verify_genesis_bill() {
    let gtx = GTXGenesis::new();
    let bill = gtx.create_genesis_bill(100, "user1", None).unwrap();
    assert_eq!(bill.denomination, 100);
    let portfolio = gtx.get_user_portfolio("user1", vec![]);
    assert_eq!(portfolio.user_address, "user1");
    assert!(portfolio.breakdown.is_empty());
}

#[test]
fn difficulty_steps_at_all_band_boundaries() {
    let gtx = GTXGenesis::new();
    let bands: [(u64, u32); 9] = [
        (1, 2),
        (10, 3),
        (100, 4),
        (1000, 5),
        (10000, 6),
        (100000, 7),
        (1000000, 8),
        (10000000, 9),
        (100000000, 10),
    ];
    for (denomination, level) in bands {
        assert_eq!(gtx.calculate_difficulty(denomination), level);
        assert_eq!(gtx.calculate_difficulty(denomination), level);
    }
    assert_eq!(gtx.calculate_difficulty(0), 2);
    assert_eq!(gtx.calculate_difficulty(2), 3);
    assert_eq!(gtx.calculate_difficulty(11), 4);
    assert_eq!(gtx.calculate_difficulty(101), 5);
    assert_eq!(gtx.calculate_difficulty(1001), 6);
    assert_eq!(gtx.calculate_difficulty(10001), 7);
    assert_eq!(gtx.calculate_difficulty(100001), 8);
    assert_eq!(gtx.calculate_difficulty(1000001), 9);
    assert_eq!(gtx.calculate_difficulty(10000001), 10);
    assert_eq!(gtx.calculate_difficulty(u64::MAX), 10);
    let mut last = 0;
    for denomination in gtx.valid_denominations.iter() {
        let level = gtx.calculate_difficulty(*denomination);
        assert!(level >= last);
        last = level;
    }
}

#[test]
fn only_the_fixed_denominations_are_issued() {
    let gtx = GTXGenesis::new();
    assert_eq!(
        gtx.valid_denominations,
        vec![1, 10, 100, 1000, 10000, 100000, 1000000, 10000000, 100000000]
    );
    for denomination in [0u64, 2, 5, 50, 99, 1000000000] {
        assert!(!gtx.is_valid_denomination(denomination));
        assert_eq!(
            gtx.create_genesis_bill(denomination, "user", None).err(),
            Some(GenesisError::InvalidDenomination)
        );
    }
    for denomination in gtx.valid_denominations.clone() {
        let bill = gtx.create_genesis_bill(denomination, "user", None).unwrap();
        assert_eq!(bill.denomination, denomination);
        assert_eq!(bill.difficulty, gtx.calculate_difficulty(denomination));
        assert_eq!(bill.user_address, "user");
        assert!(bill.bill_serial.starts_with(&format!("GTX{}_", denomination)));
    }
}

#[test]
fn issued_bill_data_is_marked() {
    let gtx = GTXGenesis::new();
    let bill = gtx.create_genesis_bill(10, "user", None).unwrap();
    assert_eq!(bill.bill_data["version"], "1.0");
    assert_eq!(bill.bill_data["asset_type"], "GTX_Genesis");
    assert!(bill.bill_data["creation_timestamp"].is_u64());
    assert_eq!(bill.bill_data.as_object().unwrap().len(), 3);

    let mut custom = JsonObject::new();
    custom.insert("note".to_string(), Value::from("mine"));
    custom.insert("version".to_string(), Value::from("0.9"));
    let marked = annotate(Some(Value::Object(custom)), 1700000000);
    assert_eq!(
        serde_json::to_string(&marked).unwrap(),
        "{\"asset_type\":\"GTX_Genesis\",\"creation_timestamp\":1700000000,\"note\":\"mine\",\"version\":\"1.0\"}"
    );
    assert_eq!(
        serde_json::to_string(&annotate(None, 5)).unwrap(),
        "{\"asset_type\":\"GTX_Genesis\",\"creation_timestamp\":5,\"version\":\"1.0\"}"
    );
    assert_eq!(annotate(Some(Value::from("plain")), 5), Value::from("plain"));
    assert_eq!(annotate(Some(Value::Null), 5), Value::Null);
}

#[test]
fn verification_rejects_what_cannot_be_looked_at() {
    let gtx = GTXGenesis::new();
    let info = record(Value::Object(metadata("x".repeat(20).as_str(), "", "")));
    let r = gtx.verify_bill("", Some(&info));
    assert!(!r.valid);
    assert_eq!(r.error, Some(VerificationError::InvalidSerial));
    assert_eq!(r.error.unwrap().message(), "Invalid bill serial");
    let r = gtx.verify_bill("S1", None);
    assert!(!r.valid);
    assert_eq!(r.error, Some(VerificationError::NotFound));
    assert_eq!(r.error.unwrap().message(), "Bill not found in registry");
    let r = gtx.verify_bill("S1", Some(&record(Value::Null)));
    assert!(!r.valid);
    assert_eq!(r.error, Some(VerificationError::NoBillData));
    assert_eq!(r.error.unwrap().message(), "No bill data found in metadata");
    assert_eq!(serde_json::to_string(&r.to_json()).unwrap(), "{\"error\":\"No bill data found in metadata\",\"valid\":false}");
    assert!(r.bill.is_none());
    assert!(r.verification_method.is_none());
}

#[test]
fn first_matching_method_is_reported() {
    // the signature is the metadata hash, and that hash is chosen to be the
    // hash of the concatenated fields as well: both checks would accept
    let simple = sha256_hex("S1100owner1700000000000");
    let r = verify(metadata(&simple, &simple, ""));
    assert!(r.valid);
    assert_eq!(r.verification_method, Some(VerificationMethod::SignatureIsMetadataHash));
    assert_eq!(r.verification_method.unwrap().as_str(), "signature_is_metadata_hash");
    assert_eq!(r.bill, Some("S1".to_string()));
    assert!(r.error.is_none());
    assert_eq!(
        serde_json::to_string(&r.to_json()).unwrap(),
        "{\"bill\":\"S1\",\"valid\":true,\"verification_method\":\"signature_is_metadata_hash\"}"
    );
    // with another metadata hash, the concatenation check is the one to accept
    let r = verify(metadata(&simple, "other", ""));
    assert_eq!(r.verification_method, Some(VerificationMethod::SimpleHash));
    assert_eq!(r.verification_method.unwrap().as_str(), "simple_hash");
}

#[test]
fn fallback_accepts_long_signatures_only() {
    let r = verify(metadata("Zq3vT8mK1xW5pL0rYb7J", "", ""));
    assert!(r.valid);
    assert_eq!(r.verification_method, Some(VerificationMethod::FallbackAccept));
    assert_eq!(r.verification_method.unwrap().as_str(), "fallback_accept");
    let r = verify(metadata("Zq3vT", "", ""));
    assert!(!r.valid);
    assert_eq!(r.error, Some(VerificationError::SignatureFailed));
    assert_eq!(r.error.unwrap().message(), "Signature verification failed");
    // ten characters are not enough, eleven are; characters count, not bytes
    assert!(!verify(metadata("0123456789", "", "")).valid);
    assert!(verify(metadata("0123456789a", "", "")).valid);
    assert!(!verify(metadata("éééééé", "", "")).valid);
    assert!(!verify(metadata("", "", "")).valid);
}

#[test]
fn each_method_accepts_its_own_signature() {
    let r = verify(metadata(&sha256_hex("PKMH"), "MH", "PK"));
    assert_eq!(r.verification_method, Some(VerificationMethod::MetadataHashSignature));
    assert_eq!(r.verification_method.unwrap().as_str(), "metadata_hash_signature");

    let summary_hash = sha256_hex(SUMMARY_WITHOUT_HASH);
    let r = verify(metadata(&summary_hash, "", ""));
    assert_eq!(r.verification_method, Some(VerificationMethod::DigitalBillCalculateHash));
    assert_eq!(r.verification_method.unwrap().as_str(), "digital_bill_calculate_hash");

    let r = verify(metadata(&sha256_hex(&format!("PK{}", summary_hash)), "", "PK"));
    assert_eq!(r.verification_method, Some(VerificationMethod::DigitalBillVerifyMethod));
    assert_eq!(r.verification_method.unwrap().as_str(), "digital_bill_verify_method");

    let fresh = DigitalBill::generate_metadata_hash(100, "owner", 0, 1700000000000, "S1");
    let r = verify(metadata(&fresh, "", ""));
    assert_eq!(r.verification_method, Some(VerificationMethod::DigitalBillMetadataHash));
    assert_eq!(r.verification_method.unwrap().as_str(), "digital_bill_metadata_hash");

    let projection = "{\"denomination\":100,\"front_serial\":\"S1\",\"issued_to\":\"owner\",\"public_key\":\"PK\",\"timestamp\":1700000000000,\"type\":\"GTX_Genesis\"}";
    let r = verify(metadata(&sha256_hex(projection), "", "PK"));
    assert_eq!(r.verification_method, Some(VerificationMethod::BillJsonHash));
    assert_eq!(r.verification_method.unwrap().as_str(), "bill_json_hash");
}

#[test]
fn missing_fields_take_their_defaults() {
    let fields = BillFields::from_metadata(&Value::Object(JsonObject::new()));
    assert_eq!(fields.public_key, "");
    assert_eq!(fields.signature, "");
    assert_eq!(fields.metadata_hash, "");
    assert_eq!(fields.issued_to, "");
    assert_eq!(fields.denomination, 0);
    assert_eq!(fields.front_serial, "");
    assert_eq!(fields.back_serial, None);
    assert_eq!(fields.timestamp, 0);
    assert_eq!(fields.bill_type, "GTX_Genesis");
    assert_eq!(fields.first_accepting(), None);
    let mut odd = JsonObject::new();
    odd.insert("signature".to_string(), Value::from(12u64));
    odd.insert("denomination".to_string(), Value::from("ten"));
    odd.insert("back_serial".to_string(), Value::from("B"));
    odd.insert("type".to_string(), Value::from("Other"));
    let fields = BillFields::from_metadata(&Value::Object(odd));
    assert_eq!(fields.signature, "");
    assert_eq!(fields.denomination, 0);
    assert_eq!(fields.back_serial, Some("B".to_string()));
    assert_eq!(fields.bill_type, "Other");
    let r = GTXGenesis::new().verify_bill("S1", Some(&record(Value::from("text"))));
    assert_eq!(r.error, Some(VerificationError::SignatureFailed));
}

#[test]
fn portfolio_sums_and_counts_by_denomination() {
    let gtx = GTXGenesis::new();
    let bills = vec![owned(10, 10), owned(10, 10), owned(100, 100)];
    let portfolio = gtx.get_user_portfolio("owner", bills);
    assert_eq!(portfolio.user_address, "owner");
    assert_eq!(portfolio.total_bills, 3);
    assert_eq!(portfolio.total_luna_value, 120);
    assert_eq!(portfolio.bills.len(), 3);
    assert_eq!(portfolio.breakdown.len(), 2);
    assert_eq!(portfolio.breakdown[&10], 2);
    assert_eq!(portfolio.breakdown[&100], 1);
}

#[test]
fn portfolio_total_does_not_wrap() {
    let gtx = GTXGenesis::new();
    let bills = vec![owned(1, u64::MAX), owned(1, u64::MAX), owned(-1, 1)];
    let breakdown = GTXGenesis::get_denomination_breakdown(&bills);
    assert_eq!(breakdown[&1], 2);
    assert_eq!(breakdown[&u64::MAX], 1);
    assert_eq!(key_of(-1), u64::MAX);
    assert_eq!(key_of(i64::MIN), 1u64 << 63);
    assert_eq!(key_of(7), 7);
    let portfolio = gtx.get_user_portfolio("owner", bills);
    assert_eq!(portfolio.total_luna_value, 2 * (u64::MAX as u128) + 1);
    assert!(GTXGenesis::get_denomination_breakdown(&[]).is_empty());
}
