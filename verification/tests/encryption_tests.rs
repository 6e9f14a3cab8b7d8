use base64::Engine;
use lunalib::storage::encryption::{DecryptError, EncryptionManager};

#[test]
fn test_encrypt_decrypt_data() {
    let manager = EncryptionManager::new();
    let encrypted = manager.encrypt_data("hello world", "pw");
    let decrypted = manager.decrypt_data(&encrypted, "pw").unwrap();
    assert_eq!(decrypted, "hello world");
}

#[test]
fn manager_starts_with_the_usual_salt() {
    assert_eq!(EncryptionManager::new().salt, b"luna_wallet_salt".to_vec());
}

#[test]
fn token_has_mark_nonce_ciphertext_and_tag() {
    let manager = EncryptionManager::new();
    let nonce = [7u8; 16];
    let plaintext = b"forty bytes of plain text, more or less!";
    let token = manager.encrypt_with_nonce(plaintext, "pw", &nonce);
    let raw = base64::engine::general_purpose::URL_SAFE_NO_PAD.decode(&token).unwrap();
    assert_eq!(&raw[..3], b"EL1");
    assert_eq!(&raw[3..19], &nonce);
    assert_eq!(raw.len(), 3 + 16 + plaintext.len() + 32);
    // the key, the stream and the tag, computed apart from the library
    let mut key = [0u8; 32];
    ring::pbkdf2::derive(
        ring::pbkdf2::PBKDF2_HMAC_SHA256,
        std::num::NonZeroU32::new(100_000).unwrap(),
        b"luna_wallet_salt",
        b"pw",
        &mut key,
    );
    let mac_key = ring::hmac::Key::new(ring::hmac::HMAC_SHA256, &key);
    let mut stream = Vec::new();
    for counter in 0u32..2 {
        let mut message = nonce.to_vec();
        message.extend_from_slice(&counter.to_be_bytes());
        stream.extend_from_slice(ring::hmac::sign(&mac_key, &message).as_ref());
    }
    let ciphertext: Vec<u8> = plaintext.iter().zip(stream.iter()).map(|(a, b)| a ^ b).collect();
    assert_eq!(&raw[19..19 + plaintext.len()], ciphertext.as_slice());
    let mut signed = nonce.to_vec();
    signed.extend_from_slice(&ciphertext);
    assert_eq!(&raw[19 + plaintext.len()..], ring::hmac::sign(&mac_key, &signed).as_ref());
    assert_eq!(manager.decrypt_bytes(&token, "pw"), Ok(plaintext.to_vec()));
    // the same nonce gives the same token, another nonce another
    assert_eq!(manager.encrypt_with_nonce(plaintext, "pw", &nonce), token);
    assert_ne!(manager.encrypt_with_nonce(plaintext, "pw", &[8u8; 16]), token);
}

#[test]
fn opening_fails_with_its_reason() {
    let manager = EncryptionManager::new();
    let token = manager.encrypt_data("secret", "pw");
    assert_eq!(manager.decrypt_bytes(&token, "wrong"), Err(DecryptError::InvalidPasswordOrCorrupted));
    assert_eq!(manager.decrypt_data(&token, "wrong"), None);
    assert_eq!(manager.decrypt_bytes("not base64!", "pw"), Err(DecryptError::Encoding));
    let other = base64::engine::general_purpose::URL_SAFE_NO_PAD.encode(b"XY1 and the rest of it");
    assert_eq!(manager.decrypt_bytes(&other, "pw"), Err(DecryptError::UnsupportedFormat));
    assert_eq!(manager.decrypt_bytes("", "pw"), Err(DecryptError::UnsupportedFormat));
    let short = base64::engine::general_purpose::URL_SAFE_NO_PAD.encode(b"EL1short");
    assert_eq!(manager.decrypt_bytes(&short, "pw"), Err(DecryptError::InvalidPasswordOrCorrupted));
    let mut raw = base64::engine::general_purpose::URL_SAFE_NO_PAD.decode(&token).unwrap();
    raw[20] ^= 1;
    let changed = base64::engine::general_purpose::URL_SAFE_NO_PAD.encode(&raw);
    assert_eq!(manager.decrypt_bytes(&changed, "pw"), Err(DecryptError::InvalidPasswordOrCorrupted));
}

#[test]
fn empty_and_non_text_data() {
    let manager = EncryptionManager::new();
    let token = manager.encrypt_data("", "pw");
    assert_eq!(manager.decrypt_data(&token, "pw"), Some(String::new()));
    let bytes = manager.encrypt_with_nonce(&[0xff, 0xfe], "pw", &[0u8; 16]);
    assert_eq!(manager.decrypt_bytes(&bytes, "pw"), Ok(vec![0xff, 0xfe]));
    assert_eq!(manager.decrypt_data(&bytes, "pw"), None);
    let other_salt = EncryptionManager { salt: b"other".to_vec() };
    assert_eq!(other_salt.decrypt_data(&token, "pw"), None);
}

fn wallet(private_key: Option<&str>) -> serde_json::Value {
    let mut wallet = lunalib::json::JsonObject::new();
    wallet.insert("address".to_string(), serde_json::Value::from("addr1"));
    if let Some(key) = private_key {
        wallet.insert("private_key".to_string(), serde_json::Value::from(key));
    }
    wallet.insert("balance".to_string(), serde_json::Value::from(100u64));
    serde_json::Value::Object(wallet)
}

#[test]
fn test_encrypt_decrypt_wallet() {
    let mut wallet = wallet(Some("mysecretkey"));
    let manager = EncryptionManager::new();
    let encrypted = manager.encrypt_wallet(&mut wallet, "password123").unwrap();
    assert!(encrypted["encrypted_data"].is_string());
    let decrypted = manager.decrypt_wallet(&encrypted, "password123").unwrap();
    assert_eq!(decrypted["address"], "addr1");
    assert_eq!(decrypted["private_key"], "mysecretkey");
    assert_eq!(decrypted["balance"], 100);
}

#[test]
fn test_verify_password() {
    let mut wallet = wallet(Some("key2"));
    let manager = EncryptionManager::new();
    let encrypted = manager.encrypt_wallet(&mut wallet, "pw").unwrap();
    assert!(manager.verify_password(&encrypted, "pw"));
    assert!(!manager.verify_password(&encrypted, "wrongpw"));
}

#[test]
fn sealed_wallet_and_envelope_are_exact() {
    let manager = EncryptionManager::new();
    let mut sealed = wallet(Some("k"));
    let envelope = manager.encrypt_wallet(&mut sealed, "pw").unwrap();
    // the wallet itself has its key under seal
    assert!(sealed.get("private_key").is_none());
    let token = sealed["encrypted_private_key"].as_str().unwrap().to_string();
    assert_eq!(manager.decrypt_data(&token, "pw"), Some("k".to_string()));
    assert_eq!(sealed.as_object().unwrap().len(), 3);
    // the envelope holds the token of the sealed wallet, the version and the salt
    assert_eq!(envelope.as_object().unwrap().len(), 3);
    assert_eq!(envelope["version"], "1.0");
    assert_eq!(envelope["salt"], base64::engine::general_purpose::STANDARD.encode(b"luna_wallet_salt").as_str());
    let inner = manager.decrypt_data(envelope["encrypted_data"].as_str().unwrap(), "pw").unwrap();
    assert_eq!(inner, serde_json::to_string(&sealed).unwrap());
    // a wallet without a key is sealed as it is
    let mut plain = wallet(None);
    let envelope = manager.encrypt_wallet(&mut plain, "pw").unwrap();
    assert_eq!(plain, wallet(None));
    assert_eq!(manager.decrypt_wallet(&envelope, "pw"), Some(wallet(None)));
    // what is no object is sealed as it is, too
    let mut odd = serde_json::Value::from("text");
    let envelope = manager.encrypt_wallet(&mut odd, "pw").unwrap();
    assert_eq!(manager.decrypt_wallet(&envelope, "pw"), Some(serde_json::Value::from("text")));
    assert_eq!(manager.decrypt_wallet(&envelope, "other"), None);
    assert_eq!(manager.decrypt_wallet(&serde_json::Value::Null, "pw"), None);
    assert!(!manager.verify_password(&serde_json::Value::Null, "pw"));
    // a token that seals no JSON opens to no wallet
    let mut no_json = lunalib::json::JsonObject::new();
    no_json.insert("encrypted_data".to_string(), serde_json::Value::from(manager.encrypt_data("not json", "pw")));
    assert_eq!(manager.decrypt_wallet(&serde_json::Value::Object(no_json.clone()), "pw"), None);
    assert!(manager.verify_password(&serde_json::Value::Object(no_json), "pw"));
    // a key under a seal that does not open stays under it
    let mut foreign = wallet(None);
    foreign.as_object_mut().unwrap().insert("encrypted_private_key".to_string(), serde_json::Value::from("garbage"));
    let envelope = manager.encrypt_wallet(&mut foreign.clone(), "pw").unwrap();
    assert_eq!(manager.decrypt_wallet(&envelope, "pw"), Some(foreign));
}
