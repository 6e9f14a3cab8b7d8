use lunalib::node::crypto::Crypto;
use lunalib::node::sm2::SM2;
use sha2::{Digest, Sha256};

fn sha256_hex(text: &str) -> String {
    hex::encode(Sha256::digest(text.as_bytes()))
}

#[test]
fn test_generate_keypair() {
    let crypto = Crypto::new();
    let (privk, pubk, addr) = crypto.generate_keypair();
    assert_eq!(privk.len(), 64);
    assert!(pubk.starts_with("04"));
    assert!(addr.starts_with("LUN_"));
}

#[test]
fn test_sign_and_verify() {
    let crypto = Crypto::new();
    let (privk, pubk, _) = crypto.generate_keypair();
    let msg = "Hello, SM2 cryptography!";
    let sig = crypto.sign_data(msg, &privk);
    assert!(crypto.verify_signature(msg, &sig, &pubk));
}

#[test]
fn test_derive_address() {
    let crypto = Crypto::new();
    let (_, pubk, addr) = crypto.generate_keypair();
    let derived = crypto.derive_address(&pubk);
    assert_eq!(addr, derived);
}

#[test]
fn test_validate_key_pair() {
    let crypto = Crypto::new();
    let (privk, pubk, _) = crypto.generate_keypair();
    assert!(crypto.validate_key_pair(&privk, &pubk));
}

#[test]
fn keypair_from_seed_is_exact() {
    let sm2 = SM2::new();
    let mut seed = [0u8; 32];
    seed[0] = 0xab;
    seed[1] = 0x07;
    seed[31] = 0xff;
    let (privk, pubk) = sm2.keypair_from_seed(&seed);
    assert_eq!(privk, format!("ab07{}ff", "00".repeat(29)));
    assert_eq!(pubk, format!("04{}ab{}07", "0".repeat(62), "0".repeat(62)));
    assert_eq!(pubk.len(), 130);
}

#[test]
fn address_is_prefix_and_sixteen_digits_of_hash() {
    let sm2 = SM2::new();
    let address = sm2.public_key_to_address("04abcdef");
    assert_eq!(address, format!("LUN_{}", &sha256_hex("04abcdef")[..16]));
    assert_eq!(address.len(), 20);
}

#[test]
fn derived_public_key_is_hash_of_private_key() {
    let crypto = Crypto::new();
    let public_key = crypto.derive_public_key("secret");
    assert_eq!(public_key, format!("04{}", sha256_hex("secret")));
    assert_ne!(public_key, "secret");
}

#[test]
fn signature_is_padded_hash_of_data_and_key() {
    let sm2 = SM2::new();
    let signature = sm2.sign("data", "key");
    assert_eq!(signature, format!("{}{}", "0".repeat(64), sha256_hex("datakey")));
    assert_eq!(signature.len(), 128);
    assert!(sm2.verify("data", &signature, "any"));
    assert!(!sm2.verify("data", "short", "any"));
    assert!(!sm2.verify("data", &"é".repeat(128), "any"));
    assert!(sm2.verify("data", &"é".repeat(64), "any"));
}
