//! The key operations as the rest of a node uses them.

use vstd::prelude::*;
use vstd::string::*;
use crate::json::{
    decimal_text, json_number, json_object, json_string, json_text, members_insert, members_new,
    no_members, object_text, quoted_text,
};
use crate::text::{byte_len, has_prefix, starts_with};
use crate::node::sm2::{
    address_of, public_key_of, seed_private_key, seed_public_key, signature_of, SM2,
};

verus! {

/// The key operations, which have no state.
pub struct Crypto;

impl Crypto {
    pub fn new() -> Self {
        Crypto
    }

    /// A fresh private key, the public key handed out with it, and the
    /// address of that public key.
    pub fn generate_keypair(&self) -> (keys: (String, String, String))
        ensures
            exists|seed: Seq<u8>|
                seed.len() == 32 && keys.0@ == #[trigger] seed_private_key(seed) && keys.1@
                    == seed_public_key(seed),
            keys.0@.len() == 64,
            keys.1@.len() == 130,
            keys.2@ == address_of(keys.1@),
    {
        let sm2 = SM2::new();
        let (private_key, public_key) = sm2.generate_keypair();
        let address = sm2.public_key_to_address(public_key.as_str());
        (private_key, public_key, address)
    }

    /// A fresh private key: the hexadecimal form of 32 random bytes.
    pub fn generate_private_key(&self) -> (private_key: String)
        ensures
            exists|seed: Seq<u8>| seed.len() == 32 && private_key@ == #[trigger] seed_private_key(seed),
            private_key@.len() == 64,
    {
        let (private_key, _, _) = self.generate_keypair();
        private_key
    }

    /// The public key that belongs to a private key.
    pub fn derive_public_key(&self, private_key_hex: &str) -> (public_key: String)
        ensures
            public_key@ == public_key_of(private_key_hex@),
    {
        let sm2 = SM2::new();
        sm2.derive_public_key(private_key_hex)
    }

    /// The address that belongs to a public key.
    pub fn derive_address(&self, public_key_hex: &str) -> (address: String)
        ensures
            address@ == address_of(public_key_hex@),
    {
        let sm2 = SM2::new();
        sm2.public_key_to_address(public_key_hex)
    }

    /// Signs `data` with a private key.
    pub fn sign_data(&self, data: &str, private_key_hex: &str) -> (signature: String)
        ensures
            signature@ == signature_of(data@, private_key_hex@),
            byte_len(signature@) == 128,
    {
        let sm2 = SM2::new();
        sm2.sign(data, private_key_hex)
    }

    /// Checks the form of a signature: 128 bytes are accepted.
    pub fn verify_signature(&self, data: &str, signature: &str, public_key_hex: &str) -> (ok: bool)
        ensures
            ok == (byte_len(signature@) == 128),
    {
        let sm2 = SM2::new();
        sm2.verify(data, signature, public_key_hex)
    }

    /// Signs a test message with the private key and checks the signature
    /// against the public key. As signatures are checked by their form, every
    /// pair passes.
    pub fn validate_key_pair(&self, private_key_hex: &str, public_key_hex: &str) -> (ok: bool)
        ensures
            ok,
    {
        let test_data = "SM2 key validation test";
        let signature = self.sign_data(test_data, private_key_hex);
        self.verify_signature(test_data, signature.as_str(), public_key_hex)
    }
}

/// The first eight characters of a key, or all of it where it has fewer.
pub open spec fn key_prefix(key: Seq<char>) -> Seq<char> {
    if key.len() <= 8 {
        key
    } else {
        key.subrange(0, 8)
    }
}

/// The members of the report on a pair of keys, of which either may be
/// missing.
pub open spec fn key_info_members(private_key: Option<Seq<char>>, public_key: Option<Seq<char>>) -> Map<
    Seq<char>,
    Seq<char>,
> {
    let base = no_members().insert("crypto_standard"@, quoted_text("SM2 (GB/T 32918)"@)).insert(
        "curve"@,
        quoted_text("SM2 P-256"@),
    ).insert("key_size_bits"@, decimal_text(256));
    let with_private = match private_key {
        Some(key) => base.insert("private_key_length"@, decimal_text(byte_len(key))).insert(
            "private_key_prefix"@,
            quoted_text(key_prefix(key)),
        ),
        None => base,
    };
    match public_key {
        Some(key) => with_private.insert("public_key_length"@, decimal_text(byte_len(key))).insert(
            "public_key_format"@,
            quoted_text(
                if has_prefix(key, "04"@) {
                    "uncompressed"@
                } else {
                    "unknown"@
                },
            ),
        ).insert("address"@, quoted_text(address_of(key))),
        None => with_private,
    }
}

impl Crypto {
    /// A report on a pair of keys: the scheme, and of each key that is given
    /// its length in bytes; of the private key its first eight characters,
    /// of the public key its format and its address.
    pub fn get_key_info(&self, private_key_hex: Option<&str>, public_key_hex: Option<&str>) -> (info:
        serde_json::Value)
        ensures
            json_text(info) == object_text(
                key_info_members(
                    match private_key_hex {
                        Some(k) => Some(k@),
                        None => None,
                    },
                    match public_key_hex {
                        Some(k) => Some(k@),
                        None => None,
                    },
                ),
            ),
    {
        let mut info = members_new();
        members_insert(&mut info, "crypto_standard", json_string("SM2 (GB/T 32918)"));
        members_insert(&mut info, "curve", json_string("SM2 P-256"));
        members_insert(&mut info, "key_size_bits", json_number(256));
        match private_key_hex {
            Some(key) => {
                let length = key.as_bytes().len();
                members_insert(&mut info, "private_key_length", json_number(length as u64));
                let count = key.unicode_len();
                let prefix = if count <= 8 {
                    key
                } else {
                    key.substring_char(0, 8)
                };
                members_insert(&mut info, "private_key_prefix", json_string(prefix));
            },
            None => {},
        }
        match public_key_hex {
            Some(key) => {
                let length = key.as_bytes().len();
                members_insert(&mut info, "public_key_length", json_number(length as u64));
                let format = if starts_with(key, "04") {
                    "uncompressed"
                } else {
                    "unknown"
                };
                members_insert(&mut info, "public_key_format", json_string(format));
                let address = self.derive_address(key);
                members_insert(&mut info, "address", json_string(address.as_str()));
            },
            None => {},
        }
        json_object(info)
    }
}

} // verus!
