//! Keys, addresses and signatures in the simple scheme that stands where
//! SM2 is meant to be: everything is derived by hashing.

use vstd::prelude::*;
use vstd::string::*;
use crate::digest::{hex_encode, hex_text, hex_text_shape, is_lower_hex, sha256_hex, sha256_hex_of};
use crate::system::random_bytes;
use crate::text::{byte_len, join2, repeated, zeros};

verus! {

broadcast use vstd::utf8::is_ascii_chars_encode_utf8;

/// The scheme, which has no state.
pub struct SM2;

/// The address of a public key: `LUN_` and the first 16 digits of the key's
/// hash.
pub open spec fn address_of(public_key: Seq<char>) -> Seq<char> {
    "LUN_"@ + sha256_hex(public_key).subrange(0, 16)
}

/// The public key of a private key: `04` and the private key's hash.
pub open spec fn public_key_of(private_key: Seq<char>) -> Seq<char> {
    "04"@ + sha256_hex(private_key)
}

/// The signature of `data` under a private key: the hash of the data followed
/// by the key, after 64 zeros.
pub open spec fn signature_of(data: Seq<char>, private_key: Seq<char>) -> Seq<char> {
    repeated('0', 64) + sha256_hex(data + private_key)
}

/// One byte as 64 hexadecimal digits: 62 zeros and the byte's two.
pub open spec fn padded_byte(b: u8) -> Seq<char> {
    repeated('0', 62) + hex_text(seq![b])
}

/// The private key made of a seed: the seed in hexadecimal.
pub open spec fn seed_private_key(seed: Seq<u8>) -> Seq<char> {
    hex_text(seed)
}

/// The public key that is handed out with a fresh private key: `04` and the
/// first two bytes of the seed, each as 64 digits.
pub open spec fn seed_public_key(seed: Seq<u8>) -> Seq<char> {
    "04"@ + padded_byte(seed[0]) + padded_byte(seed[1])
}

/// Text of hexadecimal digits is ASCII.
pub proof fn lower_hex_is_ascii(s: Seq<char>)
    requires
        is_lower_hex(s),
    ensures
        vstd::utf8::is_ascii_chars(s),
{
    assert forall|i: int| 0 <= i < s.len() implies '\0' <= #[trigger] s[i] <= '\u{7f}' by {
        assert(crate::digest::is_lower_hex_digit(s[i]));
    }
}

impl SM2 {
    pub fn new() -> Self {
        SM2
    }

    /// A fresh pair of keys from 32 random bytes: see `keypair_from_seed`.
    pub fn generate_keypair(&self) -> (pair: (String, String))
        ensures
            exists|seed: Seq<u8>|
                seed.len() == 32 && pair.0@ == #[trigger] seed_private_key(seed) && pair.1@
                    == seed_public_key(seed),
            pair.0@.len() == 64,
            pair.1@.len() == 130,
    {
        let seed = random_bytes(32);
        let pair = self.keypair_from_seed(seed.as_slice());
        assert(pair.0@ == seed_private_key(seed@));
        pair
    }

    /// The pair of keys that a seed of 32 bytes gives: the private key is the
    /// seed in hexadecimal, 64 digits; the public key has 130.
    pub fn keypair_from_seed(&self, seed: &[u8]) -> (pair: (String, String))
        requires
            seed@.len() == 32,
        ensures
            pair.0@ == seed_private_key(seed@),
            pair.1@ == seed_public_key(seed@),
            pair.0@.len() == 64,
            pair.1@.len() == 130,
    {
        let private_key = hex_encode(seed);
        let mut first: Vec<u8> = Vec::new();
        first.push(seed[0]);
        let mut second: Vec<u8> = Vec::new();
        second.push(seed[1]);
        assert(first@ =~= seq![seed@[0]]);
        assert(second@ =~= seq![seed@[1]]);
        let mut public_key = String::from_str("04");
        public_key.append(zeros(62).as_str());
        public_key.append(hex_encode(first.as_slice()).as_str());
        public_key.append(zeros(62).as_str());
        public_key.append(hex_encode(second.as_slice()).as_str());
        proof {
            reveal_strlit("04");
            hex_text_shape(seed@);
            hex_text_shape(first@);
            hex_text_shape(second@);
            assert(public_key@ =~= seed_public_key(seed@));
        }
        (private_key, public_key)
    }

    /// The address that belongs to a public key.
    pub fn public_key_to_address(&self, public_key: &str) -> (address: String)
        ensures
            address@ == address_of(public_key@),
            address@.len() == 20,
    {
        let hash = sha256_hex_of(public_key);
        let mut address = String::from_str("LUN_");
        address.append(hash.as_str().substring_char(0, 16));
        proof {
            reveal_strlit("LUN_");
        }
        address
    }

    /// The public key that belongs to a private key.
    pub fn derive_public_key(&self, private_key_hex: &str) -> (public_key: String)
        ensures
            public_key@ == public_key_of(private_key_hex@),
            public_key@.len() == 66,
    {
        let hash = sha256_hex_of(private_key_hex);
        let public_key = join2("04", hash.as_str());
        proof {
            reveal_strlit("04");
        }
        public_key
    }

    /// Signs `data` with a private key. The signature has 128 characters, all
    /// of them ASCII.
    pub fn sign(&self, data: &str, private_key_hex: &str) -> (signature: String)
        ensures
            signature@ == signature_of(data@, private_key_hex@),
            signature@.len() == 128,
            byte_len(signature@) == 128,
    {
        let input = join2(data, private_key_hex);
        let hash = sha256_hex_of(input.as_str());
        let padding = zeros(64);
        let signature = join2(padding.as_str(), hash.as_str());
        proof {
            lower_hex_is_ascii(hash@);
            assert(vstd::utf8::is_ascii_chars(signature@)) by {
                assert forall|i: int| 0 <= i < signature@.len() implies '\0' <= #[trigger] signature@[i]
                    <= '\u{7f}' by {
                    if i >= 64 {
                        assert(signature@[i] == hash@[i - 64]);
                    }
                }
            }
        }
        signature
    }

    /// Checks the form of a signature: it is accepted when it is 128 bytes
    /// long. Neither the data nor the key is looked at.
    pub fn verify(&self, data: &str, signature: &str, _public_key_hex: &str) -> (ok: bool)
        ensures
            ok == (byte_len(signature@) == 128),
    {
        signature.as_bytes().len() == 128
    }
}

} // verus!
