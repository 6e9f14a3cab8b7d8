//! Proof-of-work issuance and verification of serially numbered digital bills,
//! together with the key, peer and storage helpers of a wallet node.
//!
//! A bill is bound to a denomination and an owner by the hash of its
//! canonical metadata. It is issued by mining: a search for the first nonce
//! under which the hash of the bill's payload shows as many leading zeros as
//! the denomination's difficulty asks for. A stored bill is verified by a
//! fixed chain of checks, of which the first that accepts is reported.
//!
//! - [`mining`]: difficulty levels, the search over nonces with its stop flag
//!   and statistics, and the hashing of nonces in batches.
//! - [`gtx`]: the bill, the record under which it is kept, and the issuer and
//!   verifier.
//! - [`node`]: keys and addresses, peers, the pool of pending transactions,
//!   wallets and their balances.
//! - [`transactions`]: the rules on transactions, their making, and the
//!   validator.
//! - [`storage`]: sealing data and wallets under a password.
//! - [`utils`]: coloured output.
//!
//! Contracts are proved of the bodies they stand over. What is taken on trust
//! is marked `Trusted` where it stands: the calls into `serde_json`, `sha2`,
//! `hex`, `rand`, `ring` and `base64`, and a few of the standard library, each
//! with what is claimed of it. Hashes and
//! JSON texts appear in contracts under names ([`digest::sha256_hex`],
//! [`json::json_text`], [`json::object_text`], ...) of which only their
//! arguments are known to determine them.
//!
//! Numbers are whole throughout. Times of day are milliseconds since the Unix
//! epoch in bills and records, and seconds where a module says so; amounts
//! are counted in the smallest unit, a millionth of a coin.

use vstd::prelude::*;

pub mod digest;
pub mod gtx;
pub mod json;
pub mod luna_lib;
pub mod mining;
pub mod node;
pub mod storage;
pub mod system;
pub mod text;
pub mod transactions;
pub mod utils;

verus! {

/// Handle for the library as a whole.
pub struct LunaLib;

impl LunaLib {
    /// The version of the crate interface.
    pub fn version() -> (v: &'static str)
        ensures
            v@ == "0.1.0"@,
    {
        "0.1.0"
    }
}

} // verus!
