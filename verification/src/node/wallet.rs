//! A wallet as it is kept: an address, the public key, and the private key
//! under seal.

use vstd::prelude::*;
use vstd::string::*;

verus! {

/// A wallet. Balances are whole numbers of the smallest unit, a millionth of
/// a coin.
#[derive(Debug)]
pub struct LunaWallet {
    pub address: String,
    pub public_key: String,
    pub encrypted_private_key: Vec<u8>,
    pub label: String,
    pub is_locked: bool,
    pub balance: u64,
    pub available_balance: u64,
    /// When the wallet was made, in seconds since the Unix epoch.
    pub created: u64,
}

impl LunaWallet {
    /// A new wallet: locked, and empty.
    pub fn new(
        address: String,
        public_key: String,
        encrypted_private_key: Vec<u8>,
        label: String,
        created: u64,
    ) -> (wallet: Self)
        ensures
            wallet.address == address,
            wallet.public_key == public_key,
            wallet.encrypted_private_key == encrypted_private_key,
            wallet.label == label,
            wallet.is_locked,
            wallet.balance == 0,
            wallet.available_balance == 0,
            wallet.created == created,
    {
        LunaWallet {
            address,
            public_key,
            encrypted_private_key,
            label,
            is_locked: true,
            balance: 0,
            available_balance: 0,
            created,
        }
    }
}

} // verus!
