//! Bringing wallets up to date from a chain and a pool of pending
//! transactions.

use vstd::prelude::*;
use vstd::string::*;
use crate::node::wallet_manager::{
    all_synced, copy_transactions, tracks, views, within_limits, Transaction, TransactionSource,
    TransactionView, WalletBalance, WalletManager, MAX_TRANSACTIONS,
};
use crate::text::same_text;

verus! {

/// A chain that can be searched for the confirmed transactions of addresses.
pub trait BlockchainSync {
    /// The confirmed transactions of each of the addresses.
    fn scan_transactions_for_addresses(&self, addresses: &[String]) -> TransactionSource;
}

/// A pool that can be asked for the pending transactions of addresses.
pub trait MempoolSync {
    /// The pending transactions of each of the addresses.
    fn get_pending_transactions_for_addresses(&self, addresses: &[String]) -> TransactionSource;
}

/// Wallets together with the chain and the pool they are brought up to date
/// from.
pub struct WalletSyncHelper<B: BlockchainSync, M: MempoolSync> {
    pub wallet_manager: WalletManager,
    pub blockchain: B,
    pub mempool: M,
}

/// Which transactions of a wallet are asked for.
pub open spec fn chosen_transactions(
    confirmed: Seq<TransactionView>,
    pending: Seq<TransactionView>,
    tx_type: Option<Seq<char>>,
) -> Seq<TransactionView> {
    match tx_type {
        None => confirmed + pending,
        Some(t) => if t == "confirmed"@ {
            confirmed
        } else if t == "pending"@ {
            pending
        } else if t == "all"@ {
            confirmed + pending
        } else {
            Seq::empty()
        },
    }
}

/// Whether `after` holds the wallets of `before`, each brought up to date at
/// one and the same time with what some chain and some pool hold for its
/// address.
pub open spec fn brought_up_to_date(
    before: Seq<crate::node::wallet_manager::WalletState>,
    after: Seq<crate::node::wallet_manager::WalletState>,
) -> bool {
    exists|chain: Seq<(String, Vec<Transaction>)>, pool: Seq<(String, Vec<Transaction>)>, now: u64|
        within_limits(chain) && within_limits(pool) && #[trigger] all_synced(
            before,
            after,
            chain,
            pool,
            now,
        )
}

/// Whether every list of a source is short enough for a balance to be taken.
pub fn fits(source: &TransactionSource) -> (ok: bool)
    ensures
        ok == within_limits(source.entries@),
{
    let mut i: usize = 0;
    while i < source.entries.len()
        invariant
            i <= source.entries@.len(),
            forall|j: int| 0 <= j < i ==> (#[trigger] source.entries@[j]).1@.len() <= MAX_TRANSACTIONS,
        decreases source.entries@.len() - i,
    {
        if source.entries[i].1.len() > MAX_TRANSACTIONS {
            return false;
        }
        i = i + 1;
    }
    true
}

impl<B: BlockchainSync, M: MempoolSync> WalletSyncHelper<B, M> {
    /// A helper for the given wallets, chain and pool.
    pub fn new(wallet_manager: WalletManager, blockchain: B, mempool: M) -> (helper: Self)
        ensures
            helper.wallet_manager == wallet_manager,
            helper.blockchain == blockchain,
            helper.mempool == mempool,
    {
        WalletSyncHelper { wallet_manager, blockchain, mempool }
    }

    /// Starts to keep track of each of the addresses.
    pub fn register_wallets(&mut self, addresses: &[String])
        ensures
            forall|i: int|
                0 <= i < addresses@.len() ==> tracks(
                    final(self).wallet_manager.wallet_states@,
                    #[trigger] addresses@[i]@,
                ),
            final(self).blockchain == old(self).blockchain,
            final(self).mempool == old(self).mempool,
    {
        self.wallet_manager.register_wallets(addresses);
    }

    /// Asks the chain and the pool for the transactions of all wallets and
    /// brings the wallets up to date with the answers. Answers with a list
    /// too long for a balance to be taken are set aside, and the wallets stay
    /// as they are; the result says whether the wallets were brought up to
    /// date.
    pub fn sync_wallets_now(&mut self) -> (done: bool)
        ensures
            final(self).blockchain == old(self).blockchain,
            final(self).mempool == old(self).mempool,
            !done ==> final(self).wallet_manager.wallet_states == old(self).wallet_manager.wallet_states,
            done ==> brought_up_to_date(
                old(self).wallet_manager.wallet_states@,
                final(self).wallet_manager.wallet_states@,
            ),
    {
        let addresses = self.tracked_addresses();
        let blockchain_txs = self.blockchain.scan_transactions_for_addresses(addresses.as_slice());
        let mempool_txs = self.mempool.get_pending_transactions_for_addresses(addresses.as_slice());
        let done = self.sync_wallets_with(&blockchain_txs, &mempool_txs);
        proof {
            if done {
                let now = choose|now: u64| #[trigger]
                    all_synced(
                        old(self).wallet_manager.wallet_states@,
                        self.wallet_manager.wallet_states@,
                        blockchain_txs.entries@,
                        mempool_txs.entries@,
                        now,
                    );
                assert(all_synced(
                    old(self).wallet_manager.wallet_states@,
                    self.wallet_manager.wallet_states@,
                    blockchain_txs.entries@,
                    mempool_txs.entries@,
                    now,
                ));
            }
        }
        done
    }

    /// The addresses of the wallets that are tracked, in the order of the
    /// wallets: what the chain and the pool are asked about.
    pub fn tracked_addresses(&self) -> (addresses: Vec<String>)
        ensures
            addresses@.len() == self.wallet_manager.wallet_states@.len(),
            forall|i: int|
                0 <= i < addresses@.len() ==> (#[trigger] addresses@[i])@
                    == self.wallet_manager.wallet_states@[i].address@,
    {
        let mut addresses: Vec<String> = Vec::new();
        let mut i: usize = 0;
        while i < self.wallet_manager.wallet_states.len()
            invariant
                i <= self.wallet_manager.wallet_states@.len(),
                addresses@.len() == i,
                forall|j: int|
                    0 <= j < i ==> (#[trigger] addresses@[j])@
                        == self.wallet_manager.wallet_states@[j].address@,
            decreases self.wallet_manager.wallet_states@.len() - i,
        {
            addresses.push(self.wallet_manager.wallet_states[i].address.clone());
            i = i + 1;
        }
        addresses
    }

    /// Brings the wallets up to date with what the chain and the pool have
    /// answered. That is done exactly when no list in either answer is too
    /// long for a balance to be taken; else the wallets stay as they are.
    pub fn sync_wallets_with(
        &mut self,
        blockchain_txs: &TransactionSource,
        mempool_txs: &TransactionSource,
    ) -> (done: bool)
        ensures
            done == (within_limits(blockchain_txs.entries@) && within_limits(mempool_txs.entries@)),
            final(self).blockchain == old(self).blockchain,
            final(self).mempool == old(self).mempool,
            !done ==> final(self).wallet_manager.wallet_states == old(self).wallet_manager.wallet_states,
            done ==> exists|now: u64| #[trigger]
                all_synced(
                    old(self).wallet_manager.wallet_states@,
                    final(self).wallet_manager.wallet_states@,
                    blockchain_txs.entries@,
                    mempool_txs.entries@,
                    now,
                ),
    {
        if !fits(blockchain_txs) || !fits(mempool_txs) {
            return false;
        }
        self.wallet_manager.sync_wallets_from_sources(blockchain_txs, mempool_txs);
        proof {
            let now = choose|now: u64| #[trigger]
                all_synced(
                    old(self).wallet_manager.wallet_states@,
                    self.wallet_manager.wallet_states@,
                    blockchain_txs.entries@,
                    mempool_txs.entries@,
                    now,
                );
            assert(all_synced(
                old(self).wallet_manager.wallet_states@,
                self.wallet_manager.wallet_states@,
                blockchain_txs.entries@,
                mempool_txs.entries@,
                now,
            ));
        }
        true
    }

    /// The balance of the wallet of `address`, if it is tracked.
    pub fn get_wallet_balance(&self, address: &str) -> (balance: Option<WalletBalance>)
        ensures
            balance is Some <==> tracks(self.wallet_manager.wallet_states@, address@),
            balance matches Some(b) ==> exists|i: int|
                0 <= i < self.wallet_manager.wallet_states@.len()
                    && #[trigger] self.wallet_manager.wallet_states@[i].address@ == address@ && b
                    == self.wallet_manager.wallet_states@[i].balance,
    {
        match self.wallet_manager.position(address) {
            Some(i) => Some(self.wallet_manager.wallet_states[i].balance),
            None => None,
        }
    }

    /// Copies of the transactions of the wallet of `address`: the confirmed
    /// ones for `confirmed`, the pending ones for `pending`, both (the
    /// confirmed first) for `all` or where no kind is given, and none for any
    /// other kind or for a wallet that is not tracked.
    pub fn get_wallet_transactions(&self, address: &str, tx_type: Option<&str>) -> (txs: Vec<
        Transaction,
    >)
        ensures
            !tracks(self.wallet_manager.wallet_states@, address@) ==> txs@.len() == 0,
            tracks(self.wallet_manager.wallet_states@, address@) ==> exists|i: int|
                0 <= i < self.wallet_manager.wallet_states@.len()
                    && #[trigger] self.wallet_manager.wallet_states@[i].address@ == address@
                    && views(txs@) == chosen_transactions(
                    views(self.wallet_manager.wallet_states@[i].confirmed_transactions@),
                    views(self.wallet_manager.wallet_states@[i].pending_transactions@),
                    match tx_type {
                        Some(t) => Some(t@),
                        None => None,
                    },
                ),
    {
        let at = match self.wallet_manager.position(address) {
            Some(i) => i,
            None => {
                return Vec::new();
            },
        };
        let state = &self.wallet_manager.wallet_states[at];
        let both = match tx_type {
            None => true,
            Some(t) => {
                if same_text(t, "confirmed") {
                    return copy_transactions(&state.confirmed_transactions);
                }
                if same_text(t, "pending") {
                    return copy_transactions(&state.pending_transactions);
                }
                same_text(t, "all")
            },
        };
        if !both {
            let none: Vec<Transaction> = Vec::new();
            assert(views(none@) =~= Seq::<TransactionView>::empty());
            return none;
        }
        let mut all = copy_transactions(&state.confirmed_transactions);
        let mut rest = copy_transactions(&state.pending_transactions);
        let ghost first = views(all@);
        let ghost second = views(rest@);
        all.append(&mut rest);
        assert(views(all@) =~= first + second);
        all
    }
}

} // verus!
