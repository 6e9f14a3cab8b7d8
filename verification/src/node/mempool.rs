//! The pool of transactions that wait to be confirmed, and the record of
//! those that have been.
//!
//! Amounts are whole numbers of the smallest unit, a millionth of a coin.

use vstd::prelude::*;
use vstd::string::*;
use crate::text::same_text;

verus! {

/// A transaction as the pool keeps it.
#[derive(Debug, Default, PartialEq)]
pub struct Transaction {
    pub hash: String,
    pub from: String,
    pub to: String,
    pub amount: i64,
    pub timestamp: u64,
    pub tx_type: String,
}

/// A transaction as plain values.
pub struct TransactionView {
    pub hash: Seq<char>,
    pub from: Seq<char>,
    pub to: Seq<char>,
    pub amount: i64,
    pub timestamp: u64,
    pub tx_type: Seq<char>,
}

impl View for Transaction {
    type V = TransactionView;

    open spec fn view(&self) -> TransactionView {
        TransactionView {
            hash: self.hash@,
            from: self.from@,
            to: self.to@,
            amount: self.amount,
            timestamp: self.timestamp,
            tx_type: self.tx_type@,
        }
    }
}

impl Clone for Transaction {
    fn clone(&self) -> (copy: Self)
        ensures
            copy@ == self@,
    {
        Transaction {
            hash: self.hash.clone(),
            from: self.from.clone(),
            to: self.to.clone(),
            amount: self.amount,
            timestamp: self.timestamp,
            tx_type: self.tx_type.clone(),
        }
    }
}

/// Whether a transaction has what every transaction needs: a hash, a sender,
/// a receiver, an amount above zero, a time and a kind.
pub open spec fn is_well_formed(tx: TransactionView) -> bool {
    &&& tx.hash.len() > 0
    &&& tx.from.len() > 0
    &&& tx.to.len() > 0
    &&& tx.amount > 0
    &&& tx.timestamp != 0
    &&& tx.tx_type.len() > 0
}

/// Whether one of `pending` has the hash `hash`.
pub open spec fn is_pending(pending: Seq<Transaction>, hash: Seq<char>) -> bool {
    exists|i: int| 0 <= i < pending.len() && #[trigger] pending[i].hash@ == hash
}

/// Whether `hash` is among `confirmed`.
pub open spec fn is_confirmed(confirmed: Seq<String>, hash: Seq<char>) -> bool {
    exists|i: int| 0 <= i < confirmed.len() && #[trigger] confirmed[i]@ == hash
}

/// `pending` without the transactions of the hash `hash`, the others in their
/// order.
pub open spec fn without_hash(pending: Seq<Transaction>, hash: Seq<char>) -> Seq<Transaction>
    decreases pending.len(),
{
    if pending.len() == 0 {
        Seq::empty()
    } else if pending.last().hash@ == hash {
        without_hash(pending.drop_last(), hash)
    } else {
        without_hash(pending.drop_last(), hash).push(pending.last())
    }
}

/// What is left after a hash is taken out holds that hash no more.
pub proof fn without_hash_removes(pending: Seq<Transaction>, hash: Seq<char>)
    ensures
        !is_pending(without_hash(pending, hash), hash),
        without_hash(pending, hash).len() <= pending.len(),
    decreases pending.len(),
{
    if pending.len() > 0 {
        let rest = without_hash(pending, hash);
        let rest_init = without_hash(pending.drop_last(), hash);
        without_hash_removes(pending.drop_last(), hash);
        if is_pending(rest, hash) {
            let i = choose|i: int| 0 <= i < rest.len() && #[trigger] rest[i].hash@ == hash;
            if i < rest_init.len() {
                assert(rest_init[i].hash@ == hash);
            }
        }
    }
}

/// No two of `pending` have the same hash.
pub open spec fn distinct_hashes(pending: Seq<Transaction>) -> bool {
    forall|i: int, j: int|
        0 <= i < j < pending.len() ==> #[trigger] pending[i].hash@ != #[trigger] pending[j].hash@
}

/// No hash stands twice among `confirmed`.
pub open spec fn distinct_confirmed(confirmed: Seq<String>) -> bool {
    forall|i: int, j: int|
        0 <= i < j < confirmed.len() ==> #[trigger] confirmed[i]@ != #[trigger] confirmed[j]@
}

/// Whoever is pending after a hash is taken out was pending before.
pub proof fn without_hash_keeps_others(pending: Seq<Transaction>, hash: Seq<char>, other: Seq<char>)
    ensures
        is_pending(without_hash(pending, hash), other) ==> is_pending(pending, other),
    decreases pending.len(),
{
    let rest = without_hash(pending, hash);
    if pending.len() > 0 {
        let init = pending.drop_last();
        let rest_init = without_hash(init, hash);
        without_hash_keeps_others(init, hash, other);
        if is_pending(rest, other) {
            let i = choose|i: int| 0 <= i < rest.len() && #[trigger] rest[i].hash@ == other;
            if i < rest_init.len() {
                assert(rest_init[i].hash@ == other);
                let j = choose|j: int| 0 <= j < init.len() && #[trigger] init[j].hash@ == other;
                assert(pending[j].hash@ == other);
            } else {
                assert(pending[pending.len() - 1].hash@ == other);
            }
        }
    }
}

/// Taking a hash out leaves distinct hashes distinct.
pub proof fn without_hash_keeps_distinct(pending: Seq<Transaction>, hash: Seq<char>)
    requires
        distinct_hashes(pending),
    ensures
        distinct_hashes(without_hash(pending, hash)),
    decreases pending.len(),
{
    let rest = without_hash(pending, hash);
    if pending.len() > 0 {
        let init = pending.drop_last();
        let last = pending.last();
        let rest_init = without_hash(init, hash);
        assert forall|i: int, j: int| 0 <= i < j < init.len() implies #[trigger] init[i].hash@
            != #[trigger] init[j].hash@ by {
            assert(pending[i].hash@ != pending[j].hash@);
        }
        without_hash_keeps_distinct(init, hash);
        if last.hash@ != hash {
            without_hash_keeps_others(init, hash, last.hash@);
            if is_pending(init, last.hash@) {
                let k = choose|k: int| 0 <= k < init.len() && #[trigger] init[k].hash@ == last.hash@;
                assert(pending[k].hash@ != pending[pending.len() - 1].hash@);
            }
            assert forall|i: int, j: int| 0 <= i < j < rest.len() implies #[trigger] rest[i].hash@
                != #[trigger] rest[j].hash@ by {
                if j == rest.len() - 1 {
                    if rest[i].hash@ == last.hash@ {
                        assert(rest_init[i].hash@ == last.hash@);
                        assert(is_pending(rest_init, last.hash@));
                    }
                } else {
                    assert(rest_init[i].hash@ != rest_init[j].hash@);
                }
            }
        }
    }
}

/// The pool. A hash is in it at most once and is not taken in again once it
/// is confirmed; the pool holds no more than its limit.
pub struct MempoolManager {
    pub local_mempool: Vec<Transaction>,
    pub confirmed_transactions: Vec<String>,
    pub max_mempool_size: usize,
}

impl MempoolManager {
    /// An empty pool that takes up to 10,000 transactions.
    pub fn new() -> (pool: Self)
        ensures
            pool.local_mempool@.len() == 0,
            pool.confirmed_transactions@.len() == 0,
            pool.max_mempool_size == 10000,
    {
        MempoolManager {
            local_mempool: Vec::new(),
            confirmed_transactions: Vec::new(),
            max_mempool_size: 10000,
        }
    }

    /// Whether the pool would take `tx` in: its hash is neither pending nor
    /// confirmed, it is well formed, and there is room.
    pub open spec fn admits(&self, tx: TransactionView) -> bool {
        &&& !is_pending(self.local_mempool@, tx.hash)
        &&& !is_confirmed(self.confirmed_transactions@, tx.hash)
        &&& is_well_formed(tx)
        &&& self.local_mempool@.len() < self.max_mempool_size
    }

    /// Takes `tx` into the pool, at the end, if the pool admits it.
    pub fn add_transaction(&mut self, tx: Transaction) -> (added: bool)
        ensures
            added == old(self).admits(tx@),
            added ==> final(self).local_mempool@ == old(self).local_mempool@.push(tx),
            !added ==> final(self).local_mempool == old(self).local_mempool,
            final(self).confirmed_transactions == old(self).confirmed_transactions,
            final(self).max_mempool_size == old(self).max_mempool_size,
            distinct_hashes(old(self).local_mempool@) ==> distinct_hashes(final(self).local_mempool@),
    {
        if self.is_transaction_pending(tx.hash.as_str()) || self.is_transaction_confirmed(
            tx.hash.as_str(),
        ) {
            return false;
        }
        if !self.validate_transaction_basic(&tx) {
            return false;
        }
        if self.local_mempool.len() >= self.max_mempool_size {
            return false;
        }
        self.local_mempool.push(tx);
        true
    }

    /// Takes the transaction of this hash out of the pool and records the
    /// hash as confirmed, whether or not it was pending.
    pub fn remove_transaction(&mut self, tx_hash: &str)
        ensures
            final(self).local_mempool@ == without_hash(old(self).local_mempool@, tx_hash@),
            !is_pending(final(self).local_mempool@, tx_hash@),
            is_confirmed(final(self).confirmed_transactions@, tx_hash@),
            is_confirmed(old(self).confirmed_transactions@, tx_hash@) ==> final(self).confirmed_transactions == old(self).confirmed_transactions,
            !is_confirmed(old(self).confirmed_transactions@, tx_hash@) ==> {
                &&& final(self).confirmed_transactions@.len() == old(self).confirmed_transactions@.len() + 1
                &&& final(self).confirmed_transactions@.drop_last() == old(self).confirmed_transactions@
                &&& final(self).confirmed_transactions@.last()@ == tx_hash@
            },
            final(self).max_mempool_size == old(self).max_mempool_size,
            distinct_hashes(old(self).local_mempool@) ==> distinct_hashes(final(self).local_mempool@),
            distinct_confirmed(old(self).confirmed_transactions@) ==> distinct_confirmed(
                final(self).confirmed_transactions@,
            ),
    {
        let mut source: Vec<Transaction> = Vec::new();
        std::mem::swap(&mut self.local_mempool, &mut source);
        let ghost before = source@;
        let mut kept: Vec<Transaction> = Vec::new();
        let ghost mut seen: int = 0;
        for tx in it: source
            invariant
                seen == it.index(),
                it.seq() == before,
                kept@ == without_hash(before.subrange(0, seen), tx_hash@),
        {
            proof {
                assert(before.subrange(0, seen + 1).drop_last() =~= before.subrange(0, seen));
                assert(before.subrange(0, seen + 1).last() == before[seen]);
            }
            if !same_text(tx.hash.as_str(), tx_hash) {
                kept.push(tx);
            }
            proof {
                seen = seen + 1;
            }
        }
        proof {
            assert(before.subrange(0, before.len() as int) =~= before);
            without_hash_removes(before, tx_hash@);
            if distinct_hashes(before) {
                without_hash_keeps_distinct(before, tx_hash@);
            }
        }
        self.local_mempool = kept;
        if !self.is_transaction_confirmed(tx_hash) {
            self.confirmed_transactions.push(String::from_str(tx_hash));
            assert(self.confirmed_transactions@.drop_last() =~= old(self).confirmed_transactions@);
            assert(self.confirmed_transactions@[self.confirmed_transactions@.len() - 1]@ == tx_hash@);
        }
    }

    /// A copy of the pending transaction of this hash, if there is one.
    pub fn get_transaction(&self, tx_hash: &str) -> (found: Option<Transaction>)
        ensures
            found is Some <==> is_pending(self.local_mempool@, tx_hash@),
            found matches Some(tx) ==> tx.hash@ == tx_hash@ && exists|i: int|
                0 <= i < self.local_mempool@.len() && tx@ == #[trigger] self.local_mempool@[i]@,
    {
        let mut i: usize = 0;
        while i < self.local_mempool.len()
            invariant
                i <= self.local_mempool@.len(),
                forall|j: int| 0 <= j < i ==> self.local_mempool@[j].hash@ != tx_hash@,
            decreases self.local_mempool@.len() - i,
        {
            if same_text(self.local_mempool[i].hash.as_str(), tx_hash) {
                let tx = self.local_mempool[i].clone();
                assert(tx@ == self.local_mempool@[i as int]@);
                return Some(tx);
            }
            i = i + 1;
        }
        None
    }

    /// Copies of the pending transactions, in the order in which they came.
    pub fn get_pending_transactions(&self) -> (pending: Vec<Transaction>)
        ensures
            pending@.len() == self.local_mempool@.len(),
            forall|i: int| 0 <= i < pending@.len() ==> #[trigger] pending@[i]@ == self.local_mempool@[i]@,
    {
        let mut pending: Vec<Transaction> = Vec::new();
        let mut i: usize = 0;
        while i < self.local_mempool.len()
            invariant
                i <= self.local_mempool@.len(),
                pending@.len() == i,
                forall|j: int| 0 <= j < i ==> #[trigger] pending@[j]@ == self.local_mempool@[j]@,
            decreases self.local_mempool@.len() - i,
        {
            pending.push(self.local_mempool[i].clone());
            i = i + 1;
        }
        pending
    }

    /// Whether a transaction of this hash is pending.
    pub fn is_transaction_pending(&self, tx_hash: &str) -> (pending: bool)
        ensures
            pending == is_pending(self.local_mempool@, tx_hash@),
    {
        let mut i: usize = 0;
        while i < self.local_mempool.len()
            invariant
                i <= self.local_mempool@.len(),
                forall|j: int| 0 <= j < i ==> self.local_mempool@[j].hash@ != tx_hash@,
            decreases self.local_mempool@.len() - i,
        {
            if same_text(self.local_mempool[i].hash.as_str(), tx_hash) {
                return true;
            }
            i = i + 1;
        }
        false
    }

    /// Whether this hash is recorded as confirmed.
    pub fn is_transaction_confirmed(&self, tx_hash: &str) -> (confirmed: bool)
        ensures
            confirmed == is_confirmed(self.confirmed_transactions@, tx_hash@),
    {
        let mut i: usize = 0;
        while i < self.confirmed_transactions.len()
            invariant
                i <= self.confirmed_transactions@.len(),
                forall|j: int| 0 <= j < i ==> self.confirmed_transactions@[j]@ != tx_hash@,
            decreases self.confirmed_transactions@.len() - i,
        {
            if same_text(self.confirmed_transactions[i].as_str(), tx_hash) {
                return true;
            }
            i = i + 1;
        }
        false
    }

    /// How many transactions are pending.
    pub fn get_mempool_size(&self) -> (size: usize)
        ensures
            size == self.local_mempool@.len(),
    {
        self.local_mempool.len()
    }

    /// Empties the pool. What is recorded as confirmed stays.
    pub fn clear_mempool(&mut self)
        ensures
            final(self).local_mempool@.len() == 0,
            final(self).confirmed_transactions == old(self).confirmed_transactions,
            final(self).max_mempool_size == old(self).max_mempool_size,
    {
        self.local_mempool.clear();
    }

    /// Whether a transaction has what every transaction needs.
    pub fn validate_transaction_basic(&self, tx: &Transaction) -> (valid: bool)
        ensures
            valid == is_well_formed(tx@),
    {
        if tx.hash.as_str().is_empty() || tx.from.as_str().is_empty() || tx.to.as_str().is_empty()
            || tx.amount <= 0 || tx.timestamp == 0 || tx.tx_type.as_str().is_empty() {
            return false;
        }
        true
    }
}

} // verus!
