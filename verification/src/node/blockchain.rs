//! Blocks and transactions as they travel between nodes, and what a node
//! checks and keeps of them.
//!
//! Amounts are whole numbers of the smallest unit, a millionth of a coin.

use vstd::prelude::*;
use vstd::string::*;
use std::collections::HashMap;
use crate::text::{
    has_prefix, lowercase_of, starts_with, to_lowercase, trim_end, trim_wrapping,
    without_trailing, without_wrapping_end, without_wrapping_start,
};

verus! {

broadcast use vstd::std_specs::hash::group_hash_axioms;

/// A transaction as it is sent between nodes. Any field may be missing.
#[derive(Debug, Default)]
pub struct Transaction {
    pub tx_type: Option<String>,
    pub from: Option<String>,
    pub to: Option<String>,
    pub amount: Option<i64>,
    pub timestamp: Option<u64>,
    pub hash: Option<String>,
    pub signature: Option<String>,
}

/// A block.
#[derive(Debug, Default)]
pub struct Block {
    pub index: u64,
    pub hash: String,
    pub previous_hash: String,
    pub timestamp: u64,
    pub transactions: Vec<Transaction>,
    pub miner: Option<String>,
    pub difficulty: Option<u64>,
    pub nonce: Option<u64>,
}

/// The text of an optional string.
pub open spec fn maybe_text(o: Option<String>) -> Option<Seq<char>> {
    match o {
        Some(s) => Some(s@),
        None => None,
    }
}

/// A transaction as plain values.
pub struct TransactionView {
    pub tx_type: Option<Seq<char>>,
    pub from: Option<Seq<char>>,
    pub to: Option<Seq<char>>,
    pub amount: Option<i64>,
    pub timestamp: Option<u64>,
    pub hash: Option<Seq<char>>,
    pub signature: Option<Seq<char>>,
}

impl View for Transaction {
    type V = TransactionView;

    open spec fn view(&self) -> TransactionView {
        TransactionView {
            tx_type: maybe_text(self.tx_type),
            from: maybe_text(self.from),
            to: maybe_text(self.to),
            amount: self.amount,
            timestamp: self.timestamp,
            hash: maybe_text(self.hash),
            signature: maybe_text(self.signature),
        }
    }
}

/// A block as plain values.
pub struct BlockView {
    pub index: u64,
    pub hash: Seq<char>,
    pub previous_hash: Seq<char>,
    pub timestamp: u64,
    pub transactions: Seq<TransactionView>,
    pub miner: Option<Seq<char>>,
    pub difficulty: Option<u64>,
    pub nonce: Option<u64>,
}

impl View for Block {
    type V = BlockView;

    open spec fn view(&self) -> BlockView {
        BlockView {
            index: self.index,
            hash: self.hash@,
            previous_hash: self.previous_hash@,
            timestamp: self.timestamp,
            transactions: Seq::new(self.transactions@.len(), |i: int| self.transactions@[i]@),
            miner: maybe_text(self.miner),
            difficulty: self.difficulty,
            nonce: self.nonce,
        }
    }
}

fn copy_text(o: &Option<String>) -> (copy: Option<String>)
    ensures
        maybe_text(copy) == maybe_text(*o),
{
    match o {
        Some(s) => Some(s.clone()),
        None => None,
    }
}

impl Clone for Transaction {
    fn clone(&self) -> (copy: Self)
        ensures
            copy@ == self@,
    {
        Transaction {
            tx_type: copy_text(&self.tx_type),
            from: copy_text(&self.from),
            to: copy_text(&self.to),
            amount: self.amount,
            timestamp: self.timestamp,
            hash: copy_text(&self.hash),
            signature: copy_text(&self.signature),
        }
    }
}

impl Clone for Block {
    fn clone(&self) -> (copy: Self)
        ensures
            copy@ == self@,
    {
        let mut transactions: Vec<Transaction> = Vec::new();
        let mut i: usize = 0;
        while i < self.transactions.len()
            invariant
                i <= self.transactions@.len(),
                transactions@.len() == i,
                forall|j: int| 0 <= j < i ==> transactions@[j]@ == self.transactions@[j]@,
            decreases self.transactions@.len() - i,
        {
            transactions.push(self.transactions[i].clone());
            i = i + 1;
        }
        let copy = Block {
            index: self.index,
            hash: self.hash.clone(),
            previous_hash: self.previous_hash.clone(),
            timestamp: self.timestamp,
            transactions,
            miner: copy_text(&self.miner),
            difficulty: self.difficulty,
            nonce: self.nonce,
        };
        assert(copy@.transactions =~= self@.transactions);
        copy
    }
}

impl Transaction {
    /// A transaction with every field missing.
    pub fn new() -> (tx: Self)
        ensures
            tx@ == (TransactionView {
                tx_type: None,
                from: None,
                to: None,
                amount: None,
                timestamp: None,
                hash: None,
                signature: None,
            }),
    {
        Transaction {
            tx_type: None,
            from: None,
            to: None,
            amount: None,
            timestamp: None,
            hash: None,
            signature: None,
        }
    }
}

impl Block {
    /// An empty block at height 0.
    pub fn new() -> (block: Self)
        ensures
            block.index == 0,
            block.hash@.len() == 0,
            block.previous_hash@.len() == 0,
            block.timestamp == 0,
            block.transactions@.len() == 0,
            block.miner is None,
            block.difficulty is None,
            block.nonce is None,
    {
        Block {
            index: 0,
            hash: String::new(),
            previous_hash: String::new(),
            timestamp: 0,
            transactions: Vec::new(),
            miner: None,
            difficulty: None,
            nonce: None,
        }
    }
}

/// Whether a text is there and begins with `LUN_`.
pub open spec fn is_lun_address(o: Option<Seq<char>>) -> bool {
    o matches Some(s) && has_prefix(s, "LUN_"@)
}

/// Whether a text is there and at least ten bytes long.
pub open spec fn is_long_enough(o: Option<Seq<char>>) -> bool {
    o matches Some(s) && crate::text::byte_len(s) >= 10
}

/// Whether a transaction may be sent out: no field is missing, both
/// addresses begin with `LUN_`, the amount is above zero, and signature and
/// hash are at least ten bytes long.
pub open spec fn may_be_broadcast(tx: TransactionView) -> bool {
    &&& tx.tx_type is Some
    &&& tx.timestamp is Some
    &&& is_lun_address(tx.from)
    &&& is_lun_address(tx.to)
    &&& tx.amount matches Some(a) && a > 0
    &&& is_long_enough(tx.signature)
    &&& is_long_enough(tx.hash)
}

/// An address in the form in which addresses are compared: without quotes and
/// spaces around it, in lower case, and without a leading `lun_`.
pub open spec fn normalized_address(addr: Seq<char>) -> Seq<char> {
    let lower = lowercase_of(without_wrapping_end(without_wrapping_start(addr)));
    if has_prefix(lower, "lun_"@) {
        lower.subrange(4, lower.len() as int)
    } else {
        lower
    }
}

/// The blocks that `cache` holds for the heights from `start` on, `count` of
/// them, in the order of the heights.
pub open spec fn cached_range(cache: Map<u64, Block>, start: u64, count: nat) -> Seq<BlockView>
    decreases count,
{
    if count == 0 {
        Seq::empty()
    } else {
        let before = cached_range(cache, start, (count - 1) as nat);
        let height = (start + count - 1) as u64;
        if cache.contains_key(height) {
            before.push(cache[height]@)
        } else {
            before
        }
    }
}

/// What a node knows of the chain: where to ask, and the blocks it has seen.
pub struct BlockchainManager {
    pub endpoint_url: String,
    pub network_connected: bool,
    pub cache: HashMap<u64, Block>,
}

fn long_enough(o: &Option<String>) -> (ok: bool)
    ensures
        ok == is_long_enough(maybe_text(*o)),
{
    match o {
        Some(s) => s.as_str().as_bytes().len() >= 10,
        None => false,
    }
}

fn lun_address(o: &Option<String>) -> (ok: bool)
    ensures
        ok == is_lun_address(maybe_text(*o)),
{
    match o {
        Some(s) => starts_with(s.as_str(), "LUN_"),
        None => false,
    }
}

impl BlockchainManager {
    /// A manager for the endpoint at `endpoint_url`, taken without the
    /// slashes at its end. Nothing is cached yet and no connection is known.
    pub fn new(endpoint_url: &str, _max_workers: usize) -> (manager: Self)
        ensures
            manager.endpoint_url@ == without_trailing(endpoint_url@, '/'),
            !manager.network_connected,
            manager.cache@ == Map::<u64, Block>::empty(),
    {
        BlockchainManager {
            endpoint_url: trim_end(endpoint_url, '/'),
            network_connected: false,
            cache: HashMap::new(),
        }
    }

    /// An address in the form in which addresses are compared.
    pub fn normalize_address(addr: &str) -> (normal: String)
        ensures
            addr@.len() == 0 ==> normal@.len() == 0,
            addr@.len() > 0 ==> normal@ == normalized_address(addr@),
    {
        if addr.is_empty() {
            return String::new();
        }
        let trimmed = trim_wrapping(addr);
        let lower = to_lowercase(trimmed.as_str());
        if starts_with(lower.as_str(), "lun_") {
            proof {
                reveal_strlit("lun_");
            }
            let rest = lower.as_str().substring_char(4, lower.as_str().unicode_len());
            String::from_str(rest)
        } else {
            lower
        }
    }

    /// Whether a transaction may be sent out.
    pub fn validate_transaction_before_broadcast(transaction: &Transaction) -> (valid: bool)
        ensures
            valid == may_be_broadcast(transaction@),
    {
        if transaction.tx_type.is_none() || transaction.from.is_none() || transaction.to.is_none()
            || transaction.amount.is_none() || transaction.timestamp.is_none()
            || transaction.hash.is_none() || transaction.signature.is_none() {
            return false;
        }
        if !lun_address(&transaction.from) {
            return false;
        }
        if !lun_address(&transaction.to) {
            return false;
        }
        let positive = match transaction.amount {
            Some(a) => a > 0,
            None => false,
        };
        if !positive {
            return false;
        }
        if !long_enough(&transaction.signature) {
            return false;
        }
        if !long_enough(&transaction.hash) {
            return false;
        }
        true
    }

    /// Copies of the cached blocks of the heights from `start_height` to
    /// `end_height`, both included, in the order of the heights.
    pub fn get_blocks_range(&self, start_height: u64, end_height: u64) -> (blocks: Vec<Block>)
        ensures
            start_height > end_height ==> blocks@.len() == 0,
            start_height <= end_height ==> Seq::new(blocks@.len(), |i: int| blocks@[i]@)
                == cached_range(self.cache@, start_height, (end_height - start_height + 1) as nat),
    {
        let mut blocks: Vec<Block> = Vec::new();
        if start_height > end_height {
            return blocks;
        }
        let mut height = start_height;
        assert(Seq::new(blocks@.len(), |i: int| blocks@[i]@) =~= cached_range(
            self.cache@,
            start_height,
            0,
        ));
        loop
            invariant
                start_height <= height <= end_height,
                Seq::new(blocks@.len(), |i: int| blocks@[i]@) == cached_range(
                    self.cache@,
                    start_height,
                    (height - start_height) as nat,
                ),
            decreases end_height - height,
        {
            let ghost before = Seq::new(blocks@.len(), |i: int| blocks@[i]@);
            match self.cache.get(&height) {
                Some(block) => {
                    blocks.push(block.clone());
                    assert(Seq::new(blocks@.len(), |i: int| blocks@[i]@) =~= before.push(
                        self.cache@[height]@,
                    ));
                },
                None => {},
            }
            assert(Seq::new(blocks@.len(), |i: int| blocks@[i]@) == cached_range(
                self.cache@,
                start_height,
                (height - start_height + 1) as nat,
            ));
            if height == end_height {
                return blocks;
            }
            height = height + 1;
        }
    }

    /// The transactions waiting at the endpoint, as far as this node has
    /// them: none.
    pub fn get_mempool(&self) -> (pending: Vec<Transaction>)
        ensures
            pending@.len() == 0,
    {
        Vec::new()
    }

    /// Notes the connection as standing.
    pub fn check_network_connection(&mut self) -> (connected: bool)
        ensures
            connected,
            final(self).network_connected,
            final(self).endpoint_url == old(self).endpoint_url,
            final(self).cache == old(self).cache,
    {
        self.network_connected = true;
        true
    }
}

} // verus!
