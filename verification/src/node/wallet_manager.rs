//! Wallets as a node sees them: the transactions of each address, sorted into
//! lists, and the balance that follows from them.
//!
//! Amounts and fees are whole numbers of the smallest unit, a millionth of a
//! coin. Balances are sums of them and can fall below zero.

use vstd::prelude::*;
use vstd::string::*;
use crate::system::unix_millis;
use crate::text::same_text;

verus! {

/// What a transaction is for.
#[derive(Debug, Clone, Copy, PartialEq, Eq, Hash, Structural)]
pub enum TransactionType {
    Transfer,
    Reward,
    Genesis,
    Unknown,
}

impl Default for TransactionType {
    fn default() -> (kind: Self)
        ensures
            kind == TransactionType::Unknown,
    {
        TransactionType::Unknown
    }
}

/// How far a transaction has got.
#[derive(Debug, Clone, Copy, PartialEq, Eq, Hash, Structural)]
pub enum TransactionStatus {
    Confirmed,
    Pending,
    Unknown,
}

impl Default for TransactionStatus {
    fn default() -> (status: Self)
        ensures
            status == TransactionStatus::Unknown,
    {
        TransactionStatus::Unknown
    }
}

/// The longest list of transactions that a balance is taken of: more than any
/// machine holds.
pub const MAX_TRANSACTIONS: usize = 0x7fff_ffff;

/// A transaction as a wallet keeps it.
#[derive(Debug, PartialEq, Default)]
pub struct Transaction {
    pub hash: String,
    pub tx_type: TransactionType,
    pub from_address: String,
    pub to_address: String,
    pub amount: u64,
    pub fee: u64,
    pub timestamp: u64,
    pub status: TransactionStatus,
    pub block_height: Option<u64>,
    pub confirmations: u64,
    pub memo: String,
}

/// A transaction as plain values.
pub struct TransactionView {
    pub hash: Seq<char>,
    pub tx_type: TransactionType,
    pub from_address: Seq<char>,
    pub to_address: Seq<char>,
    pub amount: u64,
    pub fee: u64,
    pub timestamp: u64,
    pub status: TransactionStatus,
    pub block_height: Option<u64>,
    pub confirmations: u64,
    pub memo: Seq<char>,
}

impl View for Transaction {
    type V = TransactionView;

    open spec fn view(&self) -> TransactionView {
        TransactionView {
            hash: self.hash@,
            tx_type: self.tx_type,
            from_address: self.from_address@,
            to_address: self.to_address@,
            amount: self.amount,
            fee: self.fee,
            timestamp: self.timestamp,
            status: self.status,
            block_height: self.block_height,
            confirmations: self.confirmations,
            memo: self.memo@,
        }
    }
}

impl Clone for Transaction {
    fn clone(&self) -> (copy: Self)
        ensures
            copy@ == self@,
    {
        Transaction {
            hash: self.hash.clone(),
            tx_type: self.tx_type,
            from_address: self.from_address.clone(),
            to_address: self.to_address.clone(),
            amount: self.amount,
            fee: self.fee,
            timestamp: self.timestamp,
            status: self.status,
            block_height: self.block_height,
            confirmations: self.confirmations,
            memo: self.memo.clone(),
        }
    }
}

/// The transactions of a list as plain values.
pub open spec fn views(txs: Seq<Transaction>) -> Seq<TransactionView> {
    Seq::new(txs.len(), |i: int| txs[i]@)
}

/// Whether two transactions agree in every field.
pub fn same_transaction(a: &Transaction, b: &Transaction) -> (same: bool)
    ensures
        same == (a@ == b@),
{
    let heights = match (a.block_height, b.block_height) {
        (Some(x), Some(y)) => x == y,
        (None, None) => true,
        _ => false,
    };
    a.hash == b.hash && a.tx_type == b.tx_type && a.from_address == b.from_address && a.to_address
        == b.to_address && a.amount == b.amount && a.fee == b.fee && a.timestamp == b.timestamp
        && a.status == b.status && heights && a.confirmations == b.confirmations && a.memo == b.memo
}

/// A copy of a list of transactions.
pub fn copy_transactions(txs: &Vec<Transaction>) -> (copy: Vec<Transaction>)
    ensures
        views(copy@) == views(txs@),
{
    let mut copy: Vec<Transaction> = Vec::new();
    let mut i: usize = 0;
    while i < txs.len()
        invariant
            i <= txs@.len(),
            copy@.len() == i,
            forall|j: int| 0 <= j < i ==> copy@[j]@ == txs@[j]@,
        decreases txs@.len() - i,
    {
        copy.push(txs[i].clone());
        i = i + 1;
    }
    assert(views(copy@) =~= views(txs@));
    copy
}

/// What a wallet holds, in the smallest unit.
#[derive(Debug, Clone, Copy, PartialEq, Eq, Default, Structural)]
pub struct WalletBalance {
    pub total_balance: i128,
    pub available_balance: i128,
    pub pending_incoming: i128,
    pub pending_outgoing: i128,
    pub confirmed_balance: i128,
}

/// What the transactions `txs` bring to `address`: the amounts sent to it.
pub open spec fn incoming(txs: Seq<TransactionView>, address: Seq<char>) -> int
    decreases txs.len(),
{
    if txs.len() == 0 {
        0
    } else {
        incoming(txs.drop_last(), address) + if txs.last().to_address == address {
            txs.last().amount as int
        } else {
            0
        }
    }
}

/// What the transactions `txs` cost `address`: the amounts it sent, and the
/// fees on them.
pub open spec fn outgoing(txs: Seq<TransactionView>, address: Seq<char>) -> int
    decreases txs.len(),
{
    if txs.len() == 0 {
        0
    } else {
        outgoing(txs.drop_last(), address) + if txs.last().from_address == address {
            txs.last().amount as int + txs.last().fee as int
        } else {
            0
        }
    }
}

/// The balance of `address` after the given transactions: what is confirmed
/// counts in full; what is pending is shown apart and moves only the
/// available balance.
pub open spec fn balance_of(
    address: Seq<char>,
    confirmed: Seq<TransactionView>,
    pending: Seq<TransactionView>,
) -> WalletBalance {
    let settled = incoming(confirmed, address) - outgoing(confirmed, address);
    WalletBalance {
        total_balance: settled as i128,
        available_balance: (settled + incoming(pending, address) - outgoing(pending, address))
            as i128,
        pending_incoming: incoming(pending, address) as i128,
        pending_outgoing: outgoing(pending, address) as i128,
        confirmed_balance: settled as i128,
    }
}

/// Sums stay within what a list of that length can add up to.
pub proof fn sums_are_bounded(txs: Seq<TransactionView>, address: Seq<char>)
    ensures
        0 <= incoming(txs, address) <= txs.len() * 0x1_0000_0000_0000_0000,
        0 <= outgoing(txs, address) <= txs.len() * 0x2_0000_0000_0000_0000,
    decreases txs.len(),
{
    if txs.len() > 0 {
        sums_are_bounded(txs.drop_last(), address);
    }
}

/// The second list, beside the list of all, in which a transaction of the
/// given kind is kept: rewards and genesis transactions in lists of their
/// own, everything else among the transfers, confirmed or pending.
pub open spec fn category_of(kind: TransactionType, confirmed: bool) -> Seq<char> {
    match kind {
        TransactionType::Reward => "rewards"@,
        TransactionType::Genesis => "genesis_transactions"@,
        _ => if confirmed {
            "confirmed_transfers"@
        } else {
            "pending_transfers"@
        },
    }
}

fn categories(all: &str, kind: TransactionType, confirmed: bool) -> (lists: Vec<String>)
    ensures
        lists@.len() == 2,
        lists@[0]@ == all@,
        lists@[1]@ == category_of(kind, confirmed),
{
    let mut lists: Vec<String> = Vec::new();
    lists.push(String::from_str(all));
    let second = match kind {
        TransactionType::Reward => "rewards",
        TransactionType::Genesis => "genesis_transactions",
        _ => if confirmed {
            "confirmed_transfers"
        } else {
            "pending_transfers"
        },
    };
    lists.push(String::from_str(second));
    lists
}

/// The lists in which a confirmed transaction is kept.
pub fn categorize_confirmed_transaction(tx: &Transaction, _address: &str) -> (lists: Vec<String>)
    ensures
        lists@.len() == 2,
        lists@[0]@ == "confirmed_transactions"@,
        lists@[1]@ == category_of(tx.tx_type, true),
{
    categories("confirmed_transactions", tx.tx_type, true)
}

/// The lists in which a pending transaction is kept.
pub fn categorize_pending_transaction(tx: &Transaction, _address: &str) -> (lists: Vec<String>)
    ensures
        lists@.len() == 2,
        lists@[0]@ == "pending_transactions"@,
        lists@[1]@ == category_of(tx.tx_type, false),
{
    categories("pending_transactions", tx.tx_type, false)
}

/// The balance of `address` after the given transactions.
pub fn calculate_balance_from_transactions(
    address: &str,
    confirmed: &[Transaction],
    pending: &[Transaction],
) -> (balance: WalletBalance)
    requires
        confirmed@.len() <= MAX_TRANSACTIONS,
        pending@.len() <= MAX_TRANSACTIONS,
    ensures
        balance == balance_of(address@, views(confirmed@), views(pending@)),
{
    let (settled_in, settled_out) = sum_for(address, confirmed);
    let (pending_in, pending_out) = sum_for(address, pending);
    let settled = settled_in - settled_out;
    WalletBalance {
        total_balance: settled,
        available_balance: settled + pending_in - pending_out,
        pending_incoming: pending_in,
        pending_outgoing: pending_out,
        confirmed_balance: settled,
    }
}

/// What `txs` bring to `address` and what they cost it.
fn sum_for(address: &str, txs: &[Transaction]) -> (sums: (i128, i128))
    requires
        txs@.len() <= MAX_TRANSACTIONS,
    ensures
        sums.0 == incoming(views(txs@), address@),
        sums.1 == outgoing(views(txs@), address@),
        0 <= sums.0 <= MAX_TRANSACTIONS * 0x1_0000_0000_0000_0000,
        0 <= sums.1 <= MAX_TRANSACTIONS * 0x2_0000_0000_0000_0000,
{
    let mut brought: i128 = 0;
    let mut cost: i128 = 0;
    let mut i: usize = 0;
    while i < txs.len()
        invariant
            i <= txs@.len() <= MAX_TRANSACTIONS,
            brought == incoming(views(txs@).subrange(0, i as int), address@),
            cost == outgoing(views(txs@).subrange(0, i as int), address@),
        decreases txs@.len() - i,
    {
        proof {
            let all = views(txs@);
            assert(all.subrange(0, i + 1).drop_last() =~= all.subrange(0, i as int));
            assert(all.subrange(0, i + 1).last() == txs@[i as int]@);
            sums_are_bounded(all.subrange(0, i as int), address@);
            assert(i * 0x2_0000_0000_0000_0000 <= 0x7fff_ffff * 0x2_0000_0000_0000_0000)
                by (nonlinear_arith)
                requires
                    i <= 0x7fff_ffff,
            ;
            assert(i * 0x1_0000_0000_0000_0000 <= 0x7fff_ffff * 0x1_0000_0000_0000_0000)
                by (nonlinear_arith)
                requires
                    i <= 0x7fff_ffff,
            ;
        }
        if same_text(txs[i].to_address.as_str(), address) {
            brought = brought + txs[i].amount as i128;
        }
        if same_text(txs[i].from_address.as_str(), address) {
            cost = cost + txs[i].amount as i128 + txs[i].fee as i128;
        }
        i = i + 1;
    }
    proof {
        let all = views(txs@);
        assert(all.subrange(0, all.len() as int) =~= all);
        sums_are_bounded(all, address@);
        assert(all.len() * 0x2_0000_0000_0000_0000 <= 0x7fff_ffff * 0x2_0000_0000_0000_0000)
            by (nonlinear_arith)
            requires
                all.len() <= 0x7fff_ffff,
        ;
        assert(all.len() * 0x1_0000_0000_0000_0000 <= 0x7fff_ffff * 0x1_0000_0000_0000_0000)
            by (nonlinear_arith)
            requires
                all.len() <= 0x7fff_ffff,
        ;
    }
    (brought, cost)
}

/// The three lists, beside the lists of all, into which transactions are
/// sorted.
#[derive(Debug, Clone, Copy, PartialEq, Eq, Structural)]
pub enum TransactionClass {
    Transfers,
    Rewards,
    Genesis,
}

/// The list that a transaction of the given kind belongs to.
pub open spec fn class_of(kind: TransactionType) -> TransactionClass {
    match kind {
        TransactionType::Reward => TransactionClass::Rewards,
        TransactionType::Genesis => TransactionClass::Genesis,
        _ => TransactionClass::Transfers,
    }
}

/// The list that a transaction of the given kind belongs to.
pub fn classify(kind: TransactionType) -> (class: TransactionClass)
    ensures
        class == class_of(kind),
{
    match kind {
        TransactionType::Reward => TransactionClass::Rewards,
        TransactionType::Genesis => TransactionClass::Genesis,
        _ => TransactionClass::Transfers,
    }
}

/// Those of `txs` that belong to `class`, in their order.
pub open spec fn selected(txs: Seq<TransactionView>, class: TransactionClass) -> Seq<
    TransactionView,
>
    decreases txs.len(),
{
    if txs.len() == 0 {
        Seq::empty()
    } else if class_of(txs.last().tx_type) == class {
        selected(txs.drop_last(), class).push(txs.last())
    } else {
        selected(txs.drop_last(), class)
    }
}

/// `list`, and after it those of `txs` that belong to `class` and are not on
/// the list yet, in their order.
pub open spec fn merged(
    list: Seq<TransactionView>,
    txs: Seq<TransactionView>,
    class: TransactionClass,
) -> Seq<TransactionView>
    decreases txs.len(),
{
    if txs.len() == 0 {
        list
    } else {
        let so_far = merged(list, txs.drop_last(), class);
        if class_of(txs.last().tx_type) == class && !so_far.contains(txs.last()) {
            so_far.push(txs.last())
        } else {
            so_far
        }
    }
}

/// What is known of one wallet.
#[derive(Debug, Default)]
pub struct WalletState {
    pub address: String,
    pub balance: WalletBalance,
    pub confirmed_transactions: Vec<Transaction>,
    pub pending_transactions: Vec<Transaction>,
    pub confirmed_transfers: Vec<Transaction>,
    pub pending_transfers: Vec<Transaction>,
    pub rewards: Vec<Transaction>,
    pub genesis_transactions: Vec<Transaction>,
    /// When the wallet was last brought up to date, in seconds since the Unix
    /// epoch.
    pub last_updated: u64,
}

/// A wallet as plain values.
pub struct WalletStateView {
    pub address: Seq<char>,
    pub balance: WalletBalance,
    pub confirmed_transactions: Seq<TransactionView>,
    pub pending_transactions: Seq<TransactionView>,
    pub confirmed_transfers: Seq<TransactionView>,
    pub pending_transfers: Seq<TransactionView>,
    pub rewards: Seq<TransactionView>,
    pub genesis_transactions: Seq<TransactionView>,
    pub last_updated: u64,
}

impl View for WalletState {
    type V = WalletStateView;

    open spec fn view(&self) -> WalletStateView {
        WalletStateView {
            address: self.address@,
            balance: self.balance,
            confirmed_transactions: views(self.confirmed_transactions@),
            pending_transactions: views(self.pending_transactions@),
            confirmed_transfers: views(self.confirmed_transfers@),
            pending_transfers: views(self.pending_transfers@),
            rewards: views(self.rewards@),
            genesis_transactions: views(self.genesis_transactions@),
            last_updated: self.last_updated,
        }
    }
}

impl Clone for WalletState {
    fn clone(&self) -> (copy: Self)
        ensures
            copy@ == self@,
    {
        WalletState {
            address: self.address.clone(),
            balance: self.balance,
            confirmed_transactions: copy_transactions(&self.confirmed_transactions),
            pending_transactions: copy_transactions(&self.pending_transactions),
            confirmed_transfers: copy_transactions(&self.confirmed_transfers),
            pending_transfers: copy_transactions(&self.pending_transfers),
            rewards: copy_transactions(&self.rewards),
            genesis_transactions: copy_transactions(&self.genesis_transactions),
            last_updated: self.last_updated,
        }
    }
}

/// A wallet that nothing is known of yet.
pub open spec fn empty_wallet(address: Seq<char>) -> WalletStateView {
    WalletStateView {
        address,
        balance: WalletBalance {
            total_balance: 0,
            available_balance: 0,
            pending_incoming: 0,
            pending_outgoing: 0,
            confirmed_balance: 0,
        },
        confirmed_transactions: Seq::empty(),
        pending_transactions: Seq::empty(),
        confirmed_transfers: Seq::empty(),
        pending_transfers: Seq::empty(),
        rewards: Seq::empty(),
        genesis_transactions: Seq::empty(),
        last_updated: 0,
    }
}

/// The wallet of `address` once it is brought up to date at `now` with the
/// given transactions: the confirmed ones are sorted into transfers, rewards
/// and genesis transactions; the pending ones follow, a reward or a genesis
/// transaction only where the list has none like it yet; and the balance is
/// taken of both.
pub open spec fn synced(
    address: Seq<char>,
    confirmed: Seq<TransactionView>,
    pending: Seq<TransactionView>,
    now: u64,
) -> WalletStateView {
    WalletStateView {
        address,
        balance: balance_of(address, confirmed, pending),
        confirmed_transactions: confirmed,
        pending_transactions: pending,
        confirmed_transfers: selected(confirmed, TransactionClass::Transfers),
        pending_transfers: selected(pending, TransactionClass::Transfers),
        rewards: merged(
            selected(confirmed, TransactionClass::Rewards),
            pending,
            TransactionClass::Rewards,
        ),
        genesis_transactions: merged(
            selected(confirmed, TransactionClass::Genesis),
            pending,
            TransactionClass::Genesis,
        ),
        last_updated: now,
    }
}

/// Whether `list` holds a transaction like `tx`.
pub fn contains_transaction(list: &Vec<Transaction>, tx: &Transaction) -> (found: bool)
    ensures
        found == views(list@).contains(tx@),
{
    let mut i: usize = 0;
    while i < list.len()
        invariant
            i <= list@.len(),
            forall|j: int| 0 <= j < i ==> list@[j]@ != tx@,
        decreases list@.len() - i,
    {
        if same_transaction(&list[i], tx) {
            assert(views(list@)[i as int] == tx@);
            return true;
        }
        i = i + 1;
    }
    assert forall|j: int| 0 <= j < views(list@).len() implies views(list@)[j] != tx@ by {
        assert(views(list@)[j] == list@[j]@);
    }
    false
}

/// Copies of those of `txs` that belong to `class`.
fn select(txs: &Vec<Transaction>, class: TransactionClass) -> (list: Vec<Transaction>)
    ensures
        views(list@) == selected(views(txs@), class),
{
    let mut list: Vec<Transaction> = Vec::new();
    let mut i: usize = 0;
    assert(views(list@) =~= selected(views(txs@).subrange(0, 0), class));
    while i < txs.len()
        invariant
            i <= txs@.len(),
            views(list@) == selected(views(txs@).subrange(0, i as int), class),
        decreases txs@.len() - i,
    {
        proof {
            let all = views(txs@);
            assert(all.subrange(0, i + 1).drop_last() =~= all.subrange(0, i as int));
            assert(all.subrange(0, i + 1).last() == txs@[i as int]@);
        }
        if classify(txs[i].tx_type) == class {
            let ghost before = views(list@);
            list.push(txs[i].clone());
            assert(views(list@) =~= before.push(txs@[i as int]@));
        }
        i = i + 1;
    }
    assert(views(txs@).subrange(0, txs@.len() as int) =~= views(txs@));
    list
}

/// Adds to `list` copies of those of `txs` that belong to `class` and are not
/// on it yet.
fn merge(list: &mut Vec<Transaction>, txs: &Vec<Transaction>, class: TransactionClass)
    ensures
        views(final(list)@) == merged(views(old(list)@), views(txs@), class),
{
    let mut i: usize = 0;
    assert(views(txs@).subrange(0, 0) =~= Seq::<TransactionView>::empty());
    while i < txs.len()
        invariant
            i <= txs@.len(),
            views(list@) == merged(views(old(list)@), views(txs@).subrange(0, i as int), class),
        decreases txs@.len() - i,
    {
        proof {
            let all = views(txs@);
            assert(all.subrange(0, i + 1).drop_last() =~= all.subrange(0, i as int));
            assert(all.subrange(0, i + 1).last() == txs@[i as int]@);
        }
        if classify(txs[i].tx_type) == class && !contains_transaction(list, &txs[i]) {
            let ghost before = views(list@);
            list.push(txs[i].clone());
            assert(views(list@) =~= before.push(txs@[i as int]@));
        }
        i = i + 1;
    }
    assert(views(txs@).subrange(0, txs@.len() as int) =~= views(txs@));
}

impl WalletState {
    /// A wallet that nothing is known of yet.
    pub fn new(address: &str) -> (state: Self)
        ensures
            state@ == empty_wallet(address@),
    {
        let state = WalletState {
            address: String::from_str(address),
            balance: WalletBalance {
                total_balance: 0,
                available_balance: 0,
                pending_incoming: 0,
                pending_outgoing: 0,
                confirmed_balance: 0,
            },
            confirmed_transactions: Vec::new(),
            pending_transactions: Vec::new(),
            confirmed_transfers: Vec::new(),
            pending_transfers: Vec::new(),
            rewards: Vec::new(),
            genesis_transactions: Vec::new(),
            last_updated: 0,
        };
        assert(state@.confirmed_transactions =~= Seq::<TransactionView>::empty());
        assert(state@.pending_transactions =~= Seq::<TransactionView>::empty());
        assert(state@.confirmed_transfers =~= Seq::<TransactionView>::empty());
        assert(state@.pending_transfers =~= Seq::<TransactionView>::empty());
        assert(state@.rewards =~= Seq::<TransactionView>::empty());
        assert(state@.genesis_transactions =~= Seq::<TransactionView>::empty());
        state
    }

    /// Brings the wallet up to date at `now` with the transactions that the
    /// chain and the pool hold for its address.
    pub fn sync(&mut self, confirmed: Vec<Transaction>, pending: Vec<Transaction>, now: u64)
        requires
            confirmed@.len() <= MAX_TRANSACTIONS,
            pending@.len() <= MAX_TRANSACTIONS,
        ensures
            final(self)@ == synced(old(self).address@, views(confirmed@), views(pending@), now),
    {
        self.confirmed_transfers = select(&confirmed, TransactionClass::Transfers);
        self.pending_transfers = select(&pending, TransactionClass::Transfers);
        let mut rewards = select(&confirmed, TransactionClass::Rewards);
        merge(&mut rewards, &pending, TransactionClass::Rewards);
        self.rewards = rewards;
        let mut genesis = select(&confirmed, TransactionClass::Genesis);
        merge(&mut genesis, &pending, TransactionClass::Genesis);
        self.genesis_transactions = genesis;
        self.balance = calculate_balance_from_transactions(
            self.address.as_str(),
            confirmed.as_slice(),
            pending.as_slice(),
        );
        self.confirmed_transactions = confirmed;
        self.pending_transactions = pending;
        self.last_updated = now;
    }
}

/// The transactions that a source holds for each address.
pub struct TransactionSource {
    pub entries: Vec<(String, Vec<Transaction>)>,
}

/// The transactions that the entries hold for `address`: those of the latest
/// entry of that address, which takes the place of any earlier one, and none
/// where there is no such entry.
pub open spec fn held_for(entries: Seq<(String, Vec<Transaction>)>, address: Seq<char>) -> Seq<
    TransactionView,
>
    decreases entries.len(),
{
    if entries.len() == 0 {
        Seq::empty()
    } else if entries.last().0@ == address {
        views(entries.last().1@)
    } else {
        held_for(entries.drop_last(), address)
    }
}

/// Whether every list among the entries is short enough for a balance to be
/// taken of it.
pub open spec fn within_limits(entries: Seq<(String, Vec<Transaction>)>) -> bool {
    forall|i: int| 0 <= i < entries.len() ==> (#[trigger] entries[i]).1@.len() <= MAX_TRANSACTIONS
}

impl TransactionSource {
    /// A source that holds nothing.
    pub fn new() -> (source: Self)
        ensures
            source.entries@.len() == 0,
    {
        TransactionSource { entries: Vec::new() }
    }

    /// Sets the transactions of one address, in place of what was held for
    /// that address before. What is held for other addresses stays.
    pub fn insert(&mut self, address: &str, txs: Vec<Transaction>)
        ensures
            final(self).entries@.len() == old(self).entries@.len() + 1,
            final(self).entries@.drop_last() == old(self).entries@,
            final(self).entries@.last().0@ == address@,
            final(self).entries@.last().1 == txs,
            held_for(final(self).entries@, address@) == views(txs@),
            forall|other: Seq<char>|
                other != address@ ==> held_for(final(self).entries@, other) == held_for(
                    old(self).entries@,
                    other,
                ),
    {
        self.entries.push((String::from_str(address), txs));
        assert(self.entries@.drop_last() =~= old(self).entries@);
    }

    /// Copies of the transactions held for `address`.
    pub fn get(&self, address: &str) -> (txs: Vec<Transaction>)
        ensures
            views(txs@) == held_for(self.entries@, address@),
            within_limits(self.entries@) ==> txs@.len() <= MAX_TRANSACTIONS,
    {
        let mut i: usize = self.entries.len();
        assert(self.entries@.subrange(0, self.entries@.len() as int) =~= self.entries@);
        while i > 0
            invariant
                i <= self.entries@.len(),
                held_for(self.entries@, address@) == held_for(
                    self.entries@.subrange(0, i as int),
                    address@,
                ),
            decreases i,
        {
            let ghost upto = self.entries@.subrange(0, i as int);
            assert(upto.last() == self.entries@[i - 1]);
            assert(upto.drop_last() =~= self.entries@.subrange(0, i - 1));
            i = i - 1;
            if same_text(self.entries[i].0.as_str(), address) {
                let txs = copy_transactions(&self.entries[i].1);
                assert(views(txs@).len() == txs@.len());
                assert(views(self.entries@[i as int].1@).len() == self.entries@[i as int].1@.len());
                return txs;
            }
        }
        let none: Vec<Transaction> = Vec::new();
        assert(views(none@) =~= Seq::<TransactionView>::empty());
        none
    }
}

/// The wallets that a node keeps track of, each under its address.
pub struct WalletManager {
    pub wallet_states: Vec<WalletState>,
}

/// Whether one of `states` is the wallet of `address`.
pub open spec fn tracks(states: Seq<WalletState>, address: Seq<char>) -> bool {
    exists|i: int| 0 <= i < states.len() && #[trigger] states[i].address@ == address
}

/// `states` without the wallets of `address`, the others in their order.
pub open spec fn without_wallet(states: Seq<WalletState>, address: Seq<char>) -> Seq<WalletState>
    decreases states.len(),
{
    if states.len() == 0 {
        Seq::empty()
    } else if states.last().address@ == address {
        without_wallet(states.drop_last(), address)
    } else {
        without_wallet(states.drop_last(), address).push(states.last())
    }
}

/// Whether `after` holds the wallets of `before`, each brought up to date at
/// `now` with what the chain and the pool hold for its address.
pub open spec fn all_synced(
    before: Seq<WalletState>,
    after: Seq<WalletState>,
    chain: Seq<(String, Vec<Transaction>)>,
    pool: Seq<(String, Vec<Transaction>)>,
    now: u64,
) -> bool {
    &&& after.len() == before.len()
    &&& forall|i: int|
        0 <= i < after.len() ==> #[trigger] after[i]@ == synced(
            before[i].address@,
            held_for(chain, before[i].address@),
            held_for(pool, before[i].address@),
            now,
        )
}

/// No two of `states` are wallets of the same address.
pub open spec fn distinct_addresses(states: Seq<WalletState>) -> bool {
    forall|i: int, j: int|
        0 <= i < j < states.len() ==> #[trigger] states[i].address@ != #[trigger] states[j].address@
}

/// Whoever is tracked after a wallet is taken out was tracked before, and is
/// not the one taken out.
pub proof fn without_wallet_keeps_others(
    states: Seq<WalletState>,
    address: Seq<char>,
    other: Seq<char>,
)
    ensures
        tracks(without_wallet(states, address), other) ==> other != address && tracks(
            states,
            other,
        ),
    decreases states.len(),
{
    let rest = without_wallet(states, address);
    if states.len() > 0 {
        let init = states.drop_last();
        let rest_init = without_wallet(init, address);
        without_wallet_keeps_others(init, address, other);
        if tracks(rest, other) {
            let i = choose|i: int| 0 <= i < rest.len() && #[trigger] rest[i].address@ == other;
            if i < rest_init.len() {
                assert(rest_init[i].address@ == other);
                let j = choose|j: int| 0 <= j < init.len() && #[trigger] init[j].address@ == other;
                assert(states[j].address@ == other);
            } else {
                assert(states[states.len() - 1].address@ == other);
            }
        }
    }
}

/// Taking a wallet out leaves distinct addresses distinct.
pub proof fn without_wallet_keeps_distinct(states: Seq<WalletState>, address: Seq<char>)
    requires
        distinct_addresses(states),
    ensures
        distinct_addresses(without_wallet(states, address)),
    decreases states.len(),
{
    let rest = without_wallet(states, address);
    if states.len() > 0 {
        let init = states.drop_last();
        let last = states.last();
        let rest_init = without_wallet(init, address);
        assert forall|i: int, j: int| 0 <= i < j < init.len() implies #[trigger] init[i].address@
            != #[trigger] init[j].address@ by {
            assert(states[i].address@ != states[j].address@);
        }
        without_wallet_keeps_distinct(init, address);
        if last.address@ != address {
            without_wallet_keeps_others(init, address, last.address@);
            if tracks(init, last.address@) {
                let k = choose|k: int| 0 <= k < init.len() && #[trigger] init[k].address@ == last.address@;
                assert(states[k].address@ != states[states.len() - 1].address@);
            }
            assert forall|i: int, j: int| 0 <= i < j < rest.len() implies #[trigger] rest[i].address@
                != #[trigger] rest[j].address@ by {
                if j == rest.len() - 1 {
                    if rest[i].address@ == last.address@ {
                        assert(rest_init[i].address@ == last.address@);
                        assert(tracks(rest_init, last.address@));
                    }
                } else {
                    assert(rest_init[i].address@ != rest_init[j].address@);
                }
            }
        }
    }
}

/// Bringing wallets up to date leaves every wallet under its address, and so
/// distinct addresses distinct.
pub proof fn syncing_keeps_distinct(
    before: Seq<WalletState>,
    after: Seq<WalletState>,
    chain: Seq<(String, Vec<Transaction>)>,
    pool: Seq<(String, Vec<Transaction>)>,
    now: u64,
)
    requires
        all_synced(before, after, chain, pool, now),
    ensures
        after.len() == before.len(),
        forall|i: int| 0 <= i < after.len() ==> #[trigger] after[i].address@ == before[i].address@,
        distinct_addresses(before) ==> distinct_addresses(after),
{
    assert forall|i: int| 0 <= i < after.len() implies #[trigger] after[i].address@
        == before[i].address@ by {
        assert(after[i]@.address == before[i].address@);
    }
    if distinct_addresses(before) {
        assert forall|i: int, j: int| 0 <= i < j < after.len() implies #[trigger] after[i].address@
            != #[trigger] after[j].address@ by {
            assert(before[i].address@ != before[j].address@);
        }
    }
}

impl WalletManager {
    /// A manager without wallets.
    pub fn new() -> (manager: Self)
        ensures
            manager.wallet_states@.len() == 0,
    {
        WalletManager { wallet_states: Vec::new() }
    }

    /// Where the wallet of `address` stands in the list, if it is there.
    pub fn position(&self, address: &str) -> (at: Option<usize>)
        ensures
            match at {
                Some(i) => {
                    &&& i < self.wallet_states@.len()
                    &&& self.wallet_states@[i as int].address@ == address@
                    &&& forall|j: int| 0 <= j < i ==> self.wallet_states@[j].address@ != address@
                },
                None => !tracks(self.wallet_states@, address@),
            },
    {
        let mut i: usize = 0;
        while i < self.wallet_states.len()
            invariant
                i <= self.wallet_states@.len(),
                forall|j: int| 0 <= j < i ==> self.wallet_states@[j].address@ != address@,
            decreases self.wallet_states@.len() - i,
        {
            if same_text(self.wallet_states[i].address.as_str(), address) {
                return Some(i);
            }
            i = i + 1;
        }
        None
    }

    /// Starts to keep track of the wallet of `address`, as an empty wallet,
    /// unless it is tracked already.
    pub fn register_wallet(&mut self, address: &str)
        ensures
            tracks(final(self).wallet_states@, address@),
            tracks(old(self).wallet_states@, address@) ==> final(self).wallet_states == old(self).wallet_states,
            !tracks(old(self).wallet_states@, address@) ==> {
                &&& final(self).wallet_states@.len() == old(self).wallet_states@.len() + 1
                &&& final(self).wallet_states@.drop_last() == old(self).wallet_states@
                &&& final(self).wallet_states@.last()@ == empty_wallet(address@)
            },
            distinct_addresses(old(self).wallet_states@) ==> distinct_addresses(
                final(self).wallet_states@,
            ),
    {
        match self.position(address) {
            Some(i) => {
                assert(self.wallet_states@[i as int].address@ == address@);
            },
            None => {
                self.wallet_states.push(WalletState::new(address));
                assert(self.wallet_states@.drop_last() =~= old(self).wallet_states@);
                assert(self.wallet_states@[self.wallet_states@.len() - 1].address@ == address@);
            },
        }
    }

    /// Starts to keep track of each of the addresses.
    pub fn register_wallets(&mut self, addresses: &[String])
        ensures
            forall|i: int|
                0 <= i < addresses@.len() ==> tracks(
                    final(self).wallet_states@,
                    #[trigger] addresses@[i]@,
                ),
            forall|address: Seq<char>|
                tracks(old(self).wallet_states@, address) ==> tracks(
                    final(self).wallet_states@,
                    address,
                ),
            distinct_addresses(old(self).wallet_states@) ==> distinct_addresses(
                final(self).wallet_states@,
            ),
    {
        let mut i: usize = 0;
        while i < addresses.len()
            invariant
                i <= addresses@.len(),
                distinct_addresses(old(self).wallet_states@) ==> distinct_addresses(
                    self.wallet_states@,
                ),
                forall|j: int|
                    0 <= j < i ==> tracks(self.wallet_states@, #[trigger] addresses@[j]@),
                forall|address: Seq<char>|
                    tracks(old(self).wallet_states@, address) ==> tracks(
                        self.wallet_states@,
                        address,
                    ),
            decreases addresses@.len() - i,
        {
            let ghost before = self.wallet_states@;
            self.register_wallet(addresses[i].as_str());
            proof {
                assert forall|address: Seq<char>| tracks(before, address) implies tracks(
                    self.wallet_states@,
                    address,
                ) by {
                    let k = choose|k: int| 0 <= k < before.len() && #[trigger] before[k].address@ == address;
                    if !tracks(before, addresses@[i as int]@) {
                        assert(self.wallet_states@.drop_last()[k] == before[k]);
                    }
                    assert(self.wallet_states@[k].address@ == address);
                }
            }
            i = i + 1;
        }
    }

    /// A copy of the wallet of `address`, if it is tracked.
    pub fn get_wallet_state(&self, address: &str) -> (state: Option<WalletState>)
        ensures
            state is Some <==> tracks(self.wallet_states@, address@),
            state matches Some(s) ==> s.address@ == address@ && exists|i: int|
                0 <= i < self.wallet_states@.len() && s@ == #[trigger] self.wallet_states@[i]@,
    {
        match self.position(address) {
            Some(i) => {
                let state = self.wallet_states[i].clone();
                assert(state@ == self.wallet_states@[i as int]@);
                Some(state)
            },
            None => None,
        }
    }

    /// Copies of all the wallets, in the order in which they were registered.
    pub fn get_all_wallet_states(&self) -> (states: Vec<WalletState>)
        ensures
            states@.len() == self.wallet_states@.len(),
            forall|i: int| 0 <= i < states@.len() ==> #[trigger] states@[i]@ == self.wallet_states@[i]@,
    {
        let mut states: Vec<WalletState> = Vec::new();
        let mut i: usize = 0;
        while i < self.wallet_states.len()
            invariant
                i <= self.wallet_states@.len(),
                states@.len() == i,
                forall|j: int| 0 <= j < i ==> #[trigger] states@[j]@ == self.wallet_states@[j]@,
            decreases self.wallet_states@.len() - i,
        {
            states.push(self.wallet_states[i].clone());
            i = i + 1;
        }
        states
    }

    /// Stops keeping track of the wallet of `address`.
    pub fn remove_wallet(&mut self, address: &str)
        ensures
            final(self).wallet_states@ == without_wallet(old(self).wallet_states@, address@),
            !tracks(final(self).wallet_states@, address@),
            distinct_addresses(old(self).wallet_states@) ==> distinct_addresses(
                final(self).wallet_states@,
            ),
    {
        let mut source: Vec<WalletState> = Vec::new();
        std::mem::swap(&mut self.wallet_states, &mut source);
        let ghost before = source@;
        let mut kept: Vec<WalletState> = Vec::new();
        let ghost mut seen: int = 0;
        for state in it: source
            invariant
                seen == it.index(),
                it.seq() == before,
                kept@ == without_wallet(before.subrange(0, seen), address@),
        {
            proof {
                assert(before.subrange(0, seen + 1).drop_last() =~= before.subrange(0, seen));
                assert(before.subrange(0, seen + 1).last() == before[seen]);
            }
            if !same_text(state.address.as_str(), address) {
                kept.push(state);
            }
            proof {
                seen = seen + 1;
            }
        }
        proof {
            assert(before.subrange(0, before.len() as int) =~= before);
            without_wallet_keeps_others(before, address@, address@);
            if distinct_addresses(before) {
                without_wallet_keeps_distinct(before, address@);
            }
        }
        self.wallet_states = kept;
    }

    /// Forgets all wallets.
    pub fn clear_all_caches(&mut self)
        ensures
            final(self).wallet_states@.len() == 0,
    {
        self.wallet_states.clear();
    }

    /// Brings every wallet up to date at `now` (seconds since the Unix epoch)
    /// with what the chain and the pool hold for its address.
    pub fn sync_wallets_at(
        &mut self,
        blockchain_txs: &TransactionSource,
        mempool_txs: &TransactionSource,
        now: u64,
    )
        requires
            within_limits(blockchain_txs.entries@),
            within_limits(mempool_txs.entries@),
        ensures
            all_synced(
                old(self).wallet_states@,
                final(self).wallet_states@,
                blockchain_txs.entries@,
                mempool_txs.entries@,
                now,
            ),
    {
        let mut i: usize = 0;
        while i < self.wallet_states.len()
            invariant
                i <= self.wallet_states@.len(),
                self.wallet_states@.len() == old(self).wallet_states@.len(),
                within_limits(blockchain_txs.entries@),
                within_limits(mempool_txs.entries@),
                forall|j: int|
                    i <= j < self.wallet_states@.len() ==> self.wallet_states@[j] == old(self).wallet_states@[j],
                forall|j: int|
                    0 <= j < i ==> #[trigger] self.wallet_states@[j]@ == synced(
                        old(self).wallet_states@[j].address@,
                        held_for(blockchain_txs.entries@, old(self).wallet_states@[j].address@),
                        held_for(mempool_txs.entries@, old(self).wallet_states@[j].address@),
                        now,
                    ),
            decreases self.wallet_states@.len() - i,
        {
            let confirmed = blockchain_txs.get(self.wallet_states[i].address.as_str());
            let pending = mempool_txs.get(self.wallet_states[i].address.as_str());
            let mut state = WalletState::new(self.wallet_states[i].address.as_str());
            state.sync(confirmed, pending, now);
            self.wallet_states.set(i, state);
            i = i + 1;
        }
    }

    /// Brings every wallet up to date, as of now.
    pub fn sync_wallets_from_sources(
        &mut self,
        blockchain_txs: &TransactionSource,
        mempool_txs: &TransactionSource,
    )
        requires
            within_limits(blockchain_txs.entries@),
            within_limits(mempool_txs.entries@),
        ensures
            exists|now: u64| #[trigger]
                all_synced(
                    old(self).wallet_states@,
                    final(self).wallet_states@,
                    blockchain_txs.entries@,
                    mempool_txs.entries@,
                    now,
                ),
    {
        let now = unix_millis() / 1000;
        self.sync_wallets_at(blockchain_txs, mempool_txs, now);
    }
}

} // verus!
