//! What makes a transaction acceptable: the fields it must have, the limits
//! on amounts and fees, the form of its signature, and the limits on how
//! often an address may send.
//!
//! A transaction is a JSON object. Amounts and fees are whole numbers of the
//! smallest unit, a millionth of a coin; times are seconds since the Unix
//! epoch.

use vstd::prelude::*;
use vstd::string::*;
use crate::json::{
    has_member, i64_member, json_has_member, json_i64_member, json_string_member,
    json_u64_member, string_member, u64_member,
};
use crate::mining::difficulty::target_prefix;
use crate::system::unix_millis;
use crate::text::{
    byte_len, decimal, has_prefix, join2, lowercase_of, same_text, starts_with, to_lowercase,
    zeros,
};

verus! {

/// Marker for the security rules.
pub struct Security;

/// The kinds of transaction that are known.
#[derive(Debug, Clone, Copy, PartialEq, Eq, Structural)]
pub enum TransactionKind {
    Genesis,
    Reward,
    Transfer,
}

/// What an examination of a transaction finds.
#[derive(Debug, Clone, Copy, PartialEq, Eq, Structural)]
pub enum Finding {
    /// The transaction is acceptable.
    Valid(TransactionKind),
    /// The kind of the transaction is none of the known ones.
    UnknownType,
    /// A field is missing: the one at this place in the list of the fields
    /// that a transaction of this kind must have.
    MissingField(TransactionKind, usize),
    InvalidDenomination,
    InvalidMiningProof,
    UnauthorizedReward,
    AmountBelowMinimum,
    AmountAboveMaximum,
    InsufficientFee,
    InvalidSignature,
    RateLimitExceeded,
    Blacklisted,
}

/// The fields that a transaction of the given kind must have, in the order
/// in which they are looked for.
pub open spec fn required_fields(kind: TransactionKind) -> Seq<Seq<char>> {
    match kind {
        TransactionKind::Genesis => seq![
            "bill_serial"@,
            "denomination"@,
            "mining_difficulty"@,
            "hash"@,
            "nonce"@,
        ],
        TransactionKind::Reward => seq!["from"@, "to"@, "amount"@, "block_height"@, "hash"@],
        TransactionKind::Transfer => seq![
            "from"@,
            "to"@,
            "amount"@,
            "signature"@,
            "public_key"@,
            "nonce"@,
        ],
    }
}

/// The first of `fields`, from the place `from` on, that `tx` lacks, by its
/// place in the list.
pub open spec fn first_missing_from(tx: serde_json::Value, fields: Seq<Seq<char>>, from: int) -> Option<
    usize,
>
    decreases fields.len() - from,
{
    if from < 0 || from >= fields.len() {
        None
    } else if !has_member(tx, fields[from]) {
        Some(from as usize)
    } else {
        first_missing_from(tx, fields, from + 1)
    }
}

/// The first of `fields` that `tx` lacks, by its place in the list.
pub open spec fn first_missing(tx: serde_json::Value, fields: Seq<Seq<char>>) -> Option<usize> {
    first_missing_from(tx, fields, 0)
}

/// The string under `key`, or the empty text.
pub open spec fn text_at(tx: serde_json::Value, key: Seq<char>) -> Seq<char> {
    match string_member(tx, key) {
        Some(s) => s,
        None => Seq::empty(),
    }
}

/// The number under `key`, or zero.
pub open spec fn number_at(tx: serde_json::Value, key: Seq<char>) -> u64 {
    match u64_member(tx, key) {
        Some(n) => n,
        None => 0,
    }
}

/// The kind of a transaction, by the lower-case form of its `type`.
pub open spec fn kind_of(tx: serde_json::Value) -> Option<TransactionKind> {
    let name = lowercase_of(text_at(tx, "type"@));
    if name == "gtx_genesis"@ {
        Some(TransactionKind::Genesis)
    } else if name == "reward"@ {
        Some(TransactionKind::Reward)
    } else if name == "transfer"@ {
        Some(TransactionKind::Transfer)
    } else {
        None
    }
}

/// Whether a denomination is one of those that are issued.
pub open spec fn is_issued_denomination(d: i64) -> bool {
    d == 1 || d == 10 || d == 100 || d == 1000 || d == 10000 || d == 100000 || d == 1000000 || d
        == 10000000 || d == 100000000
}

/// Whether the hash of a transaction shows the zeros that its difficulty
/// asks for.
pub open spec fn has_mining_proof(tx: serde_json::Value) -> bool {
    has_prefix(text_at(tx, "hash"@), target_prefix(number_at(tx, "mining_difficulty"@) as nat))
}

/// A hexadecimal digit, in either case.
pub open spec fn is_hex_digit(c: char) -> bool {
    let n = c as u32;
    (0x30 <= n && n <= 0x39) || (0x61 <= n && n <= 0x66) || (0x41 <= n && n <= 0x46)
}

/// Whether the signature of a transaction has an acceptable form: the
/// transactions of the system need none, three words stand for "unsigned",
/// and any other signature is 128 hexadecimal digits beside a public key
/// that begins with `04`.
pub open spec fn has_signature_form(tx: serde_json::Value) -> bool {
    let signature = text_at(tx, "signature"@);
    let kind = lowercase_of(text_at(tx, "type"@));
    ||| kind == "gtx_genesis"@
    ||| kind == "reward"@
    ||| signature == "system"@
    ||| signature == "unsigned"@
    ||| signature == "test"@
    ||| {
        &&& byte_len(signature) == 128
        &&& forall|i: int| 0 <= i < signature.len() ==> is_hex_digit(#[trigger] signature[i])
        &&& has_prefix(text_at(tx, "public_key"@), "04"@)
    }
}

/// The times among `times` that lie within the last minute before `now`, in
/// their order.
pub open spec fn recent(times: Seq<u64>, now: u64) -> Seq<u64>
    decreases times.len(),
{
    if times.len() == 0 {
        Seq::empty()
    } else if times.last() <= now && now - times.last() < 60 {
        recent(times.drop_last(), now).push(times.last())
    } else {
        recent(times.drop_last(), now)
    }
}

/// The times on record for `address`: those of the first entry under it, and
/// none where there is no entry.
pub open spec fn times_of(limits: Seq<(String, Vec<u64>)>, address: Seq<char>) -> Seq<u64>
    decreases limits.len(),
{
    if limits.len() == 0 {
        Seq::empty()
    } else if limits.first().0@ == address {
        limits.first().1@
    } else {
        times_of(limits.drop_first(), address)
    }
}

/// Whether `address` is on the list.
pub open spec fn is_listed(list: Seq<String>, address: Seq<char>) -> bool {
    exists|i: int| 0 <= i < list.len() && #[trigger] list[i]@ == address
}

/// No address stands twice on the list.
pub open spec fn listed_once(list: Seq<String>) -> bool {
    forall|i: int, j: int| 0 <= i < j < list.len() ==> #[trigger] list[i]@ != #[trigger] list[j]@
}

/// No address has more than one entry among the limits.
pub open spec fn one_entry_each(limits: Seq<(String, Vec<u64>)>) -> bool {
    forall|i: int, j: int|
        0 <= i < j < limits.len() ==> (#[trigger] limits[i]).0@ != (#[trigger] limits[j]).0@
}

/// The rules, and what they remember: when each address last sent, and who is
/// shut out.
#[derive(Debug)]
pub struct TransactionSecurity {
    pub min_transaction_amount: u64,
    pub max_transaction_amount: u64,
    pub required_fee: u64,
    /// For each address, in lower case, the times at which it sent.
    pub rate_limits: Vec<(String, Vec<u64>)>,
    /// The addresses that are shut out, in lower case.
    pub blacklisted_addresses: Vec<String>,
    pub sm2_available: bool,
}

/// The most that an address may send within a minute.
pub const RATE_LIMIT: usize = 10;

fn text_member(tx: &serde_json::Value, key: &str) -> (text: String)
    ensures
        text@ == text_at(*tx, key@),
{
    match json_string_member(tx, key) {
        Some(s) => s,
        None => String::new(),
    }
}

fn number_member(tx: &serde_json::Value, key: &str) -> (n: u64)
    ensures
        n == number_at(*tx, key@),
{
    match json_u64_member(tx, key) {
        Some(n) => n,
        None => 0,
    }
}

/// The fields that a transaction of the given kind must have.
pub fn required_field_names(kind: TransactionKind) -> (names: Vec<&'static str>)
    ensures
        names@.len() == required_fields(kind).len(),
        forall|i: int| 0 <= i < names@.len() ==> (#[trigger] names@[i])@ == required_fields(kind)[i],
{
    let mut names: Vec<&'static str> = Vec::new();
    match kind {
        TransactionKind::Genesis => {
            names.push("bill_serial");
            names.push("denomination");
            names.push("mining_difficulty");
            names.push("hash");
            names.push("nonce");
        },
        TransactionKind::Reward => {
            names.push("from");
            names.push("to");
            names.push("amount");
            names.push("block_height");
            names.push("hash");
        },
        TransactionKind::Transfer => {
            names.push("from");
            names.push("to");
            names.push("amount");
            names.push("signature");
            names.push("public_key");
            names.push("nonce");
        },
    }
    names
}

/// The first field of its kind that `tx` lacks.
#[verifier::loop_isolation(false)]
pub fn find_missing(tx: &serde_json::Value, kind: TransactionKind) -> (missing: Option<usize>)
    ensures
        missing == first_missing(*tx, required_fields(kind)),
        missing matches Some(i) ==> i < required_fields(kind).len(),
{
    let names = required_field_names(kind);
    let ghost fields = required_fields(kind);
    let mut i: usize = 0;
    while i < names.len()
        invariant
            i <= names@.len(),
            names@.len() == fields.len(),
            fields.len() <= 6,
            forall|j: int| 0 <= j < names@.len() ==> (#[trigger] names@[j])@ == fields[j],
            first_missing(*tx, fields) == first_missing_from(*tx, fields, i as int),
        decreases names@.len() - i,
    {
        if !json_has_member(tx, names[i]) {
            return Some(i);
        }
        i = i + 1;
    }
    None
}

/// Where the first entry under `key` stands, if there is one.
fn find_entry(limits: &Vec<(String, Vec<u64>)>, key: &str) -> (at: Option<usize>)
    ensures
        match at {
            Some(i) => {
                &&& i < limits@.len()
                &&& limits@[i as int].0@ == key@
                &&& forall|j: int| 0 <= j < i ==> limits@[j].0@ != key@
                &&& times_of(limits@, key@) == limits@[i as int].1@
            },
            None => {
                &&& forall|j: int| 0 <= j < limits@.len() ==> limits@[j].0@ != key@
                &&& times_of(limits@, key@) == Seq::<u64>::empty()
            },
        },
{
    let mut i: usize = 0;
    assert(limits@.subrange(0, limits@.len() as int) =~= limits@);
    while i < limits.len()
        invariant
            i <= limits@.len(),
            forall|j: int| 0 <= j < i ==> limits@[j].0@ != key@,
            times_of(limits@, key@) == times_of(
                limits@.subrange(i as int, limits@.len() as int),
                key@,
            ),
        decreases limits@.len() - i,
    {
        let ghost rest = limits@.subrange(i as int, limits@.len() as int);
        assert(rest.first() == limits@[i as int]);
        assert(rest.drop_first() =~= limits@.subrange(i + 1, limits@.len() as int));
        if same_text(limits[i].0.as_str(), key) {
            return Some(i);
        }
        i = i + 1;
    }
    None
}

impl TransactionSecurity {
    /// The rules with their usual limits: amounts from one unit to a hundred
    /// million coins, and a fee of ten units.
    pub fn new(sm2_available: bool) -> (rules: Self)
        ensures
            rules.min_transaction_amount == 1,
            rules.max_transaction_amount == 100_000_000_000_000,
            rules.required_fee == 10,
            rules.rate_limits@.len() == 0,
            rules.blacklisted_addresses@.len() == 0,
            rules.sm2_available == sm2_available,
    {
        TransactionSecurity {
            min_transaction_amount: 1,
            max_transaction_amount: 100_000_000_000_000,
            required_fee: 10,
            rate_limits: Vec::new(),
            blacklisted_addresses: Vec::new(),
            sm2_available,
        }
    }

    /// Whether the hash of a transaction shows the zeros that its difficulty
    /// asks for.
    pub fn validate_mining_proof(&self, transaction: &serde_json::Value) -> (ok: bool)
        ensures
            ok == has_mining_proof(*transaction),
    {
        let difficulty = number_member(transaction, "mining_difficulty");
        let bill_hash = text_member(transaction, "hash");
        if difficulty > usize::MAX as u64 {
            // no text is as long as that
            let n = bill_hash.as_str().unicode_len();
            assert(!has_prefix(bill_hash@, target_prefix(difficulty as nat)));
            return false;
        }
        let target = zeros(difficulty as usize);
        starts_with(bill_hash.as_str(), target.as_str())
    }

    /// Whether the signature of a transaction has an acceptable form.
    #[verifier::loop_isolation(false)]
    pub fn validate_signature_sm2(&self, transaction: &serde_json::Value) -> (ok: bool)
        ensures
            ok == has_signature_form(*transaction),
    {
        let signature = text_member(transaction, "signature");
        let public_key = text_member(transaction, "public_key");
        let kind = to_lowercase(text_member(transaction, "type").as_str());
        if same_text(kind.as_str(), "gtx_genesis") || same_text(kind.as_str(), "reward") {
            return true;
        }
        if same_text(signature.as_str(), "system") || same_text(signature.as_str(), "unsigned")
            || same_text(signature.as_str(), "test") {
            return true;
        }
        if signature.as_str().as_bytes().len() != 128 {
            return false;
        }
        let count = signature.as_str().unicode_len();
        let mut i: usize = 0;
        while i < count
            invariant
                i <= count,
                count == signature@.len(),
                forall|j: int| 0 <= j < i ==> is_hex_digit(#[trigger] signature@[j]),
            decreases count - i,
        {
            let n = signature.as_str().get_char(i) as u32;
            let hex = (0x30 <= n && n <= 0x39) || (0x61 <= n && n <= 0x66) || (0x41 <= n && n <= 0x46);
            if !hex {
                assert(!is_hex_digit(signature@[i as int]));
                return false;
            }
            i = i + 1;
        }
        starts_with(public_key.as_str(), "04")
    }

    /// Whether `address`, in whatever case it is written, is shut out.
    #[verifier::loop_isolation(false)]
    pub fn is_blacklisted(&self, address: &str) -> (listed: bool)
        ensures
            listed == is_listed(self.blacklisted_addresses@, lowercase_of(address@)),
    {
        let lower = to_lowercase(address);
        let mut i: usize = 0;
        while i < self.blacklisted_addresses.len()
            invariant
                i <= self.blacklisted_addresses@.len(),
                forall|j: int| 0 <= j < i ==> self.blacklisted_addresses@[j]@ != lower@,
            decreases self.blacklisted_addresses@.len() - i,
        {
            if same_text(self.blacklisted_addresses[i].as_str(), lower.as_str()) {
                assert(self.blacklisted_addresses@[i as int]@ == lowercase_of(address@));
                return true;
            }
            i = i + 1;
        }
        false
    }

    /// Shuts `address` out. It is kept in lower case, and once only.
    pub fn blacklist_address(&mut self, address: &str)
        ensures
            is_listed(final(self).blacklisted_addresses@, lowercase_of(address@)),
            forall|other: Seq<char>|
                is_listed(old(self).blacklisted_addresses@, other) ==> is_listed(
                    final(self).blacklisted_addresses@,
                    other,
                ),
            final(self).rate_limits == old(self).rate_limits,
            final(self).min_transaction_amount == old(self).min_transaction_amount,
            final(self).max_transaction_amount == old(self).max_transaction_amount,
            final(self).required_fee == old(self).required_fee,
            final(self).sm2_available == old(self).sm2_available,
            listed_once(old(self).blacklisted_addresses@) ==> listed_once(
                final(self).blacklisted_addresses@,
            ),
    {
        if !self.is_blacklisted(address) {
            let ghost before = self.blacklisted_addresses@;
            self.blacklisted_addresses.push(to_lowercase(address));
            proof {
                if listed_once(before) {
                    assert forall|i: int, j: int|
                        0 <= i < j < self.blacklisted_addresses@.len() implies #[trigger] self.blacklisted_addresses@[i]@
                        != #[trigger] self.blacklisted_addresses@[j]@ by {
                        if j < before.len() {
                            assert(before[i]@ != before[j]@);
                        } else {
                            assert(before[i]@ != lowercase_of(address@));
                        }
                    }
                }
                assert(self.blacklisted_addresses@[before.len() as int]@ == lowercase_of(address@));
                assert forall|other: Seq<char>| is_listed(before, other) implies is_listed(
                    self.blacklisted_addresses@,
                    other,
                ) by {
                    let k = choose|k: int| 0 <= k < before.len() && #[trigger] before[k]@ == other;
                    assert(self.blacklisted_addresses@[k]@ == other);
                }
            }
        }
    }

    /// Whether `address` may send at `now`, and if so, notes that it does.
    /// An address may send while fewer than ten of its sendings lie within
    /// the last minute; older ones are forgotten.
    pub fn check_rate_limit_at(&mut self, address: &str, now: u64) -> (allowed: bool)
        ensures
            allowed == (recent(
                times_of(old(self).rate_limits@, lowercase_of(address@)),
                now,
            ).len() < RATE_LIMIT),
            times_of(final(self).rate_limits@, lowercase_of(address@)) == if allowed {
                recent(times_of(old(self).rate_limits@, lowercase_of(address@)), now).push(now)
            } else {
                recent(times_of(old(self).rate_limits@, lowercase_of(address@)), now)
            },
            forall|other: Seq<char>|
                other != lowercase_of(address@) ==> times_of(final(self).rate_limits@, other)
                    == times_of(old(self).rate_limits@, other),
            final(self).blacklisted_addresses == old(self).blacklisted_addresses,
            final(self).min_transaction_amount == old(self).min_transaction_amount,
            final(self).max_transaction_amount == old(self).max_transaction_amount,
            final(self).required_fee == old(self).required_fee,
            final(self).sm2_available == old(self).sm2_available,
            one_entry_each(old(self).rate_limits@) ==> one_entry_each(final(self).rate_limits@),
    {
        let key = to_lowercase(address);
        let ghost before = self.rate_limits@;
        let entry = find_entry(&self.rate_limits, key.as_str());
        let mut kept: Vec<u64> = Vec::new();
        let ghost times = times_of(before, key@);
        assert(times.subrange(0, 0) =~= Seq::<u64>::empty());
        match entry {
            Some(at) => {
                let mut i: usize = 0;
                while i < self.rate_limits[at].1.len()
                    invariant
                        at < self.rate_limits@.len(),
                        self.rate_limits@ == before,
                        times == before[at as int].1@,
                        i <= times.len(),
                        kept@ == recent(times.subrange(0, i as int), now),
                    decreases times.len() - i,
                {
                    let t = self.rate_limits[at].1[i];
                    proof {
                        assert(times.subrange(0, i + 1).drop_last() =~= times.subrange(0, i as int));
                        assert(times.subrange(0, i + 1).last() == t);
                    }
                    if t <= now && now - t < 60 {
                        kept.push(t);
                    }
                    i = i + 1;
                }
                assert(times.subrange(0, times.len() as int) =~= times);
            },
            None => {},
        }
        let allowed = kept.len() < RATE_LIMIT;
        if allowed {
            kept.push(now);
        }
        let ghost new_times = kept@;
        match entry {
            Some(at) => {
                self.rate_limits.set(at, (key, kept));
                proof {
                    lookup_after_change(before, self.rate_limits@, at as int, lowercase_of(address@), new_times);
                }
            },
            None => {
                self.rate_limits.push((key, kept));
                proof {
                    lookup_after_change(
                        before,
                        self.rate_limits@,
                        before.len() as int,
                        lowercase_of(address@),
                        new_times,
                    );
                }
            },
        }
        allowed
    }

    /// Whether `address` may send now, and if so, notes that it does.
    pub fn check_rate_limit(&mut self, address: &str) -> (allowed: bool)
        ensures
            final(self).blacklisted_addresses == old(self).blacklisted_addresses,
            final(self).min_transaction_amount == old(self).min_transaction_amount,
            final(self).max_transaction_amount == old(self).max_transaction_amount,
            final(self).required_fee == old(self).required_fee,
            final(self).sm2_available == old(self).sm2_available,
            exists|now: u64|
                allowed == (#[trigger] recent(
                    times_of(old(self).rate_limits@, lowercase_of(address@)),
                    now,
                ).len() < RATE_LIMIT),
    {
        let now = unix_millis() / 1000;
        let allowed = self.check_rate_limit_at(address, now);
        assert(allowed == (recent(
            times_of(old(self).rate_limits@, lowercase_of(address@)),
            now,
        ).len() < RATE_LIMIT));
        allowed
    }
}

/// The number under `key` as a signed number, or -1.
pub open spec fn signed_at(tx: serde_json::Value, key: Seq<char>) -> i64 {
    match i64_member(tx, key) {
        Some(n) => n,
        None => -1i64,
    }
}

/// What the examination of a genesis transaction finds.
pub open spec fn genesis_finding(tx: serde_json::Value) -> Finding {
    match first_missing(tx, required_fields(TransactionKind::Genesis)) {
        Some(i) => Finding::MissingField(TransactionKind::Genesis, i),
        None => if !is_issued_denomination(signed_at(tx, "denomination"@)) {
            Finding::InvalidDenomination
        } else if !has_mining_proof(tx) {
            Finding::InvalidMiningProof
        } else {
            Finding::Valid(TransactionKind::Genesis)
        },
    }
}

/// What the examination of a reward finds.
pub open spec fn reward_finding(tx: serde_json::Value) -> Finding {
    match first_missing(tx, required_fields(TransactionKind::Reward)) {
        Some(i) => Finding::MissingField(TransactionKind::Reward, i),
        None => if string_member(tx, "from"@) != Some("network"@) {
            Finding::UnauthorizedReward
        } else {
            Finding::Valid(TransactionKind::Reward)
        },
    }
}

impl TransactionSecurity {
    /// What the examination of a transfer finds before the sender is looked
    /// at, if it finds anything: a missing field, an amount or a fee out of
    /// bounds, or a signature of the wrong form.
    pub open spec fn transfer_fault(&self, tx: serde_json::Value) -> Option<Finding> {
        match first_missing(tx, required_fields(TransactionKind::Transfer)) {
            Some(i) => Some(Finding::MissingField(TransactionKind::Transfer, i)),
            None => if number_at(tx, "amount"@) < self.min_transaction_amount {
                Some(Finding::AmountBelowMinimum)
            } else if number_at(tx, "amount"@) > self.max_transaction_amount {
                Some(Finding::AmountAboveMaximum)
            } else if number_at(tx, "fee"@) < self.required_fee {
                Some(Finding::InsufficientFee)
            } else if !has_signature_form(tx) {
                Some(Finding::InvalidSignature)
            } else {
                None
            },
        }
    }

    /// Whether the examination of `tx` gets as far as the sender, whose
    /// sending is then noted.
    pub open spec fn looks_at_sender(&self, tx: serde_json::Value) -> bool {
        kind_of(tx) == Some(TransactionKind::Transfer) && self.transfer_fault(tx) is None
    }

    /// What the examination of a transfer finds at `now`.
    pub open spec fn transfer_finding(&self, tx: serde_json::Value, now: u64) -> Finding {
        match self.transfer_fault(tx) {
            Some(fault) => fault,
            None => {
                let sender = lowercase_of(text_at(tx, "from"@));
                if recent(times_of(self.rate_limits@, sender), now).len() >= RATE_LIMIT {
                    Finding::RateLimitExceeded
                } else if is_listed(self.blacklisted_addresses@, sender) {
                    Finding::Blacklisted
                } else {
                    Finding::Valid(TransactionKind::Transfer)
                }
            },
        }
    }

    /// What the examination of `tx` finds at `now`.
    pub open spec fn finding(&self, tx: serde_json::Value, now: u64) -> Finding {
        match kind_of(tx) {
            Some(TransactionKind::Genesis) => genesis_finding(tx),
            Some(TransactionKind::Reward) => reward_finding(tx),
            Some(TransactionKind::Transfer) => self.transfer_finding(tx, now),
            None => Finding::UnknownType,
        }
    }

    fn validate_genesis_transaction(&self, transaction: &serde_json::Value) -> (found: Finding)
        ensures
            found == genesis_finding(*transaction),
    {
        match find_missing(transaction, TransactionKind::Genesis) {
            Some(i) => {
                return Finding::MissingField(TransactionKind::Genesis, i);
            },
            None => {},
        }
        let denomination = match json_i64_member(transaction, "denomination") {
            Some(d) => d,
            None => -1,
        };
        let issued = denomination == 1 || denomination == 10 || denomination == 100 || denomination
            == 1000 || denomination == 10000 || denomination == 100000 || denomination == 1000000
            || denomination == 10000000 || denomination == 100000000;
        if !issued {
            return Finding::InvalidDenomination;
        }
        if !self.validate_mining_proof(transaction) {
            return Finding::InvalidMiningProof;
        }
        Finding::Valid(TransactionKind::Genesis)
    }

    fn validate_reward_transaction(&self, transaction: &serde_json::Value) -> (found: Finding)
        ensures
            found == reward_finding(*transaction),
    {
        match find_missing(transaction, TransactionKind::Reward) {
            Some(i) => {
                return Finding::MissingField(TransactionKind::Reward, i);
            },
            None => {},
        }
        let from_network = match json_string_member(transaction, "from") {
            Some(sender) => same_text(sender.as_str(), "network"),
            None => false,
        };
        if !from_network {
            return Finding::UnauthorizedReward;
        }
        Finding::Valid(TransactionKind::Reward)
    }

    fn find_transfer_fault(&self, transaction: &serde_json::Value) -> (fault: Option<Finding>)
        ensures
            fault == self.transfer_fault(*transaction),
    {
        match find_missing(transaction, TransactionKind::Transfer) {
            Some(i) => {
                return Some(Finding::MissingField(TransactionKind::Transfer, i));
            },
            None => {},
        }
        let amount = number_member(transaction, "amount");
        if amount < self.min_transaction_amount {
            return Some(Finding::AmountBelowMinimum);
        }
        if amount > self.max_transaction_amount {
            return Some(Finding::AmountAboveMaximum);
        }
        let fee = number_member(transaction, "fee");
        if fee < self.required_fee {
            return Some(Finding::InsufficientFee);
        }
        if !self.validate_signature_sm2(transaction) {
            return Some(Finding::InvalidSignature);
        }
        None
    }

    fn validate_transfer_transaction(&mut self, transaction: &serde_json::Value, now: u64) -> (found:
        Finding)
        ensures
            found == old(self).transfer_finding(*transaction, now),
            old(self).transfer_fault(*transaction) is Some ==> final(self).rate_limits == old(self).rate_limits,
            old(self).transfer_fault(*transaction) is None ==> sender_noted(
                old(self).rate_limits@,
                final(self).rate_limits@,
                lowercase_of(text_at(*transaction, "from"@)),
                now,
            ),
            one_entry_each(old(self).rate_limits@) ==> one_entry_each(final(self).rate_limits@),
            final(self).blacklisted_addresses == old(self).blacklisted_addresses,
            final(self).min_transaction_amount == old(self).min_transaction_amount,
            final(self).max_transaction_amount == old(self).max_transaction_amount,
            final(self).required_fee == old(self).required_fee,
            final(self).sm2_available == old(self).sm2_available,
    {
        match self.find_transfer_fault(transaction) {
            Some(fault) => {
                return fault;
            },
            None => {},
        }
        let from_address = text_member(transaction, "from");
        if !self.check_rate_limit_at(from_address.as_str(), now) {
            return Finding::RateLimitExceeded;
        }
        if self.is_blacklisted(from_address.as_str()) {
            return Finding::Blacklisted;
        }
        Finding::Valid(TransactionKind::Transfer)
    }

    /// Examines a transaction at `now`. A transfer that is in order as far as
    /// its own fields go has its sender looked at: the sending is held
    /// against the sender's limit, and noted if the limit allows it. Nothing
    /// else is changed.
    pub fn examine_at(&mut self, transaction: &serde_json::Value, now: u64) -> (found: Finding)
        ensures
            found == old(self).finding(*transaction, now),
            examined(old(self), final(self), *transaction, now),
    {
        let kind = to_lowercase(text_member(transaction, "type").as_str());
        if same_text(kind.as_str(), "gtx_genesis") {
            self.validate_genesis_transaction(transaction)
        } else if same_text(kind.as_str(), "reward") {
            self.validate_reward_transaction(transaction)
        } else if same_text(kind.as_str(), "transfer") {
            self.validate_transfer_transaction(transaction, now)
        } else {
            Finding::UnknownType
        }
    }

    /// Examines a transaction now and says whether it is acceptable, with the
    /// finding in words.
    pub fn validate_transaction_security(&mut self, transaction: &serde_json::Value) -> (verdict: (
        bool,
        String,
    ))
        ensures
            exists|now: u64|
                {
                    &&& verdict.0 == (#[trigger] old(self).finding(*transaction, now) is Valid)
                    &&& verdict.1@ == old(self).message_text(
                        old(self).finding(*transaction, now),
                        *transaction,
                    )
                },
            final(self).blacklisted_addresses == old(self).blacklisted_addresses,
            final(self).min_transaction_amount == old(self).min_transaction_amount,
            final(self).max_transaction_amount == old(self).max_transaction_amount,
            final(self).required_fee == old(self).required_fee,
            final(self).sm2_available == old(self).sm2_available,
    {
        let now = unix_millis() / 1000;
        let found = self.examine_at(transaction, now);
        let message = self.message(found, transaction);
        let valid = match found {
            Finding::Valid(_) => true,
            _ => false,
        };
        assert(valid == (old(self).finding(*transaction, now) is Valid));
        (valid, message)
    }

    /// A finding in words.
    pub open spec fn message_text(&self, found: Finding, tx: serde_json::Value) -> Seq<char> {
        match found {
            Finding::Valid(TransactionKind::Genesis) => "Valid GTX Genesis transaction"@,
            Finding::Valid(TransactionKind::Reward) => "Valid reward transaction"@,
            Finding::Valid(TransactionKind::Transfer) => "Valid transfer transaction"@,
            Finding::UnknownType => "Unknown transaction type: "@ + lowercase_of(
                text_at(tx, "type"@),
            ),
            Finding::MissingField(kind, i) => missing_prefix(kind) + if i < required_fields(
                kind,
            ).len() {
                required_fields(kind)[i as int]
            } else {
                Seq::empty()
            },
            Finding::InvalidDenomination => "Invalid denomination: "@ + signed_decimal_text(
                signed_at(tx, "denomination"@) as int,
            ),
            Finding::InvalidMiningProof => "Invalid mining proof"@,
            Finding::UnauthorizedReward => "Unauthorized reward creation"@,
            Finding::AmountBelowMinimum => "Amount below minimum: "@
                + crate::json::decimal_text(self.min_transaction_amount as nat),
            Finding::AmountAboveMaximum => "Amount above maximum: "@
                + crate::json::decimal_text(self.max_transaction_amount as nat),
            Finding::InsufficientFee => "Insufficient fee: "@ + crate::json::decimal_text(
                number_at(tx, "fee"@) as nat,
            ) + " (required: "@ + crate::json::decimal_text(self.required_fee as nat) + ")"@,
            Finding::InvalidSignature => "Invalid SM2 signature"@,
            Finding::RateLimitExceeded => "Rate limit exceeded"@,
            Finding::Blacklisted => "Address is blacklisted"@,
        }
    }

    /// A finding in words.
    pub fn message(&self, found: Finding, transaction: &serde_json::Value) -> (text: String)
        ensures
            text@ == self.message_text(found, *transaction),
    {
        match found {
            Finding::Valid(TransactionKind::Genesis) => String::from_str(
                "Valid GTX Genesis transaction",
            ),
            Finding::Valid(TransactionKind::Reward) => String::from_str("Valid reward transaction"),
            Finding::Valid(TransactionKind::Transfer) => String::from_str(
                "Valid transfer transaction",
            ),
            Finding::UnknownType => {
                let kind = to_lowercase(text_member(transaction, "type").as_str());
                join2("Unknown transaction type: ", kind.as_str())
            },
            Finding::MissingField(kind, i) => {
                let names = required_field_names(kind);
                let prefix = match kind {
                    TransactionKind::Genesis => "Missing GTX field: ",
                    TransactionKind::Reward => "Missing reward field: ",
                    TransactionKind::Transfer => "Missing field: ",
                };
                if i < names.len() {
                    join2(prefix, names[i])
                } else {
                    let text = String::from_str(prefix);
                    assert(text@ =~= missing_prefix(kind) + Seq::<char>::empty());
                    text
                }
            },
            Finding::InvalidDenomination => {
                let denomination = match json_i64_member(transaction, "denomination") {
                    Some(d) => d,
                    None => -1,
                };
                join2("Invalid denomination: ", signed_decimal(denomination).as_str())
            },
            Finding::InvalidMiningProof => String::from_str("Invalid mining proof"),
            Finding::UnauthorizedReward => String::from_str("Unauthorized reward creation"),
            Finding::AmountBelowMinimum => join2(
                "Amount below minimum: ",
                decimal(self.min_transaction_amount).as_str(),
            ),
            Finding::AmountAboveMaximum => join2(
                "Amount above maximum: ",
                decimal(self.max_transaction_amount).as_str(),
            ),
            Finding::InsufficientFee => {
                let mut text = String::from_str("Insufficient fee: ");
                text.append(decimal(number_member(transaction, "fee")).as_str());
                text.append(" (required: ");
                text.append(decimal(self.required_fee).as_str());
                text.append(")");
                text
            },
            Finding::InvalidSignature => String::from_str("Invalid SM2 signature"),
            Finding::RateLimitExceeded => String::from_str("Rate limit exceeded"),
            Finding::Blacklisted => String::from_str("Address is blacklisted"),
        }
    }

    /// The score of a transaction at `now`, out of 100: 60 for a signature of
    /// 128 bytes or 40 for one of 64, 30 for a public key that begins with
    /// `04`, 20 for a time stamp less than ten minutes old, and 10 each for a
    /// nonce and a security hash.
    pub fn calculate_security_score_at(&self, transaction: &serde_json::Value, now: u64) -> (score:
        u32)
        ensures
            score == score_of(*transaction, now),
            score <= 100,
    {
        let mut score: u32 = 0;
        let signature = text_member(transaction, "signature");
        let length = signature.as_str().as_bytes().len();
        if length == 128 {
            score = score + 60;
        } else if length == 64 {
            score = score + 40;
        }
        let public_key = text_member(transaction, "public_key");
        if starts_with(public_key.as_str(), "04") {
            score = score + 30;
        }
        let timestamp = number_member(transaction, "timestamp");
        if timestamp > now || now - timestamp < 600 {
            score = score + 20;
        }
        if json_has_member(transaction, "nonce") {
            score = score + 10;
        }
        if json_has_member(transaction, "security_hash") {
            score = score + 10;
        }
        if score > 100 {
            100
        } else {
            score
        }
    }

    /// The score of a transaction as of now.
    pub fn calculate_security_score(&self, transaction: &serde_json::Value) -> (score: u32)
        ensures
            score <= 100,
            exists|now: u64| score == #[trigger] score_of(*transaction, now),
    {
        let now = unix_millis() / 1000;
        let score = self.calculate_security_score_at(transaction, now);
        assert(score == score_of(*transaction, now));
        score
    }
}

/// Whether `after` is what an examination of `tx` at `now` leaves of
/// `before`: the limits and the list of those shut out as they were, and the
/// record of sendings as it was, but for the sender of a transfer that was in
/// order as far as its own fields go, whose sending is held against its limit.
pub open spec fn examined(
    before: &TransactionSecurity,
    after: &TransactionSecurity,
    tx: serde_json::Value,
    now: u64,
) -> bool {
    &&& after.blacklisted_addresses == before.blacklisted_addresses
    &&& after.min_transaction_amount == before.min_transaction_amount
    &&& after.max_transaction_amount == before.max_transaction_amount
    &&& after.required_fee == before.required_fee
    &&& after.sm2_available == before.sm2_available
    &&& one_entry_each(before.rate_limits@) ==> one_entry_each(after.rate_limits@)
    &&& !before.looks_at_sender(tx) ==> after.rate_limits == before.rate_limits
    &&& before.looks_at_sender(tx) ==> sender_noted(
        before.rate_limits@,
        after.rate_limits@,
        lowercase_of(text_at(tx, "from"@)),
        now,
    )
}

/// The words before the name of a missing field.
pub open spec fn missing_prefix(kind: TransactionKind) -> Seq<char> {
    match kind {
        TransactionKind::Genesis => "Missing GTX field: "@,
        TransactionKind::Reward => "Missing reward field: "@,
        TransactionKind::Transfer => "Missing field: "@,
    }
}

/// A signed number in decimal.
pub open spec fn signed_decimal_text(n: int) -> Seq<char> {
    if n < 0 {
        "-"@ + crate::json::decimal_text((-n) as nat)
    } else {
        crate::json::decimal_text(n as nat)
    }
}

/// A signed number in decimal.
pub fn signed_decimal(n: i64) -> (text: String)
    ensures
        text@ == signed_decimal_text(n as int),
{
    if n < 0 {
        let wide: i128 = n as i128;
        let magnitude: u64 = (-wide) as u64;
        join2("-", decimal(magnitude).as_str())
    } else {
        decimal(n as u64)
    }
}

/// Whether `after` holds what `before` held, with the sending of `sender` at
/// `now` held against its limit: its older sendings are forgotten, and this
/// one is noted if fewer than ten lie within the last minute.
pub open spec fn sender_noted(
    before: Seq<(String, Vec<u64>)>,
    after: Seq<(String, Vec<u64>)>,
    sender: Seq<char>,
    now: u64,
) -> bool {
    &&& times_of(after, sender) == if recent(times_of(before, sender), now).len() < RATE_LIMIT {
        recent(times_of(before, sender), now).push(now)
    } else {
        recent(times_of(before, sender), now)
    }
    &&& forall|other: Seq<char>|
        other != sender ==> times_of(after, other) == times_of(before, other)
}

/// The score of a transaction at `now`.
pub open spec fn score_of(tx: serde_json::Value, now: u64) -> u32 {
    let signature = byte_len(text_at(tx, "signature"@));
    let raw = (if signature == 128 {
        60int
    } else if signature == 64 {
        40int
    } else {
        0int
    }) + (if has_prefix(text_at(tx, "public_key"@), "04"@) {
        30int
    } else {
        0int
    }) + (if number_at(tx, "timestamp"@) > now || now - number_at(tx, "timestamp"@) < 600 {
        20int
    } else {
        0int
    }) + (if has_member(tx, "nonce"@) {
        10int
    } else {
        0int
    }) + (if has_member(tx, "security_hash"@) {
        10int
    } else {
        0int
    });
    if raw > 100 {
        100
    } else {
        raw as u32
    }
}

/// Looking up after the entry of `key` was replaced, or added at the end
/// where there was none: `key` has the new times and every other address
/// what it had.
pub proof fn lookup_after_change(
    before: Seq<(String, Vec<u64>)>,
    after: Seq<(String, Vec<u64>)>,
    at: int,
    key: Seq<char>,
    new_times: Seq<u64>,
)
    requires
        0 <= at <= before.len(),
        forall|j: int| 0 <= j < at ==> before[j].0@ != key,
        at < before.len() ==> before[at].0@ == key && after.len() == before.len(),
        at == before.len() ==> after.len() == before.len() + 1,
        after[at].0@ == key,
        after[at].1@ == new_times,
        forall|j: int| 0 <= j < before.len() && j != at ==> after[j] == before[j],
    ensures
        times_of(after, key) == new_times,
        forall|other: Seq<char>| other != key ==> times_of(after, other) == times_of(before, other),
    decreases before.len(),
{
    if at == 0 {
        if before.len() == 0 {
            assert(after.drop_first() =~= before);
        } else {
            assert(after.drop_first() =~= before.drop_first());
        }
        assert(after.first().0@ == key);
        assert forall|other: Seq<char>| other != key implies times_of(after, other) == times_of(
            before,
            other,
        ) by {
            assert(times_of(after, other) == times_of(after.drop_first(), other));
            if before.len() > 0 {
                assert(times_of(before, other) == times_of(before.drop_first(), other));
            }
        }
    } else {
        let b1 = before.drop_first();
        let a1 = after.drop_first();
        assert(after.first() == before.first());
        assert(before[0].0@ != key);
        assert forall|j: int| 0 <= j < b1.len() && j != at - 1 implies a1[j] == b1[j] by {
            assert(after[j + 1] == before[j + 1]);
        }
        assert forall|j: int| 0 <= j < at - 1 implies b1[j].0@ != key by {
            assert(before[j + 1].0@ != key);
        }
        assert(a1[at - 1] == after[at]);
        if at < before.len() {
            assert(b1[at - 1] == before[at]);
        }
        lookup_after_change(b1, a1, at - 1, key, new_times);
        assert(times_of(after, key) == times_of(a1, key));
        assert forall|other: Seq<char>| other != key implies times_of(after, other) == times_of(
            before,
            other,
        ) by {
            if before.first().0@ != other {
                assert(times_of(after, other) == times_of(a1, other));
                assert(times_of(before, other) == times_of(b1, other));
            }
        }
    }
}

} // verus!
