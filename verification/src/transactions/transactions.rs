//! Making transactions: the fee for each kind, the fields of each kind, and
//! the hash that names a transaction.
//!
//! A transaction is a JSON object. Amounts and fees are whole numbers of the
//! smallest unit, a millionth of a coin; times are seconds since the Unix
//! epoch.

use vstd::prelude::*;
use vstd::string::*;
use crate::digest::{is_hash_text, sha256_hex, sha256_hex_of};
use crate::json::{
    decimal_text, has_member, json_has_member, json_into_object, json_member, json_members,
    json_number, json_object, json_string, json_string_member, json_text, json_to_text,
    json_u64_member, member_text, members_insert, members_new, members_remove, no_members,
    object_text, quoted_text, string_member, value_members, JsonObject,
};
use crate::system::unix_millis;
use crate::text::{decimal, same_text};
use crate::transactions::security::{number_at, signed_decimal, signed_decimal_text};

verus! {

/// The plain checks that every transaction has to pass.
#[derive(Debug, Default)]
pub struct TransactionSecurity;

/// The fields that every transaction must have, in the order in which they
/// are looked for.
pub open spec fn basic_fields() -> Seq<Seq<char>> {
    seq!["type"@, "from"@, "to"@, "amount"@, "timestamp"@, "hash"@]
}

/// The first of the basic fields, from the place `from` on, that `tx` lacks.
pub open spec fn first_lacking(tx: serde_json::Value, from: int) -> Option<int>
    decreases basic_fields().len() - from,
{
    if from < 0 || from >= basic_fields().len() {
        None
    } else if !has_member(tx, basic_fields()[from]) {
        Some(from)
    } else {
        first_lacking(tx, from + 1)
    }
}

/// What the plain checks say of `tx`: whether it passes, and why not.
pub open spec fn basic_verdict(tx: serde_json::Value) -> (bool, Seq<char>) {
    match first_lacking(tx, 0) {
        Some(i) => (false, "Missing required field: "@ + basic_fields()[i]),
        None => if number_at(tx, "amount"@) == 0 && string_member(tx, "type"@) != Some(
            "reward"@,
        ) {
            (false, "Amount must be positive"@)
        } else {
            (true, "Valid"@)
        },
    }
}

/// How much is at risk in `tx`: nothing to speak of in what the system
/// itself sends, and otherwise by the amount.
pub open spec fn risk_of(tx: serde_json::Value) -> (Seq<char>, Seq<char>) {
    let kind = string_member(tx, "type"@);
    if kind == Some("gtx_genesis"@) || kind == Some("reward"@) {
        ("very_low"@, "System transaction"@)
    } else if number_at(tx, "amount"@) > 1_000_000_000_000 {
        ("high"@, "Very large transaction"@)
    } else if number_at(tx, "amount"@) > 100_000_000_000 {
        ("medium"@, "Large transaction"@)
    } else {
        ("low"@, "Normal transaction"@)
    }
}

impl TransactionSecurity {
    /// Whether `transaction` has all the basic fields and an amount above
    /// zero (a reward needs no amount), with the reason in words.
    #[verifier::loop_isolation(false)]
    pub fn validate_transaction(&self, transaction: &serde_json::Value) -> (verdict: (bool, String))
        ensures
            verdict.0 == basic_verdict(*transaction).0,
            verdict.1@ == basic_verdict(*transaction).1,
    {
        let mut names: Vec<&'static str> = Vec::new();
        names.push("type");
        names.push("from");
        names.push("to");
        names.push("amount");
        names.push("timestamp");
        names.push("hash");
        let mut i: usize = 0;
        while i < names.len()
            invariant
                i <= names@.len(),
                names@.len() == 6,
                forall|j: int| 0 <= j < 6 ==> (#[trigger] names@[j])@ == basic_fields()[j],
                first_lacking(*transaction, 0) == first_lacking(*transaction, i as int),
            decreases names@.len() - i,
        {
            if !json_has_member(transaction, names[i]) {
                let mut message = String::from_str("Missing required field: ");
                message.append(names[i]);
                return (false, message);
            }
            i = i + 1;
        }
        let amount = match json_u64_member(transaction, "amount") {
            Some(a) => a,
            None => 0,
        };
        let is_reward = match json_string_member(transaction, "type") {
            Some(kind) => same_text(kind.as_str(), "reward"),
            None => false,
        };
        if amount == 0 && !is_reward {
            return (false, String::from_str("Amount must be positive"));
        }
        (true, String::from_str("Valid"))
    }

    /// How much is at risk in `transaction`, as a level and a reason.
    pub fn assess_risk(&self, transaction: &serde_json::Value) -> (risk: (String, String))
        ensures
            risk.0@ == risk_of(*transaction).0,
            risk.1@ == risk_of(*transaction).1,
    {
        let amount = match json_u64_member(transaction, "amount") {
            Some(a) => a,
            None => 0,
        };
        let of_system = match json_string_member(transaction, "type") {
            Some(kind) => same_text(kind.as_str(), "gtx_genesis") || same_text(
                kind.as_str(),
                "reward",
            ),
            None => false,
        };
        if of_system {
            return (String::from_str("very_low"), String::from_str("System transaction"));
        }
        if amount > 1_000_000_000_000 {
            (String::from_str("high"), String::from_str("Very large transaction"))
        } else if amount > 100_000_000_000 {
            (String::from_str("medium"), String::from_str("Large transaction"))
        } else {
            (String::from_str("low"), String::from_str("Normal transaction"))
        }
    }
}

/// The fee that is charged where no fee is set for a kind of transaction.
pub const DEFAULT_FEE: u64 = 1000;

/// The fees, by kind of transaction.
#[derive(Debug, Default)]
pub struct FeeCalculator {
    pub fee_config: Vec<(String, u64)>,
}

/// The fee set for `kind`: that of the first entry for it, and the default
/// fee where there is none.
pub open spec fn fee_of(config: Seq<(String, u64)>, kind: Seq<char>) -> u64
    decreases config.len(),
{
    if config.len() == 0 {
        DEFAULT_FEE
    } else if config.first().0@ == kind {
        config.first().1
    } else {
        fee_of(config.drop_first(), kind)
    }
}

impl FeeCalculator {
    /// The usual fees: a thousandth of a coin for a transfer, nothing for
    /// rewards and genesis transactions.
    pub fn new() -> (fees: Self)
        ensures
            fees.fee_config@.len() == 3,
            fees.fee_config@[0].0@ == "transfer"@ && fees.fee_config@[0].1 == 1000,
            fees.fee_config@[1].0@ == "reward"@ && fees.fee_config@[1].1 == 0,
            fees.fee_config@[2].0@ == "gtx_genesis"@ && fees.fee_config@[2].1 == 0,
    {
        let mut fee_config: Vec<(String, u64)> = Vec::new();
        fee_config.push((String::from_str("transfer"), 1000));
        fee_config.push((String::from_str("reward"), 0));
        fee_config.push((String::from_str("gtx_genesis"), 0));
        FeeCalculator { fee_config }
    }

    /// The fee for a transaction of the given kind.
    pub fn get_fee(&self, transaction_type: &str) -> (fee: u64)
        ensures
            fee == fee_of(self.fee_config@, transaction_type@),
    {
        let mut i: usize = 0;
        assert(self.fee_config@.subrange(0, self.fee_config@.len() as int) =~= self.fee_config@);
        while i < self.fee_config.len()
            invariant
                i <= self.fee_config@.len(),
                fee_of(self.fee_config@, transaction_type@) == fee_of(
                    self.fee_config@.subrange(i as int, self.fee_config@.len() as int),
                    transaction_type@,
                ),
            decreases self.fee_config@.len() - i,
        {
            let ghost rest = self.fee_config@.subrange(i as int, self.fee_config@.len() as int);
            assert(rest.first() == self.fee_config@[i as int]);
            assert(rest.drop_first() =~= self.fee_config@.subrange(
                i + 1,
                self.fee_config@.len() as int,
            ));
            if same_text(self.fee_config[i].0.as_str(), transaction_type) {
                return self.fee_config[i].1;
            }
            i = i + 1;
        }
        DEFAULT_FEE
    }
}

/// Whether `config` holds the usual fees, and nothing else: a thousandth of a
/// coin for a transfer, nothing for a reward, nothing for a genesis
/// transaction.
pub open spec fn has_usual_fees(config: Seq<(String, u64)>) -> bool {
    &&& config.len() == 3
    &&& config[0].0@ == "transfer"@ && config[0].1 == 1000
    &&& config[1].0@ == "reward"@ && config[1].1 == 0
    &&& config[2].0@ == "gtx_genesis"@ && config[2].1 == 0
}

/// The hash that names a transaction with the given members: the hash of the
/// object without its `hash`.
pub open spec fn transaction_hash_of(members: Map<Seq<char>, Seq<char>>) -> Seq<char> {
    sha256_hex(object_text(members.remove("hash"@)))
}

/// The members of a transaction, `hash` apart, that moves `amount` from one
/// address to another at `timestamp`.
pub open spec fn transaction_members(
    from_address: Seq<char>,
    to_address: Seq<char>,
    amount: u64,
    fee: u64,
    memo: Seq<char>,
    transaction_type: Seq<char>,
    timestamp: u64,
) -> Map<Seq<char>, Seq<char>> {
    no_members().insert("type"@, quoted_text(transaction_type)).insert(
        "from"@,
        quoted_text(from_address),
    ).insert("to"@, quoted_text(to_address)).insert("amount"@, decimal_text(amount as nat)).insert(
        "fee"@,
        decimal_text(fee as nat),
    ).insert("timestamp"@, decimal_text(timestamp as nat)).insert("memo"@, quoted_text(memo)).insert(
        "version"@,
        quoted_text("2.0"@),
    ).insert("signature"@, quoted_text("unsigned"@)).insert(
        "public_key"@,
        quoted_text("unsigned"@),
    )
}

/// What stands in a genesis transaction for the field `key` of the bill:
/// what the bill holds under it, or the given default.
pub open spec fn taken_or(bill_info: serde_json::Value, key: Seq<char>, default: Seq<char>) -> Seq<
    char,
> {
    match member_text(bill_info, key) {
        Some(text) => text,
        None => default,
    }
}

/// The members of the genesis transaction for a bill, `hash` apart.
pub open spec fn gtx_members(bill_info: serde_json::Value, timestamp: u64) -> Map<
    Seq<char>,
    Seq<char>,
> {
    no_members().insert("type"@, quoted_text("gtx_genesis"@)).insert(
        "from"@,
        quoted_text("mining"@),
    ).insert("to"@, taken_or(bill_info, "owner_address"@, quoted_text("unknown"@))).insert(
        "amount"@,
        taken_or(bill_info, "denomination"@, decimal_text(0)),
    ).insert("fee"@, decimal_text(0)).insert("timestamp"@, decimal_text(timestamp as nat)).insert(
        "bill_serial"@,
        taken_or(bill_info, "serial"@, quoted_text(Seq::empty())),
    ).insert("mining_difficulty"@, taken_or(bill_info, "difficulty"@, decimal_text(0))).insert(
        "signature"@,
        quoted_text("system"@),
    ).insert("public_key"@, quoted_text("system"@)).insert("version"@, quoted_text("2.0"@))
}

/// The text that is hashed to name a reward: who gets it, how much, at which
/// height, and a time in nanoseconds.
pub open spec fn reward_text(to_address: Seq<char>, amount: u64, block_height: i64, nanos: u64) -> Seq<
    char,
> {
    "reward_"@ + to_address + "_"@ + decimal_text(amount as nat) + "_"@ + signed_decimal_text(
        block_height as int,
    ) + "_"@ + decimal_text(nanos as nat)
}

/// The members of a reward, `hash` apart.
pub open spec fn reward_members(
    to_address: Seq<char>,
    amount: u64,
    block_height: i64,
    timestamp: u64,
) -> Map<Seq<char>, Seq<char>> {
    no_members().insert("type"@, quoted_text("reward"@)).insert(
        "from"@,
        quoted_text("network"@),
    ).insert("to"@, quoted_text(to_address)).insert("amount"@, decimal_text(amount as nat)).insert(
        "fee"@,
        decimal_text(0),
    ).insert("block_height"@, signed_number_text(block_height)).insert(
        "timestamp"@,
        decimal_text(timestamp as nat),
    ).insert("signature"@, quoted_text("system"@)).insert(
        "public_key"@,
        quoted_text("system"@),
    ).insert("version"@, quoted_text("2.0"@))
}

/// The text of a signed JSON number.
pub open spec fn signed_number_text(n: i64) -> Seq<char> {
    signed_decimal_text(n as int)
}

/// Makes transactions.
#[derive(Debug)]
pub struct TransactionManager {
    pub security: TransactionSecurity,
    pub fee_calculator: FeeCalculator,
}

/// Trusted: `Value::from(i64)`, a JSON number that is written in decimal,
/// with a minus sign where it is negative.
#[verifier::external_body]
fn json_signed(n: i64) -> (v: serde_json::Value)
    ensures
        json_text(v) == signed_number_text(n),
{
    serde_json::Value::from(n)
}

fn member_or(bill_info: &serde_json::Value, key: &str, default: serde_json::Value) -> (taken:
    serde_json::Value)
    ensures
        json_text(taken) == taken_or(*bill_info, key@, json_text(default)),
{
    match json_member(bill_info, key) {
        Some(member) => member,
        None => default,
    }
}

/// Milliseconds as nanoseconds, held at the top of the range.
fn nanoseconds(millis: u64) -> (nanos: u64)
    ensures
        nanos == if millis * 1_000_000 > u64::MAX {
            u64::MAX
        } else {
            (millis * 1_000_000) as u64
        },
{
    match millis.checked_mul(1_000_000) {
        Some(n) => n,
        None => u64::MAX,
    }
}

impl TransactionManager {
    /// A manager with the usual fees.
    pub fn new() -> (manager: Self)
        ensures
            has_usual_fees(manager.fee_calculator.fee_config@),
    {
        TransactionManager { security: TransactionSecurity, fee_calculator: FeeCalculator::new() }
    }

    /// The hash that names `tx`: the hash of the object without its `hash`.
    /// What is no object has no members to hash, and gets the hash of the
    /// empty object.
    pub fn calculate_transaction_hash(tx: &serde_json::Value) -> (hash: String)
        ensures
            hash@ == match value_members(*tx) {
                Some(members) => transaction_hash_of(members),
                None => transaction_hash_of(no_members()),
            },
            is_hash_text(hash@),
    {
        let mut members = match json_into_object(tx.clone()) {
            Ok(members) => members,
            Err(_) => members_new(),
        };
        members_remove(&mut members, "hash");
        let text = json_to_text(&json_object(members));
        sha256_hex_of(text.as_str())
    }

    fn finish(members: JsonObject) -> (tx: serde_json::Value)
        ensures
            value_members(tx) == Some(
                json_members(members).insert(
                    "hash"@,
                    quoted_text(transaction_hash_of(json_members(members))),
                ),
            ),
            json_text(tx) == object_text(
                json_members(members).insert(
                    "hash"@,
                    quoted_text(transaction_hash_of(json_members(members))),
                ),
            ),
    {
        let unnamed = json_object(members.clone());
        let hash = Self::calculate_transaction_hash(&unnamed);
        let mut members = members;
        members_insert(&mut members, "hash", json_string(hash.as_str()));
        json_object(members)
    }

    /// A transaction that moves `amount` from one address to another, made at
    /// `timestamp`, unsigned, with the fee for its kind and the hash that
    /// names it.
    pub fn create_transaction_at(
        &self,
        from_address: &str,
        to_address: &str,
        amount: u64,
        memo: &str,
        transaction_type: &str,
        timestamp: u64,
    ) -> (tx: serde_json::Value)
        ensures
            value_members(tx) == Some(
                self.transaction_with_hash(
                    from_address@,
                    to_address@,
                    amount,
                    memo@,
                    transaction_type@,
                    timestamp,
                ),
            ),
            json_text(tx) == object_text(
                self.transaction_with_hash(
                    from_address@,
                    to_address@,
                    amount,
                    memo@,
                    transaction_type@,
                    timestamp,
                ),
            ),
    {
        let fee = self.fee_calculator.get_fee(transaction_type);
        let mut members = members_new();
        members_insert(&mut members, "type", json_string(transaction_type));
        members_insert(&mut members, "from", json_string(from_address));
        members_insert(&mut members, "to", json_string(to_address));
        members_insert(&mut members, "amount", json_number(amount));
        members_insert(&mut members, "fee", json_number(fee));
        members_insert(&mut members, "timestamp", json_number(timestamp));
        members_insert(&mut members, "memo", json_string(memo));
        members_insert(&mut members, "version", json_string("2.0"));
        members_insert(&mut members, "signature", json_string("unsigned"));
        members_insert(&mut members, "public_key", json_string("unsigned"));
        Self::finish(members)
    }

    /// The members of the transaction that `create_transaction_at` makes.
    pub open spec fn transaction_with_hash(
        &self,
        from_address: Seq<char>,
        to_address: Seq<char>,
        amount: u64,
        memo: Seq<char>,
        transaction_type: Seq<char>,
        timestamp: u64,
    ) -> Map<Seq<char>, Seq<char>> {
        let members = transaction_members(
            from_address,
            to_address,
            amount,
            fee_of(self.fee_calculator.fee_config@, transaction_type),
            memo,
            transaction_type,
            timestamp,
        );
        members.insert("hash"@, quoted_text(transaction_hash_of(members)))
    }

    /// A transaction that moves `amount` from one address to another, made
    /// now.
    pub fn create_transaction(
        &self,
        from_address: &str,
        to_address: &str,
        amount: u64,
        memo: &str,
        transaction_type: &str,
    ) -> (tx: serde_json::Value)
        ensures
            exists|timestamp: u64|
                value_members(tx) == Some(
                    #[trigger] self.transaction_with_hash(
                        from_address@,
                        to_address@,
                        amount,
                        memo@,
                        transaction_type@,
                        timestamp,
                    ),
                ),
    {
        let timestamp = unix_millis() / 1000;
        self.create_transaction_at(from_address, to_address, amount, memo, transaction_type, timestamp)
    }

    /// The genesis transaction for a bill, made at `timestamp`: owner,
    /// denomination, serial and difficulty are taken over from the bill as
    /// they stand there, each with a default where the bill has none.
    pub fn create_gtx_transaction_at(&self, bill_info: &serde_json::Value, timestamp: u64) -> (tx:
        serde_json::Value)
        ensures
            value_members(tx) == Some(
                gtx_members(*bill_info, timestamp).insert(
                    "hash"@,
                    quoted_text(transaction_hash_of(gtx_members(*bill_info, timestamp))),
                ),
            ),
    {
        let mut members = members_new();
        members_insert(&mut members, "type", json_string("gtx_genesis"));
        members_insert(&mut members, "from", json_string("mining"));
        members_insert(&mut members, "to", member_or(bill_info, "owner_address", json_string("unknown")));
        members_insert(&mut members, "amount", member_or(bill_info, "denomination", json_number(0)));
        members_insert(&mut members, "fee", json_number(0));
        members_insert(&mut members, "timestamp", json_number(timestamp));
        members_insert(&mut members, "bill_serial", member_or(bill_info, "serial", json_string("")));
        members_insert(
            &mut members,
            "mining_difficulty",
            member_or(bill_info, "difficulty", json_number(0)),
        );
        members_insert(&mut members, "signature", json_string("system"));
        members_insert(&mut members, "public_key", json_string("system"));
        members_insert(&mut members, "version", json_string("2.0"));
        proof {
            reveal_strlit("");
            assert(""@ =~= Seq::<char>::empty());
        }
        Self::finish(members)
    }

    /// The genesis transaction for a bill, made now.
    pub fn create_gtx_transaction(&self, bill_info: &serde_json::Value) -> (tx: serde_json::Value)
        ensures
            exists|timestamp: u64|
                value_members(tx) == Some(
                    (#[trigger] gtx_members(*bill_info, timestamp)).insert(
                        "hash"@,
                        quoted_text(transaction_hash_of(gtx_members(*bill_info, timestamp))),
                    ),
                ),
    {
        let timestamp = unix_millis() / 1000;
        self.create_gtx_transaction_at(bill_info, timestamp)
    }

    /// A reward of `amount` for `to_address` at `block_height`, made at
    /// `timestamp` and named by the hash that `nanos` gives.
    pub fn create_reward_transaction_at(
        &self,
        to_address: &str,
        amount: u64,
        block_height: i64,
        timestamp: u64,
        nanos: u64,
    ) -> (tx: serde_json::Value)
        ensures
            value_members(tx) == Some(
                reward_members(to_address@, amount, block_height, timestamp).insert(
                    "hash"@,
                    quoted_text(sha256_hex(reward_text(to_address@, amount, block_height, nanos))),
                ),
            ),
    {
        let mut members = members_new();
        members_insert(&mut members, "type", json_string("reward"));
        members_insert(&mut members, "from", json_string("network"));
        members_insert(&mut members, "to", json_string(to_address));
        members_insert(&mut members, "amount", json_number(amount));
        members_insert(&mut members, "fee", json_number(0));
        members_insert(&mut members, "block_height", json_signed(block_height));
        members_insert(&mut members, "timestamp", json_number(timestamp));
        members_insert(&mut members, "signature", json_string("system"));
        members_insert(&mut members, "public_key", json_string("system"));
        members_insert(&mut members, "version", json_string("2.0"));
        let hash = Self::reward_hash_at(to_address, amount, block_height, nanos);
        members_insert(&mut members, "hash", json_string(hash.as_str()));
        json_object(members)
    }

    /// A reward of `amount` for `to_address` at `block_height`, made now.
    pub fn create_reward_transaction(&self, to_address: &str, amount: u64, block_height: i64) -> (tx:
        serde_json::Value)
        ensures
            exists|timestamp: u64, nanos: u64|
                value_members(tx) == Some(
                    (#[trigger] reward_members(to_address@, amount, block_height, timestamp)).insert(
                        "hash"@,
                        quoted_text(
                            sha256_hex(
                                #[trigger] reward_text(to_address@, amount, block_height, nanos),
                            ),
                        ),
                    ),
                ),
    {
        let millis = unix_millis();
        let timestamp = millis / 1000;
        let nanos = nanoseconds(millis);
        let tx = self.create_reward_transaction_at(to_address, amount, block_height, timestamp, nanos);
        assert(value_members(tx) == Some(
            reward_members(to_address@, amount, block_height, timestamp).insert(
                "hash"@,
                quoted_text(sha256_hex(reward_text(to_address@, amount, block_height, nanos))),
            ),
        ));
        tx
    }

    /// The hash that names a reward made at the time `nanos`.
    pub fn reward_hash_at(to_address: &str, amount: u64, block_height: i64, nanos: u64) -> (hash:
        String)
        ensures
            hash@ == sha256_hex(reward_text(to_address@, amount, block_height, nanos)),
            is_hash_text(hash@),
    {
        let mut data = String::from_str("reward_");
        data.append(to_address);
        data.append("_");
        data.append(decimal(amount).as_str());
        data.append("_");
        data.append(signed_decimal(block_height).as_str());
        data.append("_");
        data.append(decimal(nanos).as_str());
        sha256_hex_of(data.as_str())
    }

    /// The hash that names a reward made now.
    pub fn generate_reward_hash(to_address: &str, amount: u64, block_height: i64) -> (hash: String)
        ensures
            exists|nanos: u64|
                hash@ == sha256_hex(#[trigger] reward_text(to_address@, amount, block_height, nanos)),
            is_hash_text(hash@),
    {
        let nanos = nanoseconds(unix_millis());
        let hash = Self::reward_hash_at(to_address, amount, block_height, nanos);
        assert(hash@ == sha256_hex(reward_text(to_address@, amount, block_height, nanos)));
        hash
    }
}

} // verus!
