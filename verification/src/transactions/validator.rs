//! The validator: the security rules, and a memory of the transactions that
//! have passed, so that none passes twice.

use vstd::prelude::*;
use vstd::string::*;
use crate::json::json_u64_member;
use crate::system::unix_millis;
use crate::text::same_text;
use crate::transactions::security::{
    examined, number_at, score_of, text_at, Finding, TransactionSecurity,
};

verus! {

/// Marker for the validator.
pub struct Validator;

/// The validator.
#[derive(Debug)]
pub struct TransactionValidator {
    pub security: TransactionSecurity,
    /// The hashes of the transactions that passed, the oldest first.
    pub recent_transactions: Vec<String>,
    pub max_recent_size: usize,
}

/// Whether `hash` is among `hashes`.
pub open spec fn remembers(hashes: Seq<String>, hash: Seq<char>) -> bool {
    exists|i: int| 0 <= i < hashes.len() && #[trigger] hashes[i]@ == hash
}

/// The texts of a list of hashes.
pub open spec fn hash_texts(hashes: Seq<String>) -> Seq<Seq<char>> {
    Seq::new(hashes.len(), |i: int| hashes[i]@)
}

/// What is remembered after `hash` has passed, where there is room for `max`
/// hashes: nothing new if the hash is remembered already; else the hash goes
/// to the end, and the oldest hashes go where there are more than `max`.
pub open spec fn with_hash(hashes: Seq<Seq<char>>, hash: Seq<char>, max: usize) -> Seq<Seq<char>> {
    if hashes.contains(hash) {
        hashes
    } else {
        let grown = hashes.push(hash);
        if grown.len() > max {
            grown.subrange(grown.len() - max, grown.len() as int)
        } else {
            grown
        }
    }
}

/// Remembering a hash leaves no hash remembered twice: where no hash stood
/// twice before, none does after.
pub proof fn with_hash_keeps_distinct(hashes: Seq<Seq<char>>, hash: Seq<char>, max: usize)
    requires
        hashes.no_duplicates(),
    ensures
        with_hash(hashes, hash, max).no_duplicates(),
        max > 0 ==> with_hash(hashes, hash, max).contains(hash),
        with_hash(hashes, hash, max).len() <= hashes.len() + 1,
        !hashes.contains(hash) ==> with_hash(hashes, hash, max).len() <= max,
{
    if hashes.contains(hash) {
    } else {
        let grown = hashes.push(hash);
        assert forall|i: int, j: int| 0 <= i < grown.len() && 0 <= j < grown.len() && i != j implies grown[i]
            != grown[j] by {
            if i < hashes.len() && j < hashes.len() {
                assert(hashes[i] != hashes[j]);
            } else if i < hashes.len() {
                assert(hashes.contains(hashes[i]));
            } else {
                assert(hashes.contains(hashes[j]));
            }
        }
        assert(grown[grown.len() - 1] == hash);
        if grown.len() > max {
            let kept = grown.subrange(grown.len() - max, grown.len() as int);
            assert forall|i: int, j: int| 0 <= i < kept.len() && 0 <= j < kept.len() && i != j implies kept[i]
                != kept[j] by {
                assert(kept[i] == grown[grown.len() - max + i]);
                assert(kept[j] == grown[grown.len() - max + j]);
            }
            if max > 0 {
                assert(kept[kept.len() - 1] == hash);
            }
        }
    }
}

/// The level of risk of a transaction, by its amount and its score.
pub open spec fn risk_level(amount: u64, score: u32) -> Seq<char> {
    if amount > 1_000_000_000_000 && score < 80 {
        "HIGH"@
    } else if amount > 10_000_000_000 && score < 60 {
        "MEDIUM"@
    } else if score < 40 {
        "LOW"@
    } else {
        "VERY_LOW"@
    }
}

/// The words with which a transaction is turned away that has passed before.
pub open spec fn duplicate_message() -> Seq<char> {
    "Duplicate transaction detected"@
}

/// Whether `after`, `valid` and `words` are what the validation of `tx` at
/// `now` makes of `before`: a transaction whose hash is remembered is turned
/// away with the words on duplicates, and nothing changes; any other is
/// examined by the security rules, which give the verdict and the words, and
/// its hash is remembered if the verdict is good.
pub open spec fn validated_at(
    before: &TransactionValidator,
    tx: serde_json::Value,
    now: u64,
    after: &TransactionValidator,
    valid: bool,
    words: Seq<char>,
) -> bool {
    &&& after.max_recent_size == before.max_recent_size
    &&& if remembers(before.recent_transactions@, text_at(tx, "hash"@)) {
        &&& !valid
        &&& words == duplicate_message()
        &&& after.security == before.security
        &&& after.recent_transactions == before.recent_transactions
    } else {
        &&& valid == (before.security.finding(tx, now) is Valid)
        &&& words == before.security.message_text(before.security.finding(tx, now), tx)
        &&& examined(&before.security, &after.security, tx, now)
        &&& hash_texts(after.recent_transactions@) == if valid {
            with_hash(
                hash_texts(before.recent_transactions@),
                text_at(tx, "hash"@),
                before.max_recent_size,
            )
        } else {
            hash_texts(before.recent_transactions@)
        }
    }
}

/// Whether the last transaction of a batch is validated at `now`, leading
/// from `middle` to `after`, and all of the batch are valid if those before
/// were and this one is.
pub open spec fn last_validated(
    middle: TransactionValidator,
    tx: serde_json::Value,
    now: u64,
    after: TransactionValidator,
    words: Seq<char>,
    valid_so_far: bool,
    valid_last: bool,
    all_valid: bool,
) -> bool {
    validated_at(&middle, tx, now, &after, valid_last, words) && all_valid == (valid_so_far
        && valid_last)
}

/// Whether `after`, `words` and `all_valid` are what the validation of `txs`,
/// one after the other, each at some time, makes of `before`: the
/// transactions before the last one lead to some validator, the last one is
/// validated there, and all are valid if each one was.
pub open spec fn batch_validated(
    before: TransactionValidator,
    txs: Seq<serde_json::Value>,
    after: TransactionValidator,
    words: Seq<Seq<char>>,
    all_valid: bool,
) -> bool
    decreases txs.len(),
{
    if txs.len() == 0 {
        after == before && words.len() == 0 && all_valid
    } else {
        exists|middle: TransactionValidator, now: u64, valid_so_far: bool, valid_last: bool|
            {
                &&& words.len() == txs.len()
                &&& batch_validated(
                    before,
                    txs.drop_last(),
                    middle,
                    words.drop_last(),
                    valid_so_far,
                )
                &&& #[trigger] last_validated(
                    middle,
                    txs.last(),
                    now,
                    after,
                    words.last(),
                    valid_so_far,
                    valid_last,
                    all_valid,
                )
            }
    }
}

impl TransactionValidator {
    /// A validator with the usual rules and room for 10,000 hashes.
    pub fn new() -> (validator: Self)
        ensures
            validator.recent_transactions@.len() == 0,
            validator.max_recent_size == 10000,
            validator.security.rate_limits@.len() == 0,
            validator.security.blacklisted_addresses@.len() == 0,
            validator.security.min_transaction_amount == 1,
            validator.security.max_transaction_amount == 100_000_000_000_000,
            validator.security.required_fee == 10,
    {
        TransactionValidator {
            security: TransactionSecurity::new(false),
            recent_transactions: Vec::new(),
            max_recent_size: 10000,
        }
    }

    /// Whether a transaction of this hash has passed and is still
    /// remembered.
    pub fn verify_transaction_inclusion(&self, transaction_hash: &str, _block_height: i64) -> (found:
        bool)
        ensures
            found == remembers(self.recent_transactions@, transaction_hash@),
    {
        let mut i: usize = 0;
        while i < self.recent_transactions.len()
            invariant
                i <= self.recent_transactions@.len(),
                forall|j: int| 0 <= j < i ==> self.recent_transactions@[j]@ != transaction_hash@,
            decreases self.recent_transactions@.len() - i,
        {
            if same_text(self.recent_transactions[i].as_str(), transaction_hash) {
                return true;
            }
            i = i + 1;
        }
        false
    }

    /// Remembers a hash, unless it is remembered already. Where that makes
    /// more hashes than there is room for, the oldest ones are forgotten.
    fn add_to_recent(&mut self, tx_hash: &str)
        ensures
            final(self).security == old(self).security,
            final(self).max_recent_size == old(self).max_recent_size,
            hash_texts(final(self).recent_transactions@) == with_hash(
                hash_texts(old(self).recent_transactions@),
                tx_hash@,
                old(self).max_recent_size,
            ),
    {
        let ghost before = hash_texts(self.recent_transactions@);
        if self.verify_transaction_inclusion(tx_hash, 0) {
            proof {
                let i = choose|i: int|
                    0 <= i < self.recent_transactions@.len()
                        && #[trigger] self.recent_transactions@[i]@ == tx_hash@;
                assert(before[i] == tx_hash@);
            }
            return ;
        }
        proof {
            if before.contains(tx_hash@) {
                let i = choose|i: int| 0 <= i < before.len() && before[i] == tx_hash@;
                assert(self.recent_transactions@[i]@ == tx_hash@);
            }
        }
        self.recent_transactions.push(String::from_str(tx_hash));
        let ghost grown = hash_texts(self.recent_transactions@);
        assert(grown =~= before.push(tx_hash@));
        let ghost mut dropped: int = 0;
        while self.recent_transactions.len() > self.max_recent_size
            invariant
                0 <= dropped <= grown.len(),
                hash_texts(self.recent_transactions@) == grown.subrange(dropped, grown.len() as int),
                dropped > 0 ==> self.recent_transactions@.len() >= self.max_recent_size,
                self.security == old(self).security,
                self.max_recent_size == old(self).max_recent_size,
            decreases self.recent_transactions@.len(),
        {
            let ghost now = hash_texts(self.recent_transactions@);
            self.recent_transactions.remove(0);
            proof {
                dropped = dropped + 1;
                assert(hash_texts(self.recent_transactions@) =~= now.subrange(1, now.len() as int));
                assert(now.subrange(1, now.len() as int) =~= grown.subrange(
                    dropped,
                    grown.len() as int,
                ));
            }
        }
        assert(grown.subrange(0, grown.len() as int) =~= grown);
    }

    /// Validates a transaction at `now`. One whose hash is remembered is
    /// turned away unexamined. Any other is examined by the security rules,
    /// and remembered if it is found acceptable.
    pub fn validate_transaction_at(&mut self, transaction: &serde_json::Value, now: u64) -> (verdict:
        (bool, String))
        ensures
            validated_at(old(self), *transaction, now, final(self), verdict.0, verdict.1@),
    {
        let tx_hash = match crate::json::json_string_member(transaction, "hash") {
            Some(hash) => hash,
            None => String::new(),
        };
        if self.verify_transaction_inclusion(tx_hash.as_str(), 0) {
            return (false, String::from_str("Duplicate transaction detected"));
        }
        let found = self.security.examine_at(transaction, now);
        let message = self.security.message(found, transaction);
        let valid = match found {
            Finding::Valid(_) => true,
            _ => false,
        };
        if !valid {
            return (false, message);
        }
        self.add_to_recent(tx_hash.as_str());
        (true, message)
    }

    /// Validates a transaction now.
    pub fn validate_transaction(&mut self, transaction: &serde_json::Value) -> (verdict: (
        bool,
        String,
    ))
        ensures
            exists|now: u64| #[trigger]
                validated_at(old(self), *transaction, now, final(self), verdict.0, verdict.1@),
    {
        let now = unix_millis() / 1000;
        let verdict = self.validate_transaction_at(transaction, now);
        assert(validated_at(old(self), *transaction, now, self, verdict.0, verdict.1@));
        verdict
    }

    /// Validates the transactions one after the other, each as
    /// `validate_transaction` does, and hands out the words on each with the
    /// word on all: whether every one was found acceptable.
    pub fn validate_transaction_batch(&mut self, transactions: &[serde_json::Value]) -> (verdict: (
        bool,
        Vec<String>,
    ))
        ensures
            verdict.1@.len() == transactions@.len(),
            batch_validated(
                *old(self),
                transactions@,
                *final(self),
                hash_texts(verdict.1@),
                verdict.0,
            ),
    {
        let mut results: Vec<String> = Vec::new();
        let mut all_valid = true;
        let mut i: usize = 0;
        assert(transactions@.subrange(0, 0) =~= Seq::<serde_json::Value>::empty());
        assert(hash_texts(results@) =~= Seq::<Seq<char>>::empty());
        while i < transactions.len()
            invariant
                i <= transactions@.len(),
                results@.len() == i,
                batch_validated(
                    *old(self),
                    transactions@.subrange(0, i as int),
                    *self,
                    hash_texts(results@),
                    all_valid,
                ),
            decreases transactions@.len() - i,
        {
            let ghost before = *self;
            let ghost words_before = hash_texts(results@);
            let ghost valid_before = all_valid;
            let (is_valid, message) = self.validate_transaction(&transactions[i]);
            let ghost words = message@;
            results.push(message);
            if !is_valid {
                all_valid = false;
            }
            proof {
                let upto = transactions@.subrange(0, i + 1);
                assert(upto.drop_last() =~= transactions@.subrange(0, i as int));
                assert(upto.last() == transactions@[i as int]);
                assert(hash_texts(results@).drop_last() =~= words_before);
                assert(hash_texts(results@).last() == words);
                let now = choose|now: u64| #[trigger]
                    validated_at(&before, transactions@[i as int], now, self, is_valid, words);
                assert(batch_validated(
                    *old(self),
                    upto.drop_last(),
                    before,
                    hash_texts(results@).drop_last(),
                    valid_before,
                ));
                let ghost after = *self;
                assert(validated_at(&before, upto.last(), now, &after, is_valid, hash_texts(results@).last()));
                assert(hash_texts(results@).len() == upto.len());
                assert(last_validated(
                    before,
                    upto.last(),
                    now,
                    after,
                    hash_texts(results@).last(),
                    valid_before,
                    is_valid,
                    all_valid,
                ));
                assert(batch_validated(*old(self), upto, after, hash_texts(results@), all_valid));
            }
            i = i + 1;
        }
        assert(transactions@.subrange(0, transactions@.len() as int) =~= transactions@);
        (all_valid, results)
    }

    /// The level of risk of a transaction at `now`.
    pub fn get_transaction_risk_level_at(&self, transaction: &serde_json::Value, now: u64) -> (level:
        String)
        ensures
            level@ == risk_level(number_at(*transaction, "amount"@), score_of(*transaction, now)),
    {
        let amount = match json_u64_member(transaction, "amount") {
            Some(a) => a,
            None => 0,
        };
        let score = self.security.calculate_security_score_at(transaction, now);
        if amount > 1_000_000_000_000 && score < 80 {
            String::from_str("HIGH")
        } else if amount > 10_000_000_000 && score < 60 {
            String::from_str("MEDIUM")
        } else if score < 40 {
            String::from_str("LOW")
        } else {
            String::from_str("VERY_LOW")
        }
    }

    /// The level of risk of a transaction as of now.
    pub fn get_transaction_risk_level(&self, transaction: &serde_json::Value) -> (level: String)
        ensures
            exists|now: u64|
                level@ == risk_level(
                    number_at(*transaction, "amount"@),
                    #[trigger] score_of(*transaction, now),
                ),
    {
        let now = unix_millis() / 1000;
        let level = self.get_transaction_risk_level_at(transaction, now);
        assert(level@ == risk_level(number_at(*transaction, "amount"@), score_of(*transaction, now)));
        level
    }
}

} // verus!
