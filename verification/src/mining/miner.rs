//! The miner: a search over nonces that can be told to stop, and the count of
//! what it has found.

use vstd::prelude::*;
use vstd::string::*;
use crate::digest::{is_hash_text, sha256_hex_of};
use crate::gtx::digital_bill::{is_generated_serial, DigitalBill};
use crate::json::{
    decimal_text, json_members, json_number, json_object, json_string, json_text, json_to_text,
    members_insert, null_text, quoted_text, JsonObject,
};
use crate::mining::control::MiningFlag;
use crate::mining::cuda_manager::{
    block_hash, meets, none_below, CUDAManager, MiningMethod, MiningResult,
};
use crate::mining::difficulty::{target_prefix, zero_difficulty_accepts_all};
use crate::system::unix_millis;
use crate::text::{same_text, starts_with, zeros};

verus! {

/// `a + b`, held at the top of the range of `u64`.
pub open spec fn capped_sum(a: u64, b: u64) -> u64 {
    if a + b > u64::MAX {
        u64::MAX
    } else {
        (a + b) as u64
    }
}

/// What a miner has found so far. The counters only grow, and only when a
/// search succeeds; each stays at the top of its range once it gets there.
#[derive(Debug, Clone, Copy, PartialEq, Eq, Structural)]
pub struct MiningStats {
    pub bills_mined: u64,
    pub blocks_mined: u64,
    /// Whole seconds spent in searches that succeeded.
    pub total_mining_time: u64,
    /// The sum of the nonces of the proofs found.
    pub total_hash_attempts: u64,
}

impl MiningStats {
    /// The counters after a bill was mined in `mining_time` milliseconds at
    /// `nonce`.
    pub open spec fn with_bill(self, mining_time: u64, nonce: u64) -> MiningStats {
        MiningStats {
            bills_mined: capped_sum(self.bills_mined, 1),
            blocks_mined: self.blocks_mined,
            total_mining_time: capped_sum(self.total_mining_time, (mining_time / 1000) as u64),
            total_hash_attempts: capped_sum(self.total_hash_attempts, nonce),
        }
    }

    /// The counters after a block was mined in `mining_time` milliseconds at
    /// `nonce`.
    pub open spec fn with_block(self, mining_time: u64, nonce: u64) -> MiningStats {
        MiningStats {
            bills_mined: self.bills_mined,
            blocks_mined: capped_sum(self.blocks_mined, 1),
            total_mining_time: capped_sum(self.total_mining_time, (mining_time / 1000) as u64),
            total_hash_attempts: capped_sum(self.total_hash_attempts, nonce),
        }
    }

    /// The counter of the given name, if there is one of that name.
    pub open spec fn named(self, name: Seq<char>) -> Option<u64> {
        if name == "bills_mined"@ {
            Some(self.bills_mined)
        } else if name == "blocks_mined"@ {
            Some(self.blocks_mined)
        } else if name == "total_mining_time"@ {
            Some(self.total_mining_time)
        } else if name == "total_hash_attempts"@ {
            Some(self.total_hash_attempts)
        } else {
            None
        }
    }

    /// The counters of a miner that has found nothing yet.
    pub open spec fn zero() -> MiningStats {
        MiningStats { bills_mined: 0, blocks_mined: 0, total_mining_time: 0, total_hash_attempts: 0 }
    }

    /// All counters at zero.
    pub fn new() -> (stats: Self)
        ensures
            stats == MiningStats::zero(),
    {
        MiningStats { bills_mined: 0, blocks_mined: 0, total_mining_time: 0, total_hash_attempts: 0 }
    }

    /// Looks a counter up by its name: `bills_mined`, `blocks_mined`,
    /// `total_mining_time` or `total_hash_attempts`.
    pub fn get(&self, name: &str) -> (value: Option<u64>)
        ensures
            value == self.named(name@),
    {
        if same_text(name, "bills_mined") {
            Some(self.bills_mined)
        } else if same_text(name, "blocks_mined") {
            Some(self.blocks_mined)
        } else if same_text(name, "total_mining_time") {
            Some(self.total_mining_time)
        } else if same_text(name, "total_hash_attempts") {
            Some(self.total_hash_attempts)
        } else {
            None
        }
    }
}

/// Whether `proof` is the proof of work of `bill`: the first nonce, counted
/// from 0, whose hash meets the bill's difficulty, with that hash and the text
/// it was taken of.
pub open spec fn is_proof_of(bill: &DigitalBill, proof: &MiningResult) -> bool {
    &&& proof.success
    &&& proof.method == MiningMethod::Cpu
    &&& proof.payload@ == bill.mining_payload(proof.nonce)
    &&& proof.hash@ == bill.mining_hash(proof.nonce)
    &&& is_hash_text(proof.hash@)
    &&& meets(proof.hash@, bill.difficulty as nat)
    &&& forall|k: u64| k < proof.nonce ==> !meets(#[trigger] bill.mining_hash(k), bill.difficulty as nat)
}

/// The members of a block once it is mined at `nonce` with `hash`, in
/// `mining_time` milliseconds.
pub open spec fn mined_block(
    base: Map<Seq<char>, Seq<char>>,
    nonce: u64,
    hash: Seq<char>,
    mining_time: u64,
) -> Map<Seq<char>, Seq<char>> {
    base.insert("nonce"@, decimal_text(nonce as nat)).insert("hash"@, quoted_text(hash)).insert(
        "mining_time"@,
        decimal_text(mining_time as nat),
    )
}

/// A miner. One search runs at a time; whoever holds a handle on the flag may
/// stop it, and it then ends at its next look at the flag.
#[derive(Debug)]
pub struct GenesisMiner {
    pub mining_active: MiningFlag,
    pub mining_stats: MiningStats,
    pub cuda_manager: Option<CUDAManager>,
}

/// What follows a failed try at `nonce`, given what the flag was found to
/// be: the next nonce while the flag stands raised and a nonce is left, and
/// no further try once the flag is lowered or the nonces have run out.
pub open spec fn next_try(nonce: u64, active: bool) -> Option<u64> {
    if active && nonce < u64::MAX {
        Some((nonce + 1) as u64)
    } else {
        None
    }
}

/// A lowered flag ends a search at the first look that finds it so, whatever
/// the nonce: nothing is tried after it. A raised flag never ends a search
/// while a nonce is left, and then the very next nonce is tried.
pub proof fn lowered_flag_ends_search(nonce: u64)
    ensures
        next_try(nonce, false) is None,
        nonce < u64::MAX ==> next_try(nonce, true) == Some((nonce + 1) as u64),
        next_try(u64::MAX, true) is None,
{
}

/// Decides what follows a failed try at `nonce`, given what the flag was
/// found to be at that moment. A lowered flag ends the search there and
/// then, without a result; a raised one sends it on to the next nonce.
pub fn after_failed_try(nonce: u64, active: bool) -> (next: Option<u64>)
    ensures
        next == next_try(nonce, active),
{
    if active && nonce < u64::MAX {
        Some(nonce + 1)
    } else {
        None
    }
}

/// Whether a search on `bill` ended without a result after the try at
/// `last`: every nonce up to `last` had failed, and what was found of the
/// flag then (`active`) allowed no further try.
pub open spec fn bill_search_ended(bill: &DigitalBill, last: u64, active: bool) -> bool {
    &&& forall|k: u64| k <= last ==> !meets(#[trigger] bill.mining_hash(k), bill.difficulty as nat)
    &&& next_try(last, active) is None
}

/// Whether a search on a block with the members `base` ended without a
/// result after the try at `last`, leaving the block with the members `left`:
/// every nonce up to `last` had failed, what was found of the flag then
/// (`active`) allowed no further try, and the block holds the nonce `last`.
pub open spec fn block_search_ended(
    base: Map<Seq<char>, Seq<char>>,
    left: Map<Seq<char>, Seq<char>>,
    difficulty: nat,
    last: u64,
    active: bool,
) -> bool {
    &&& none_below(base, difficulty, last + 1)
    &&& next_try(last, active) is None
    &&& left == base.insert("nonce"@, decimal_text(last as nat))
}

/// Tries the nonces 0, 1, 2, ... on `bill` until a hash meets the bill's
/// difficulty, the flag is found lowered, or the nonces run out. The flag is
/// looked at after each failed try, so the first nonce is always tried; what
/// follows a failed try is decided by `after_failed_try`.
fn search_bill(flag: &MiningFlag, bill: &DigitalBill) -> (found: Option<(u64, String, String)>)
    ensures
        match found {
            Some((nonce, hash, payload)) => {
                &&& payload@ == bill.mining_payload(nonce)
                &&& hash@ == bill.mining_hash(nonce)
                &&& is_hash_text(hash@)
                &&& meets(hash@, bill.difficulty as nat)
                &&& forall|k: u64|
                    k < nonce ==> !meets(#[trigger] bill.mining_hash(k), bill.difficulty as nat)
            },
            None => exists|last: u64, active: bool| #[trigger] bill_search_ended(bill, last, active),
        },
{
    let target = zeros(bill.difficulty as usize);
    let mut nonce: u64 = 0;
    loop
        invariant
            target@ == target_prefix(bill.difficulty as nat),
            forall|k: u64| k < nonce ==> !meets(#[trigger] bill.mining_hash(k), bill.difficulty as nat),
        decreases u64::MAX - nonce,
    {
        let payload = json_to_text(&bill.get_mining_data(nonce));
        let hash = sha256_hex_of(payload.as_str());
        if starts_with(hash.as_str(), target.as_str()) {
            return Some((nonce, hash, payload));
        }
        let active = flag.is_set();
        match after_failed_try(nonce, active) {
            Some(next) => {
                nonce = next;
            },
            None => {
                assert(bill_search_ended(bill, nonce, active));
                return None;
            },
        }
    }
}

/// Tries the nonces 0, 1, 2, ... on the block, storing each in it, until a
/// hash meets `difficulty`, the flag is found lowered, or the nonces run out.
/// The block is left with the last nonce that was tried. What follows a
/// failed try is decided by `after_failed_try`.
fn search_block(flag: &MiningFlag, block_data: &mut JsonObject, difficulty: u32) -> (found: Option<
    (u64, String),
>)
    ensures
        match found {
            Some((nonce, hash)) => {
                &&& json_members(*final(block_data)) == json_members(*old(block_data)).insert(
                    "nonce"@,
                    decimal_text(nonce as nat),
                )
                &&& hash@ == block_hash(json_members(*old(block_data)), nonce)
                &&& meets(hash@, difficulty as nat)
                &&& none_below(json_members(*old(block_data)), difficulty as nat, nonce as int)
            },
            None => exists|last: u64, active: bool| #[trigger]
                block_search_ended(
                    json_members(*old(block_data)),
                    json_members(*final(block_data)),
                    difficulty as nat,
                    last,
                    active,
                ),
        },
{
    let ghost base = json_members(*block_data);
    let target = zeros(difficulty as usize);
    let mut nonce: u64 = 0;
    loop
        invariant
            target@ == target_prefix(difficulty as nat),
            none_below(base, difficulty as nat, nonce as int),
            nonce == 0 ==> json_members(*block_data) == base,
            nonce > 0 ==> json_members(*block_data) == base.insert(
                "nonce"@,
                decimal_text((nonce - 1) as nat),
            ),
            base == json_members(*old(block_data)),
        decreases u64::MAX - nonce,
    {
        members_insert(block_data, "nonce", json_number(nonce));
        assert(json_members(*block_data) =~= base.insert("nonce"@, decimal_text(nonce as nat)));
        let payload = json_to_text(&json_object(block_data.clone()));
        let hash = sha256_hex_of(payload.as_str());
        assert(hash@ == block_hash(base, nonce));
        if starts_with(hash.as_str(), target.as_str()) {
            return Some((nonce, hash));
        }
        assert(none_below(base, difficulty as nat, nonce + 1)) by {
            assert forall|k: u64| k < nonce + 1 implies !meets(
                #[trigger] block_hash(base, k),
                difficulty as nat,
            ) by {
                if k < nonce {
                    assert(none_below(base, difficulty as nat, nonce as int));
                }
            }
        }
        let active = flag.is_set();
        match after_failed_try(nonce, active) {
            Some(next) => {
                nonce = next;
            },
            None => {
                assert(block_search_ended(
                    base,
                    json_members(*block_data),
                    difficulty as nat,
                    nonce,
                    active,
                ));
                return None;
            },
        }
    }
}

impl GenesisMiner {
    /// A miner at rest, with all counters at zero.
    pub fn new(cuda_manager: Option<CUDAManager>) -> (miner: Self)
        ensures
            miner.mining_stats == MiningStats::zero(),
            miner.cuda_manager == cuda_manager,
    {
        GenesisMiner { mining_active: MiningFlag::new(), mining_stats: MiningStats::new(), cuda_manager }
    }

    /// Makes a bill of `denomination` for `user_address` and mines it at
    /// `difficulty`: see `mine_prepared_bill`. With no leading zero asked for,
    /// the very first nonce succeeds.
    pub fn mine_bill(
        &mut self,
        denomination: u64,
        user_address: &str,
        bill_data: Option<serde_json::Value>,
        difficulty: u32,
    ) -> (found: Option<MiningResult>)
        ensures
            final(self).cuda_manager == old(self).cuda_manager,
            difficulty == 0 ==> found is Some && found->0.nonce == 0,
            match found {
                Some(proof) => {
                    &&& final(self).mining_stats == old(self).mining_stats.with_bill(
                        proof.mining_time,
                        proof.nonce,
                    )
                    &&& exists|bill: DigitalBill|
                        {
                            &&& #[trigger] is_proof_of(&bill, &proof)
                            &&& bill.denomination == denomination
                            &&& bill.difficulty == difficulty
                            &&& bill.user_address@ == user_address@
                            &&& is_generated_serial(bill.bill_serial@, denomination)
                            &&& json_text(bill.bill_data) == match bill_data {
                                Some(d) => json_text(d),
                                None => null_text(),
                            }
                        }
                },
                None => {
                    &&& final(self).mining_stats == old(self).mining_stats
                    &&& exists|bill: DigitalBill, last: u64, active: bool|
                        {
                            &&& #[trigger] bill_search_ended(&bill, last, active)
                            &&& bill.denomination == denomination
                            &&& bill.difficulty == difficulty
                            &&& bill.user_address@ == user_address@
                        }
                },
            },
    {
        let bill = DigitalBill::new(
            denomination,
            String::from_str(user_address),
            difficulty,
            bill_data,
            None,
            None,
            None,
            None,
            None,
            None,
        );
        let found = self.mine_prepared_bill(&bill);
        proof {
            if difficulty == 0 {
                zero_difficulty_accepts_all(bill.mining_hash(0));
            }
            if found is Some {
                assert(is_proof_of(&bill, &found->0));
            } else {
                let (last, active) = choose|last: u64, active: bool| #[trigger]
                    bill_search_ended(&bill, last, active);
                assert(bill_search_ended(&bill, last, active));
            }
        }
        found
    }

    /// Mines `bill`: raises the flag and tries the nonces 0, 1, 2, ... until a
    /// hash meets the bill's difficulty. The search ends without a proof when
    /// the flag is found lowered after a failed try, or when the nonces run
    /// out. A proof is counted in the statistics; a search without one leaves
    /// them as they were. The flag is lowered when the search ends.
    pub fn mine_prepared_bill(&mut self, bill: &DigitalBill) -> (found: Option<MiningResult>)
        ensures
            final(self).cuda_manager == old(self).cuda_manager,
            meets(bill.mining_hash(0), bill.difficulty as nat) ==> found is Some,
            match found {
                Some(proof) => {
                    &&& is_proof_of(bill, &proof)
                    &&& final(self).mining_stats == old(self).mining_stats.with_bill(
                        proof.mining_time,
                        proof.nonce,
                    )
                },
                None => {
                    &&& final(self).mining_stats == old(self).mining_stats
                    &&& exists|last: u64, active: bool| #[trigger]
                        bill_search_ended(bill, last, active)
                },
            },
    {
        let started = unix_millis();
        self.mining_active.set(true);
        let found = search_bill(&self.mining_active, bill);
        self.mining_active.set(false);
        match found {
            Some((nonce, hash, payload)) => {
                let mining_time = unix_millis().saturating_sub(started);
                self.mining_stats.bills_mined = self.mining_stats.bills_mined.saturating_add(1);
                self.mining_stats.total_mining_time = self.mining_stats.total_mining_time.saturating_add(
                    mining_time / 1000,
                );
                self.mining_stats.total_hash_attempts =
                    self.mining_stats.total_hash_attempts.saturating_add(nonce);
                Some(
                    MiningResult {
                        success: true,
                        hash,
                        nonce,
                        mining_time,
                        payload,
                        method: MiningMethod::Cpu,
                    },
                )
            },
            None => None,
        }
    }

    /// Mines a block: raises the flag and stores the nonces 0, 1, 2, ... in
    /// the block until its hash meets `difficulty`. A mined block gets its
    /// hash and the mining time stored beside the nonce, is counted in the
    /// statistics, and is handed out as a copy. A search that ends without a
    /// proof leaves the statistics as they were and the block with the last
    /// nonce tried.
    pub fn mine_block(&mut self, block_data: &mut JsonObject, difficulty: u32) -> (found: Option<
        JsonObject,
    >)
        ensures
            final(self).cuda_manager == old(self).cuda_manager,
            meets(block_hash(json_members(*old(block_data)), 0), difficulty as nat)
                ==> found is Some,
            match found {
                Some(block) => {
                    &&& json_members(block) == json_members(*final(block_data))
                    &&& exists|nonce: u64, mining_time: u64|
                        {
                            &&& json_members(block) == #[trigger] mined_block(
                                json_members(*old(block_data)),
                                nonce,
                                block_hash(json_members(*old(block_data)), nonce),
                                mining_time,
                            )
                            &&& meets(
                                block_hash(json_members(*old(block_data)), nonce),
                                difficulty as nat,
                            )
                            &&& none_below(
                                json_members(*old(block_data)),
                                difficulty as nat,
                                nonce as int,
                            )
                            &&& final(self).mining_stats == old(self).mining_stats.with_block(
                                mining_time,
                                nonce,
                            )
                        }
                },
                None => {
                    &&& final(self).mining_stats == old(self).mining_stats
                    &&& exists|last: u64, active: bool| #[trigger]
                        block_search_ended(
                            json_members(*old(block_data)),
                            json_members(*final(block_data)),
                            difficulty as nat,
                            last,
                            active,
                        )
                },
            },
    {
        let started = unix_millis();
        self.mining_active.set(true);
        let found = search_block(&self.mining_active, block_data, difficulty);
        self.mining_active.set(false);
        match found {
            Some((nonce, hash)) => {
                let mining_time = unix_millis().saturating_sub(started);
                self.mining_stats.blocks_mined = self.mining_stats.blocks_mined.saturating_add(1);
                self.mining_stats.total_mining_time = self.mining_stats.total_mining_time.saturating_add(
                    mining_time / 1000,
                );
                self.mining_stats.total_hash_attempts =
                    self.mining_stats.total_hash_attempts.saturating_add(nonce);
                members_insert(block_data, "hash", json_string(hash.as_str()));
                members_insert(block_data, "mining_time", json_number(mining_time));
                let block = block_data.clone();
                assert(json_members(block) == mined_block(
                    json_members(*old(block_data)),
                    nonce,
                    block_hash(json_members(*old(block_data)), nonce),
                    mining_time,
                ));
                Some(block)
            },
            None => None,
        }
    }

    /// Tells a running search to stop. It does so at its next look at the
    /// flag, and ends without a proof; a search that finds its proof first
    /// still succeeds.
    pub fn stop_mining(&self) {
        self.mining_active.set(false);
    }

    /// A handle on this miner's flag, by which another thread can stop a
    /// search while the miner is busy with it.
    pub fn stop_handle(&self) -> (handle: MiningFlag)
        ensures
            handle.shares_with(&self.mining_active),
    {
        self.mining_active.handle()
    }

    /// The counters as they stand.
    pub fn get_mining_stats(&self) -> (stats: MiningStats)
        ensures
            stats == self.mining_stats,
    {
        self.mining_stats
    }
}

} // verus!
