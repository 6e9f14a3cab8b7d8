//! Batch hashing: many nonces evaluated at once, each on its own, and the
//! search that runs over such batches.

use vstd::prelude::*;
use vstd::string::*;
use crate::digest::{is_hash_text, sha256_hex, sha256_hex_of};
use crate::json::{
    bool_text, decimal_text, json_bool, json_members, json_number, json_object, json_string,
    json_to_text, members_insert, members_new, members_remove, no_members, object_text,
    quoted_text, JsonObject,
};
use crate::mining::difficulty::target_prefix;
use crate::system::unix_millis;
use crate::text::{has_prefix, starts_with, zeros};

verus! {

/// How long a batch search may run before it gives up, in milliseconds.
pub const BATCH_SEARCH_LIMIT_MS: u64 = 300000;

/// Which path found a proof.
#[derive(Debug, Clone, Copy, PartialEq, Eq, Structural)]
pub enum MiningMethod {
    Cpu,
    Cuda,
}

/// A proof of work: the nonce, the hash it gives, the exact text that was
/// hashed, and how many milliseconds the search took.
#[derive(Debug, Clone)]
pub struct MiningResult {
    pub success: bool,
    pub hash: String,
    pub nonce: u64,
    pub mining_time: u64,
    pub payload: String,
    pub method: MiningMethod,
}

/// Whether `hash` shows `difficulty` leading zeros.
pub open spec fn meets(hash: Seq<char>, difficulty: nat) -> bool {
    has_prefix(hash, target_prefix(difficulty))
}

/// The text hashed for a block with the given members under `nonce`: the
/// object with the nonce stored under `nonce`, in place of any that was there.
pub open spec fn block_payload(base: Map<Seq<char>, Seq<char>>, nonce: u64) -> Seq<char> {
    object_text(base.insert("nonce"@, decimal_text(nonce as nat)))
}

/// The hash of a block with the given members under `nonce`.
pub open spec fn block_hash(base: Map<Seq<char>, Seq<char>>, nonce: u64) -> Seq<char> {
    sha256_hex(block_payload(base, nonce))
}

/// No nonce below `bound` gives the block a hash that meets `difficulty`.
pub open spec fn none_below(base: Map<Seq<char>, Seq<char>>, difficulty: nat, bound: int) -> bool {
    forall|k: u64| k < bound ==> !meets(#[trigger] block_hash(base, k), difficulty)
}

/// Whether a batch search that started at `started` has, at `now`, run
/// longer than it may: more than 300 seconds. Both are in milliseconds. A
/// clock that went backwards counts as no time gone.
pub open spec fn is_over_limit(started: u64, now: u64) -> bool {
    now > started && now - started > BATCH_SEARCH_LIMIT_MS
}

/// Whether a batch search over the members `base` ended without a result
/// when it had tried the nonces below `reached`: none of them was valid, at
/// least one batch had been tried, and either the next batch would go beyond
/// the last nonce or, at `now`, the search had run longer than it may since
/// `started`.
pub open spec fn batch_search_ended(
    base: Map<Seq<char>, Seq<char>>,
    difficulty: nat,
    batch_size: usize,
    reached: u64,
    started: u64,
    now: u64,
) -> bool {
    &&& none_below(base, difficulty, reached as int)
    &&& reached >= batch_size
    &&& reached + batch_size > u64::MAX || is_over_limit(started, now)
}

/// Whether a batch search that started at `started` is to give up at `now`.
pub fn over_limit(started: u64, now: u64) -> (over: bool)
    ensures
        over == is_over_limit(started, now),
{
    now > started && now - started > BATCH_SEARCH_LIMIT_MS
}

/// The batch hasher. Without an accelerator it still hashes batches, on the
/// processor.
#[derive(Debug)]
pub struct CUDAManager {
    pub cuda_available: bool,
    pub device_name: Option<String>,
}

/// The text hashed for `base` under `nonce`.
pub fn block_text(base: &JsonObject, nonce: u64) -> (text: String)
    ensures
        text@ == block_payload(json_members(*base), nonce),
{
    let mut members = base.clone();
    members_insert(&mut members, "nonce", json_number(nonce));
    json_to_text(&json_object(members))
}

/// The nonces `start`, `start + 1`, ..., up to but not including `end`.
pub fn nonce_range(start: u64, end: u64) -> (nonces: Vec<u64>)
    requires
        start <= end,
        end - start <= usize::MAX,
    ensures
        nonces@.len() == end - start,
        forall|i: int| 0 <= i < nonces@.len() ==> nonces@[i] == start + i,
{
    let mut nonces: Vec<u64> = Vec::new();
    let mut next = start;
    while next < end
        invariant
            start <= next <= end,
            nonces@.len() == next - start,
            forall|i: int| 0 <= i < nonces@.len() ==> nonces@[i] == start + i,
        decreases end - next,
    {
        nonces.push(next);
        next = next + 1;
    }
    nonces
}

/// The first index in `hashes` whose hash begins with `target`, if any.
pub fn first_valid(hashes: &Vec<String>, target: &str) -> (found: Option<usize>)
    ensures
        match found {
            Some(i) => {
                &&& i < hashes@.len()
                &&& has_prefix(hashes@[i as int]@, target@)
                &&& forall|j: int| 0 <= j < i ==> !has_prefix(#[trigger] hashes@[j]@, target@)
            },
            None => forall|j: int|
                0 <= j < hashes@.len() ==> !has_prefix(#[trigger] hashes@[j]@, target@),
        },
{
    let mut i: usize = 0;
    while i < hashes.len()
        invariant
            i <= hashes@.len(),
            forall|j: int| 0 <= j < i ==> !has_prefix(#[trigger] hashes@[j]@, target@),
        decreases hashes@.len() - i,
    {
        if starts_with(hashes[i].as_str(), target) {
            return Some(i);
        }
        i = i + 1;
    }
    None
}

impl CUDAManager {
    /// A manager for a machine on which no accelerator was found.
    pub fn new() -> (manager: Self)
        ensures
            !manager.cuda_available,
            manager.device_name is None,
    {
        CUDAManager { cuda_available: false, device_name: None }
    }

    /// One hash per nonce, in the order of the nonces. Each is computed from
    /// `base_data` and its nonce alone, so the batch may be split among
    /// workers at will.
    pub fn compute_hashes_parallel(base_data: &JsonObject, nonces: &[u64]) -> (hashes: Vec<String>)
        ensures
            hashes@.len() == nonces@.len(),
            forall|i: int|
                0 <= i < hashes@.len() ==> #[trigger] hashes@[i]@ == block_hash(
                    json_members(*base_data),
                    nonces@[i],
                ),
            forall|i: int| 0 <= i < hashes@.len() ==> is_hash_text(#[trigger] hashes@[i]@),
    {
        let mut hashes: Vec<String> = Vec::new();
        let mut i: usize = 0;
        while i < nonces.len()
            invariant
                i <= nonces@.len(),
                hashes@.len() == i,
                forall|j: int|
                    0 <= j < i ==> #[trigger] hashes@[j]@ == block_hash(
                        json_members(*base_data),
                        nonces@[j],
                    ),
                forall|j: int| 0 <= j < i ==> is_hash_text(#[trigger] hashes@[j]@),
            decreases nonces@.len() - i,
        {
            let text = block_text(base_data, nonces[i]);
            hashes.push(sha256_hex_of(text.as_str()));
            i = i + 1;
        }
        hashes
    }

    /// Searches batch after batch of `batch_size` nonces, from nonce 0 up, for
    /// the first nonce whose hash shows `difficulty` leading zeros. A nonce
    /// that `mining_data` holds already is set aside. The search gives up when
    /// the manager has no accelerator, when a batch ends more than 300 seconds
    /// after the start (`over_limit` decides that), or when the nonces run
    /// out; an empty batch size finds nothing.
    pub fn cuda_mine_batch(
        &self,
        mining_data: &JsonObject,
        difficulty: usize,
        batch_size: usize,
    ) -> (found: Option<MiningResult>)
        ensures
            !self.cuda_available ==> found is None,
            batch_size == 0 ==> found is None,
            match found {
                Some(r) => {
                    let base = json_members(*mining_data).remove("nonce"@);
                    &&& r.success
                    &&& r.method == MiningMethod::Cuda
                    &&& r.payload@ == block_payload(base, r.nonce)
                    &&& r.hash@ == block_hash(base, r.nonce)
                    &&& is_hash_text(r.hash@)
                    &&& meets(r.hash@, difficulty as nat)
                    &&& none_below(base, difficulty as nat, r.nonce as int)
                },
                None => self.cuda_available && batch_size > 0 ==> exists|
                    reached: u64,
                    started: u64,
                    now: u64,
                | #[trigger]
                    batch_search_ended(
                        json_members(*mining_data).remove("nonce"@),
                        difficulty as nat,
                        batch_size,
                        reached,
                        started,
                        now,
                    ),
            },
    {
        if !self.cuda_available || batch_size == 0 {
            return None;
        }
        let target = zeros(difficulty);
        let mut base = mining_data.clone();
        members_remove(&mut base, "nonce");
        let started = unix_millis();
        let mut nonce_start: u64 = 0;
        let mut rounds: u64 = 0;
        loop
            invariant
                batch_size > 0,
                target@ == target_prefix(difficulty as nat),
                json_members(base) == json_members(*mining_data).remove("nonce"@),
                none_below(json_members(base), difficulty as nat, nonce_start as int),
                rounds > 0 ==> nonce_start >= batch_size,
                rounds == 0 ==> nonce_start == 0,
                self.cuda_available,
            decreases u64::MAX - nonce_start,
        {
            let end = match nonce_start.checked_add(batch_size as u64) {
                Some(e) => e,
                None => {
                    assert(batch_search_ended(
                        json_members(base),
                        difficulty as nat,
                        batch_size,
                        nonce_start,
                        started,
                        started,
                    ));
                    return None;
                },
            };
            let nonces = nonce_range(nonce_start, end);
            let hashes = Self::compute_hashes_parallel(&base, nonces.as_slice());
            match first_valid(&hashes, target.as_str()) {
                Some(i) => {
                    let nonce = nonces[i];
                    let payload = block_text(&base, nonce);
                    let hash = hashes[i].clone();
                    let mining_time = unix_millis().saturating_sub(started);
                    assert forall|k: u64| k < nonce implies !meets(
                        #[trigger] block_hash(json_members(base), k),
                        difficulty as nat,
                    ) by {
                        if k >= nonce_start {
                            let j = k - nonce_start;
                            assert(!has_prefix(hashes@[j]@, target@));
                        }
                    }
                    return Some(
                        MiningResult {
                            success: true,
                            hash,
                            nonce,
                            mining_time,
                            payload,
                            method: MiningMethod::Cuda,
                        },
                    );
                },
                None => {},
            }
            assert forall|k: u64| k < end implies !meets(
                #[trigger] block_hash(json_members(base), k),
                difficulty as nat,
            ) by {
                if k >= nonce_start {
                    let j = k - nonce_start;
                    assert(!has_prefix(hashes@[j]@, target@));
                }
            }
            nonce_start = end;
            if rounds < u64::MAX {
                rounds = rounds + 1;
            }
            let now = unix_millis();
            if over_limit(started, now) {
                assert(batch_search_ended(
                    json_members(base),
                    difficulty as nat,
                    batch_size,
                    nonce_start,
                    started,
                    now,
                ));
                return None;
            }
        }
    }

    /// The members of the report on the accelerator.
    pub open spec fn info_members(&self) -> Map<Seq<char>, Seq<char>> {
        if self.cuda_available {
            no_members().insert("available"@, bool_text(false)).insert(
                "error"@,
                quoted_text("CUDA feature not enabled"@),
            )
        } else {
            no_members().insert("available"@, bool_text(false))
        }
    }

    /// A report on the accelerator. None can be driven from here, so it is
    /// reported as not available, with the reason where one was expected.
    pub fn get_cuda_info(&self) -> (info: JsonObject)
        ensures
            json_members(info) == self.info_members(),
    {
        let mut info = members_new();
        members_insert(&mut info, "available", json_bool(false));
        if self.cuda_available {
            members_insert(&mut info, "error", json_string("CUDA feature not enabled"));
        }
        info
    }
}

} // verus!
