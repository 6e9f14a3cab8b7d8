//! What the library takes from its surroundings: the clock and randomness.
//!
//! The clock is read through std, which hands the time out in every state of
//! the clock, also where it is set before the epoch.

use vstd::prelude::*;
use rand::Rng;
use rand::RngCore;

verus! {

/// An ASCII letter or digit.
pub open spec fn is_alphanumeric(c: char) -> bool {
    ('0' <= c && c <= '9') || ('a' <= c && c <= 'z') || ('A' <= c && c <= 'Z')
}

/// Every character of `s` is an ASCII letter or digit.
pub open spec fn all_alphanumeric(s: Seq<char>) -> bool {
    forall|i: int| 0 <= i < s.len() ==> is_alphanumeric(#[trigger] s[i])
}

/// `std::time::SystemTime`, taken as it is.
#[verifier::external_type_specification]
#[verifier::external_body]
pub struct ExSystemTime(std::time::SystemTime);

/// Trusted: `SystemTime::now`, the wall clock as it stands. Nothing is
/// promised of the value.
#[verifier::external_body]
fn clock_now() -> std::time::SystemTime {
    std::time::SystemTime::now()
}

/// Trusted: `SystemTime::duration_since` the Unix epoch: how long after the
/// epoch a time lies, and nothing for a time before it.
#[verifier::external_body]
fn since_epoch(time: &std::time::SystemTime) -> Option<core::time::Duration> {
    time.duration_since(std::time::UNIX_EPOCH).ok()
}

/// Trusted: `Duration::as_millis`, a duration in whole milliseconds.
#[verifier::external_body]
fn whole_millis(duration: &core::time::Duration) -> u128 {
    duration.as_millis()
}

/// The wall clock in milliseconds since the Unix epoch: 0 for a clock set
/// before the epoch, and the largest number for one set beyond what the
/// number holds. Nothing else is known of the value.
pub(crate) fn unix_millis() -> u64 {
    let now = clock_now();
    match since_epoch(&now) {
        Some(duration) => {
            let millis = whole_millis(&duration);
            if millis > 0xffff_ffff_ffff_ffff {
                0xffff_ffff_ffff_ffff
            } else {
                millis as u64
            }
        },
        None => 0,
    }
}

/// Trusted: `len` characters drawn from `rand`'s `Alphanumeric` distribution,
/// which yields ASCII letters and digits only. Which ones is left open.
#[verifier::external_body]
pub(crate) fn random_alphanumeric(len: usize) -> (s: String)
    ensures
        s@.len() == len,
        all_alphanumeric(s@),
{
    rand::thread_rng().sample_iter(&rand::distributions::Alphanumeric).take(len).map(char::from).collect()
}

/// Trusted: `len` bytes filled by `rand`'s thread-local generator
/// (`RngCore::fill_bytes`). Only the length is known.
#[verifier::external_body]
pub(crate) fn random_bytes(len: usize) -> (bytes: Vec<u8>)
    ensures
        bytes@.len() == len,
{
    let mut bytes = vec![0u8; len];
    rand::thread_rng().fill_bytes(&mut bytes);
    bytes
}

} // verus!
