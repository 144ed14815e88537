//! Sources of randomness and time. Nothing can be promised of what they
//! return beyond a range; the logic that uses them is verified for every
//! outcome.

use vstd::prelude::*;

verus! {

/// Relies on `rand::random`: a uniformly random 64-bit value. No two calls
/// are related, so nothing is stated of the result.
#[verifier::external_body]
pub(crate) fn random_u64() -> u64 {
    rand::random::<u64>()
}

/// Relies on `rand::random_range`: a uniform sample from `lo..hi`, which
/// panics only on an empty range, excluded here.
#[verifier::external_body]
pub(crate) fn random_range_u64(lo: u64, hi: u64) -> (r: u64)
    requires
        lo < hi,
    ensures
        lo <= r < hi,
{
    rand::random_range(lo..hi)
}

/// Relies on `rand::random_range`: a uniform sample from `lo..=hi`, which
/// panics only on an empty range, excluded here.
#[verifier::external_body]
pub(crate) fn random_range_inclusive_u128(lo: u128, hi: u128) -> (r: u128)
    requires
        lo <= hi,
    ensures
        lo <= r <= hi,
{
    rand::random_range(lo..=hi)
}

/// Relies on `std::time::SystemTime::now` and `duration_since`: nanoseconds
/// since the Unix epoch, truncated to 64 bits, and zero should the clock
/// read before the epoch. Nothing is stated of the result.
#[verifier::external_body]
pub(crate) fn now_unix_ns() -> u64 {
    std::time::SystemTime::now()
        .duration_since(std::time::UNIX_EPOCH)
        .map(|d| d.as_nanos() as u64)
        .unwrap_or(0)
}

} // verus!
