use vstd::prelude::*;
use crate::results::NANOS_PER_SEC;

verus! {

/// Above this warmup rate (bits per second) the largest size is used.
pub const FAST_LINK_BPS: u64 = 100_000_000;
/// Above this warmup rate (bits per second) the third size is used.
pub const MEDIUM_LINK_BPS: u64 = 10_000_000;
/// Size used on a fast link when no candidate is given.
pub const DEFAULT_LARGE_SIZE: usize = 25_000_000;
/// Size used on a medium link when there is no third candidate.
pub const DEFAULT_MEDIUM_SIZE: usize = 10_000_000;
/// Size used on a slow link when there is no second candidate.
pub const DEFAULT_SMALL_SIZE: usize = 1_000_000;

/// The warmup moved `bytes` in `nanos` nanoseconds at a rate strictly above
/// `threshold` bits per second (a zero duration is faster than any rate
/// when something was moved).
pub open spec fn faster_than(bytes: u64, nanos: u64, threshold: u64) -> bool {
    bytes * 8 * NANOS_PER_SEC > threshold * nanos
}

/// Download size chosen from the candidate `sizes` for a warmup that moved
/// `bytes` in `nanos` nanoseconds.
pub open spec fn size_for_warmup(sizes: Seq<usize>, bytes: u64, nanos: u64) -> usize {
    if faster_than(bytes, nanos, FAST_LINK_BPS) {
        if sizes.len() > 0 {
            sizes.last()
        } else {
            DEFAULT_LARGE_SIZE
        }
    } else if faster_than(bytes, nanos, MEDIUM_LINK_BPS) {
        if sizes.len() > 2 {
            sizes[2]
        } else {
            DEFAULT_MEDIUM_SIZE
        }
    } else {
        if sizes.len() > 1 {
            sizes[1]
        } else {
            DEFAULT_SMALL_SIZE
        }
    }
}

/// Whether `bytes` in `nanos` nanoseconds is a rate above `threshold`.
fn exceeds_rate(bytes: u64, nanos: u64, threshold: u64) -> (r: bool)
    ensures
        r == faster_than(bytes, nanos, threshold),
{
    assert((bytes as u128) * 8 * (NANOS_PER_SEC as u128) <= u64::MAX * 8_000_000_000)
        by (nonlinear_arith);
    assert((threshold as u128) * (nanos as u128) <= u64::MAX * u64::MAX) by (nonlinear_arith);
    (bytes as u128) * 8 * (NANOS_PER_SEC as u128) > (threshold as u128) * (nanos as u128)
}

/// Picks the size of the measured downloads from the warmup: the largest
/// candidate above 100 Mbps, the third above 10 Mbps, the second otherwise,
/// each threshold strict; a missing candidate falls back to a fixed size.
pub fn select_test_size(sizes: &Vec<usize>, warmup_bytes: u64, warmup_nanos: u64) -> (r: usize)
    ensures
        r == size_for_warmup(sizes@, warmup_bytes, warmup_nanos),
{
    if exceeds_rate(warmup_bytes, warmup_nanos, FAST_LINK_BPS) {
        if sizes.len() > 0 {
            sizes[sizes.len() - 1]
        } else {
            DEFAULT_LARGE_SIZE
        }
    } else if exceeds_rate(warmup_bytes, warmup_nanos, MEDIUM_LINK_BPS) {
        if sizes.len() > 2 {
            sizes[2]
        } else {
            DEFAULT_MEDIUM_SIZE
        }
    } else {
        if sizes.len() > 1 {
            sizes[1]
        } else {
            DEFAULT_SMALL_SIZE
        }
    }
}

/// Both thresholds are strict: a warmup at exactly 100 Mbps gets the medium
/// size, and one at exactly 10 Mbps gets the small size.
pub proof fn lemma_thresholds_strict(sizes: Seq<usize>, bytes: u64, nanos: u64)
    requires
        nanos > 0,
    ensures
        bytes * 8 * NANOS_PER_SEC == FAST_LINK_BPS * nanos ==> size_for_warmup(sizes, bytes, nanos)
            == (if sizes.len() > 2 {
            sizes[2]
        } else {
            DEFAULT_MEDIUM_SIZE
        }),
        bytes * 8 * NANOS_PER_SEC == MEDIUM_LINK_BPS * nanos ==> size_for_warmup(sizes, bytes, nanos)
            == (if sizes.len() > 1 {
            sizes[1]
        } else {
            DEFAULT_SMALL_SIZE
        }),
{
}

/// Bytes a transfer phase moves in all: `size` on each of `connections`.
pub fn expected_transfer(size: usize, connections: usize) -> (r: u128)
    ensures
        r == size * connections,
{
    assert((size as u128) * (connections as u128) <= u64::MAX * u64::MAX) by (nonlinear_arith);
    (size as u128) * (connections as u128)
}

} // verus!
