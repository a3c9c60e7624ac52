//! Entropy for the scene: randomized frame selection and footstep sample
//! choice both draw a uniform integer from a closed range.

use vstd::prelude::*;

verus! {

/// Relies on rand: `rand::rng()` yields the thread-local generator, and
/// `RngExt::random_range(lo..=hi)` samples uniformly from that range,
/// panicking only when the range is empty, which `lo <= hi` rules out.
#[verifier::external_body]
pub(crate) fn random_in_range(lo: usize, hi: usize) -> (r: usize)
    requires
        lo <= hi,
    ensures
        lo <= r <= hi,
{
    rand::RngExt::random_range(&mut rand::rng(), lo..=hi)
}

} // verus!
