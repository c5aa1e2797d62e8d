//! The engine's randomness, drawn from the `rand` crate and taken on
//! trust.  Nothing downstream depends on *which* value comes back: every
//! caller is verified for all admissible outcomes.

use vstd::prelude::*;
use rand::Rng;

verus! {

/// Relies on `rand::Rng::gen_range` over `0..n`: the sample lies in the
/// half-open range, which the precondition keeps non-empty (an empty
/// range would panic).
#[verifier::external_body]
pub(crate) fn sample_index(n: usize) -> (r: usize)
    requires
        n >= 1,
    ensures
        r < n,
{
    rand::thread_rng().gen_range(0..n)
}

/// Relies on `rand::random`: an unconstrained uniform 64-bit draw, of
/// which nothing can be promised.
#[verifier::external_body]
pub(crate) fn sample_raw() -> u64 {
    rand::random::<u64>()
}

} // verus!
