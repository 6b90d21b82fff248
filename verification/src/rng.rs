//! The single source of randomness the map generator draws from.

use vstd::prelude::*;
use rand::Rng;

verus! {

/// Relies on rand's `Rng::gen_range` on a thread-local generator: a draw from
/// the half-open range `lo..hi` yields a value at least `lo` and below `hi`.
/// `gen_range` panics only on an empty range, which the precondition rules out.
/// Nothing is assumed of the distribution beyond the range of the result.
#[verifier::external_body]
pub(crate) fn rand_range(lo: usize, hi: usize) -> (r: usize)
    requires
        lo < hi,
    ensures
        lo <= r < hi,
{
    rand::thread_rng().gen_range(lo..hi)
}

} // verus!
