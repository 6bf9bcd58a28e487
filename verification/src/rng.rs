//! The one source of randomness the game uses, behind a single trusted
//! wrapper.

use vstd::prelude::*;
use rand::Rng;

verus! {

/// Relies on `rand::thread_rng` and `rand::Rng::gen_range`: a value
/// drawn uniformly from `0..n`. `gen_range` panics on an empty range,
/// so `n` must be positive; nothing beyond `r < n` is assumed of the
/// result, and two calls on the same `n` may differ.
#[verifier::external_body]
pub(crate) fn random_below(n: u32) -> (r: u32)
    requires
        n >= 1,
    ensures
        r < n,
{
    rand::thread_rng().gen_range(0..n)
}

} // verus!
