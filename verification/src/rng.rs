//! The single source of randomness for the simulation: spawn positions and
//! fall-speed jitter are drawn here.

use vstd::prelude::*;
use rand::Rng;

verus! {

/// Draws a uniformly random value below `n`.
///
/// Relies on rand's `Rng::gen_range`: `gen_range(low..high)` returns a value
/// in the given range, and panics only when the range is empty, which
/// `n >= 1` rules out. Nothing more is assumed of the result: every caller
/// has to hold for every value below `n`.
#[verifier::external_body]
pub(crate) fn random_below(n: u64) -> (r: u64)
    requires
        n >= 1,
    ensures
        r < n,
{
    rand::thread_rng().gen_range(0..n)
}

} // verus!
