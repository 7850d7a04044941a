//! The one source of randomness: a uniform index draw, delegated to the
//! `rand` crate.

use rand::Rng;
use vstd::prelude::*;

verus! {

/// Relies on rand's `Rng::gen_range` over `0..n`: it returns a value of
/// that range, and panics only on an empty range, which the
/// precondition rules out. Nothing more is assumed of the draw: callers
/// must hold for every index below `n`.
#[verifier::external_body]
pub(crate) fn random_index(n: usize) -> (r: usize)
    requires
        0 < n,
    ensures
        r < n,
{
    rand::thread_rng().gen_range(0..n)
}

} // verus!
