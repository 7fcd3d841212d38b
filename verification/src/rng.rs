//! Trusted randomness source for the serve draw. These are the only
//! unverified bodies in the library; everything downstream of the two draws
//! is verified for every value they can return.

use vstd::prelude::*;
use rand::Rng;

verus! {

/// Relies on `rand::Rng::gen_range` over `0..n`: a uniformly distributed
/// integer below `n`. It panics only on an empty range, which `n > 0`
/// rules out.
#[verifier::external_body]
pub(crate) fn rand_below(n: u32) -> (r: u32)
    requires
        n > 0,
    ensures
        r < n,
{
    rand::thread_rng().gen_range(0..n)
}

/// Relies on `rand::Rng::gen::<bool>`: a fair coin flip. Nothing is promised
/// of the outcome; callers must be correct for both.
#[verifier::external_body]
pub(crate) fn rand_flip() -> (b: bool) {
    rand::thread_rng().gen()
}

} // verus!
