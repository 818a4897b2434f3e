//! The injected randomness source for food placement.
//!
//! Nothing can be promised of which number comes back, so every caller is
//! verified for all outcomes inside the stated range.

use vstd::prelude::*;

verus! {

/// Relies on `rand::Rng::gen_range` over `min..max`: it returns a uniformly
/// random integer in that half-open range, and panics only when the range is
/// empty, which the precondition rules out.
#[verifier::external_body]
pub fn random_range(min: usize, max: usize) -> (r: usize)
    requires
        min < max,
    ensures
        min <= r < max,
{
    rand::Rng::gen_range(&mut rand::thread_rng(), min..max)
}

} // verus!
