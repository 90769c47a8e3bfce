//! Trusted access to the outside randomness source.

use vstd::prelude::*;
use rand::RngExt;

verus! {

/// The standard random number generator of the `rand` crate, opaque here.
#[verifier::external_type_specification]
#[verifier::external_body]
pub struct ExStdRng(rand::rngs::StdRng);

/// Relies on rand's `RngExt::random_range` over `0..n`: it returns a value
/// of the (non-empty) range, so an index below `n`. Nothing more is assumed
/// of a random draw.
#[verifier::external_body]
pub(crate) fn draw_index(rng: &mut rand::rngs::StdRng, n: usize) -> (i: usize)
    requires
        n > 0,
    ensures
        i < n,
{
    rng.random_range(0..n)
}

} // verus!
