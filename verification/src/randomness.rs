//! The crate's only source of randomness: a seedable generator from the
//! `rand` crate, reached through a thin trusted boundary. Nothing is
//! assumed of a sample beyond the range it is drawn from.

use rand::Rng;
use vstd::prelude::*;

verus! {

#[verifier::external_type_specification]
#[verifier::external_body]
pub struct ExStdRng(rand::rngs::StdRng);

/// Relies on rand's `Rng::gen_range`: a sample uniform in `[lo, hi)`.
/// It panics on an empty range, so a nonempty range is required.
#[verifier::external_body]
pub(crate) fn rand_range(rng: &mut rand::rngs::StdRng, lo: isize, hi: isize) -> (r: isize)
    requires
        lo < hi,
    ensures
        lo <= r < hi,
{
    rng.gen_range(lo, hi)
}

} // verus!
