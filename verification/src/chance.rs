//! The game's single source of chance.

use rand::Rng;
use vstd::prelude::*;

verus! {

/// Draws an index in `0..upper` from the thread-local generator: `rand::rng()` followed by
/// `Rng::random_range(0..upper)`. The contract claims only that the index lies in the range;
/// which index comes out is left open, as it rests on chance. `random_range` panics on an
/// empty range, hence `upper > 0`.
#[verifier::external_body]
pub(crate) fn random_index(upper: usize) -> (r: usize)
    requires
        upper > 0,
    ensures
        r < upper,
{
    rand::rng().random_range(0..upper)
}

} // verus!
