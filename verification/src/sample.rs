//! Random index sampling for the two-choice selection, backed by rand.

use rand::SeedableRng;
use rand::rngs::SmallRng;
use vstd::prelude::*;

verus! {

#[verifier::external_type_specification]
#[verifier::external_body]
pub struct ExSmallRng(SmallRng);

/// Relies on rand's `SmallRng::from_entropy`: a fresh generator seeded
/// from system entropy. Nothing is promised of its output. It panics only
/// if the operating system's entropy source is unavailable — an
/// environmental failure, like exhausting memory, that no precondition
/// can exclude.
#[verifier::external_body]
pub(crate) fn rng_from_entropy() -> SmallRng {
    SmallRng::from_entropy()
}

/// Relies on rand's `SmallRng::seed_from_u64`: a generator derived from
/// the given seed. Nothing is promised of its output.
#[verifier::external_body]
pub(crate) fn rng_from_seed(seed: u64) -> SmallRng {
    SmallRng::seed_from_u64(seed)
}

/// Relies on rand's `seq::index::sample`, which returns `amount` distinct
/// indices drawn from `0..length` in random order; here `amount` is two.
#[verifier::external_body]
pub(crate) fn sample_two(rng: &mut SmallRng, n: usize) -> (r: (usize, usize))
    requires
        2 <= n,
    ensures
        r.0 < n,
        r.1 < n,
        r.0 != r.1,
{
    let pair = rand::seq::index::sample(rng, n, 2);
    (pair.index(0), pair.index(1))
}

} // verus!
