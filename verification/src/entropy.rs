//! The crate's only unverified edge: fresh identities and random draws.
//!
//! Each function here wraps one outside call; everything that consumes the
//! returned value is verified for every value the contract admits, since
//! nothing more can be promised of a random draw.

use vstd::prelude::*;

verus! {

/// Relies on `uuid::Uuid::new_v4` (and `Uuid::as_u128`): a freshly drawn
/// random version-4 identity, carried as its 128-bit value. Nothing is
/// promised of the value itself.
#[verifier::external_body]
pub(crate) fn fresh_player_id() -> u128 {
    uuid::Uuid::new_v4().as_u128()
}

/// Relies on `rand::Rng::gen_range` over a thread-local generator: a random
/// index drawn from `0..bound`. `gen_range` panics on an empty range, so the
/// bound must be positive; the result is always below it.
#[verifier::external_body]
pub(crate) fn random_below(bound: usize) -> (r: usize)
    requires
        bound >= 1,
    ensures
        r < bound,
{
    rand::Rng::gen_range(&mut rand::thread_rng(), 0..bound)
}

/// Relies on `rand::random::<bool>`: a coin flip; nothing is promised of
/// the outcome.
#[verifier::external_body]
pub(crate) fn random_flag() -> bool {
    rand::random::<bool>()
}

} // verus!
