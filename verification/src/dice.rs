//! The source of chance: draws from a `fastrand::Rng`.
//!
//! Nothing here is proved. Each item states what the generator's source and
//! documentation show of every value it can hand out, and no more.

use vstd::prelude::*;

verus! {

/// `fastrand::Rng`, the generator.
#[verifier::external_type_specification]
#[verifier::external_body]
pub struct ExRng(fastrand::Rng);

/// The seed that a generator holds: the number that `fastrand::Rng::get_seed`
/// gives back for it. Every draw changes it; nothing is claimed of how.
pub uninterp spec fn seed_held(rng: fastrand::Rng) -> u64;

/// `fastrand::Rng::new`: a generator seeded from the thread's own generator.
/// Nothing is claimed of it.
pub assume_specification[ fastrand::Rng::new ]() -> (rng: fastrand::Rng);

/// `fastrand::Rng::with_seed`: a generator that holds `seed`, and so starts
/// from it.
pub assume_specification[ fastrand::Rng::with_seed ](seed: u64) -> (rng: fastrand::Rng)
    ensures
        seed_held(rng) == seed,
;

/// `fastrand::Rng::bool`: a coin flip. Nothing is claimed of the side
/// that comes up.
pub assume_specification[ fastrand::Rng::bool ](rng: &mut fastrand::Rng) -> (heads: bool);

/// `fastrand::Rng::u32` on the range `0..bound`: the result lies in that
/// range. The generator panics on an empty range, so `bound` is positive.
#[verifier::external_body]
pub(crate) fn roll_below(rng: &mut fastrand::Rng, bound: u32) -> (roll: u32)
    requires
        bound > 0,
    ensures
        roll < bound,
{
    rng.u32(0..bound)
}

/// `fastrand::Rng::i16` on the range `low..=high`: the result lies in that
/// range. The generator panics on an empty range, so `low <= high`.
#[verifier::external_body]
pub(crate) fn draw_between(rng: &mut fastrand::Rng, low: i16, high: i16) -> (step: i16)
    requires
        low <= high,
    ensures
        low <= step <= high,
{
    rng.i16(low..=high)
}

} // verus!
