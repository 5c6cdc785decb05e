//! The random source. Its draws place the debris of an explosion and jitter
//! the camera. They never decide anything in the simulation.

use vstd::prelude::*;
use rand::rngs::SmallRng;
use rand::RngCore;
use rand::SeedableRng;

verus! {

/// Declares `rand::rngs::SmallRng`, the small fast generator of the `rand`
/// crate, as a type whose inside is not looked into.
#[verifier::external_type_specification]
#[verifier::external_body]
pub struct ExSmallRng(rand::rngs::SmallRng);

/// Calls `SmallRng::seed_from_u64`, which makes a generator from a seed.
/// Nothing is claimed of the generator that comes back.
#[verifier::external_body]
pub(crate) fn seeded(seed: u64) -> (rng: SmallRng) {
    SmallRng::seed_from_u64(seed)
}

/// Calls `next_u32` on the generator, which hands out its next draw and moves
/// on. Nothing is claimed of the draw: it may be any `u32`.
#[verifier::external_body]
pub(crate) fn next_draw(rng: &mut SmallRng) -> (draw: u32) {
    rng.next_u32()
}

} // verus!
