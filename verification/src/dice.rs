//! The random source that seeds a new universe.

use vstd::prelude::*;
use rand::distributions::{Distribution, Uniform};
use rand::rngs::ThreadRng;

verus! {

/// The handle to the thread-local random number generator of `rand`; nothing
/// of its state is visible to proofs.
#[verifier::external_type_specification]
#[verifier::external_body]
pub struct ExThreadRng(ThreadRng);

/// `rand::thread_rng` hands out the calling thread's generator, seeded by
/// the system. Nothing is claimed of the handle it returns.
pub assume_specification[ rand::thread_rng ]() -> (rng: ThreadRng);

/// Draws one value with `rand`'s `Uniform::from(low..high)` and its `sample`.
/// Trusted: the value lies in the half-open range that the distribution was
/// made for. An empty range, on which `Uniform` panics, is excluded.
#[verifier::external_body]
pub(crate) fn throw(rng: &mut ThreadRng, low: u32, high: u32) -> (value: u32)
    requires
        low < high,
    ensures
        low <= value < high,
{
    Uniform::from(low..high).sample(rng)
}

} // verus!
