//! Dice for the fishing view, drawn from the thread-local generator of `rand`.

use rand::Rng;
use vstd::prelude::*;

verus! {

/// The thread-local random number generator of `rand`, carried through
/// opaquely.
#[verifier::external_type_specification]
#[verifier::external_body]
pub struct ExThreadRng(rand::rngs::ThreadRng);

/// Calls `rand::thread_rng`, which hands out a handle to the lazily seeded
/// generator of the current thread. Nothing is claimed of the handle.
#[verifier::external_body]
pub(crate) fn thread_rng() -> (r: rand::rngs::ThreadRng) {
    rand::thread_rng()
}

/// Calls `Rng::gen_range(0..bound)` on the thread-local generator. Its
/// documentation promises a value of the half-open range and a panic on an
/// empty one; the contract claims that range for a non-empty one and nothing
/// about which value comes.
#[verifier::external_body]
pub(crate) fn roll_below(rng: &mut rand::rngs::ThreadRng, bound: i32) -> (r: i32)
    requires
        0 < bound,
    ensures
        0 <= r < bound,
{
    rng.gen_range(0..bound)
}

} // verus!
