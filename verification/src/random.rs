//! The one thing the game leaves to chance: the order in which the computer
//! considers the free cells.

use vstd::prelude::*;
use rand::seq::SliceRandom;

verus! {

/// `rand::rngs::ThreadRng`, the generator that each thread keeps for
/// itself. Nothing is known of what it holds.
#[verifier::external_type_specification]
#[verifier::external_body]
pub struct ExThreadRng(rand::rngs::ThreadRng);

/// `rand::thread_rng` hands out the calling thread's generator. Nothing is
/// claimed of the generator it returns. The call takes no argument; it
/// fails only where the system cannot seed the generator.
pub assume_specification[ rand::thread_rng ]() -> (rng: rand::rngs::ThreadRng)
;

/// `SliceRandom::shuffle` on the cells of a vector. It only swaps elements
/// of the slice with one another, so every index is there as often after
/// the call as before; in which order is left to chance and not stated.
#[verifier::external_body]
pub(crate) fn shuffle(cells: &mut Vec<usize>, rng: &mut rand::rngs::ThreadRng)
    ensures
        final(cells)@.to_multiset() == old(cells)@.to_multiset(),
{
    cells.shuffle(rng)
}

} // verus!
