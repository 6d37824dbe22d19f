//! The seeded pseudo-random stream behind the surface jitter, drawn from
//! rand's `StdRng`.

use vstd::prelude::*;
use rand::rngs::StdRng;
use rand::{RngCore, SeedableRng};

verus! {

#[verifier::external_type_specification]
#[verifier::external_body]
pub struct ExStdRng(StdRng);

/// Relies on rand's `SeedableRng::seed_from_u64` for `StdRng`: a generator
/// whose stream is fixed by the seed. Nothing is stated of the stream.
#[verifier::external_body]
fn seeded_rng(seed: u64) -> StdRng {
    StdRng::seed_from_u64(seed)
}

/// Relies on rand's `RngCore::next_u32` for `StdRng`: the next 32 bits of
/// the stream, any value.
#[verifier::external_body]
fn next_draw(rng: &mut StdRng) -> u32 {
    rng.next_u32()
}

/// The first `count` draws of the stream seeded with `seed`, in order.
pub(crate) fn seeded_draws(seed: u64, count: usize) -> (r: Vec<u32>)
    ensures
        r@.len() == count,
{
    let mut rng = seeded_rng(seed);
    let mut draws: Vec<u32> = Vec::with_capacity(count);
    let mut i: usize = 0;
    while i < count
        invariant
            i <= count,
            draws@.len() == i,
        decreases count - i,
    {
        draws.push(next_draw(&mut rng));
        i = i + 1;
    }
    draws
}

} // verus!
