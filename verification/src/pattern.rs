//! Shape of the sine patterns: how many sine components each channel sums.

use vstd::prelude::*;

verus! {

#[verifier::external_type_specification]
#[verifier::external_body]
pub struct ExLcg128Xsl64(rand_pcg::Lcg128Xsl64);

/// Sine components summed for the CPU channel.
pub const CPU_SINES: usize = 3;
/// Sine components summed for the network channel.
pub const NETWORK_SINES: usize = 2;
/// Fewest sine components summed for the memory channel.
pub const MEMORY_SINES_MIN: usize = 1;
/// Most sine components summed for the memory channel.
pub const MEMORY_SINES_MAX: usize = 2;

/// What `rand::Rng::gen_range(low..=high)` does on a PCG generator in a
/// given state: the value drawn and the generator's state afterwards. The
/// generator is deterministic, so both depend on its state and the bounds
/// alone.
pub uninterp spec fn pcg_draw(rng: rand_pcg::Lcg128Xsl64, low: usize, high: usize) -> (
    usize,
    rand_pcg::Lcg128Xsl64,
);

/// `rand::Rng::gen_range(low..=high)` on a PCG generator. Claimed, as rand
/// documents and its uniform sampler shows: the value lies in `low..=high`
/// (the range is not empty, so it does not panic), and the value and the
/// generator's new state are `pcg_draw` of its old state and the bounds.
#[verifier::external_body]
fn sample_inclusive(rng: &mut rand_pcg::Lcg128Xsl64, low: usize, high: usize) -> (r: usize)
    requires
        low <= high,
    ensures
        low <= r <= high,
        (r, *final(rng)) == pcg_draw(*old(rng), low, high),
{
    rand::Rng::gen_range(rng, low..=high)
}

/// Draw the number of sine components for the memory channel from the
/// pattern's seeded generator: one or two, and the generator advances by
/// that draw, so that equal generators make equal draws.
pub fn roll_memory_sine_count(rng: &mut rand_pcg::Lcg128Xsl64) -> (k: usize)
    ensures
        MEMORY_SINES_MIN <= k <= MEMORY_SINES_MAX,
        (k, *final(rng)) == pcg_draw(*old(rng), MEMORY_SINES_MIN, MEMORY_SINES_MAX),
{
    sample_inclusive(rng, MEMORY_SINES_MIN, MEMORY_SINES_MAX)
}

/// Two generators in the same state draw the same memory sine count and
/// end in the same state: the pattern is reproducible from its seed.
pub proof fn lemma_memory_sine_count_reproducible(
    a: rand_pcg::Lcg128Xsl64,
    b: rand_pcg::Lcg128Xsl64,
    ka: usize,
    kb: usize,
    a2: rand_pcg::Lcg128Xsl64,
    b2: rand_pcg::Lcg128Xsl64,
)
    requires
        a == b,
        (ka, a2) == pcg_draw(a, MEMORY_SINES_MIN, MEMORY_SINES_MAX),
        (kb, b2) == pcg_draw(b, MEMORY_SINES_MIN, MEMORY_SINES_MAX),
    ensures
        ka == kb,
        a2 == b2,
{
}

} // verus!
