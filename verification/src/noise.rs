//! Integer hash behind the shake effects' pseudo-random offsets.

use vstd::prelude::*;

verus! {

/// The bit mix applied to `seed + sample` (all arithmetic wrapping at 32 bits):
/// multiply by `0x5bd1e995`, fold the high bits down by `x ^ (x >> 15)`, then
/// multiply by `0x27d4eb2d`.
pub open spec fn noise_mix(n: u32) -> u32 {
    let a = vstd::wrapping::u32_specs::wrapping_mul(n, 0x5bd1e995u32);
    let b = a ^ (a >> 15u32);
    vstd::wrapping::u32_specs::wrapping_mul(b, 0x27d4eb2du32)
}

/// Hash of a seed and a sample position. The shake effects take the sample
/// position as the time scaled by 1000 and cut to an integer, and map the
/// result onto [-1, 1].
pub fn noise_bits(seed: u32, sample: u32) -> (r: u32)
    ensures
        r == noise_mix(vstd::wrapping::u32_specs::wrapping_add(seed, sample)),
        ({
            let n = ((seed as int + sample as int) % 0x1_0000_0000) as u32;
            let a = ((n as int * 0x5bd1e995) % 0x1_0000_0000) as u32;
            let b = a ^ (a >> 15u32);
            r as int == (b as int * 0x27d4eb2d) % 0x1_0000_0000
        }),
{
    let n = seed.wrapping_add(sample);
    let n = n.wrapping_mul(0x5bd1e995u32);
    let n = n ^ (n >> 15u32);
    n.wrapping_mul(0x27d4eb2du32)
}

/// The mix, written out over integers: all 32 bits of `n` enter the first
/// product, and every product is taken modulo 2^32.
pub proof fn lemma_noise_mix_formula(n: u32)
    ensures
        ({
            let a = ((n as int * 0x5bd1e995) % 0x1_0000_0000) as u32;
            let b = a ^ (a >> 15u32);
            noise_mix(n) as int == (b as int * 0x27d4eb2d) % 0x1_0000_0000
        }),
{
}

/// Seed and sample are added with wrap-around before mixing.
pub proof fn lemma_noise_input_wraps(seed: u32, sample: u32)
    ensures
        vstd::wrapping::u32_specs::wrapping_add(seed, sample) as int
            == (seed as int + sample as int) % 0x1_0000_0000,
{
}

} // verus!
