use vstd::prelude::*;

verus! {

/// The number of distinct noise levels: a bucket `b` stands for the value
/// `b / NOISE_LEVELS`, which lies in `[0, 1)`.
pub const NOISE_LEVELS: u32 = 10_000;

/// Multiplier of the linear congruential step.
pub const LCG_MULTIPLIER: u32 = 1_664_525;

/// Increment of the linear congruential step.
pub const LCG_INCREMENT: u32 = 1_013_904_223;

/// One linear congruential step modulo 2^32.
pub open spec fn lcg_step(seed: u32) -> int {
    (seed * LCG_MULTIPLIER + LCG_INCREMENT) % 0x1_0000_0000
}

/// The noise bucket of a seed: the last four decimal digits of its
/// congruential step.
pub open spec fn noise_level(seed: u32) -> int {
    lcg_step(seed) % (NOISE_LEVELS as int)
}

/// A seed scaled by a factor, wrapping modulo 2^32.
pub open spec fn scaled_seed(seed: u32, factor: u32) -> u32 {
    ((seed * factor) % 0x1_0000_0000) as u32
}

/// The noise bucket of `seed`: a deterministic pseudo-random level below
/// `NOISE_LEVELS`.
pub fn noise_bucket(seed: u32) -> (bucket: u32)
    ensures
        bucket == noise_level(seed),
        bucket < NOISE_LEVELS,
{
    let value = seed.wrapping_mul(LCG_MULTIPLIER).wrapping_add(LCG_INCREMENT);
    proof {
        let m: int = 0x1_0000_0000;
        let p: int = seed * LCG_MULTIPLIER;
        assert(0 <= p) by (nonlinear_arith)
            requires p == seed * LCG_MULTIPLIER;
        vstd::arithmetic::div_mod::lemma_add_mod_noop(p, LCG_INCREMENT as int, m);
        let q: int = p % m + LCG_INCREMENT;
        if q < m {
            vstd::arithmetic::div_mod::lemma_small_mod(q as nat, m as nat);
        } else {
            vstd::arithmetic::div_mod::lemma_mod_sub_multiples_vanish(q, m);
            vstd::arithmetic::div_mod::lemma_small_mod((q - m) as nat, m as nat);
        }
        assert(value == lcg_step(seed));
    }
    value % NOISE_LEVELS
}

/// `seed * factor`, wrapping modulo 2^32.
pub fn scale_seed(seed: u32, factor: u32) -> (scaled: u32)
    ensures
        scaled == scaled_seed(seed, factor),
{
    seed.wrapping_mul(factor)
}

/// The noise of a seed is the last four decimal digits of the 32-bit
/// congruential step `seed * 1664525 + 1013904223`, so it always lies below
/// 10000; scaling a seed multiplies it modulo 2^32.
pub proof fn lemma_noise_step(seed: u32, factor: u32)
    ensures
        noise_level(seed) == ((seed * 1664525 + 1013904223) % 4294967296) % 10000,
        0 <= noise_level(seed) < 10000,
        scaled_seed(seed, factor) as int == (seed * factor) % 4294967296,
{
    vstd::arithmetic::div_mod::lemma_mod_bound((seed * factor) as int, 4294967296);
}

} // verus!
