//! Deterministic pseudo-random state updates shared by the particle pool,
//! the marble spawner and the ball "nudge".

use vstd::prelude::*;

verus! {

/// One Marsaglia xorshift32 step with shifts (13, 17, 5).
pub open spec fn xorshift32_spec(x: u32) -> u32 {
    let a = x ^ (x << 13u32);
    let b = a ^ (a >> 17u32);
    b ^ (b << 5u32)
}

/// One step of the Numerical Recipes linear congruential generator
/// `seed * 1664525 + 1013904223 (mod 2^32)`.
pub open spec fn lcg_spec(seed: u32) -> u32 {
    ((seed as int * 1_664_525 + 1_013_904_223) % 0x1_0000_0000) as u32
}

/// Advance an xorshift32 state; the new state is also the drawn value.
pub fn xorshift32(x: u32) -> (next: u32)
    ensures
        next == xorshift32_spec(x),
{
    let mut y = x;
    y ^= y << 13u32;
    y ^= y >> 17u32;
    y ^= y << 5u32;
    y
}

/// Advance the nudge generator and return the new seed together with its
/// upper 24 bits, which select the launch angle as a fraction of a turn
/// (`bits / 2^24`).
pub fn nudge_step(seed: u32) -> (out: (u32, u32))
    ensures
        out.0 == lcg_spec(seed),
        out.1 == out.0 / 0x100,
        out.1 < 0x100_0000,
{
    let next = seed.wrapping_mul(1_664_525).wrapping_add(1_013_904_223);
    assert(next == lcg_spec(seed)) by (nonlinear_arith)
        requires
            next == ((((seed as int * 1_664_525) % 0x1_0000_0000) + 1_013_904_223)
                % 0x1_0000_0000),
    ;
    let bits = next >> 8u32;
    assert(bits == next / 0x100) by (bit_vector)
        requires
            bits == next >> 8u32,
    ;
    (next, bits)
}

/// A nonzero xorshift32 state never collapses to zero, so a generator seeded
/// with a nonzero value never gets stuck at zero.
pub proof fn lemma_xorshift32_nonzero(x: u32)
    requires
        x != 0,
    ensures
        xorshift32_spec(x) != 0,
{
    assert(x != 0 ==> ((x ^ (x << 13u32)) ^ ((x ^ (x << 13u32)) >> 17u32)) ^ (((x ^ (x << 13u32))
        ^ ((x ^ (x << 13u32)) >> 17u32)) << 5u32) != 0) by (bit_vector);
}

/// xorshift32 never maps two different states to the same state, so two
/// generators in different states stay in different states.
pub proof fn lemma_xorshift32_injective(x: u32, y: u32)
    requires
        xorshift32_spec(x) == xorshift32_spec(y),
    ensures
        x == y,
{
    let a = x ^ (x << 13u32);
    let b = a ^ (a >> 17u32);
    let c = y ^ (y << 13u32);
    let d = c ^ (c >> 17u32);
    assert(b ^ (b << 5u32) == d ^ (d << 5u32) ==> b == d) by (bit_vector);
    assert(a ^ (a >> 17u32) == c ^ (c >> 17u32) ==> a == c) by (bit_vector);
    assert(x ^ (x << 13u32) == y ^ (y << 13u32) ==> x == y) by (bit_vector);
}

/// The zero state is a fixed point of xorshift32.
pub proof fn lemma_xorshift32_zero_fixed()
    ensures
        xorshift32_spec(0) == 0,
{
    assert(((0u32 ^ (0u32 << 13u32)) ^ ((0u32 ^ (0u32 << 13u32)) >> 17u32)) ^ (((0u32 ^ (0u32
        << 13u32)) ^ ((0u32 ^ (0u32 << 13u32)) >> 17u32)) << 5u32) == 0) by (bit_vector);
}

} // verus!
