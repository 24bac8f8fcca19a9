//! The 64-bit mixing permutation and its exact inverse.
//!
//! [`mix`] applies two rounds of xor-shift followed by a wrapping
//! multiplication, then a final xor-shift. Each round is invertible:
//! the multiplications cancel against the multiplicative inverses of
//! the round constants modulo 2^64, and an xor-shift by `s` is undone
//! by xoring with both the shift by `s` and the shift by `2 * s`.
//! [`unmix`] applies the inverted rounds in reverse order, and
//! [`lemma_unmix_mix`] and [`lemma_mix_unmix`] prove that the pair is
//! a bijection on the whole 64-bit domain.

use vstd::arithmetic::div_mod::lemma_mul_mod_noop_left;
use vstd::arithmetic::div_mod::lemma_mul_mod_noop_right;
use vstd::arithmetic::div_mod::lemma_small_mod;
use vstd::arithmetic::mul::lemma_mul_is_associative;
use vstd::prelude::*;

verus! {

/// Multiplier of the first forward round.
pub const MIX_MUL_1: u64 = 0xBF58476D1CE4E5B9;

/// Multiplier of the second forward round.
pub const MIX_MUL_2: u64 = 0x94D049BB133111EB;

/// Multiplicative inverse of [`MIX_MUL_2`] modulo 2^64.
pub const UNMIX_MUL_1: u64 = 0x319642B2D24D8EC3;

/// Multiplicative inverse of [`MIX_MUL_1`] modulo 2^64.
pub const UNMIX_MUL_2: u64 = 0x96DE1B173F119089;

/// Product of two 64-bit values, reduced modulo 2^64.
pub open spec fn wrap_mul(x: u64, y: u64) -> u64 {
    vstd::wrapping::u64_specs::wrapping_mul(x, y)
}

/// The forward permutation: three xor-shift steps interleaved with two
/// wrapping multiplications by odd constants.
pub open spec fn mix(x: u64) -> u64 {
    let a = wrap_mul(x ^ (x >> 30), MIX_MUL_1);
    let b = wrap_mul(a ^ (a >> 27), MIX_MUL_2);
    b ^ (b >> 31)
}

/// The inverse permutation: each forward step undone, in reverse order.
pub open spec fn unmix(y: u64) -> u64 {
    let b = wrap_mul(y ^ (y >> 31) ^ (y >> 62), UNMIX_MUL_1);
    let a = wrap_mul(b ^ (b >> 27) ^ (b >> 54), UNMIX_MUL_2);
    a ^ (a >> 30) ^ (a >> 60)
}

/// Multiplying by `c` and then by `d` modulo 2^64 is the identity
/// whenever `c * d == 1` modulo 2^64.
proof fn lemma_wrap_mul_cancel(v: u64, c: u64, d: u64)
    requires
        (c * d) % 0x1_0000_0000_0000_0000 == 1,
    ensures
        wrap_mul(wrap_mul(v, c), d) == v,
{
    let m: int = 0x1_0000_0000_0000_0000;
    let p: int = (v * c) % m;
    lemma_small_mod((v * c % m) as nat, m as nat);
    assert(wrap_mul(v, c) == p as u64);
    lemma_mul_mod_noop_left(v * c, d as int, m);
    assert((p * d) % m == (v * c * d) % m);
    lemma_mul_is_associative(v as int, c as int, d as int);
    lemma_mul_mod_noop_right(v as int, c * d, m);
    assert((v * c * d) % m == (v * ((c * d) % m)) % m);
    lemma_small_mod(v as nat, m as nat);
    assert((p * d) % m == v as int);
    lemma_small_mod((p * d % m) as nat, m as nat);
    assert(wrap_mul(wrap_mul(v, c), d) == ((p * d) % m) as u64);
}

/// The two forward round constants cancel against their inverses.
proof fn lemma_round_constants()
    ensures
        (MIX_MUL_1 * UNMIX_MUL_2) % 0x1_0000_0000_0000_0000 == 1,
        (MIX_MUL_2 * UNMIX_MUL_1) % 0x1_0000_0000_0000_0000 == 1,
{
}

/// Unmixing a mixed value recovers the original: the inverse rounds
/// cancel the forward rounds one by one.
pub proof fn lemma_unmix_mix(x: u64)
    ensures
        unmix(mix(x)) == x,
{
    lemma_round_constants();
    let a = wrap_mul(x ^ (x >> 30), MIX_MUL_1);
    let b = wrap_mul(a ^ (a >> 27), MIX_MUL_2);
    let y = b ^ (b >> 31);
    assert(y ^ (y >> 31) ^ (y >> 62) == b) by (bit_vector)
        requires
            y == b ^ (b >> 31),
    ;
    lemma_wrap_mul_cancel(a ^ (a >> 27), MIX_MUL_2, UNMIX_MUL_1);
    let b2 = wrap_mul(y ^ (y >> 31) ^ (y >> 62), UNMIX_MUL_1);
    assert(b2 == a ^ (a >> 27));
    assert(b2 ^ (b2 >> 27) ^ (b2 >> 54) == a) by (bit_vector)
        requires
            b2 == a ^ (a >> 27),
    ;
    lemma_wrap_mul_cancel(x ^ (x >> 30), MIX_MUL_1, UNMIX_MUL_2);
    let a2 = wrap_mul(b2 ^ (b2 >> 27) ^ (b2 >> 54), UNMIX_MUL_2);
    assert(a2 == x ^ (x >> 30));
    assert(a2 ^ (a2 >> 30) ^ (a2 >> 60) == x) by (bit_vector)
        requires
            a2 == x ^ (x >> 30),
    ;
}

/// Mixing an unmixed value recovers the original: [`mix`] is onto the
/// whole 64-bit domain, so the pair is a bijection.
pub proof fn lemma_mix_unmix(y: u64)
    ensures
        mix(unmix(y)) == y,
{
    lemma_round_constants();
    let b = wrap_mul(y ^ (y >> 31) ^ (y >> 62), UNMIX_MUL_1);
    let a = wrap_mul(b ^ (b >> 27) ^ (b >> 54), UNMIX_MUL_2);
    let x = a ^ (a >> 30) ^ (a >> 60);
    assert(x ^ (x >> 30) == a) by (bit_vector)
        requires
            x == a ^ (a >> 30) ^ (a >> 60),
    ;
    lemma_wrap_mul_cancel(b ^ (b >> 27) ^ (b >> 54), UNMIX_MUL_2, MIX_MUL_1);
    let a2 = wrap_mul(x ^ (x >> 30), MIX_MUL_1);
    assert(a2 == b ^ (b >> 27) ^ (b >> 54));
    assert(a2 ^ (a2 >> 27) == b) by (bit_vector)
        requires
            a2 == b ^ (b >> 27) ^ (b >> 54),
    ;
    lemma_wrap_mul_cancel(y ^ (y >> 31) ^ (y >> 62), UNMIX_MUL_1, MIX_MUL_2);
    let b2 = wrap_mul(a2 ^ (a2 >> 27), MIX_MUL_2);
    assert(b2 == y ^ (y >> 31) ^ (y >> 62));
    assert(b2 ^ (b2 >> 31) == y) by (bit_vector)
        requires
            b2 == y ^ (y >> 31) ^ (y >> 62),
    ;
}

/// No two distinct inputs mix to the same value.
pub proof fn lemma_mix_injective(x1: u64, x2: u64)
    requires
        mix(x1) == mix(x2),
    ensures
        x1 == x2,
{
    lemma_unmix_mix(x1);
    lemma_unmix_mix(x2);
}

} // verus!
