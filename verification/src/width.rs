//! The value space of a fixed-width integer: its bounds, two's complement,
//! and the wrap-around that brings any integer back into it.

use vstd::arithmetic::div_mod::{
    lemma_add_mod_noop, lemma_fundamental_div_mod_converse_mod, lemma_mod_bound,
    lemma_mod_multiples_vanish, lemma_small_mod,
};
use vstd::arithmetic::power2::{
    lemma2_to64, lemma2_to64_rest, lemma_pow2_adds, lemma_pow2_pos, lemma_pow2_unfold, pow2,
};
use vstd::prelude::*;

verus! {

/// The number of values of a `bits`-bit integer, `2^bits`.
pub open spec fn modulus(bits: nat) -> int {
    pow2(bits) as int
}

/// The smallest value of a `bits`-bit integer.
pub open spec fn min_value(bits: nat, signed: bool) -> int {
    if signed {
        -(pow2((bits - 1) as nat) as int)
    } else {
        0
    }
}

/// The largest value of a `bits`-bit integer.
pub open spec fn max_value(bits: nat, signed: bool) -> int {
    if signed {
        pow2((bits - 1) as nat) - 1
    } else {
        pow2(bits) - 1
    }
}

/// Whether `x` is a value of a `bits`-bit integer.
pub open spec fn in_range(x: int, bits: nat, signed: bool) -> bool {
    min_value(bits, signed) <= x <= max_value(bits, signed)
}

/// The signed integer whose `bits`-bit two's complement pattern, read as an
/// unsigned number, is `raw`.
pub open spec fn from_twos_complement(raw: int, bits: nat) -> int {
    if raw < pow2((bits - 1) as nat) {
        raw
    } else {
        raw - modulus(bits)
    }
}

/// The `bits`-bit two's complement pattern of `x`, read as an unsigned number.
pub open spec fn to_twos_complement(x: int, bits: nat) -> int {
    x % modulus(bits)
}

/// `x` reduced into the value space of a `bits`-bit integer: modulo `2^bits`
/// for an unsigned one, and modulo `2^bits` read back as two's complement for
/// a signed one.
pub open spec fn wrap(x: int, bits: nat, signed: bool) -> int {
    if signed {
        from_twos_complement(x % modulus(bits), bits)
    } else {
        x % modulus(bits)
    }
}

/// The powers of two that bound the native integer types.
pub proof fn lemma_native_bounds()
    ensures
        pow2(7) == 0x80,
        pow2(8) == 0x100,
        pow2(15) == 0x8000,
        pow2(16) == 0x1_0000,
        pow2(31) == 0x8000_0000,
        pow2(32) == 0x1_0000_0000,
        pow2(63) == 0x8000_0000_0000_0000,
        pow2(64) == 0x1_0000_0000_0000_0000,
        pow2(127) == 0x8000_0000_0000_0000_0000_0000_0000_0000,
        pow2(128) == 0x1_0000_0000_0000_0000_0000_0000_0000_0000,
{
    lemma2_to64();
    lemma2_to64_rest();
    lemma_pow2_adds(64, 63);
    lemma_pow2_adds(64, 64);
}

/// The modulus of a width of at least one bit is twice its signed bound.
pub proof fn lemma_modulus_halves(bits: nat)
    requires
        0 < bits,
    ensures
        modulus(bits) == 2 * pow2((bits - 1) as nat),
        pow2((bits - 1) as nat) > 0,
{
    lemma_pow2_unfold(bits);
    lemma_pow2_pos((bits - 1) as nat);
}

/// Zero is a value of every width of at least one bit.
pub proof fn lemma_zero_in_range(bits: nat, signed: bool)
    requires
        0 < bits,
    ensures
        in_range(0, bits, signed),
{
    lemma_modulus_halves(bits);
}

/// Wrapping lands in the value space.
pub proof fn lemma_wrap_in_range(x: int, bits: nat, signed: bool)
    requires
        0 < bits,
    ensures
        in_range(wrap(x, bits, signed), bits, signed),
{
    lemma_modulus_halves(bits);
    lemma_mod_bound(x, modulus(bits));
}

/// Wrapping leaves the values of the value space where they are.
pub proof fn lemma_wrap_of_value(x: int, bits: nat, signed: bool)
    requires
        0 < bits,
        in_range(x, bits, signed),
    ensures
        wrap(x, bits, signed) == x,
{
    lemma_modulus_halves(bits);
    let m = modulus(bits);
    if x >= 0 {
        lemma_small_mod(x as nat, m as nat);
    } else {
        lemma_fundamental_div_mod_converse_mod(x, m, -1, x + m);
    }
}

/// One past the largest value wraps to the smallest.
pub proof fn lemma_wrap_past_max(bits: nat, signed: bool)
    requires
        0 < bits,
    ensures
        wrap(max_value(bits, signed) + 1, bits, signed) == min_value(bits, signed),
{
    lemma_modulus_halves(bits);
    let m = modulus(bits);
    if signed {
        lemma_small_mod((m / 2) as nat, m as nat);
    } else {
        lemma_fundamental_div_mod_converse_mod(m, m, 1, 0);
    }
}

/// Wrapping is congruent to the identity modulo `2^bits`.
pub proof fn lemma_wrap_congruent(x: int, bits: nat, signed: bool)
    requires
        0 < bits,
    ensures
        wrap(x, bits, signed) % modulus(bits) == x % modulus(bits),
{
    lemma_modulus_halves(bits);
    let m = modulus(bits);
    let r = x % m;
    lemma_mod_bound(x, m);
    lemma_small_mod(r as nat, m as nat);
    if signed && r >= m / 2 {
        lemma_fundamental_div_mod_converse_mod(r - m, m, -1, r);
    }
}

/// A wrapped term of a sum may be wrapped or not: the wrapped sum is the same.
pub proof fn lemma_wrap_absorbs(x: int, y: int, bits: nat, signed: bool)
    requires
        0 < bits,
    ensures
        wrap(wrap(x, bits, signed) + y, bits, signed) == wrap(x + y, bits, signed),
{
    lemma_modulus_halves(bits);
    let m = modulus(bits);
    lemma_wrap_congruent(x, bits, signed);
    lemma_add_mod_noop(wrap(x, bits, signed), y, m);
    lemma_add_mod_noop(x, y, m);
}

/// A pattern of `bits` bits is the two's complement of the signed integer it
/// stands for.
pub proof fn lemma_twos_complement_round_trip(raw: int, bits: nat)
    requires
        0 < bits,
        0 <= raw < modulus(bits),
    ensures
        in_range(from_twos_complement(raw, bits), bits, true),
        to_twos_complement(from_twos_complement(raw, bits), bits) == raw,
        wrap(raw, bits, true) == from_twos_complement(raw, bits),
{
    lemma_modulus_halves(bits);
    let m = modulus(bits);
    lemma_small_mod(raw as nat, m as nat);
    if raw >= m / 2 {
        lemma_fundamental_div_mod_converse_mod(raw - m, m, -1, raw);
    }
}

/// Adding two patterns modulo `2^bits` adds the signed integers they stand
/// for, with wrap-around.
pub proof fn lemma_twos_complement_add(a: int, b: int, bits: nat)
    requires
        0 < bits,
        0 <= a < modulus(bits),
        0 <= b < modulus(bits),
    ensures
        from_twos_complement((a + b) % modulus(bits), bits) == wrap(
            from_twos_complement(a, bits) + from_twos_complement(b, bits),
            bits,
            true,
        ),
{
    let m = modulus(bits);
    let x = from_twos_complement(a, bits);
    let y = from_twos_complement(b, bits);
    lemma_modulus_halves(bits);
    lemma_twos_complement_round_trip(a, bits);
    lemma_twos_complement_round_trip(b, bits);
    lemma_add_mod_noop(x, y, m);
    lemma_add_mod_noop(a, b, m);
    lemma_small_mod(a as nat, m as nat);
    lemma_small_mod(b as nat, m as nat);
}

/// Adding the signed integer whose `bits`-bit pattern is one adds one, with
/// wrap-around. That integer is one itself, but for the width of a single
/// bit, where it is minus one, which differs from one by the modulus.
pub proof fn lemma_pattern_one_adds_one(x: int, bits: nat)
    requires
        0 < bits,
    ensures
        wrap(x + from_twos_complement(1, bits), bits, true) == wrap(x + 1, bits, true),
{
    lemma_modulus_halves(bits);
    if from_twos_complement(1, bits) != 1 {
        lemma_mod_multiples_vanish(-1, x + 1, modulus(bits));
    }
}

} // verus!
