//! Little-endian sequences of 64-bit limbs and the natural numbers they denote.
//!
//! Every fixed-width integer of this crate is stored as such a sequence, least
//! significant limb first. The functions here give the sequences their
//! meaning; the lemmas are what the rest of the crate needs to reason about
//! them.

use vstd::arithmetic::div_mod::lemma_fundamental_div_mod_converse;
use vstd::arithmetic::mul::{lemma_mul_inequality, lemma_mul_is_distributive_add_other_way};
use vstd::arithmetic::power2::{lemma2_to64, lemma_pow2_adds, lemma_pow2_pos, pow2};
use vstd::prelude::*;

verus! {

/// The natural number denoted by `limbs`, least significant limb first.
pub open spec fn limbs_value(limbs: Seq<u64>) -> nat
    decreases limbs.len(),
{
    if limbs.len() == 0 {
        0
    } else {
        limbs_value(limbs.drop_last()) + limbs.last() as nat * pow2(
            (64 * (limbs.len() - 1)) as nat,
        )
    }
}

/// How many 64-bit limbs an integer of `bits` bits occupies.
pub open spec fn limb_count(bits: nat) -> nat {
    (bits + 63) / 64
}

/// How many bits of the most significant limb an integer of `bits` bits uses,
/// where 0 stands for all 64.
pub open spec fn top_bits(bits: nat) -> nat {
    bits % 64
}

/// A sequence of `n` limbs denotes a number below `2^(64 n)`.
pub proof fn lemma_limbs_value_bound(limbs: Seq<u64>)
    ensures
        limbs_value(limbs) < pow2(64 * limbs.len()),
    decreases limbs.len(),
{
    if limbs.len() == 0 {
        lemma_pow2_pos(0);
    } else {
        let rest = limbs.drop_last();
        let shift = (64 * (limbs.len() - 1)) as nat;
        let unit = pow2(shift) as int;
        let top = limbs.last() as int;
        lemma_limbs_value_bound(rest);
        lemma_pow2_pos(shift);
        lemma2_to64();
        lemma_pow2_adds(64, shift);
        lemma_mul_inequality(top, pow2(64) - 1, unit);
        lemma_mul_is_distributive_add_other_way(unit, pow2(64) - 1, 1);
        assert(64 * limbs.len() == 64 + shift);
    }
}

/// A single limb denotes itself.
pub proof fn lemma_limbs_value_one(limbs: Seq<u64>)
    requires
        limbs.len() == 1,
    ensures
        limbs_value(limbs) == limbs[0],
{
    lemma2_to64();
    assert(limbs_value(limbs.drop_last()) == 0);
    assert((64 * (limbs.len() - 1)) as nat == 0);
}

/// Two limbs denote the low limb plus `2^64` times the high limb.
pub proof fn lemma_limbs_value_two(limbs: Seq<u64>)
    requires
        limbs.len() == 2,
    ensures
        limbs_value(limbs) == limbs[0] + limbs[1] * 0x1_0000_0000_0000_0000,
{
    lemma2_to64();
    let low = limbs.drop_last();
    assert(low.len() == 1);
    assert(low[0] == limbs[0]);
    lemma_limbs_value_one(low);
    assert(limbs.last() == limbs[1]);
}

/// A sequence whose limbs are all zero denotes zero.
pub proof fn lemma_limbs_value_zero(limbs: Seq<u64>)
    requires
        forall|i: int| 0 <= i < limbs.len() ==> limbs[i] == 0,
    ensures
        limbs_value(limbs) == 0,
    decreases limbs.len(),
{
    if limbs.len() > 0 {
        lemma_limbs_value_zero(limbs.drop_last());
    }
}

/// A sequence whose limbs are all zero but for the least significant one
/// denotes that limb.
pub proof fn lemma_limbs_value_low(limbs: Seq<u64>, low: u64)
    requires
        limbs.len() > 0,
        limbs[0] == low,
        forall|i: int| 1 <= i < limbs.len() ==> limbs[i] == 0,
    ensures
        limbs_value(limbs) == low,
    decreases limbs.len(),
{
    if limbs.len() == 1 {
        lemma_limbs_value_one(limbs);
    } else {
        lemma_limbs_value_low(limbs.drop_last(), low);
    }
}

/// Whether a number held in as many limbs as `bits` bits need fits in `bits`
/// bits is decided by its most significant limb alone: it always fits where
/// the bits fill that limb, and else it fits where the limb is below two to
/// the number of bits that reach into it.
pub proof fn lemma_fits_by_top_limb(limbs: Seq<u64>, bits: nat)
    requires
        0 < bits,
        limbs.len() == limb_count(bits),
    ensures
        top_bits(bits) == 0 ==> limbs_value(limbs) < pow2(bits),
        top_bits(bits) != 0 ==> (limbs_value(limbs) < pow2(bits) <==> limbs.last() < pow2(
            top_bits(bits),
        )),
{
    let shift = (64 * (limbs.len() - 1)) as nat;
    let unit = pow2(shift) as int;
    let top = limbs.last() as int;
    lemma_limbs_value_bound(limbs);
    lemma_limbs_value_bound(limbs.drop_last());
    lemma_pow2_pos(shift);
    if top_bits(bits) == 0 {
        assert(bits == 64 * limbs.len());
    } else {
        let used = top_bits(bits);
        let bound = pow2(used) as int;
        assert(bits == used + shift);
        lemma_pow2_adds(used, shift);
        if top < bound {
            lemma_mul_inequality(top, bound - 1, unit);
            lemma_mul_is_distributive_add_other_way(unit, bound - 1, 1);
        } else {
            lemma_mul_inequality(bound, top, unit);
        }
    }
}

/// Two sequences of equally many limbs that denote the same number are the
/// same sequence.
pub proof fn lemma_limbs_value_injective(a: Seq<u64>, b: Seq<u64>)
    requires
        a.len() == b.len(),
        limbs_value(a) == limbs_value(b),
    ensures
        a == b,
    decreases a.len(),
{
    if a.len() > 0 {
        let shift = (64 * (a.len() - 1)) as nat;
        let unit = pow2(shift) as int;
        lemma_pow2_pos(shift);
        lemma_limbs_value_bound(a.drop_last());
        lemma_limbs_value_bound(b.drop_last());
        lemma_fundamental_div_mod_converse(
            limbs_value(a) as int,
            unit,
            a.last() as int,
            limbs_value(a.drop_last()) as int,
        );
        lemma_fundamental_div_mod_converse(
            limbs_value(b) as int,
            unit,
            b.last() as int,
            limbs_value(b.drop_last()) as int,
        );
        lemma_limbs_value_injective(a.drop_last(), b.drop_last());
        assert(a =~= a.drop_last().push(a.last()));
        assert(b =~= b.drop_last().push(b.last()));
    }
    assert(a =~= b);
}

} // verus!
