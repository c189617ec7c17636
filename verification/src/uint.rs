//! Unsigned integers of an exact bit width.

use crate::backend::uint_wrapping_add;
use crate::limbs::{
    lemma_fits_by_top_limb, lemma_limbs_value_injective, lemma_limbs_value_low,
    lemma_limbs_value_one, lemma_limbs_value_two, lemma_limbs_value_zero, limb_count, limbs_value,
};
use crate::width::{in_range, lemma_modulus_halves, lemma_native_bounds, wrap};
use vstd::arithmetic::power2::{lemma_pow2_pos, pow2};
use vstd::bits::{lemma_u64_pow2_no_overflow, lemma_u64_shl_is_mul};
use vstd::prelude::*;

verus! {

/// An unsigned integer of exactly `BITS` bits, held in `LIMBS` 64-bit limbs,
/// least significant first.
///
/// Every value of this type is below `2^BITS`, and `LIMBS` is the number of
/// limbs that `BITS` bits need: the type admits no other value.
#[derive(Clone, Copy, Debug, PartialEq, Eq)]
pub struct Uint<const BITS: usize, const LIMBS: usize> {
    limbs: [u64; LIMBS],
}

/// The unsigned integers of 8 bits.
pub type U8 = Uint<8, 1>;

/// The unsigned integers of 16 bits.
pub type U16 = Uint<16, 1>;

/// The unsigned integers of 24 bits.
pub type U24 = Uint<24, 1>;

/// The unsigned integers of 32 bits.
pub type U32 = Uint<32, 1>;

/// The unsigned integers of 64 bits.
pub type U64 = Uint<64, 1>;

/// The unsigned integers of 128 bits.
pub type U128 = Uint<128, 2>;

/// The unsigned integers of 160 bits.
pub type U160 = Uint<160, 3>;

/// The unsigned integers of 200 bits.
pub type U200 = Uint<200, 4>;

/// The unsigned integers of 256 bits.
pub type U256 = Uint<256, 4>;

impl<const BITS: usize, const LIMBS: usize> View for Uint<BITS, LIMBS> {
    type V = nat;

    /// The number that the integer holds.
    open spec fn view(&self) -> nat {
        limbs_value(self.limbs())
    }
}

impl<const BITS: usize, const LIMBS: usize> Uint<BITS, LIMBS> {
    /// The limbs of the integer, least significant first.
    pub closed spec fn limbs(self) -> Seq<u64> {
        self.limbs@
    }

    /// Whether `BITS` and `LIMBS` describe a width that has values: at least
    /// one bit, in exactly as many limbs as the bits need.
    pub open spec fn width_ok() -> bool {
        0 < BITS && LIMBS == limb_count(BITS as nat)
    }

    /// Whether `limbs` are the limbs of a value of this type.
    pub open spec fn admits(limbs: Seq<u64>) -> bool {
        Self::width_ok() && limbs.len() == LIMBS && limbs_value(limbs) < pow2(BITS as nat)
    }

    /// What holds of every value of this type.
    #[verifier::type_invariant]
    pub open spec fn well_formed(self) -> bool {
        Self::admits(self.limbs())
    }

    /// A well-formed integer lies in the value space of its width.
    pub proof fn lemma_in_range(self)
        requires
            self.well_formed(),
        ensures
            in_range(self@ as int, BITS as nat, false),
    {
    }

    /// Two integers that hold the same number are the same integer: the view
    /// leaves nothing out.
    pub proof fn lemma_view_is_injective(self, other: Self)
        requires
            self.well_formed(),
            other.well_formed(),
            self@ == other@,
        ensures
            self == other,
    {
        lemma_limbs_value_injective(self.limbs(), other.limbs());
        assert(self.limbs =~= other.limbs);
    }

    /// The integer with the given limbs, if there is one: `None` where the
    /// limbs denote a number of more than `BITS` bits, or where the type's
    /// parameters describe no width.
    pub fn from_limbs(limbs: [u64; LIMBS]) -> (r: Option<Self>)
        ensures
            r is Some <==> Self::admits(limbs@),
            r matches Some(v) ==> v.limbs() == limbs@,
    {
        if BITS == 0 {
            return None;
        }
        let used = BITS % 64;
        let count = if used == 0 {
            BITS / 64
        } else {
            BITS / 64 + 1
        };
        if LIMBS != count {
            return None;
        }
        proof {
            lemma_fits_by_top_limb(limbs@, BITS as nat);
        }
        if used != 0 {
            let used = used as u64;
            let bound = 1u64 << used;
            proof {
                lemma_u64_pow2_no_overflow(used as nat);
                lemma_u64_shl_is_mul(1, used);
            }
            if limbs[LIMBS - 1] >= bound {
                return None;
            }
        }
        Some(Uint { limbs })
    }

    /// The limbs of the integer, least significant first.
    pub fn into_limbs(self) -> (r: [u64; LIMBS])
        ensures
            r@ == self.limbs(),
            Self::admits(r@),
    {
        proof {
            use_type_invariant(&self);
        }
        self.limbs
    }

    /// Zero.
    pub(crate) fn zero() -> (r: Self)
        requires
            Self::width_ok(),
        ensures
            r@ == 0,
    {
        let limbs = [0u64; LIMBS];
        proof {
            lemma_limbs_value_zero(limbs@);
            lemma_pow2_pos(BITS as nat);
        }
        Uint { limbs }
    }

    /// One.
    pub(crate) fn one() -> (r: Self)
        requires
            Self::width_ok(),
        ensures
            r@ == 1,
    {
        let mut limbs = [0u64; LIMBS];
        limbs[0] = 1;
        proof {
            lemma_limbs_value_low(limbs@, 1);
            lemma_modulus_halves(BITS as nat);
        }
        Uint { limbs }
    }

    /// `self + rhs` modulo `2^BITS`.
    pub fn wrapping_add(self, rhs: Self) -> (r: Self)
        ensures
            r@ == wrap((self@ + rhs@) as int, BITS as nat, false),
    {
        proof {
            use_type_invariant(&self);
            use_type_invariant(&rhs);
            lemma_pow2_pos(BITS as nat);
        }
        let limbs = uint_wrapping_add::<BITS, LIMBS>(self.limbs, rhs.limbs);
        Uint { limbs }
    }

    /// `self + 1` modulo `2^BITS`: the largest value is followed by zero.
    pub fn increment(self) -> (r: Self)
        ensures
            r@ == wrap((self@ + 1) as int, BITS as nat, false),
    {
        proof {
            use_type_invariant(&self);
        }
        self.wrapping_add(Self::one())
    }
}

impl Uint<8, 1> {
    /// The 8-bit integer that equals the native one: the same number in
    /// the same bits.
    pub fn from_native(v: u8) -> (r: Self)
        ensures
            r@ == v,
    {
        let limbs = [v as u64];
        proof {
            lemma_native_bounds();
            lemma_limbs_value_one(limbs@);
        }
        Uint { limbs }
    }

    /// The native integer that equals this one: the same number in the same
    /// bits.
    pub fn to_native(self) -> (r: u8)
        ensures
            r == self@,
    {
        proof {
            use_type_invariant(&self);
            lemma_native_bounds();
            lemma_limbs_value_one(self.limbs@);
        }
        self.limbs[0] as u8
    }
}

impl Uint<16, 1> {
    /// The 16-bit integer that equals the native one: the same number in
    /// the same bits.
    pub fn from_native(v: u16) -> (r: Self)
        ensures
            r@ == v,
    {
        let limbs = [v as u64];
        proof {
            lemma_native_bounds();
            lemma_limbs_value_one(limbs@);
        }
        Uint { limbs }
    }

    /// The native integer that equals this one: the same number in the same
    /// bits.
    pub fn to_native(self) -> (r: u16)
        ensures
            r == self@,
    {
        proof {
            use_type_invariant(&self);
            lemma_native_bounds();
            lemma_limbs_value_one(self.limbs@);
        }
        self.limbs[0] as u16
    }
}

impl Uint<32, 1> {
    /// The 32-bit integer that equals the native one: the same number in
    /// the same bits.
    pub fn from_native(v: u32) -> (r: Self)
        ensures
            r@ == v,
    {
        let limbs = [v as u64];
        proof {
            lemma_native_bounds();
            lemma_limbs_value_one(limbs@);
        }
        Uint { limbs }
    }

    /// The native integer that equals this one: the same number in the same
    /// bits.
    pub fn to_native(self) -> (r: u32)
        ensures
            r == self@,
    {
        proof {
            use_type_invariant(&self);
            lemma_native_bounds();
            lemma_limbs_value_one(self.limbs@);
        }
        self.limbs[0] as u32
    }
}

impl Uint<64, 1> {
    /// The 64-bit integer that equals the native one: the same number in
    /// the same bits.
    pub fn from_native(v: u64) -> (r: Self)
        ensures
            r@ == v,
    {
        let limbs = [v];
        proof {
            lemma_native_bounds();
            lemma_limbs_value_one(limbs@);
        }
        Uint { limbs }
    }

    /// The native integer that equals this one: the same number in the same
    /// bits.
    pub fn to_native(self) -> (r: u64)
        ensures
            r == self@,
    {
        proof {
            use_type_invariant(&self);
            lemma_native_bounds();
            lemma_limbs_value_one(self.limbs@);
        }
        self.limbs[0]
    }
}

impl Uint<128, 2> {
    /// The 128-bit integer that equals the native one: the same number in
    /// the same bits.
    pub fn from_native(v: u128) -> (r: Self)
        ensures
            r@ == v,
    {
        let low = #[verifier::truncate] (v as u64);
        let high = (v >> 64) as u64;
        let limbs = [low, high];
        proof {
            assert((v >> 64u128) <= 0xffff_ffff_ffff_ffff && v == (v as u64) + (v >> 64u128)
                * 0x1_0000_0000_0000_0000) by (bit_vector);
            lemma_native_bounds();
            lemma_limbs_value_two(limbs@);
        }
        Uint { limbs }
    }

    /// The native integer that equals this one: the same number in the same
    /// bits.
    pub fn to_native(self) -> (r: u128)
        ensures
            r == self@,
    {
        let low = self.limbs[0];
        let high = self.limbs[1];
        proof {
            assert(((high as u128) << 64u128) | (low as u128) == low + high
                * 0x1_0000_0000_0000_0000) by (bit_vector);
            lemma_limbs_value_two(self.limbs@);
        }
        ((high as u128) << 64) | (low as u128)
    }
}

} // verus!
