//! Signed integers of an exact bit width, in two's complement.

use crate::backend::signed_wrapping_add;
use crate::limbs::{
    lemma_fits_by_top_limb, lemma_limbs_value_injective, lemma_limbs_value_low,
    lemma_limbs_value_one, lemma_limbs_value_two, lemma_limbs_value_zero, limb_count, limbs_value,
};
use crate::width::{
    from_twos_complement, in_range, lemma_modulus_halves, lemma_native_bounds,
    lemma_pattern_one_adds_one, lemma_twos_complement_add, lemma_twos_complement_round_trip,
    to_twos_complement, wrap,
};
use vstd::arithmetic::power2::{lemma_pow2_pos, pow2};
use vstd::bits::{lemma_u64_pow2_no_overflow, lemma_u64_shl_is_mul};
use vstd::prelude::*;

verus! {

/// A signed integer of exactly `BITS` bits, held as its two's complement
/// pattern in `LIMBS` 64-bit limbs, least significant first.
///
/// Every value of this type has a pattern below `2^BITS`, and `LIMBS` is the
/// number of limbs that `BITS` bits need: the type admits no other value.
#[derive(Clone, Copy, Debug, PartialEq, Eq)]
pub struct Signed<const BITS: usize, const LIMBS: usize> {
    limbs: [u64; LIMBS],
}

/// The signed integers of 8 bits.
pub type I8 = Signed<8, 1>;

/// The signed integers of 16 bits.
pub type I16 = Signed<16, 1>;

/// The signed integers of 24 bits.
pub type I24 = Signed<24, 1>;

/// The signed integers of 32 bits.
pub type I32 = Signed<32, 1>;

/// The signed integers of 64 bits.
pub type I64 = Signed<64, 1>;

/// The signed integers of 128 bits.
pub type I128 = Signed<128, 2>;

/// The signed integers of 160 bits.
pub type I160 = Signed<160, 3>;

/// The signed integers of 200 bits.
pub type I200 = Signed<200, 4>;

/// The signed integers of 256 bits.
pub type I256 = Signed<256, 4>;

impl<const BITS: usize, const LIMBS: usize> View for Signed<BITS, LIMBS> {
    type V = int;

    /// The number that the integer holds.
    open spec fn view(&self) -> int {
        from_twos_complement(self.pattern() as int, BITS as nat)
    }
}

impl<const BITS: usize, const LIMBS: usize> Signed<BITS, LIMBS> {
    /// The limbs of the integer's two's complement pattern, least significant
    /// first.
    pub closed spec fn limbs(self) -> Seq<u64> {
        self.limbs@
    }

    /// The integer's two's complement pattern, read as an unsigned number.
    pub open spec fn pattern(self) -> nat {
        limbs_value(self.limbs())
    }

    /// Whether `BITS` and `LIMBS` describe a width that has values: at least
    /// one bit, in exactly as many limbs as the bits need.
    pub open spec fn width_ok() -> bool {
        0 < BITS && LIMBS == limb_count(BITS as nat)
    }

    /// Whether `limbs` are the limbs of a value of this type.
    pub open spec fn admits(limbs: Seq<u64>) -> bool {
        Self::width_ok() && limbs.len() == LIMBS && limbs_value(limbs) < pow2(BITS as nat)
    }

    /// What holds of every value of this type.
    #[verifier::type_invariant]
    pub open spec fn well_formed(self) -> bool {
        Self::admits(self.limbs())
    }

    /// A well-formed integer lies in the value space of its width, and its
    /// pattern is the two's complement of the number it holds.
    pub proof fn lemma_in_range(self)
        requires
            self.well_formed(),
        ensures
            in_range(self@, BITS as nat, true),
            to_twos_complement(self@, BITS as nat) == self.pattern(),
    {
        lemma_twos_complement_round_trip(self.pattern() as int, BITS as nat);
    }

    /// Two integers that hold the same number are the same integer: the view
    /// leaves nothing out.
    pub proof fn lemma_view_is_injective(self, other: Self)
        requires
            self.well_formed(),
            other.well_formed(),
            self@ == other@,
        ensures
            self == other,
    {
        self.lemma_in_range();
        other.lemma_in_range();
        lemma_limbs_value_injective(self.limbs(), other.limbs());
        assert(self.limbs =~= other.limbs);
    }

    /// The integer with the given two's complement limbs, if there is one:
    /// `None` where the limbs denote a pattern of more than `BITS` bits, or
    /// where the type's parameters describe no width.
    pub fn from_limbs(limbs: [u64; LIMBS]) -> (r: Option<Self>)
        ensures
            r is Some <==> Self::admits(limbs@),
            r matches Some(v) ==> v.limbs() == limbs@,
    {
        if BITS == 0 {
            return None;
        }
        let used = BITS % 64;
        let count = if used == 0 {
            BITS / 64
        } else {
            BITS / 64 + 1
        };
        if LIMBS != count {
            return None;
        }
        proof {
            lemma_fits_by_top_limb(limbs@, BITS as nat);
        }
        if used != 0 {
            let used = used as u64;
            let bound = 1u64 << used;
            proof {
                lemma_u64_pow2_no_overflow(used as nat);
                lemma_u64_shl_is_mul(1, used);
            }
            if limbs[LIMBS - 1] >= bound {
                return None;
            }
        }
        Some(Signed { limbs })
    }

    /// The limbs of the integer's two's complement pattern, least significant
    /// first.
    pub fn into_limbs(self) -> (r: [u64; LIMBS])
        ensures
            r@ == self.limbs(),
            Self::admits(r@),
    {
        proof {
            use_type_invariant(&self);
        }
        self.limbs
    }

    /// Zero.
    pub(crate) fn zero() -> (r: Self)
        requires
            Self::width_ok(),
        ensures
            r@ == 0,
    {
        let limbs = [0u64; LIMBS];
        proof {
            lemma_limbs_value_zero(limbs@);
            lemma_modulus_halves(BITS as nat);
        }
        Signed { limbs }
    }

    /// The integer whose pattern is one: one itself, but for the width of a
    /// single bit, where it is minus one.
    pub(crate) fn pattern_one() -> (r: Self)
        requires
            Self::width_ok(),
        ensures
            r.pattern() == 1,
    {
        let mut limbs = [0u64; LIMBS];
        limbs[0] = 1;
        proof {
            lemma_limbs_value_low(limbs@, 1);
            lemma_modulus_halves(BITS as nat);
        }
        Signed { limbs }
    }

    /// `self + rhs` in two's complement arithmetic modulo `2^BITS`.
    pub fn wrapping_add(self, rhs: Self) -> (r: Self)
        ensures
            r@ == wrap(self@ + rhs@, BITS as nat, true),
    {
        proof {
            use_type_invariant(&self);
            use_type_invariant(&rhs);
            lemma_pow2_pos(BITS as nat);
            lemma_twos_complement_add(self.pattern() as int, rhs.pattern() as int, BITS as nat);
        }
        let limbs = signed_wrapping_add::<BITS, LIMBS>(self.limbs, rhs.limbs);
        Signed { limbs }
    }

    /// `self + 1` in two's complement arithmetic modulo `2^BITS`: the largest
    /// value is followed by the smallest.
    pub fn increment(self) -> (r: Self)
        ensures
            r@ == wrap(self@ + 1, BITS as nat, true),
    {
        proof {
            use_type_invariant(&self);
            lemma_pattern_one_adds_one(self@, BITS as nat);
        }
        self.wrapping_add(Self::pattern_one())
    }
}

impl Signed<8, 1> {
    /// The 8-bit integer that equals the native one: the same number in
    /// the same two's complement pattern.
    pub fn from_native(v: i8) -> (r: Self)
        ensures
            r@ == v,
            r.pattern() == v as u8,
    {
        let limbs = [(v as u8) as u64];
        proof {
            assert((v as u8) as int == if v < 0 {
                v + 0x100
            } else {
                v as int
            }) by (bit_vector);
            lemma_native_bounds();
            lemma_limbs_value_one(limbs@);
        }
        Signed { limbs }
    }

    /// The native integer that equals this one: the same number in the same
    /// two's complement pattern.
    pub fn to_native(self) -> (r: i8)
        ensures
            r == self@,
            r as u8 == self.pattern(),
    {
        let raw = self.limbs[0];
        proof {
            use_type_invariant(&self);
            lemma_native_bounds();
            lemma_limbs_value_one(self.limbs@);
            assert(raw < 0x100 ==> ((raw as u8) as i8) as int == if raw < 0x80 {
                raw as int
            } else {
                raw - 0x100
            }) by (bit_vector);
            assert(raw < 0x100 ==> ((raw as u8) as i8) as u8 == raw) by (bit_vector);
        }
        (raw as u8) as i8
    }
}

impl Signed<16, 1> {
    /// The 16-bit integer that equals the native one: the same number in
    /// the same two's complement pattern.
    pub fn from_native(v: i16) -> (r: Self)
        ensures
            r@ == v,
            r.pattern() == v as u16,
    {
        let limbs = [(v as u16) as u64];
        proof {
            assert((v as u16) as int == if v < 0 {
                v + 0x1_0000
            } else {
                v as int
            }) by (bit_vector);
            lemma_native_bounds();
            lemma_limbs_value_one(limbs@);
        }
        Signed { limbs }
    }

    /// The native integer that equals this one: the same number in the same
    /// two's complement pattern.
    pub fn to_native(self) -> (r: i16)
        ensures
            r == self@,
            r as u16 == self.pattern(),
    {
        let raw = self.limbs[0];
        proof {
            use_type_invariant(&self);
            lemma_native_bounds();
            lemma_limbs_value_one(self.limbs@);
            assert(raw < 0x1_0000 ==> ((raw as u16) as i16) as int == if raw < 0x8000 {
                raw as int
            } else {
                raw - 0x1_0000
            }) by (bit_vector);
            assert(raw < 0x1_0000 ==> ((raw as u16) as i16) as u16 == raw) by (bit_vector);
        }
        (raw as u16) as i16
    }
}

impl Signed<32, 1> {
    /// The 32-bit integer that equals the native one: the same number in
    /// the same two's complement pattern.
    pub fn from_native(v: i32) -> (r: Self)
        ensures
            r@ == v,
            r.pattern() == v as u32,
    {
        let limbs = [(v as u32) as u64];
        proof {
            assert((v as u32) as int == if v < 0 {
                v + 0x1_0000_0000
            } else {
                v as int
            }) by (bit_vector);
            lemma_native_bounds();
            lemma_limbs_value_one(limbs@);
        }
        Signed { limbs }
    }

    /// The native integer that equals this one: the same number in the same
    /// two's complement pattern.
    pub fn to_native(self) -> (r: i32)
        ensures
            r == self@,
            r as u32 == self.pattern(),
    {
        let raw = self.limbs[0];
        proof {
            use_type_invariant(&self);
            lemma_native_bounds();
            lemma_limbs_value_one(self.limbs@);
            assert(raw < 0x1_0000_0000 ==> ((raw as u32) as i32) as int == if raw < 0x8000_0000 {
                raw as int
            } else {
                raw - 0x1_0000_0000
            }) by (bit_vector);
            assert(raw < 0x1_0000_0000 ==> ((raw as u32) as i32) as u32 == raw) by (bit_vector);
        }
        (raw as u32) as i32
    }
}

impl Signed<64, 1> {
    /// The 64-bit integer that equals the native one: the same number in
    /// the same two's complement pattern.
    pub fn from_native(v: i64) -> (r: Self)
        ensures
            r@ == v,
            r.pattern() == v as u64,
    {
        let limbs = [v as u64];
        proof {
            assert((v as u64) as int == if v < 0 {
                v + 0x1_0000_0000_0000_0000
            } else {
                v as int
            }) by (bit_vector);
            lemma_native_bounds();
            lemma_limbs_value_one(limbs@);
        }
        Signed { limbs }
    }

    /// The native integer that equals this one: the same number in the same
    /// two's complement pattern.
    pub fn to_native(self) -> (r: i64)
        ensures
            r == self@,
            r as u64 == self.pattern(),
    {
        let raw = self.limbs[0];
        proof {
            use_type_invariant(&self);
            lemma_native_bounds();
            lemma_limbs_value_one(self.limbs@);
            assert((raw as i64) as int == if raw < 0x8000_0000_0000_0000 {
                raw as int
            } else {
                raw - 0x1_0000_0000_0000_0000
            }) by (bit_vector);
            assert((raw as i64) as u64 == raw) by (bit_vector);
        }
        raw as i64
    }
}

impl Signed<128, 2> {
    /// The 128-bit integer that equals the native one: the same number in
    /// the same two's complement pattern.
    pub fn from_native(v: i128) -> (r: Self)
        ensures
            r@ == v,
            r.pattern() == v as u128,
    {
        let raw = v as u128;
        let low = #[verifier::truncate] (raw as u64);
        let high = (raw >> 64) as u64;
        let limbs = [low, high];
        proof {
            assert((v as u128) as int == if v < 0 {
                v + 0x1_0000_0000_0000_0000_0000_0000_0000_0000
            } else {
                v as int
            }) by (bit_vector);
            assert((raw >> 64u128) <= 0xffff_ffff_ffff_ffff && raw == (raw as u64) + (raw >> 64u128)
                * 0x1_0000_0000_0000_0000) by (bit_vector);
            lemma_native_bounds();
            lemma_limbs_value_two(limbs@);
        }
        Signed { limbs }
    }

    /// The native integer that equals this one: the same number in the same
    /// two's complement pattern.
    pub fn to_native(self) -> (r: i128)
        ensures
            r == self@,
            r as u128 == self.pattern(),
    {
        let low = self.limbs[0];
        let high = self.limbs[1];
        let raw = ((high as u128) << 64) | (low as u128);
        proof {
            assert(((high as u128) << 64u128) | (low as u128) == low + high
                * 0x1_0000_0000_0000_0000) by (bit_vector);
            lemma_native_bounds();
            lemma_limbs_value_two(self.limbs@);
            assert((raw as i128) as int == if raw < 0x8000_0000_0000_0000_0000_0000_0000_0000 {
                raw as int
            } else {
                raw - 0x1_0000_0000_0000_0000_0000_0000_0000_0000
            }) by (bit_vector);
            assert((raw as i128) as u128 == raw) by (bit_vector);
        }
        raw as i128
    }
}

} // verus!
