//! The counter state: eighteen integer slots, signed and unsigned, from 8 to
//! 256 bits wide, each read, written and incremented on its own.

use crate::signed::{I128, I16, I160, I200, I24, I256, I32, I64, I8};
use crate::state::{Slot, State};
use crate::uint::{U128, U16, U160, U200, U24, U256, U32, U64, U8};
use crate::width::{in_range, lemma_zero_in_range, to_twos_complement};
use vstd::prelude::*;

verus! {

/// The counter state.
///
/// Each slot holds an integer of its own width and signedness, and never a
/// value outside that width. The state as a whole is described by its view,
/// a [`State`]; every operation says what it does to the view.
#[derive(Debug, PartialEq, Eq)]
pub struct Counter {
    signed8: I8,
    signed16: I16,
    signed24: I24,
    signed32: I32,
    signed64: I64,
    signed128: I128,
    signed160: I160,
    signed200: I200,
    signed256: I256,
    unsigned8: U8,
    unsigned16: U16,
    unsigned24: U24,
    unsigned32: U32,
    unsigned64: U64,
    unsigned128: U128,
    unsigned160: U160,
    unsigned200: U200,
    unsigned256: U256,
}

impl View for Counter {
    type V = State;

    closed spec fn view(&self) -> State {
        State { slots: Map::new(|slot: Slot| true, |slot: Slot| self.value_of(slot)) }
    }
}

impl Clone for Counter {
    /// A counter with the same value in every slot.
    fn clone(&self) -> (r: Self)
        ensures
            r@ == self@,
    {
        proof {
            use_type_invariant(self);
        }
        let r = Counter {
            signed8: self.signed8,
            signed16: self.signed16,
            signed24: self.signed24,
            signed32: self.signed32,
            signed64: self.signed64,
            signed128: self.signed128,
            signed160: self.signed160,
            signed200: self.signed200,
            signed256: self.signed256,
            unsigned8: self.unsigned8,
            unsigned16: self.unsigned16,
            unsigned24: self.unsigned24,
            unsigned32: self.unsigned32,
            unsigned64: self.unsigned64,
            unsigned128: self.unsigned128,
            unsigned160: self.unsigned160,
            unsigned200: self.unsigned200,
            unsigned256: self.unsigned256,
        };
        proof {
            assert(r@ =~= self@);
        }
        r
    }
}

impl Counter {
    /// The value that the field behind `slot` holds.
    spec fn value_of(self, slot: Slot) -> int {
        match slot {
            Slot::Signed8 => self.signed8@,
            Slot::Signed16 => self.signed16@,
            Slot::Signed24 => self.signed24@,
            Slot::Signed32 => self.signed32@,
            Slot::Signed64 => self.signed64@,
            Slot::Signed128 => self.signed128@,
            Slot::Signed160 => self.signed160@,
            Slot::Signed200 => self.signed200@,
            Slot::Signed256 => self.signed256@,
            Slot::Unsigned8 => self.unsigned8@ as int,
            Slot::Unsigned16 => self.unsigned16@ as int,
            Slot::Unsigned24 => self.unsigned24@ as int,
            Slot::Unsigned32 => self.unsigned32@ as int,
            Slot::Unsigned64 => self.unsigned64@ as int,
            Slot::Unsigned128 => self.unsigned128@ as int,
            Slot::Unsigned160 => self.unsigned160@ as int,
            Slot::Unsigned200 => self.unsigned200@ as int,
            Slot::Unsigned256 => self.unsigned256@ as int,
        }
    }

    /// Every field holds a value of its width.
    #[verifier::type_invariant]
    spec fn fields_in_range(self) -> bool {
        &&& in_range(self.signed8@, 8, true)
        &&& in_range(self.signed16@, 16, true)
        &&& in_range(self.signed24@, 24, true)
        &&& in_range(self.signed32@, 32, true)
        &&& in_range(self.signed64@, 64, true)
        &&& in_range(self.signed128@, 128, true)
        &&& in_range(self.signed160@, 160, true)
        &&& in_range(self.signed200@, 200, true)
        &&& in_range(self.signed256@, 256, true)
        &&& in_range(self.unsigned8@ as int, 8, false)
        &&& in_range(self.unsigned16@ as int, 16, false)
        &&& in_range(self.unsigned24@ as int, 24, false)
        &&& in_range(self.unsigned32@ as int, 32, false)
        &&& in_range(self.unsigned64@ as int, 64, false)
        &&& in_range(self.unsigned128@ as int, 128, false)
        &&& in_range(self.unsigned160@ as int, 160, false)
        &&& in_range(self.unsigned200@ as int, 200, false)
        &&& in_range(self.unsigned256@ as int, 256, false)
    }

    /// A counter whose fields are in range has a valid view.
    proof fn lemma_view_is_valid(self)
        requires
            self.fields_in_range(),
        ensures
            self@.valid(),
    {
        assert forall|slot: Slot| #[trigger] slot.holds(self@.slots[slot]) by {}
    }

    /// The counter state with every slot at zero.
    pub fn new() -> (r: Self)
        ensures
            r@ == State::initial(),
            r@.valid(),
    {
        proof {
            lemma_zero_in_range(8, true);
            lemma_zero_in_range(8, false);
            lemma_zero_in_range(16, true);
            lemma_zero_in_range(16, false);
            lemma_zero_in_range(24, true);
            lemma_zero_in_range(24, false);
            lemma_zero_in_range(32, true);
            lemma_zero_in_range(32, false);
            lemma_zero_in_range(64, true);
            lemma_zero_in_range(64, false);
            lemma_zero_in_range(128, true);
            lemma_zero_in_range(128, false);
            lemma_zero_in_range(160, true);
            lemma_zero_in_range(160, false);
            lemma_zero_in_range(200, true);
            lemma_zero_in_range(200, false);
            lemma_zero_in_range(256, true);
            lemma_zero_in_range(256, false);
        }
        let r = Counter {
            signed8: I8::zero(),
            signed16: I16::zero(),
            signed24: I24::zero(),
            signed32: I32::zero(),
            signed64: I64::zero(),
            signed128: I128::zero(),
            signed160: I160::zero(),
            signed200: I200::zero(),
            signed256: I256::zero(),
            unsigned8: U8::zero(),
            unsigned16: U16::zero(),
            unsigned24: U24::zero(),
            unsigned32: U32::zero(),
            unsigned64: U64::zero(),
            unsigned128: U128::zero(),
            unsigned160: U160::zero(),
            unsigned200: U200::zero(),
            unsigned256: U256::zero(),
        };
        proof {
            r.lemma_view_is_valid();
            assert(r@ =~= State::initial());
        }
        r
    }

    /// The value of the signed 8-bit slot.
    pub fn get_i8(&self) -> (r: I8)
        ensures
            r@ == self@.get(Slot::Signed8),
            self@.valid(),
    {
        proof {
            use_type_invariant(self);
            self.lemma_view_is_valid();
        }
        self.signed8
    }

    /// The value of the signed 8-bit slot as a native integer: the same
    /// number, in the same two's complement pattern.
    pub fn get_i8_builtin(&self) -> (r: i8)
        ensures
            r == self@.get(Slot::Signed8),
            r as u8 == to_twos_complement(self@.get(Slot::Signed8), 8),
            self@.valid(),
    {
        proof {
            use_type_invariant(self);
            use_type_invariant(&self.signed8);
            self.lemma_view_is_valid();
            self.signed8.lemma_in_range();
        }
        self.signed8.to_native()
    }

    /// Overwrites the signed 8-bit slot with `value` and leaves every other
    /// slot as it was.
    pub fn set_i8(&mut self, value: I8)
        ensures
            final(self)@ == old(self)@.set(Slot::Signed8, value@),
            final(self)@.valid(),
    {
        proof {
            use_type_invariant(&*self);
            use_type_invariant(&value);
            value.lemma_in_range();
        }
        self.signed8 = value;
        proof {
            self.lemma_view_is_valid();
            assert(self@ =~= old(self)@.set(Slot::Signed8, value@));
        }
    }

    /// Overwrites the signed 8-bit slot with the native integer `value`,
    /// kept in the same two's complement pattern, and leaves every other slot as it was.
    pub fn set_i8_builtin(&mut self, value: i8)
        ensures
            final(self)@ == old(self)@.set(Slot::Signed8, value as int),
            to_twos_complement(final(self)@.get(Slot::Signed8), 8) == value as u8,
            final(self)@.valid(),
    {
        let stored = I8::from_native(value);
        proof {
            use_type_invariant(&*self);
            use_type_invariant(&stored);
            stored.lemma_in_range();
        }
        self.signed8 = stored;
        proof {
            self.lemma_view_is_valid();
            assert(self@ =~= old(self)@.set(Slot::Signed8, value as int));
        }
    }

    /// Adds one to the signed 8-bit slot, wrapping from its largest value
    /// to its smallest, and leaves every other slot as it was.
    pub fn increment_i8(&mut self)
        ensures
            final(self)@ == old(self)@.increment(Slot::Signed8),
            final(self)@.valid(),
    {
        let current = self.signed8;
        let next = current.increment();
        proof {
            use_type_invariant(&*self);
            use_type_invariant(&next);
            next.lemma_in_range();
        }
        self.signed8 = next;
        proof {
            self.lemma_view_is_valid();
            assert(self@ =~= old(self)@.increment(Slot::Signed8));
        }
    }

    /// The value of the signed 16-bit slot.
    pub fn get_i16(&self) -> (r: I16)
        ensures
            r@ == self@.get(Slot::Signed16),
            self@.valid(),
    {
        proof {
            use_type_invariant(self);
            self.lemma_view_is_valid();
        }
        self.signed16
    }

    /// The value of the signed 16-bit slot as a native integer: the same
    /// number, in the same two's complement pattern.
    pub fn get_i16_builtin(&self) -> (r: i16)
        ensures
            r == self@.get(Slot::Signed16),
            r as u16 == to_twos_complement(self@.get(Slot::Signed16), 16),
            self@.valid(),
    {
        proof {
            use_type_invariant(self);
            use_type_invariant(&self.signed16);
            self.lemma_view_is_valid();
            self.signed16.lemma_in_range();
        }
        self.signed16.to_native()
    }

    /// Overwrites the signed 16-bit slot with `value` and leaves every other
    /// slot as it was.
    pub fn set_i16(&mut self, value: I16)
        ensures
            final(self)@ == old(self)@.set(Slot::Signed16, value@),
            final(self)@.valid(),
    {
        proof {
            use_type_invariant(&*self);
            use_type_invariant(&value);
            value.lemma_in_range();
        }
        self.signed16 = value;
        proof {
            self.lemma_view_is_valid();
            assert(self@ =~= old(self)@.set(Slot::Signed16, value@));
        }
    }

    /// Overwrites the signed 16-bit slot with the native integer `value`,
    /// kept in the same two's complement pattern, and leaves every other slot as it was.
    pub fn set_i16_builtin(&mut self, value: i16)
        ensures
            final(self)@ == old(self)@.set(Slot::Signed16, value as int),
            to_twos_complement(final(self)@.get(Slot::Signed16), 16) == value as u16,
            final(self)@.valid(),
    {
        let stored = I16::from_native(value);
        proof {
            use_type_invariant(&*self);
            use_type_invariant(&stored);
            stored.lemma_in_range();
        }
        self.signed16 = stored;
        proof {
            self.lemma_view_is_valid();
            assert(self@ =~= old(self)@.set(Slot::Signed16, value as int));
        }
    }

    /// Adds one to the signed 16-bit slot, wrapping from its largest value
    /// to its smallest, and leaves every other slot as it was.
    pub fn increment_i16(&mut self)
        ensures
            final(self)@ == old(self)@.increment(Slot::Signed16),
            final(self)@.valid(),
    {
        let current = self.signed16;
        let next = current.increment();
        proof {
            use_type_invariant(&*self);
            use_type_invariant(&next);
            next.lemma_in_range();
        }
        self.signed16 = next;
        proof {
            self.lemma_view_is_valid();
            assert(self@ =~= old(self)@.increment(Slot::Signed16));
        }
    }

    /// The value of the signed 24-bit slot.
    pub fn get_i24(&self) -> (r: I24)
        ensures
            r@ == self@.get(Slot::Signed24),
            self@.valid(),
    {
        proof {
            use_type_invariant(self);
            self.lemma_view_is_valid();
        }
        self.signed24
    }

    /// Overwrites the signed 24-bit slot with `value` and leaves every other
    /// slot as it was.
    pub fn set_i24(&mut self, value: I24)
        ensures
            final(self)@ == old(self)@.set(Slot::Signed24, value@),
            final(self)@.valid(),
    {
        proof {
            use_type_invariant(&*self);
            use_type_invariant(&value);
            value.lemma_in_range();
        }
        self.signed24 = value;
        proof {
            self.lemma_view_is_valid();
            assert(self@ =~= old(self)@.set(Slot::Signed24, value@));
        }
    }

    /// Adds one to the signed 24-bit slot, wrapping from its largest value
    /// to its smallest, and leaves every other slot as it was.
    pub fn increment_i24(&mut self)
        ensures
            final(self)@ == old(self)@.increment(Slot::Signed24),
            final(self)@.valid(),
    {
        let current = self.signed24;
        let next = current.increment();
        proof {
            use_type_invariant(&*self);
            use_type_invariant(&next);
            next.lemma_in_range();
        }
        self.signed24 = next;
        proof {
            self.lemma_view_is_valid();
            assert(self@ =~= old(self)@.increment(Slot::Signed24));
        }
    }

    /// The value of the signed 32-bit slot.
    pub fn get_i32(&self) -> (r: I32)
        ensures
            r@ == self@.get(Slot::Signed32),
            self@.valid(),
    {
        proof {
            use_type_invariant(self);
            self.lemma_view_is_valid();
        }
        self.signed32
    }

    /// The value of the signed 32-bit slot as a native integer: the same
    /// number, in the same two's complement pattern.
    pub fn get_i32_builtin(&self) -> (r: i32)
        ensures
            r == self@.get(Slot::Signed32),
            r as u32 == to_twos_complement(self@.get(Slot::Signed32), 32),
            self@.valid(),
    {
        proof {
            use_type_invariant(self);
            use_type_invariant(&self.signed32);
            self.lemma_view_is_valid();
            self.signed32.lemma_in_range();
        }
        self.signed32.to_native()
    }

    /// Overwrites the signed 32-bit slot with `value` and leaves every other
    /// slot as it was.
    pub fn set_i32(&mut self, value: I32)
        ensures
            final(self)@ == old(self)@.set(Slot::Signed32, value@),
            final(self)@.valid(),
    {
        proof {
            use_type_invariant(&*self);
            use_type_invariant(&value);
            value.lemma_in_range();
        }
        self.signed32 = value;
        proof {
            self.lemma_view_is_valid();
            assert(self@ =~= old(self)@.set(Slot::Signed32, value@));
        }
    }

    /// Overwrites the signed 32-bit slot with the native integer `value`,
    /// kept in the same two's complement pattern, and leaves every other slot as it was.
    pub fn set_i32_builtin(&mut self, value: i32)
        ensures
            final(self)@ == old(self)@.set(Slot::Signed32, value as int),
            to_twos_complement(final(self)@.get(Slot::Signed32), 32) == value as u32,
            final(self)@.valid(),
    {
        let stored = I32::from_native(value);
        proof {
            use_type_invariant(&*self);
            use_type_invariant(&stored);
            stored.lemma_in_range();
        }
        self.signed32 = stored;
        proof {
            self.lemma_view_is_valid();
            assert(self@ =~= old(self)@.set(Slot::Signed32, value as int));
        }
    }

    /// Adds one to the signed 32-bit slot, wrapping from its largest value
    /// to its smallest, and leaves every other slot as it was.
    pub fn increment_i32(&mut self)
        ensures
            final(self)@ == old(self)@.increment(Slot::Signed32),
            final(self)@.valid(),
    {
        let current = self.signed32;
        let next = current.increment();
        proof {
            use_type_invariant(&*self);
            use_type_invariant(&next);
            next.lemma_in_range();
        }
        self.signed32 = next;
        proof {
            self.lemma_view_is_valid();
            assert(self@ =~= old(self)@.increment(Slot::Signed32));
        }
    }

    /// The value of the signed 64-bit slot.
    pub fn get_i64(&self) -> (r: I64)
        ensures
            r@ == self@.get(Slot::Signed64),
            self@.valid(),
    {
        proof {
            use_type_invariant(self);
            self.lemma_view_is_valid();
        }
        self.signed64
    }

    /// The value of the signed 64-bit slot as a native integer: the same
    /// number, in the same two's complement pattern.
    pub fn get_i64_builtin(&self) -> (r: i64)
        ensures
            r == self@.get(Slot::Signed64),
            r as u64 == to_twos_complement(self@.get(Slot::Signed64), 64),
            self@.valid(),
    {
        proof {
            use_type_invariant(self);
            use_type_invariant(&self.signed64);
            self.lemma_view_is_valid();
            self.signed64.lemma_in_range();
        }
        self.signed64.to_native()
    }

    /// Overwrites the signed 64-bit slot with `value` and leaves every other
    /// slot as it was.
    pub fn set_i64(&mut self, value: I64)
        ensures
            final(self)@ == old(self)@.set(Slot::Signed64, value@),
            final(self)@.valid(),
    {
        proof {
            use_type_invariant(&*self);
            use_type_invariant(&value);
            value.lemma_in_range();
        }
        self.signed64 = value;
        proof {
            self.lemma_view_is_valid();
            assert(self@ =~= old(self)@.set(Slot::Signed64, value@));
        }
    }

    /// Overwrites the signed 64-bit slot with the native integer `value`,
    /// kept in the same two's complement pattern, and leaves every other slot as it was.
    pub fn set_i64_builtin(&mut self, value: i64)
        ensures
            final(self)@ == old(self)@.set(Slot::Signed64, value as int),
            to_twos_complement(final(self)@.get(Slot::Signed64), 64) == value as u64,
            final(self)@.valid(),
    {
        let stored = I64::from_native(value);
        proof {
            use_type_invariant(&*self);
            use_type_invariant(&stored);
            stored.lemma_in_range();
        }
        self.signed64 = stored;
        proof {
            self.lemma_view_is_valid();
            assert(self@ =~= old(self)@.set(Slot::Signed64, value as int));
        }
    }

    /// Adds one to the signed 64-bit slot, wrapping from its largest value
    /// to its smallest, and leaves every other slot as it was.
    pub fn increment_i64(&mut self)
        ensures
            final(self)@ == old(self)@.increment(Slot::Signed64),
            final(self)@.valid(),
    {
        let current = self.signed64;
        let next = current.increment();
        proof {
            use_type_invariant(&*self);
            use_type_invariant(&next);
            next.lemma_in_range();
        }
        self.signed64 = next;
        proof {
            self.lemma_view_is_valid();
            assert(self@ =~= old(self)@.increment(Slot::Signed64));
        }
    }

    /// The value of the signed 128-bit slot.
    pub fn get_i128(&self) -> (r: I128)
        ensures
            r@ == self@.get(Slot::Signed128),
            self@.valid(),
    {
        proof {
            use_type_invariant(self);
            self.lemma_view_is_valid();
        }
        self.signed128
    }

    /// The value of the signed 128-bit slot as a native integer: the same
    /// number, in the same two's complement pattern.
    pub fn get_i128_builtin(&self) -> (r: i128)
        ensures
            r == self@.get(Slot::Signed128),
            r as u128 == to_twos_complement(self@.get(Slot::Signed128), 128),
            self@.valid(),
    {
        proof {
            use_type_invariant(self);
            use_type_invariant(&self.signed128);
            self.lemma_view_is_valid();
            self.signed128.lemma_in_range();
        }
        self.signed128.to_native()
    }

    /// Overwrites the signed 128-bit slot with `value` and leaves every other
    /// slot as it was.
    pub fn set_i128(&mut self, value: I128)
        ensures
            final(self)@ == old(self)@.set(Slot::Signed128, value@),
            final(self)@.valid(),
    {
        proof {
            use_type_invariant(&*self);
            use_type_invariant(&value);
            value.lemma_in_range();
        }
        self.signed128 = value;
        proof {
            self.lemma_view_is_valid();
            assert(self@ =~= old(self)@.set(Slot::Signed128, value@));
        }
    }

    /// Overwrites the signed 128-bit slot with the native integer `value`,
    /// kept in the same two's complement pattern, and leaves every other slot as it was.
    pub fn set_i128_builtin(&mut self, value: i128)
        ensures
            final(self)@ == old(self)@.set(Slot::Signed128, value as int),
            to_twos_complement(final(self)@.get(Slot::Signed128), 128) == value as u128,
            final(self)@.valid(),
    {
        let stored = I128::from_native(value);
        proof {
            use_type_invariant(&*self);
            use_type_invariant(&stored);
            stored.lemma_in_range();
        }
        self.signed128 = stored;
        proof {
            self.lemma_view_is_valid();
            assert(self@ =~= old(self)@.set(Slot::Signed128, value as int));
        }
    }

    /// Adds one to the signed 128-bit slot, wrapping from its largest value
    /// to its smallest, and leaves every other slot as it was.
    pub fn increment_i128(&mut self)
        ensures
            final(self)@ == old(self)@.increment(Slot::Signed128),
            final(self)@.valid(),
    {
        let current = self.signed128;
        let next = current.increment();
        proof {
            use_type_invariant(&*self);
            use_type_invariant(&next);
            next.lemma_in_range();
        }
        self.signed128 = next;
        proof {
            self.lemma_view_is_valid();
            assert(self@ =~= old(self)@.increment(Slot::Signed128));
        }
    }

    /// The value of the signed 160-bit slot.
    pub fn get_i160(&self) -> (r: I160)
        ensures
            r@ == self@.get(Slot::Signed160),
            self@.valid(),
    {
        proof {
            use_type_invariant(self);
            self.lemma_view_is_valid();
        }
        self.signed160
    }

    /// Overwrites the signed 160-bit slot with `value` and leaves every other
    /// slot as it was.
    pub fn set_i160(&mut self, value: I160)
        ensures
            final(self)@ == old(self)@.set(Slot::Signed160, value@),
            final(self)@.valid(),
    {
        proof {
            use_type_invariant(&*self);
            use_type_invariant(&value);
            value.lemma_in_range();
        }
        self.signed160 = value;
        proof {
            self.lemma_view_is_valid();
            assert(self@ =~= old(self)@.set(Slot::Signed160, value@));
        }
    }

    /// Adds one to the signed 160-bit slot, wrapping from its largest value
    /// to its smallest, and leaves every other slot as it was.
    pub fn increment_i160(&mut self)
        ensures
            final(self)@ == old(self)@.increment(Slot::Signed160),
            final(self)@.valid(),
    {
        let current = self.signed160;
        let next = current.increment();
        proof {
            use_type_invariant(&*self);
            use_type_invariant(&next);
            next.lemma_in_range();
        }
        self.signed160 = next;
        proof {
            self.lemma_view_is_valid();
            assert(self@ =~= old(self)@.increment(Slot::Signed160));
        }
    }

    /// The value of the signed 200-bit slot.
    pub fn get_i200(&self) -> (r: I200)
        ensures
            r@ == self@.get(Slot::Signed200),
            self@.valid(),
    {
        proof {
            use_type_invariant(self);
            self.lemma_view_is_valid();
        }
        self.signed200
    }

    /// Overwrites the signed 200-bit slot with `value` and leaves every other
    /// slot as it was.
    pub fn set_i200(&mut self, value: I200)
        ensures
            final(self)@ == old(self)@.set(Slot::Signed200, value@),
            final(self)@.valid(),
    {
        proof {
            use_type_invariant(&*self);
            use_type_invariant(&value);
            value.lemma_in_range();
        }
        self.signed200 = value;
        proof {
            self.lemma_view_is_valid();
            assert(self@ =~= old(self)@.set(Slot::Signed200, value@));
        }
    }

    /// Adds one to the signed 200-bit slot, wrapping from its largest value
    /// to its smallest, and leaves every other slot as it was.
    pub fn increment_i200(&mut self)
        ensures
            final(self)@ == old(self)@.increment(Slot::Signed200),
            final(self)@.valid(),
    {
        let current = self.signed200;
        let next = current.increment();
        proof {
            use_type_invariant(&*self);
            use_type_invariant(&next);
            next.lemma_in_range();
        }
        self.signed200 = next;
        proof {
            self.lemma_view_is_valid();
            assert(self@ =~= old(self)@.increment(Slot::Signed200));
        }
    }

    /// The value of the signed 256-bit slot.
    pub fn get_i256(&self) -> (r: I256)
        ensures
            r@ == self@.get(Slot::Signed256),
            self@.valid(),
    {
        proof {
            use_type_invariant(self);
            self.lemma_view_is_valid();
        }
        self.signed256
    }

    /// Overwrites the signed 256-bit slot with `value` and leaves every other
    /// slot as it was.
    pub fn set_i256(&mut self, value: I256)
        ensures
            final(self)@ == old(self)@.set(Slot::Signed256, value@),
            final(self)@.valid(),
    {
        proof {
            use_type_invariant(&*self);
            use_type_invariant(&value);
            value.lemma_in_range();
        }
        self.signed256 = value;
        proof {
            self.lemma_view_is_valid();
            assert(self@ =~= old(self)@.set(Slot::Signed256, value@));
        }
    }

    /// Adds one to the signed 256-bit slot, wrapping from its largest value
    /// to its smallest, and leaves every other slot as it was.
    pub fn increment_i256(&mut self)
        ensures
            final(self)@ == old(self)@.increment(Slot::Signed256),
            final(self)@.valid(),
    {
        let current = self.signed256;
        let next = current.increment();
        proof {
            use_type_invariant(&*self);
            use_type_invariant(&next);
            next.lemma_in_range();
        }
        self.signed256 = next;
        proof {
            self.lemma_view_is_valid();
            assert(self@ =~= old(self)@.increment(Slot::Signed256));
        }
    }

    /// The value of the unsigned 8-bit slot.
    pub fn get_u8(&self) -> (r: U8)
        ensures
            r@ == self@.get(Slot::Unsigned8),
            self@.valid(),
    {
        proof {
            use_type_invariant(self);
            self.lemma_view_is_valid();
        }
        self.unsigned8
    }

    /// The value of the unsigned 8-bit slot as a native integer: the same
    /// number, in the same bit pattern.
    pub fn get_u8_builtin(&self) -> (r: u8)
        ensures
            r == self@.get(Slot::Unsigned8),
            self@.valid(),
    {
        proof {
            use_type_invariant(self);
            self.lemma_view_is_valid();
        }
        self.unsigned8.to_native()
    }

    /// Overwrites the unsigned 8-bit slot with `value` and leaves every other
    /// slot as it was.
    pub fn set_u8(&mut self, value: U8)
        ensures
            final(self)@ == old(self)@.set(Slot::Unsigned8, value@ as int),
            final(self)@.valid(),
    {
        proof {
            use_type_invariant(&*self);
            use_type_invariant(&value);
            value.lemma_in_range();
        }
        self.unsigned8 = value;
        proof {
            self.lemma_view_is_valid();
            assert(self@ =~= old(self)@.set(Slot::Unsigned8, value@ as int));
        }
    }

    /// Overwrites the unsigned 8-bit slot with the native integer `value`,
    /// kept in the same bit pattern, and leaves every other slot as it was.
    pub fn set_u8_builtin(&mut self, value: u8)
        ensures
            final(self)@ == old(self)@.set(Slot::Unsigned8, value as int),
            final(self)@.valid(),
    {
        let stored = U8::from_native(value);
        proof {
            use_type_invariant(&*self);
            use_type_invariant(&stored);
            stored.lemma_in_range();
        }
        self.unsigned8 = stored;
        proof {
            self.lemma_view_is_valid();
            assert(self@ =~= old(self)@.set(Slot::Unsigned8, value as int));
        }
    }

    /// Adds one to the unsigned 8-bit slot, wrapping from its largest value
    /// to its smallest, and leaves every other slot as it was.
    pub fn increment_u8(&mut self)
        ensures
            final(self)@ == old(self)@.increment(Slot::Unsigned8),
            final(self)@.valid(),
    {
        let current = self.unsigned8;
        let next = current.increment();
        proof {
            use_type_invariant(&*self);
            use_type_invariant(&next);
            next.lemma_in_range();
        }
        self.unsigned8 = next;
        proof {
            self.lemma_view_is_valid();
            assert(self@ =~= old(self)@.increment(Slot::Unsigned8));
        }
    }

    /// The value of the unsigned 16-bit slot.
    pub fn get_u16(&self) -> (r: U16)
        ensures
            r@ == self@.get(Slot::Unsigned16),
            self@.valid(),
    {
        proof {
            use_type_invariant(self);
            self.lemma_view_is_valid();
        }
        self.unsigned16
    }

    /// The value of the unsigned 16-bit slot as a native integer: the same
    /// number, in the same bit pattern.
    pub fn get_u16_builtin(&self) -> (r: u16)
        ensures
            r == self@.get(Slot::Unsigned16),
            self@.valid(),
    {
        proof {
            use_type_invariant(self);
            self.lemma_view_is_valid();
        }
        self.unsigned16.to_native()
    }

    /// Overwrites the unsigned 16-bit slot with `value` and leaves every other
    /// slot as it was.
    pub fn set_u16(&mut self, value: U16)
        ensures
            final(self)@ == old(self)@.set(Slot::Unsigned16, value@ as int),
            final(self)@.valid(),
    {
        proof {
            use_type_invariant(&*self);
            use_type_invariant(&value);
            value.lemma_in_range();
        }
        self.unsigned16 = value;
        proof {
            self.lemma_view_is_valid();
            assert(self@ =~= old(self)@.set(Slot::Unsigned16, value@ as int));
        }
    }

    /// Overwrites the unsigned 16-bit slot with the native integer `value`,
    /// kept in the same bit pattern, and leaves every other slot as it was.
    pub fn set_u16_builtin(&mut self, value: u16)
        ensures
            final(self)@ == old(self)@.set(Slot::Unsigned16, value as int),
            final(self)@.valid(),
    {
        let stored = U16::from_native(value);
        proof {
            use_type_invariant(&*self);
            use_type_invariant(&stored);
            stored.lemma_in_range();
        }
        self.unsigned16 = stored;
        proof {
            self.lemma_view_is_valid();
            assert(self@ =~= old(self)@.set(Slot::Unsigned16, value as int));
        }
    }

    /// Adds one to the unsigned 16-bit slot, wrapping from its largest value
    /// to its smallest, and leaves every other slot as it was.
    pub fn increment_u16(&mut self)
        ensures
            final(self)@ == old(self)@.increment(Slot::Unsigned16),
            final(self)@.valid(),
    {
        let current = self.unsigned16;
        let next = current.increment();
        proof {
            use_type_invariant(&*self);
            use_type_invariant(&next);
            next.lemma_in_range();
        }
        self.unsigned16 = next;
        proof {
            self.lemma_view_is_valid();
            assert(self@ =~= old(self)@.increment(Slot::Unsigned16));
        }
    }

    /// The value of the unsigned 24-bit slot.
    pub fn get_u24(&self) -> (r: U24)
        ensures
            r@ == self@.get(Slot::Unsigned24),
            self@.valid(),
    {
        proof {
            use_type_invariant(self);
            self.lemma_view_is_valid();
        }
        self.unsigned24
    }

    /// Overwrites the unsigned 24-bit slot with `value` and leaves every other
    /// slot as it was.
    pub fn set_u24(&mut self, value: U24)
        ensures
            final(self)@ == old(self)@.set(Slot::Unsigned24, value@ as int),
            final(self)@.valid(),
    {
        proof {
            use_type_invariant(&*self);
            use_type_invariant(&value);
            value.lemma_in_range();
        }
        self.unsigned24 = value;
        proof {
            self.lemma_view_is_valid();
            assert(self@ =~= old(self)@.set(Slot::Unsigned24, value@ as int));
        }
    }

    /// Adds one to the unsigned 24-bit slot, wrapping from its largest value
    /// to its smallest, and leaves every other slot as it was.
    pub fn increment_u24(&mut self)
        ensures
            final(self)@ == old(self)@.increment(Slot::Unsigned24),
            final(self)@.valid(),
    {
        let current = self.unsigned24;
        let next = current.increment();
        proof {
            use_type_invariant(&*self);
            use_type_invariant(&next);
            next.lemma_in_range();
        }
        self.unsigned24 = next;
        proof {
            self.lemma_view_is_valid();
            assert(self@ =~= old(self)@.increment(Slot::Unsigned24));
        }
    }

    /// The value of the unsigned 32-bit slot.
    pub fn get_u32(&self) -> (r: U32)
        ensures
            r@ == self@.get(Slot::Unsigned32),
            self@.valid(),
    {
        proof {
            use_type_invariant(self);
            self.lemma_view_is_valid();
        }
        self.unsigned32
    }

    /// The value of the unsigned 32-bit slot as a native integer: the same
    /// number, in the same bit pattern.
    pub fn get_u32_builtin(&self) -> (r: u32)
        ensures
            r == self@.get(Slot::Unsigned32),
            self@.valid(),
    {
        proof {
            use_type_invariant(self);
            self.lemma_view_is_valid();
        }
        self.unsigned32.to_native()
    }

    /// Overwrites the unsigned 32-bit slot with `value` and leaves every other
    /// slot as it was.
    pub fn set_u32(&mut self, value: U32)
        ensures
            final(self)@ == old(self)@.set(Slot::Unsigned32, value@ as int),
            final(self)@.valid(),
    {
        proof {
            use_type_invariant(&*self);
            use_type_invariant(&value);
            value.lemma_in_range();
        }
        self.unsigned32 = value;
        proof {
            self.lemma_view_is_valid();
            assert(self@ =~= old(self)@.set(Slot::Unsigned32, value@ as int));
        }
    }

    /// Overwrites the unsigned 32-bit slot with the native integer `value`,
    /// kept in the same bit pattern, and leaves every other slot as it was.
    pub fn set_u32_builtin(&mut self, value: u32)
        ensures
            final(self)@ == old(self)@.set(Slot::Unsigned32, value as int),
            final(self)@.valid(),
    {
        let stored = U32::from_native(value);
        proof {
            use_type_invariant(&*self);
            use_type_invariant(&stored);
            stored.lemma_in_range();
        }
        self.unsigned32 = stored;
        proof {
            self.lemma_view_is_valid();
            assert(self@ =~= old(self)@.set(Slot::Unsigned32, value as int));
        }
    }

    /// Adds one to the unsigned 32-bit slot, wrapping from its largest value
    /// to its smallest, and leaves every other slot as it was.
    pub fn increment_u32(&mut self)
        ensures
            final(self)@ == old(self)@.increment(Slot::Unsigned32),
            final(self)@.valid(),
    {
        let current = self.unsigned32;
        let next = current.increment();
        proof {
            use_type_invariant(&*self);
            use_type_invariant(&next);
            next.lemma_in_range();
        }
        self.unsigned32 = next;
        proof {
            self.lemma_view_is_valid();
            assert(self@ =~= old(self)@.increment(Slot::Unsigned32));
        }
    }

    /// The value of the unsigned 64-bit slot.
    pub fn get_u64(&self) -> (r: U64)
        ensures
            r@ == self@.get(Slot::Unsigned64),
            self@.valid(),
    {
        proof {
            use_type_invariant(self);
            self.lemma_view_is_valid();
        }
        self.unsigned64
    }

    /// The value of the unsigned 64-bit slot as a native integer: the same
    /// number, in the same bit pattern.
    pub fn get_u64_builtin(&self) -> (r: u64)
        ensures
            r == self@.get(Slot::Unsigned64),
            self@.valid(),
    {
        proof {
            use_type_invariant(self);
            self.lemma_view_is_valid();
        }
        self.unsigned64.to_native()
    }

    /// Overwrites the unsigned 64-bit slot with `value` and leaves every other
    /// slot as it was.
    pub fn set_u64(&mut self, value: U64)
        ensures
            final(self)@ == old(self)@.set(Slot::Unsigned64, value@ as int),
            final(self)@.valid(),
    {
        proof {
            use_type_invariant(&*self);
            use_type_invariant(&value);
            value.lemma_in_range();
        }
        self.unsigned64 = value;
        proof {
            self.lemma_view_is_valid();
            assert(self@ =~= old(self)@.set(Slot::Unsigned64, value@ as int));
        }
    }

    /// Overwrites the unsigned 64-bit slot with the native integer `value`,
    /// kept in the same bit pattern, and leaves every other slot as it was.
    pub fn set_u64_builtin(&mut self, value: u64)
        ensures
            final(self)@ == old(self)@.set(Slot::Unsigned64, value as int),
            final(self)@.valid(),
    {
        let stored = U64::from_native(value);
        proof {
            use_type_invariant(&*self);
            use_type_invariant(&stored);
            stored.lemma_in_range();
        }
        self.unsigned64 = stored;
        proof {
            self.lemma_view_is_valid();
            assert(self@ =~= old(self)@.set(Slot::Unsigned64, value as int));
        }
    }

    /// Adds one to the unsigned 64-bit slot, wrapping from its largest value
    /// to its smallest, and leaves every other slot as it was.
    pub fn increment_u64(&mut self)
        ensures
            final(self)@ == old(self)@.increment(Slot::Unsigned64),
            final(self)@.valid(),
    {
        let current = self.unsigned64;
        let next = current.increment();
        proof {
            use_type_invariant(&*self);
            use_type_invariant(&next);
            next.lemma_in_range();
        }
        self.unsigned64 = next;
        proof {
            self.lemma_view_is_valid();
            assert(self@ =~= old(self)@.increment(Slot::Unsigned64));
        }
    }

    /// The value of the unsigned 128-bit slot.
    pub fn get_u128(&self) -> (r: U128)
        ensures
            r@ == self@.get(Slot::Unsigned128),
            self@.valid(),
    {
        proof {
            use_type_invariant(self);
            self.lemma_view_is_valid();
        }
        self.unsigned128
    }

    /// The value of the unsigned 128-bit slot as a native integer: the same
    /// number, in the same bit pattern.
    pub fn get_u128_builtin(&self) -> (r: u128)
        ensures
            r == self@.get(Slot::Unsigned128),
            self@.valid(),
    {
        proof {
            use_type_invariant(self);
            self.lemma_view_is_valid();
        }
        self.unsigned128.to_native()
    }

    /// Overwrites the unsigned 128-bit slot with `value` and leaves every other
    /// slot as it was.
    pub fn set_u128(&mut self, value: U128)
        ensures
            final(self)@ == old(self)@.set(Slot::Unsigned128, value@ as int),
            final(self)@.valid(),
    {
        proof {
            use_type_invariant(&*self);
            use_type_invariant(&value);
            value.lemma_in_range();
        }
        self.unsigned128 = value;
        proof {
            self.lemma_view_is_valid();
            assert(self@ =~= old(self)@.set(Slot::Unsigned128, value@ as int));
        }
    }

    /// Overwrites the unsigned 128-bit slot with the native integer `value`,
    /// kept in the same bit pattern, and leaves every other slot as it was.
    pub fn set_u128_builtin(&mut self, value: u128)
        ensures
            final(self)@ == old(self)@.set(Slot::Unsigned128, value as int),
            final(self)@.valid(),
    {
        let stored = U128::from_native(value);
        proof {
            use_type_invariant(&*self);
            use_type_invariant(&stored);
            stored.lemma_in_range();
        }
        self.unsigned128 = stored;
        proof {
            self.lemma_view_is_valid();
            assert(self@ =~= old(self)@.set(Slot::Unsigned128, value as int));
        }
    }

    /// Adds one to the unsigned 128-bit slot, wrapping from its largest value
    /// to its smallest, and leaves every other slot as it was.
    pub fn increment_u128(&mut self)
        ensures
            final(self)@ == old(self)@.increment(Slot::Unsigned128),
            final(self)@.valid(),
    {
        let current = self.unsigned128;
        let next = current.increment();
        proof {
            use_type_invariant(&*self);
            use_type_invariant(&next);
            next.lemma_in_range();
        }
        self.unsigned128 = next;
        proof {
            self.lemma_view_is_valid();
            assert(self@ =~= old(self)@.increment(Slot::Unsigned128));
        }
    }

    /// The value of the unsigned 160-bit slot.
    pub fn get_u160(&self) -> (r: U160)
        ensures
            r@ == self@.get(Slot::Unsigned160),
            self@.valid(),
    {
        proof {
            use_type_invariant(self);
            self.lemma_view_is_valid();
        }
        self.unsigned160
    }

    /// Overwrites the unsigned 160-bit slot with `value` and leaves every other
    /// slot as it was.
    pub fn set_u160(&mut self, value: U160)
        ensures
            final(self)@ == old(self)@.set(Slot::Unsigned160, value@ as int),
            final(self)@.valid(),
    {
        proof {
            use_type_invariant(&*self);
            use_type_invariant(&value);
            value.lemma_in_range();
        }
        self.unsigned160 = value;
        proof {
            self.lemma_view_is_valid();
            assert(self@ =~= old(self)@.set(Slot::Unsigned160, value@ as int));
        }
    }

    /// Adds one to the unsigned 160-bit slot, wrapping from its largest value
    /// to its smallest, and leaves every other slot as it was.
    pub fn increment_u160(&mut self)
        ensures
            final(self)@ == old(self)@.increment(Slot::Unsigned160),
            final(self)@.valid(),
    {
        let current = self.unsigned160;
        let next = current.increment();
        proof {
            use_type_invariant(&*self);
            use_type_invariant(&next);
            next.lemma_in_range();
        }
        self.unsigned160 = next;
        proof {
            self.lemma_view_is_valid();
            assert(self@ =~= old(self)@.increment(Slot::Unsigned160));
        }
    }

    /// The value of the unsigned 200-bit slot.
    pub fn get_u200(&self) -> (r: U200)
        ensures
            r@ == self@.get(Slot::Unsigned200),
            self@.valid(),
    {
        proof {
            use_type_invariant(self);
            self.lemma_view_is_valid();
        }
        self.unsigned200
    }

    /// Overwrites the unsigned 200-bit slot with `value` and leaves every other
    /// slot as it was.
    pub fn set_u200(&mut self, value: U200)
        ensures
            final(self)@ == old(self)@.set(Slot::Unsigned200, value@ as int),
            final(self)@.valid(),
    {
        proof {
            use_type_invariant(&*self);
            use_type_invariant(&value);
            value.lemma_in_range();
        }
        self.unsigned200 = value;
        proof {
            self.lemma_view_is_valid();
            assert(self@ =~= old(self)@.set(Slot::Unsigned200, value@ as int));
        }
    }

    /// Adds one to the unsigned 200-bit slot, wrapping from its largest value
    /// to its smallest, and leaves every other slot as it was.
    pub fn increment_u200(&mut self)
        ensures
            final(self)@ == old(self)@.increment(Slot::Unsigned200),
            final(self)@.valid(),
    {
        let current = self.unsigned200;
        let next = current.increment();
        proof {
            use_type_invariant(&*self);
            use_type_invariant(&next);
            next.lemma_in_range();
        }
        self.unsigned200 = next;
        proof {
            self.lemma_view_is_valid();
            assert(self@ =~= old(self)@.increment(Slot::Unsigned200));
        }
    }

    /// The value of the unsigned 256-bit slot.
    pub fn get_u256(&self) -> (r: U256)
        ensures
            r@ == self@.get(Slot::Unsigned256),
            self@.valid(),
    {
        proof {
            use_type_invariant(self);
            self.lemma_view_is_valid();
        }
        self.unsigned256
    }

    /// Overwrites the unsigned 256-bit slot with `value` and leaves every other
    /// slot as it was.
    pub fn set_u256(&mut self, value: U256)
        ensures
            final(self)@ == old(self)@.set(Slot::Unsigned256, value@ as int),
            final(self)@.valid(),
    {
        proof {
            use_type_invariant(&*self);
            use_type_invariant(&value);
            value.lemma_in_range();
        }
        self.unsigned256 = value;
        proof {
            self.lemma_view_is_valid();
            assert(self@ =~= old(self)@.set(Slot::Unsigned256, value@ as int));
        }
    }

    /// Adds one to the unsigned 256-bit slot, wrapping from its largest value
    /// to its smallest, and leaves every other slot as it was.
    pub fn increment_u256(&mut self)
        ensures
            final(self)@ == old(self)@.increment(Slot::Unsigned256),
            final(self)@.valid(),
    {
        let current = self.unsigned256;
        let next = current.increment();
        proof {
            use_type_invariant(&*self);
            use_type_invariant(&next);
            next.lemma_in_range();
        }
        self.unsigned256 = next;
        proof {
            self.lemma_view_is_valid();
            assert(self@ =~= old(self)@.increment(Slot::Unsigned256));
        }
    }
}

} // verus!
