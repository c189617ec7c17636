//! The counter state as a mathematical object: eighteen named slots, each an
//! integer of a fixed width and signedness, and what reading, writing and
//! incrementing a slot mean.
//!
//! The executable [`Counter`](crate::counter::Counter) is specified against
//! this model. The proof functions at the end state what holds of the model
//! as a whole.

use crate::width::{
    in_range, lemma_native_bounds, lemma_wrap_absorbs, lemma_wrap_in_range, lemma_wrap_of_value,
    lemma_wrap_past_max, lemma_zero_in_range, max_value, min_value, wrap,
};
use vstd::prelude::*;

verus! {

/// The name of a slot of the counter state: its signedness and its width in
/// bits.
pub enum Slot {
    Signed8,
    Signed16,
    Signed24,
    Signed32,
    Signed64,
    Signed128,
    Signed160,
    Signed200,
    Signed256,
    Unsigned8,
    Unsigned16,
    Unsigned24,
    Unsigned32,
    Unsigned64,
    Unsigned128,
    Unsigned160,
    Unsigned200,
    Unsigned256,
}

impl Slot {
    /// The width of the slot in bits.
    pub open spec fn bits(self) -> nat {
        match self {
            Slot::Signed8 | Slot::Unsigned8 => 8,
            Slot::Signed16 | Slot::Unsigned16 => 16,
            Slot::Signed24 | Slot::Unsigned24 => 24,
            Slot::Signed32 | Slot::Unsigned32 => 32,
            Slot::Signed64 | Slot::Unsigned64 => 64,
            Slot::Signed128 | Slot::Unsigned128 => 128,
            Slot::Signed160 | Slot::Unsigned160 => 160,
            Slot::Signed200 | Slot::Unsigned200 => 200,
            Slot::Signed256 | Slot::Unsigned256 => 256,
        }
    }

    /// Whether the slot holds a signed integer.
    pub open spec fn signed(self) -> bool {
        match self {
            Slot::Signed8
            | Slot::Signed16
            | Slot::Signed24
            | Slot::Signed32
            | Slot::Signed64
            | Slot::Signed128
            | Slot::Signed160
            | Slot::Signed200
            | Slot::Signed256 => true,
            _ => false,
        }
    }

    /// Whether a native integer type has the width of the slot.
    pub open spec fn has_native(self) -> bool {
        self.bits() == 8 || self.bits() == 16 || self.bits() == 32 || self.bits() == 64
            || self.bits() == 128
    }

    /// Whether `x` is a value that the slot can hold.
    pub open spec fn holds(self, x: int) -> bool {
        in_range(x, self.bits(), self.signed())
    }

    /// Whether `x` is a value of the native integer type that has the width
    /// and the signedness of the slot. No `x` is, where there is no such type.
    pub open spec fn native_holds(self, x: int) -> bool {
        match self {
            Slot::Signed8 => i8::MIN <= x <= i8::MAX,
            Slot::Signed16 => i16::MIN <= x <= i16::MAX,
            Slot::Signed32 => i32::MIN <= x <= i32::MAX,
            Slot::Signed64 => i64::MIN <= x <= i64::MAX,
            Slot::Signed128 => i128::MIN <= x <= i128::MAX,
            Slot::Unsigned8 => u8::MIN <= x <= u8::MAX,
            Slot::Unsigned16 => u16::MIN <= x <= u16::MAX,
            Slot::Unsigned32 => u32::MIN <= x <= u32::MAX,
            Slot::Unsigned64 => u64::MIN <= x <= u64::MAX,
            Slot::Unsigned128 => u128::MIN <= x <= u128::MAX,
            _ => false,
        }
    }

    /// The smallest value that the slot can hold.
    pub open spec fn min(self) -> int {
        min_value(self.bits(), self.signed())
    }

    /// The largest value that the slot can hold.
    pub open spec fn max(self) -> int {
        max_value(self.bits(), self.signed())
    }

    /// `x` wrapped into the values that the slot can hold.
    pub open spec fn wrap(self, x: int) -> int {
        wrap(x, self.bits(), self.signed())
    }
}

/// A counter state: the value of every slot.
#[verifier::ext_equal]
pub struct State {
    pub slots: Map<Slot, int>,
}

impl State {
    /// The state in which every slot is zero.
    pub open spec fn initial() -> State {
        State { slots: Map::new(|slot: Slot| true, |slot: Slot| 0int) }
    }

    /// Whether the state gives every slot a value that the slot can hold.
    pub open spec fn valid(self) -> bool {
        &&& forall|slot: Slot| #[trigger] self.slots.dom().contains(slot)
        &&& forall|slot: Slot| #[trigger] slot.holds(self.slots[slot])
    }

    /// The value of `slot`.
    pub open spec fn get(self, slot: Slot) -> int {
        self.slots[slot]
    }

    /// The state with `slot` overwritten by `v`.
    pub open spec fn set(self, slot: Slot, v: int) -> State {
        State { slots: self.slots.insert(slot, v) }
    }

    /// The state with `slot` incremented by one, wrapping from the largest
    /// value that the slot can hold to the smallest.
    pub open spec fn increment(self, slot: Slot) -> State {
        self.set(slot, slot.wrap(self.get(slot) + 1))
    }

    /// The state with `slot` incremented `k` times.
    pub open spec fn increment_times(self, slot: Slot, k: nat) -> State
        decreases k,
    {
        if k == 0 {
            self
        } else {
            self.increment_times(slot, (k - 1) as nat).increment(slot)
        }
    }
}

/// The initial state is valid.
pub proof fn lemma_initial_is_valid()
    ensures
        State::initial().valid(),
{
    assert forall|slot: Slot| #[trigger] slot.holds(State::initial().slots[slot]) by {
        lemma_zero_in_range(slot.bits(), slot.signed());
    }
}

/// Writing a value that the slot can hold keeps a state valid.
pub proof fn lemma_set_keeps_valid(s: State, slot: Slot, v: int)
    requires
        s.valid(),
        slot.holds(v),
    ensures
        s.set(slot, v).valid(),
{
    let after = s.set(slot, v);
    assert forall|other: Slot| #[trigger] after.slots.dom().contains(other) by {
        assert(s.slots.dom().contains(other));
    }
    assert forall|other: Slot| #[trigger] other.holds(after.slots[other]) by {
        assert(other.holds(s.slots[other]));
    }
}

/// Incrementing a slot keeps a state valid: the slot wraps around rather
/// than leave its width.
pub proof fn lemma_increment_keeps_valid(s: State, slot: Slot)
    requires
        s.valid(),
    ensures
        s.increment(slot).valid(),
{
    lemma_wrap_in_range(s.get(slot) + 1, slot.bits(), slot.signed());
    lemma_set_keeps_valid(s, slot, slot.wrap(s.get(slot) + 1));
}

/// Reading a slot right after writing `v` to it gives `v`.
pub proof fn lemma_get_after_set(s: State, slot: Slot, v: int)
    ensures
        s.set(slot, v).get(slot) == v,
{
}

/// For a slot whose width a native integer type has, the values that the slot
/// can hold are exactly the values of that native type. So a value written to
/// the slot is read back as the native integer that equals it, and every
/// native integer can be written.
pub proof fn lemma_native_form(s: State, slot: Slot, v: int)
    requires
        slot.has_native(),
    ensures
        slot.holds(v) <==> slot.native_holds(v),
        slot.holds(v) ==> slot.native_holds(s.set(slot, v).get(slot)) && s.set(slot, v).get(slot)
            == v,
{
    lemma_native_bounds();
}

/// Incrementing a slot that holds its largest value leaves it with its
/// smallest value.
pub proof fn lemma_increment_at_max(s: State, slot: Slot)
    requires
        s.get(slot) == slot.max(),
    ensures
        s.increment(slot).get(slot) == slot.min(),
{
    lemma_wrap_past_max(slot.bits(), slot.signed());
}

/// Incrementing a slot `k` times is the same as writing to it once the
/// wrapped sum of `k` and the value it held.
pub proof fn lemma_increment_times(s: State, slot: Slot, k: nat)
    requires
        s.valid(),
    ensures
        s.increment_times(slot, k) == s.set(slot, slot.wrap(s.get(slot) + k)),
    decreases k,
{
    let v = s.get(slot);
    assert(s.slots.dom().contains(slot));
    assert(slot.holds(s.slots[slot]));
    if k == 0 {
        lemma_wrap_of_value(v, slot.bits(), slot.signed());
        assert(s =~= s.set(slot, v));
    } else {
        let before = s.increment_times(slot, (k - 1) as nat);
        lemma_increment_times(s, slot, (k - 1) as nat);
        lemma_wrap_absorbs(v + (k - 1), 1, slot.bits(), slot.signed());
        assert(before.increment(slot) =~= s.set(slot, slot.wrap(v + k)));
    }
}

/// Writing to a slot, or incrementing it, changes the value of no other slot.
pub proof fn lemma_slots_are_independent(s: State, written: Slot, read: Slot, v: int)
    requires
        written != read,
    ensures
        s.set(written, v).get(read) == s.get(read),
        s.increment(written).get(read) == s.get(read),
{
}

} // verus!
