//! A counter state of eighteen integer slots, signed and unsigned, from 8 to
//! 256 bits wide, with the operations of each slot verified against a
//! mathematical model.
//!
//! * [`limbs`] and [`width`] give fixed-width integers their meaning: the
//!   number that a sequence of limbs denotes, the bounds of a width, two's
//!   complement, and wrap-around.
//! * [`uint`] and [`signed`] hold the integers themselves. A value of one of
//!   these types is always a value of its width. Addition is the one of
//!   `alloy_primitives`, taken on trust; everything else is proved.
//! * [`state`] is the model of the counter: what reading, writing and
//!   incrementing a slot mean, and what follows from that.
//! * [`counter`] is the counter itself, each operation with a contract over
//!   the model.

mod backend;
pub mod counter;
pub mod limbs;
pub mod signed;
pub mod state;
pub mod uint;
pub mod width;
