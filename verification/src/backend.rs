//! The arithmetic that this crate takes from `alloy_primitives`.
//!
//! Nothing in this file is proved. Each function hands limbs to the outside
//! type, makes one call, and takes the limbs back; its contract is what the
//! outside crate documents for that call, stated over [`limbs_value`]. The
//! rest of the crate is proved from these contracts.

use crate::limbs::{limb_count, limbs_value};
use vstd::arithmetic::power2::pow2;
use vstd::prelude::*;

verus! {

/// `alloy_primitives::Uint::wrapping_add` (the `Uint` is the one of `ruint`),
/// on the limbs of two unsigned integers of `BITS` bits.
///
/// Trusted: the outside function is documented to compute `self + rhs`
/// "wrapping around at the boundary of the type", that is modulo `2^BITS`;
/// the contract says so of the numbers that the limbs denote. The
/// preconditions are those under which `Uint::from_limbs` accepts limbs
/// instead of panicking: `LIMBS` fits `BITS`, and the number fits `BITS`.
#[verifier::external_body]
pub(crate) fn uint_wrapping_add<const BITS: usize, const LIMBS: usize>(
    a: [u64; LIMBS],
    b: [u64; LIMBS],
) -> (sum: [u64; LIMBS])
    requires
        LIMBS == limb_count(BITS as nat),
        limbs_value(a@) < pow2(BITS as nat),
        limbs_value(b@) < pow2(BITS as nat),
    ensures
        limbs_value(sum@) == (limbs_value(a@) + limbs_value(b@)) % pow2(BITS as nat),
{
    let a = alloy_primitives::Uint::<BITS, LIMBS>::from_limbs(a);
    let b = alloy_primitives::Uint::<BITS, LIMBS>::from_limbs(b);
    a.wrapping_add(b).into_limbs()
}

/// `alloy_primitives::Signed::wrapping_add`, on the two's complement limbs of
/// two signed integers of `BITS` bits.
///
/// Trusted: the outside function adds the two patterns as unsigned numbers
/// modulo `2^BITS` and takes the result as the pattern of the sum; the
/// contract says so of the numbers that the limbs denote. That this is
/// addition of the signed values with wrap-around is proved where the
/// function is called. The preconditions are those under which
/// `Uint::from_limbs` accepts limbs instead of panicking.
#[verifier::external_body]
pub(crate) fn signed_wrapping_add<const BITS: usize, const LIMBS: usize>(
    a: [u64; LIMBS],
    b: [u64; LIMBS],
) -> (sum: [u64; LIMBS])
    requires
        LIMBS == limb_count(BITS as nat),
        limbs_value(a@) < pow2(BITS as nat),
        limbs_value(b@) < pow2(BITS as nat),
    ensures
        limbs_value(sum@) == (limbs_value(a@) + limbs_value(b@)) % pow2(BITS as nat),
{
    let a = alloy_primitives::Signed::<BITS, LIMBS>::from_raw(alloy_primitives::Uint::from_limbs(a));
    let b = alloy_primitives::Signed::<BITS, LIMBS>::from_raw(alloy_primitives::Uint::from_limbs(b));
    a.wrapping_add(b).into_raw().into_limbs()
}

} // verus!
