use int_return_types::signed::{Signed, I128, I16, I32, I64, I8};
use int_return_types::uint::{Uint, U128, U16, U32, U64, U8};

fn signed_limbs<const BITS: usize, const LIMBS: usize>(
    v: alloy_primitives::Signed<BITS, LIMBS>,
) -> [u64; LIMBS] {
    v.into_raw().into_limbs()
}

fn signed_of<const BITS: usize, const LIMBS: usize>(
    limbs: [u64; LIMBS],
) -> alloy_primitives::Signed<BITS, LIMBS> {
    alloy_primitives::Signed::from_raw(alloy_primitives::Uint::from_limbs(limbs))
}

fn check_unsigned_increment<const BITS: usize, const LIMBS: usize>(limbs: [u64; LIMBS]) {
    let ours = Uint::<BITS, LIMBS>::from_limbs(limbs).unwrap().increment();
    let theirs = alloy_primitives::Uint::<BITS, LIMBS>::from_limbs(limbs)
        + alloy_primitives::Uint::<BITS, LIMBS>::from(1);
    assert_eq!(ours.into_limbs(), theirs.into_limbs());
}

fn check_signed_increment<const BITS: usize, const LIMBS: usize>(limbs: [u64; LIMBS]) {
    let ours = Signed::<BITS, LIMBS>::from_limbs(limbs).unwrap().increment();
    let one = alloy_primitives::Signed::<BITS, LIMBS>::try_from(1).unwrap();
    let theirs = signed_of::<BITS, LIMBS>(limbs).wrapping_add(one);
    assert_eq!(ours.into_limbs(), signed_limbs(theirs));
}

#[test]
fn signed_native_conversions_agree_with_alloy() {
    for v in [i8::MIN, i8::MIN + 1, -1, 0, 1, i8::MAX - 1, i8::MAX] {
        let theirs = alloy_primitives::I8::try_from(v).unwrap();
        assert_eq!(I8::from_native(v).into_limbs(), signed_limbs(theirs));
        assert_eq!(I8::from_native(v).to_native(), i8::try_from(theirs).unwrap());
    }
    for v in [i16::MIN, i16::MIN + 1, -1, 0, 1, i16::MAX - 1, i16::MAX] {
        let theirs = alloy_primitives::I16::try_from(v).unwrap();
        assert_eq!(I16::from_native(v).into_limbs(), signed_limbs(theirs));
        assert_eq!(I16::from_native(v).to_native(), i16::try_from(theirs).unwrap());
    }
    for v in [i32::MIN, i32::MIN + 1, -1, 0, 1, i32::MAX - 1, i32::MAX] {
        let theirs = alloy_primitives::I32::try_from(v).unwrap();
        assert_eq!(I32::from_native(v).into_limbs(), signed_limbs(theirs));
        assert_eq!(I32::from_native(v).to_native(), i32::try_from(theirs).unwrap());
    }
    for v in [i64::MIN, i64::MIN + 1, -1, 0, 1, i64::MAX - 1, i64::MAX] {
        let theirs = alloy_primitives::I64::try_from(v).unwrap();
        assert_eq!(I64::from_native(v).into_limbs(), signed_limbs(theirs));
        assert_eq!(I64::from_native(v).to_native(), i64::try_from(theirs).unwrap());
    }
    for v in [i128::MIN, i128::MIN + 1, -1, 0, 1, i128::MAX - 1, i128::MAX] {
        let theirs = alloy_primitives::I128::try_from(v).unwrap();
        assert_eq!(I128::from_native(v).into_limbs(), signed_limbs(theirs));
        assert_eq!(I128::from_native(v).to_native(), i128::try_from(theirs).unwrap());
    }
}

#[test]
fn unsigned_native_conversions_agree_with_alloy() {
    for v in [0, 1, u8::MAX - 1, u8::MAX] {
        let theirs = alloy_primitives::U8::try_from(v).unwrap();
        assert_eq!(U8::from_native(v).into_limbs(), theirs.into_limbs());
        assert_eq!(U8::from_native(v).to_native(), u8::try_from(theirs).unwrap());
    }
    for v in [0, 1, u16::MAX - 1, u16::MAX] {
        let theirs = alloy_primitives::U16::try_from(v).unwrap();
        assert_eq!(U16::from_native(v).into_limbs(), theirs.into_limbs());
        assert_eq!(U16::from_native(v).to_native(), u16::try_from(theirs).unwrap());
    }
    for v in [0, 1, u32::MAX - 1, u32::MAX] {
        let theirs = alloy_primitives::U32::try_from(v).unwrap();
        assert_eq!(U32::from_native(v).into_limbs(), theirs.into_limbs());
        assert_eq!(U32::from_native(v).to_native(), u32::try_from(theirs).unwrap());
    }
    for v in [0, 1, u64::MAX - 1, u64::MAX] {
        let theirs = alloy_primitives::U64::try_from(v).unwrap();
        assert_eq!(U64::from_native(v).into_limbs(), theirs.into_limbs());
        assert_eq!(U64::from_native(v).to_native(), u64::try_from(theirs).unwrap());
    }
    for v in [0, 1, 1 << 64, u128::MAX - 1, u128::MAX] {
        let theirs = alloy_primitives::U128::try_from(v).unwrap();
        assert_eq!(U128::from_native(v).into_limbs(), theirs.into_limbs());
        assert_eq!(U128::from_native(v).to_native(), u128::try_from(theirs).unwrap());
    }
}

#[test]
fn unsigned_increment_agrees_with_alloy() {
    for low in [0, 1, 0xfe, 0xff] {
        check_unsigned_increment::<8, 1>([low]);
    }
    for low in [0, 0xfffe, 0xffff] {
        check_unsigned_increment::<16, 1>([low]);
    }
    for low in [0, 10, 0xff_fffe, 0xff_ffff] {
        check_unsigned_increment::<24, 1>([low]);
    }
    for low in [0, 0xffff_fffe, 0xffff_ffff] {
        check_unsigned_increment::<32, 1>([low]);
    }
    for low in [0, u64::MAX - 1, u64::MAX] {
        check_unsigned_increment::<64, 1>([low]);
        check_unsigned_increment::<128, 2>([low, 0]);
        check_unsigned_increment::<128, 2>([low, u64::MAX]);
        check_unsigned_increment::<160, 3>([low, u64::MAX, 0xffff_ffff]);
        check_unsigned_increment::<160, 3>([low, 5, 6]);
        check_unsigned_increment::<200, 4>([low, u64::MAX, u64::MAX, 0xff]);
        check_unsigned_increment::<200, 4>([low, u64::MAX, 1, 2]);
        check_unsigned_increment::<256, 4>([low, u64::MAX, u64::MAX, u64::MAX]);
        check_unsigned_increment::<256, 4>([low, 0, 0, 0]);
    }
}

#[test]
fn signed_increment_agrees_with_alloy() {
    for low in [0, 1, 0x7e, 0x7f, 0x80, 0xfe, 0xff] {
        check_signed_increment::<8, 1>([low]);
    }
    for low in [0, 0x7fff, 0x8000, 0xffff] {
        check_signed_increment::<16, 1>([low]);
    }
    for low in [0, 10, 0x7f_ffff, 0x80_0000, 0xff_ffff] {
        check_signed_increment::<24, 1>([low]);
    }
    for low in [0, 0x7fff_ffff, 0x8000_0000, 0xffff_ffff] {
        check_signed_increment::<32, 1>([low]);
    }
    for low in [0, u64::MAX >> 1, 1 << 63, u64::MAX] {
        check_signed_increment::<64, 1>([low]);
    }
    for low in [0, u64::MAX - 1, u64::MAX] {
        check_signed_increment::<128, 2>([low, u64::MAX >> 1]);
        check_signed_increment::<128, 2>([low, u64::MAX]);
        check_signed_increment::<160, 3>([low, u64::MAX, 0x7fff_ffff]);
        check_signed_increment::<160, 3>([low, u64::MAX, 0xffff_ffff]);
        check_signed_increment::<200, 4>([low, u64::MAX, u64::MAX, 0x7f]);
        check_signed_increment::<200, 4>([low, u64::MAX, u64::MAX, 0xff]);
        check_signed_increment::<256, 4>([low, u64::MAX, u64::MAX, u64::MAX >> 1]);
        check_signed_increment::<256, 4>([low, u64::MAX, u64::MAX, u64::MAX]);
    }
}

#[test]
fn from_limbs_accepts_what_alloy_accepts() {
    for top in [0, 1, 0xff, 0x100, 0xffff_ffff, 0x1_0000_0000, u64::MAX] {
        assert_eq!(
            Uint::<200, 4>::from_limbs([1, 2, 3, top]).is_some(),
            alloy_primitives::Uint::<200, 4>::checked_from_limbs_slice(&[1, 2, 3, top]).is_some()
        );
        assert_eq!(
            Uint::<160, 3>::from_limbs([1, 2, top]).is_some(),
            alloy_primitives::Uint::<160, 3>::checked_from_limbs_slice(&[1, 2, top]).is_some()
        );
        assert_eq!(
            Uint::<24, 1>::from_limbs([top]).is_some(),
            alloy_primitives::Uint::<24, 1>::checked_from_limbs_slice(&[top]).is_some()
        );
        assert_eq!(
            Uint::<256, 4>::from_limbs([1, 2, 3, top]).is_some(),
            alloy_primitives::Uint::<256, 4>::checked_from_limbs_slice(&[1, 2, 3, top]).is_some()
        );
    }
}
