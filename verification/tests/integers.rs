use int_return_types::signed::{Signed, I128, I16, I160, I200, I24, I256, I32, I64, I8};
use int_return_types::uint::{Uint, U128, U16, U160, U200, U24, U256, U32, U64, U8};

#[test]
fn from_limbs_accepts_exactly_the_values_of_the_width() {
    assert!(U8::from_limbs([0]).is_some());
    assert!(U8::from_limbs([0xff]).is_some());
    assert!(U8::from_limbs([0x100]).is_none());
    assert!(U16::from_limbs([0xffff]).is_some());
    assert!(U16::from_limbs([0x1_0000]).is_none());
    assert!(U24::from_limbs([0xff_ffff]).is_some());
    assert!(U24::from_limbs([0x100_0000]).is_none());
    assert!(U24::from_limbs([u64::MAX]).is_none());
    assert!(U32::from_limbs([0xffff_ffff]).is_some());
    assert!(U32::from_limbs([0x1_0000_0000]).is_none());
    assert!(U64::from_limbs([u64::MAX]).is_some());
    assert!(U128::from_limbs([u64::MAX, u64::MAX]).is_some());
    assert!(U160::from_limbs([u64::MAX, u64::MAX, 0xffff_ffff]).is_some());
    assert!(U160::from_limbs([0, 0, 0x1_0000_0000]).is_none());
    assert!(U200::from_limbs([u64::MAX, u64::MAX, u64::MAX, 0xff]).is_some());
    assert!(U200::from_limbs([0, 0, 0, 0x100]).is_none());
    assert!(U256::from_limbs([u64::MAX; 4]).is_some());
}

#[test]
fn from_limbs_accepts_exactly_the_patterns_of_the_width() {
    assert!(I8::from_limbs([0xff]).is_some());
    assert!(I8::from_limbs([0x100]).is_none());
    assert!(I16::from_limbs([0x8000]).is_some());
    assert!(I16::from_limbs([0x1_0000]).is_none());
    assert!(I24::from_limbs([0x80_0000]).is_some());
    assert!(I24::from_limbs([0x100_0000]).is_none());
    assert!(I32::from_limbs([0xffff_ffff]).is_some());
    assert!(I32::from_limbs([0x1_0000_0000]).is_none());
    assert!(I64::from_limbs([u64::MAX]).is_some());
    assert!(I128::from_limbs([0, 1 << 63]).is_some());
    assert!(I160::from_limbs([0, 0, 0x8000_0000]).is_some());
    assert!(I160::from_limbs([0, 0, 0x1_0000_0000]).is_none());
    assert!(I200::from_limbs([0, 0, 0, 0xff]).is_some());
    assert!(I200::from_limbs([0, 0, 0, 0x100]).is_none());
    assert!(I256::from_limbs([u64::MAX; 4]).is_some());
}

#[test]
fn from_limbs_refuses_parameters_that_describe_no_width() {
    assert!(Uint::<0, 0>::from_limbs([]).is_none());
    assert!(Uint::<8, 2>::from_limbs([0, 0]).is_none());
    assert!(Uint::<65, 1>::from_limbs([0]).is_none());
    assert!(Uint::<64, 2>::from_limbs([0, 0]).is_none());
    assert!(Signed::<0, 0>::from_limbs([]).is_none());
    assert!(Signed::<8, 2>::from_limbs([0, 0]).is_none());
    assert!(Signed::<129, 2>::from_limbs([0, 0]).is_none());
}

#[test]
fn widths_that_are_not_those_of_the_counter_work_too() {
    let a = Uint::<1, 1>::from_limbs([1]).unwrap();
    assert_eq!(a.increment().into_limbs(), [0]);
    let b = Signed::<1, 1>::from_limbs([0]).unwrap();
    // one bit, signed: the values are 0 and -1, and 0 + 1 wraps to -1
    assert_eq!(b.increment().into_limbs(), [1]);
    assert_eq!(b.increment().increment().into_limbs(), [0]);
    let c = Uint::<65, 2>::from_limbs([u64::MAX, 1]).unwrap();
    assert_eq!(c.increment().into_limbs(), [0, 0]);
    let d = Signed::<65, 2>::from_limbs([u64::MAX, 0]).unwrap();
    assert_eq!(d.increment().into_limbs(), [0, 1]);
    assert!(Uint::<65, 2>::from_limbs([0, 2]).is_none());
}

#[test]
fn into_limbs_gives_back_what_from_limbs_took() {
    let limbs = [0x0123_4567_89ab_cdef, 0xfedc_ba98_7654_3210, 7, 0x42];
    assert_eq!(U256::from_limbs(limbs).unwrap().into_limbs(), limbs);
    assert_eq!(I256::from_limbs(limbs).unwrap().into_limbs(), limbs);
    assert_eq!(U200::from_limbs(limbs).unwrap().into_limbs(), limbs);
    assert_eq!(I200::from_limbs(limbs).unwrap().into_limbs(), limbs);
    let limbs = [1, 2, 3];
    assert_eq!(U160::from_limbs(limbs).unwrap().into_limbs(), limbs);
    assert_eq!(I160::from_limbs(limbs).unwrap().into_limbs(), limbs);
}

#[test]
fn native_signed_values_keep_number_and_pattern() {
    for v in [i8::MIN, -1, 0, 1, i8::MAX] {
        let x = I8::from_native(v);
        assert_eq!(x.to_native(), v);
        assert_eq!(x.into_limbs(), [v as u8 as u64]);
    }
    for v in [i16::MIN, -1, 0, 1, i16::MAX] {
        let x = I16::from_native(v);
        assert_eq!(x.to_native(), v);
        assert_eq!(x.into_limbs(), [v as u16 as u64]);
    }
    for v in [i32::MIN, -1, 0, 1, i32::MAX] {
        let x = I32::from_native(v);
        assert_eq!(x.to_native(), v);
        assert_eq!(x.into_limbs(), [v as u32 as u64]);
    }
    for v in [i64::MIN, -1, 0, 1, i64::MAX] {
        let x = I64::from_native(v);
        assert_eq!(x.to_native(), v);
        assert_eq!(x.into_limbs(), [v as u64]);
    }
    for v in [i128::MIN, -1, 0, 1, i128::MAX, -(1 << 64), (1 << 64) + 5] {
        let x = I128::from_native(v);
        assert_eq!(x.to_native(), v);
        assert_eq!(x.into_limbs(), [v as u128 as u64, ((v as u128) >> 64) as u64]);
    }
    assert_eq!(I8::from_native(-128).into_limbs(), [0x80]);
    assert_eq!(I16::from_native(-2).into_limbs(), [0xfffe]);
    assert_eq!(I128::from_native(i128::MIN).into_limbs(), [0, 1 << 63]);
}

#[test]
fn native_unsigned_values_keep_number_and_pattern() {
    for v in [0, 1, 0x80, u8::MAX] {
        let x = U8::from_native(v);
        assert_eq!(x.to_native(), v);
        assert_eq!(x.into_limbs(), [v as u64]);
    }
    for v in [0, 1, 0x8000, u16::MAX] {
        let x = U16::from_native(v);
        assert_eq!(x.to_native(), v);
        assert_eq!(x.into_limbs(), [v as u64]);
    }
    for v in [0, 1, 0x8000_0000, u32::MAX] {
        let x = U32::from_native(v);
        assert_eq!(x.to_native(), v);
        assert_eq!(x.into_limbs(), [v as u64]);
    }
    for v in [0, 1, 1 << 63, u64::MAX] {
        let x = U64::from_native(v);
        assert_eq!(x.to_native(), v);
        assert_eq!(x.into_limbs(), [v]);
    }
    for v in [0, 1, 1 << 64, 1 << 127, u128::MAX, (3 << 64) + 9] {
        let x = U128::from_native(v);
        assert_eq!(x.to_native(), v);
        assert_eq!(x.into_limbs(), [v as u64, (v >> 64) as u64]);
    }
}

#[test]
fn native_value_of_limbs() {
    assert_eq!(I8::from_limbs([0x80]).unwrap().to_native(), -128);
    assert_eq!(I8::from_limbs([0x7f]).unwrap().to_native(), 127);
    assert_eq!(I16::from_limbs([0xffff]).unwrap().to_native(), -1);
    assert_eq!(I32::from_limbs([0x8000_0001]).unwrap().to_native(), i32::MIN + 1);
    assert_eq!(I64::from_limbs([u64::MAX - 1]).unwrap().to_native(), -2);
    assert_eq!(I128::from_limbs([5, u64::MAX]).unwrap().to_native(), -(1 << 64) + 5);
    assert_eq!(U128::from_limbs([5, 7]).unwrap().to_native(), (7 << 64) + 5);
    assert_eq!(U32::from_limbs([0x8000_0001]).unwrap().to_native(), 0x8000_0001);
}

#[test]
fn unsigned_addition_is_modulo_two_to_the_width() {
    let a = U8::from_native(200);
    let b = U8::from_native(100);
    assert_eq!(a.wrapping_add(b).to_native(), 44);
    assert_eq!(U8::from_native(1).wrapping_add(U8::from_native(2)).to_native(), 3);
    assert_eq!(U16::from_native(0xffff).wrapping_add(U16::from_native(2)).to_native(), 1);
    let a = U24::from_limbs([0xff_fff0]).unwrap();
    let b = U24::from_limbs([0x20]).unwrap();
    assert_eq!(a.wrapping_add(b).into_limbs(), [0x10]);
    assert_eq!(
        U64::from_native(u64::MAX).wrapping_add(U64::from_native(u64::MAX)).to_native(),
        u64::MAX - 1
    );
    assert_eq!(
        U128::from_native(u128::MAX).wrapping_add(U128::from_native(3)).to_native(),
        2
    );
    let a = U160::from_limbs([u64::MAX, u64::MAX, 0xffff_ffff]).unwrap();
    let b = U160::from_limbs([2, 0, 0]).unwrap();
    assert_eq!(a.wrapping_add(b).into_limbs(), [1, 0, 0]);
    let a = U256::from_limbs([u64::MAX, 0, u64::MAX, 1]).unwrap();
    let b = U256::from_limbs([1, u64::MAX, 0, 1]).unwrap();
    assert_eq!(a.wrapping_add(b).into_limbs(), [0, 0, 0, 3]);
}

#[test]
fn signed_addition_wraps_in_twos_complement() {
    let a = I8::from_native(100);
    assert_eq!(a.wrapping_add(a).to_native(), -56);
    let b = I8::from_native(-100);
    assert_eq!(b.wrapping_add(b).to_native(), 56);
    assert_eq!(a.wrapping_add(b).to_native(), 0);
    assert_eq!(I8::from_native(-1).wrapping_add(I8::from_native(-1)).to_native(), -2);
    assert_eq!(I16::from_native(i16::MAX).wrapping_add(I16::from_native(1)).to_native(), i16::MIN);
    assert_eq!(I32::from_native(i32::MIN).wrapping_add(I32::from_native(-1)).to_native(), i32::MAX);
    assert_eq!(I64::from_native(-5).wrapping_add(I64::from_native(7)).to_native(), 2);
    assert_eq!(
        I128::from_native(i128::MAX).wrapping_add(I128::from_native(i128::MAX)).to_native(),
        -2
    );
    // -1 + -1 = -2 in 24 bits
    let m1 = I24::from_limbs([0xff_ffff]).unwrap();
    assert_eq!(m1.wrapping_add(m1).into_limbs(), [0xff_fffe]);
    // min + min = 0 in 256 bits
    let min = I256::from_limbs([0, 0, 0, 1 << 63]).unwrap();
    assert_eq!(min.wrapping_add(min).into_limbs(), [0, 0, 0, 0]);
}

#[test]
fn increment_adds_one_and_wraps() {
    assert_eq!(U8::from_native(41).increment().to_native(), 42);
    assert_eq!(U8::from_native(255).increment().to_native(), 0);
    assert_eq!(I8::from_native(41).increment().to_native(), 42);
    assert_eq!(I8::from_native(-42).increment().to_native(), -41);
    assert_eq!(I8::from_native(127).increment().to_native(), -128);
    assert_eq!(I8::from_native(-1).increment().to_native(), 0);
    assert_eq!(U64::from_native(u64::MAX).increment().to_native(), 0);
    assert_eq!(I64::from_native(i64::MAX).increment().to_native(), i64::MIN);
    assert_eq!(U128::from_native(u64::MAX as u128).increment().to_native(), 1 << 64);
    assert_eq!(I200::from_limbs([u64::MAX, u64::MAX, u64::MAX, 0x7f]).unwrap().increment().into_limbs(), [
        0, 0, 0, 0x80
    ]);
    assert_eq!(U200::from_limbs([u64::MAX, u64::MAX, u64::MAX, 0xff]).unwrap().increment().into_limbs(), [
        0, 0, 0, 0
    ]);
}

/// A fixed sequence of scattered 64-bit numbers.
fn scattered(seed: u64, count: usize) -> Vec<u64> {
    let mut out = vec![0, 1, u64::MAX, u64::MAX - 1, 1 << 63, (1 << 63) - 1];
    let mut x = seed;
    for _ in 0..count {
        x = x.wrapping_mul(6364136223846793005).wrapping_add(1442695040888963407);
        out.push(x);
    }
    out
}

#[test]
fn unsigned_addition_matches_native_arithmetic() {
    let xs = scattered(7, 40);
    let ys = scattered(11, 40);
    for &x in &xs {
        for &y in &ys {
            let (a, b) = (x & 0xff_ffff, y & 0xff_ffff);
            let sum = U24::from_limbs([a]).unwrap().wrapping_add(U24::from_limbs([b]).unwrap());
            assert_eq!(sum.into_limbs(), [(a + b) % (1 << 24)]);

            let sum = U64::from_native(x).wrapping_add(U64::from_native(y));
            assert_eq!(sum.to_native(), x.wrapping_add(y));

            let (a, b) = (((x as u128) << 64) | y as u128, ((y as u128) << 64) | x as u128);
            let sum = U128::from_native(a).wrapping_add(U128::from_native(b));
            assert_eq!(sum.to_native(), a.wrapping_add(b));
        }
    }
}

#[test]
fn signed_addition_matches_native_arithmetic() {
    let xs = scattered(3, 40);
    let ys = scattered(5, 40);
    for &x in &xs {
        for &y in &ys {
            let (a, b) = (x as i8, y as i8);
            let sum = I8::from_native(a).wrapping_add(I8::from_native(b));
            assert_eq!(sum.to_native(), a.wrapping_add(b));

            let (a, b) = (x as i32, y as i32);
            let sum = I32::from_native(a).wrapping_add(I32::from_native(b));
            assert_eq!(sum.to_native(), a.wrapping_add(b));

            let (a, b) = (x as i64, y as i64);
            let sum = I64::from_native(a).wrapping_add(I64::from_native(b));
            assert_eq!(sum.to_native(), a.wrapping_add(b));

            let (a, b) = (((x as u128) << 64) | y as u128, ((y as u128) << 64) | x as u128);
            let (a, b) = (a as i128, b as i128);
            let sum = I128::from_native(a).wrapping_add(I128::from_native(b));
            assert_eq!(sum.to_native(), a.wrapping_add(b));
        }
    }
}

#[test]
fn wide_addition_carries_like_two_native_halves() {
    let xs = scattered(13, 12);
    for &a0 in &xs {
        for &b0 in &xs {
            for (a1, b1) in [(0, 0), (u64::MAX, 0), (5, u64::MAX), (u64::MAX, u64::MAX)] {
                let low = (a0 as u128) + (b0 as u128);
                let mid = (a1 as u128) + (b1 as u128) + (low >> 64);
                let top = (3u128 + 4 + (mid >> 64)) as u64;
                let a = U256::from_limbs([a0, a1, 3, 0]).unwrap();
                let b = U256::from_limbs([b0, b1, 4, 0]).unwrap();
                assert_eq!(a.wrapping_add(b).into_limbs(), [low as u64, mid as u64, top, 0]);
                let a = I256::from_limbs([a0, a1, 3, 0]).unwrap();
                let b = I256::from_limbs([b0, b1, 4, 0]).unwrap();
                assert_eq!(a.wrapping_add(b).into_limbs(), [low as u64, mid as u64, top, 0]);
                let a = U160::from_limbs([a0, a1, 0xffff_fff0]).unwrap();
                let b = U160::from_limbs([b0, b1, 0x1f]).unwrap();
                let top = (0xffff_fff0u128 + 0x1f + (mid >> 64)) as u64 & 0xffff_ffff;
                assert_eq!(a.wrapping_add(b).into_limbs(), [low as u64, mid as u64, top]);
            }
        }
    }
}
