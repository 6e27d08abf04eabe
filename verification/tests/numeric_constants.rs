use rfhe_numeric::Numeric;

#[test]
fn constants_of_the_unsigned_types() {
    assert_eq!(<u8 as Numeric>::BITS, 8);
    assert_eq!(<u16 as Numeric>::BITS, 16);
    assert_eq!(<u32 as Numeric>::BITS, 32);
    assert_eq!(<u64 as Numeric>::BITS, 64);
    assert_eq!(<u128 as Numeric>::BITS, 128);
    assert_eq!(<u8 as Numeric>::ZERO, 0);
    assert_eq!(<u8 as Numeric>::ONE, 1);
    assert_eq!(<u8 as Numeric>::TWO, 2);
    assert_eq!(<u8 as Numeric>::MAX, u8::MAX);
    assert_eq!(<u128 as Numeric>::ZERO, 0);
    assert_eq!(<u128 as Numeric>::ONE, 1);
    assert_eq!(<u128 as Numeric>::TWO, 2);
    assert_eq!(<u128 as Numeric>::MAX, u128::MAX);
}

#[test]
fn constants_of_the_signed_types() {
    assert_eq!(<i8 as Numeric>::BITS, 8);
    assert_eq!(<i16 as Numeric>::BITS, 16);
    assert_eq!(<i32 as Numeric>::BITS, 32);
    assert_eq!(<i64 as Numeric>::BITS, 64);
    assert_eq!(<i128 as Numeric>::BITS, 128);
    assert_eq!(<i8 as Numeric>::ZERO, 0);
    assert_eq!(<i8 as Numeric>::ONE, 1);
    assert_eq!(<i8 as Numeric>::TWO, 2);
    assert_eq!(<i8 as Numeric>::MAX, i8::MAX);
    assert_eq!(<i128 as Numeric>::ZERO, 0);
    assert_eq!(<i128 as Numeric>::ONE, 1);
    assert_eq!(<i128 as Numeric>::TWO, 2);
    assert_eq!(<i128 as Numeric>::MAX, i128::MAX);
}

#[test]
fn constants_are_ordered_at_every_width() {
    assert!(<u8 as Numeric>::ZERO < <u8 as Numeric>::ONE);
    assert!(<u8 as Numeric>::ONE < <u8 as Numeric>::TWO);
    assert!(<u8 as Numeric>::TWO <= <u8 as Numeric>::MAX);
    assert!(<u16 as Numeric>::ZERO < <u16 as Numeric>::ONE);
    assert!(<u16 as Numeric>::ONE < <u16 as Numeric>::TWO);
    assert!(<u16 as Numeric>::TWO <= <u16 as Numeric>::MAX);
    assert!(<u32 as Numeric>::ZERO < <u32 as Numeric>::ONE);
    assert!(<u32 as Numeric>::ONE < <u32 as Numeric>::TWO);
    assert!(<u32 as Numeric>::TWO <= <u32 as Numeric>::MAX);
    assert!(<u64 as Numeric>::ZERO < <u64 as Numeric>::ONE);
    assert!(<u64 as Numeric>::ONE < <u64 as Numeric>::TWO);
    assert!(<u64 as Numeric>::TWO <= <u64 as Numeric>::MAX);
    assert!(<u128 as Numeric>::ZERO < <u128 as Numeric>::ONE);
    assert!(<u128 as Numeric>::ONE < <u128 as Numeric>::TWO);
    assert!(<u128 as Numeric>::TWO <= <u128 as Numeric>::MAX);
    assert!(<i8 as Numeric>::ZERO < <i8 as Numeric>::ONE);
    assert!(<i8 as Numeric>::ONE < <i8 as Numeric>::TWO);
    assert!(<i8 as Numeric>::TWO <= <i8 as Numeric>::MAX);
    assert!(<i16 as Numeric>::ZERO < <i16 as Numeric>::ONE);
    assert!(<i16 as Numeric>::ONE < <i16 as Numeric>::TWO);
    assert!(<i16 as Numeric>::TWO <= <i16 as Numeric>::MAX);
    assert!(<i32 as Numeric>::ZERO < <i32 as Numeric>::ONE);
    assert!(<i32 as Numeric>::ONE < <i32 as Numeric>::TWO);
    assert!(<i32 as Numeric>::TWO <= <i32 as Numeric>::MAX);
    assert!(<i64 as Numeric>::ZERO < <i64 as Numeric>::ONE);
    assert!(<i64 as Numeric>::ONE < <i64 as Numeric>::TWO);
    assert!(<i64 as Numeric>::TWO <= <i64 as Numeric>::MAX);
    assert!(<i128 as Numeric>::ZERO < <i128 as Numeric>::ONE);
    assert!(<i128 as Numeric>::ONE < <i128 as Numeric>::TWO);
    assert!(<i128 as Numeric>::TWO <= <i128 as Numeric>::MAX);
}
