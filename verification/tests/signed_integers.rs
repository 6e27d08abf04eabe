use rfhe_numeric::SignedInteger;

#[test]
fn into_unsigned_reinterprets_bits() {
    assert_eq!(SignedInteger::into_unsigned(-1i8), 255u8);
    assert_eq!(SignedInteger::into_unsigned(-1i16), u16::MAX);
    assert_eq!(SignedInteger::into_unsigned(-1i32), u32::MAX);
    assert_eq!(SignedInteger::into_unsigned(-1i64), u64::MAX);
    assert_eq!(SignedInteger::into_unsigned(-1i128), u128::MAX);
    assert_eq!(SignedInteger::into_unsigned(-1isize), usize::MAX);
    assert_eq!(SignedInteger::into_unsigned(i8::MIN), 128u8);
    assert_eq!(SignedInteger::into_unsigned(i64::MIN), 9223372036854775808u64);
    assert_eq!(SignedInteger::into_unsigned(0i32), 0u32);
    assert_eq!(SignedInteger::into_unsigned(77i8), 77u8);
    assert_eq!(SignedInteger::into_unsigned(i16::MAX), 32767u16);
    assert_eq!(SignedInteger::into_unsigned(-77i8), 0b10110011u8);
}

#[test]
fn wrapping_abs_of_ordinary_values() {
    assert_eq!(SignedInteger::wrapping_abs(-77i8), 77i8);
    assert_eq!(SignedInteger::wrapping_abs(77i8), 77i8);
    assert_eq!(SignedInteger::wrapping_abs(0i8), 0i8);
    assert_eq!(SignedInteger::wrapping_abs(-12345i16), 12345i16);
    assert_eq!(SignedInteger::wrapping_abs(-100000i32), 100000i32);
    assert_eq!(SignedInteger::wrapping_abs(i32::MAX), i32::MAX);
    assert_eq!(SignedInteger::wrapping_abs(-5i64), 5i64);
    assert_eq!(SignedInteger::wrapping_abs(-5i128), 5i128);
}

#[test]
fn wrapping_abs_fixes_the_minimum_of_every_width() {
    assert_eq!(SignedInteger::wrapping_abs(i8::MIN), i8::MIN);
    assert_eq!(SignedInteger::wrapping_abs(i16::MIN), i16::MIN);
    assert_eq!(SignedInteger::wrapping_abs(i32::MIN), i32::MIN);
    assert_eq!(SignedInteger::wrapping_abs(i64::MIN), i64::MIN);
    assert_eq!(SignedInteger::wrapping_abs(i128::MIN), i128::MIN);
    assert_eq!(SignedInteger::wrapping_abs(isize::MIN), isize::MIN);
}

#[test]
fn to_bits_string_groups_of_four() {
    let x: i8 = -77;
    assert_eq!(x.to_bits_string(4), "1011 0011");
    let y: i16 = 0x0F0F;
    assert_eq!(y.to_bits_string(4), "0000 1111 0000 1111");
    let z: i8 = 0;
    assert_eq!(z.to_bits_string(4), "0000 0000");
}

#[test]
fn to_bits_string_other_group_lengths() {
    let x: i8 = -77;
    assert_eq!(x.to_bits_string(1), "1 0 1 1 0 0 1 1");
    assert_eq!(x.to_bits_string(3), "101 10011");
    assert_eq!(x.to_bits_string(8), "10110011");
    assert_eq!(x.to_bits_string(100), "10110011");
    let y: i32 = -1;
    assert_eq!(y.to_bits_string(8), "11111111 11111111 11111111 11111111");
}

#[test]
fn to_bits_string_at_the_wide_ends() {
    let x: i64 = 1;
    assert_eq!(
        x.to_bits_string(16),
        "0000000000000000 0000000000000000 0000000000000000 0000000000000001"
    );
    let y: i128 = -1;
    assert_eq!(y.to_bits_string(64), format!("{} {}", "1".repeat(64), "1".repeat(64)));
}

#[test]
fn pointer_width_behaves_like_its_fixed_width_twin() {
    let x: isize = -77;
    let n: usize = (usize::BITS / 8) as usize;
    let ones = "1".repeat(8);
    let mut groups: Vec<String> = vec![ones; n - 1];
    groups.push("10110011".to_string());
    assert_eq!(x.to_bits_string(8), groups.join(" "));
    assert_eq!(SignedInteger::wrapping_abs(x), 77isize);
}
