use crate::bits::{lemma_pow2_named_widths, reinterpret_signed, reinterpret_unsigned};
use vstd::arithmetic::power2::{lemma_pow2_unfold, pow2};
use vstd::layout::{layout_of_primitives, signed_int_min_max_values, unsigned_int_max_values};
use vstd::prelude::*;

verus! {

/// A total, deterministic conversion into `Self` from a value of the
/// `Input` type; the conversion never fails and never panics, following
/// one fixed rule per ordered pair of types.
pub trait CastFrom<Input>: Sized {
    /// The value the conversion produces.
    spec fn cast_from_spec(input: Input) -> Self;

    /// Convert `input` into a value of this type.
    fn cast_from(input: Input) -> (r: Self)
        ensures
            r == Self::cast_from_spec(input),
    ;
}

/// The mirror of [`CastFrom`]: a total conversion from `Self` into a
/// value of the `Output` type.
pub trait CastInto<Output>: Sized {
    /// The value the conversion produces.
    spec fn cast_into_spec(self) -> Output;

    /// Convert this value into one of the `Output` type.
    fn cast_into(self) -> (r: Output)
        ensures
            r == self.cast_into_spec(),
    ;
}

impl<I, O: CastFrom<I>> CastInto<O> for I {
    open spec fn cast_into_spec(self) -> O {
        O::cast_from_spec(self)
    }

    fn cast_into(self) -> (r: O) {
        O::cast_from(self)
    }
}

impl CastFrom<i8> for u8 {
    open spec fn cast_from_spec(input: i8) -> u8 {
        reinterpret_unsigned(input as int, 8) as u8
    }

    fn cast_from(input: i8) -> (r: u8) {
        proof {
            lemma_pow2_named_widths();
        }
        if input >= 0 {
            input as u8
        } else {
            let m: i8 = -(input + 1);
            u8::MAX - (m as u8)
        }
    }
}

impl CastFrom<u8> for i8 {
    open spec fn cast_from_spec(input: u8) -> i8 {
        reinterpret_signed(input as int, 8) as i8
    }

    fn cast_from(input: u8) -> (r: i8) {
        proof {
            lemma_pow2_named_widths();
        }
        if input <= i8::MAX as u8 {
            input as i8
        } else {
            let m: u8 = u8::MAX - input;
            -(m as i8) - 1
        }
    }
}

impl CastFrom<i16> for u16 {
    open spec fn cast_from_spec(input: i16) -> u16 {
        reinterpret_unsigned(input as int, 16) as u16
    }

    fn cast_from(input: i16) -> (r: u16) {
        proof {
            lemma_pow2_named_widths();
        }
        if input >= 0 {
            input as u16
        } else {
            let m: i16 = -(input + 1);
            u16::MAX - (m as u16)
        }
    }
}

impl CastFrom<u16> for i16 {
    open spec fn cast_from_spec(input: u16) -> i16 {
        reinterpret_signed(input as int, 16) as i16
    }

    fn cast_from(input: u16) -> (r: i16) {
        proof {
            lemma_pow2_named_widths();
        }
        if input <= i16::MAX as u16 {
            input as i16
        } else {
            let m: u16 = u16::MAX - input;
            -(m as i16) - 1
        }
    }
}

impl CastFrom<i32> for u32 {
    open spec fn cast_from_spec(input: i32) -> u32 {
        reinterpret_unsigned(input as int, 32) as u32
    }

    fn cast_from(input: i32) -> (r: u32) {
        proof {
            lemma_pow2_named_widths();
        }
        if input >= 0 {
            input as u32
        } else {
            let m: i32 = -(input + 1);
            u32::MAX - (m as u32)
        }
    }
}

impl CastFrom<u32> for i32 {
    open spec fn cast_from_spec(input: u32) -> i32 {
        reinterpret_signed(input as int, 32) as i32
    }

    fn cast_from(input: u32) -> (r: i32) {
        proof {
            lemma_pow2_named_widths();
        }
        if input <= i32::MAX as u32 {
            input as i32
        } else {
            let m: u32 = u32::MAX - input;
            -(m as i32) - 1
        }
    }
}

impl CastFrom<i64> for u64 {
    open spec fn cast_from_spec(input: i64) -> u64 {
        reinterpret_unsigned(input as int, 64) as u64
    }

    fn cast_from(input: i64) -> (r: u64) {
        proof {
            lemma_pow2_named_widths();
        }
        if input >= 0 {
            input as u64
        } else {
            let m: i64 = -(input + 1);
            u64::MAX - (m as u64)
        }
    }
}

impl CastFrom<u64> for i64 {
    open spec fn cast_from_spec(input: u64) -> i64 {
        reinterpret_signed(input as int, 64) as i64
    }

    fn cast_from(input: u64) -> (r: i64) {
        proof {
            lemma_pow2_named_widths();
        }
        if input <= i64::MAX as u64 {
            input as i64
        } else {
            let m: u64 = u64::MAX - input;
            -(m as i64) - 1
        }
    }
}

impl CastFrom<i128> for u128 {
    open spec fn cast_from_spec(input: i128) -> u128 {
        reinterpret_unsigned(input as int, 128) as u128
    }

    fn cast_from(input: i128) -> (r: u128) {
        proof {
            lemma_pow2_named_widths();
        }
        if input >= 0 {
            input as u128
        } else {
            let m: i128 = -(input + 1);
            u128::MAX - (m as u128)
        }
    }
}

impl CastFrom<u128> for i128 {
    open spec fn cast_from_spec(input: u128) -> i128 {
        reinterpret_signed(input as int, 128) as i128
    }

    fn cast_from(input: u128) -> (r: i128) {
        proof {
            lemma_pow2_named_widths();
        }
        if input <= i128::MAX as u128 {
            input as i128
        } else {
            let m: u128 = u128::MAX - input;
            -(m as i128) - 1
        }
    }
}

impl CastFrom<isize> for usize {
    open spec fn cast_from_spec(input: isize) -> usize {
        reinterpret_unsigned(input as int, usize::BITS as nat) as usize
    }

    fn cast_from(input: isize) -> (r: usize) {
        proof {
            broadcast use layout_of_primitives;

            unsigned_int_max_values();
            signed_int_min_max_values();
            lemma_pow2_unfold(usize::BITS as nat);
        }
        if input >= 0 {
            input as usize
        } else {
            let m: isize = -(input + 1);
            usize::MAX - (m as usize)
        }
    }
}

impl CastFrom<usize> for isize {
    open spec fn cast_from_spec(input: usize) -> isize {
        reinterpret_signed(input as int, usize::BITS as nat) as isize
    }

    fn cast_from(input: usize) -> (r: isize) {
        proof {
            broadcast use layout_of_primitives;

            unsigned_int_max_values();
            signed_int_min_max_values();
            lemma_pow2_unfold(usize::BITS as nat);
        }
        if input <= isize::MAX as usize {
            input as isize
        } else {
            let m: usize = usize::MAX - input;
            -(m as isize) - 1
        }
    }
}

/// Reinterpreting a signed value as its `bits`-bit two's complement
/// pattern and reading that pattern back as a signed value recovers the
/// original value exactly.
pub proof fn lemma_reinterpret_signed_round_trip(v: int, bits: nat)
    requires
        1 <= bits,
        -pow2((bits - 1) as nat) <= v < pow2((bits - 1) as nat),
    ensures
        reinterpret_signed(reinterpret_unsigned(v, bits), bits) == v,
{
    lemma_pow2_unfold(bits);
}

/// Reading a `bits`-bit pattern as a signed value and reinterpreting that
/// value back as an unsigned pattern recovers the original pattern
/// exactly.
pub proof fn lemma_reinterpret_unsigned_round_trip(v: int, bits: nat)
    requires
        1 <= bits,
        0 <= v < pow2(bits),
    ensures
        reinterpret_unsigned(reinterpret_signed(v, bits), bits) == v,
{
    lemma_pow2_unfold(bits);
}

/// Casting an 8-bit signed value to its unsigned counterpart and back
/// recovers it exactly: the conversion pair is lossless.
pub proof fn lemma_cast_round_trip_i8(x: i8)
    ensures
        <i8 as CastFrom<u8>>::cast_from_spec(<u8 as CastFrom<i8>>::cast_from_spec(x)) == x,
{
    lemma_pow2_named_widths();
    lemma_reinterpret_signed_round_trip(x as int, 8);
}

/// Casting a 16-bit signed value to its unsigned counterpart and back
/// recovers it exactly: the conversion pair is lossless.
pub proof fn lemma_cast_round_trip_i16(x: i16)
    ensures
        <i16 as CastFrom<u16>>::cast_from_spec(<u16 as CastFrom<i16>>::cast_from_spec(x)) == x,
{
    lemma_pow2_named_widths();
    lemma_reinterpret_signed_round_trip(x as int, 16);
}

/// Casting a 32-bit signed value to its unsigned counterpart and back
/// recovers it exactly: the conversion pair is lossless.
pub proof fn lemma_cast_round_trip_i32(x: i32)
    ensures
        <i32 as CastFrom<u32>>::cast_from_spec(<u32 as CastFrom<i32>>::cast_from_spec(x)) == x,
{
    lemma_pow2_named_widths();
    lemma_reinterpret_signed_round_trip(x as int, 32);
}

/// Casting a 64-bit signed value to its unsigned counterpart and back
/// recovers it exactly: the conversion pair is lossless.
pub proof fn lemma_cast_round_trip_i64(x: i64)
    ensures
        <i64 as CastFrom<u64>>::cast_from_spec(<u64 as CastFrom<i64>>::cast_from_spec(x)) == x,
{
    lemma_pow2_named_widths();
    lemma_reinterpret_signed_round_trip(x as int, 64);
}

/// Casting a 128-bit signed value to its unsigned counterpart and back
/// recovers it exactly: the conversion pair is lossless.
pub proof fn lemma_cast_round_trip_i128(x: i128)
    ensures
        <i128 as CastFrom<u128>>::cast_from_spec(<u128 as CastFrom<i128>>::cast_from_spec(x))
            == x,
{
    lemma_pow2_named_widths();
    lemma_reinterpret_signed_round_trip(x as int, 128);
}

/// Casting a pointer-width signed value to its unsigned counterpart and
/// back recovers it exactly: the conversion pair is lossless.
pub proof fn lemma_cast_round_trip_isize(x: isize)
    ensures
        <isize as CastFrom<usize>>::cast_from_spec(
            <usize as CastFrom<isize>>::cast_from_spec(x),
        ) == x,
{
    broadcast use layout_of_primitives;

    unsigned_int_max_values();
    signed_int_min_max_values();
    lemma_reinterpret_signed_round_trip(x as int, usize::BITS as nat);
}

} // verus!
