use crate::bits::{
    bit_chars, grouped_bit_string, grouped_chars, lemma_pow2_named_widths, reinterpret_unsigned,
};
use crate::cast::CastFrom;
use crate::numeric::Numeric;
use crate::unsigned::UnsignedInteger;
use vstd::arithmetic::power2::{lemma_pow2_unfold, pow2};
use vstd::layout::{layout_of_primitives, signed_int_min_max_values, unsigned_int_max_values};
use vstd::prelude::*;

verus! {

/// Marker capability of the signed numeric types: each one names an
/// unsigned counterpart type at the marker level.
pub trait SignedNumeric: Numeric {
    /// The unsigned numeric type paired with this type.
    type NumericUnsignedType;
}

/// Absolute value of a signed value of the given bit width, wrapping at
/// the minimum representable value: that value is its own wrapping
/// absolute value, every other value maps to its ordinary absolute value.
pub open spec fn wrapped_abs(v: int, bits: nat) -> int {
    if v == -pow2((bits - 1) as nat) {
        v
    } else if v < 0 {
        -v
    } else {
        v
    }
}

/// Capability of the signed integer types: closure under the arithmetic,
/// bitwise and shift operators, a same-width unsigned counterpart type,
/// two's complement reinterpretation into that counterpart, grouped
/// bit-string rendering and wrapping absolute value.
pub trait SignedInteger:
    SignedNumeric
    + core::ops::Neg<Output = Self>
    + core::ops::Add<Self, Output = Self>
    + core::ops::Div<Self, Output = Self>
    + core::ops::Mul<Self, Output = Self>
    + core::ops::Rem<Self, Output = Self>
    + core::ops::Sub<Self, Output = Self>
    + core::ops::BitAnd<Self, Output = Self>
    + core::ops::BitOr<Self, Output = Self>
    + core::ops::BitXor<Self, Output = Self>
    + core::ops::Not<Output = Self>
    + core::ops::Shl<usize, Output = Self>
    + core::ops::Shr<usize, Output = Self> {
    /// The unsigned integer type with the same bit width.
    type Unsigned: UnsignedInteger<Signed = Self> + CastFrom<Self>;

    /// Reinterpret the value's two's complement bit pattern as the
    /// same-width unsigned type; no arithmetic takes place, so a negative
    /// value maps to the high half of the unsigned range.
    fn into_unsigned(self) -> (r: Self::Unsigned)
        ensures
            r.as_int() == reinterpret_unsigned(self.as_int(), Self::bits()),
    ;

    /// Render the value's two's complement binary representation,
    /// zero-padded to the type's exact bit width, with one space inserted
    /// after every `break_every` digits counting from the most
    /// significant end.
    fn to_bits_string(&self, break_every: usize) -> (s: String)
        requires
            1 <= break_every,
        ensures
            s@ == grouped_chars(
                bit_chars(
                    reinterpret_unsigned(self.as_int(), Self::bits()) as nat,
                    Self::bits(),
                ),
                break_every as nat,
            ),
    ;

    /// Absolute value with wraparound at the type's minimum value, which
    /// maps to itself instead of trapping.
    fn wrapping_abs(self) -> (r: Self)
        ensures
            r.as_int() == wrapped_abs(self.as_int(), Self::bits()),
    ;
}

impl SignedNumeric for i8 {
    type NumericUnsignedType = u8;
}

impl SignedInteger for i8 {
    type Unsigned = u8;

    fn into_unsigned(self) -> (r: u8) {
        proof {
            lemma_pow2_named_widths();
        }
        u8::cast_from(self)
    }

    fn to_bits_string(&self, break_every: usize) -> (s: String) {
        proof {
            lemma_pow2_named_widths();
        }
        grouped_bit_string((*self).into_unsigned() as u128, 8, break_every)
    }

    fn wrapping_abs(self) -> (r: Self) {
        proof {
            lemma_pow2_named_widths();
        }
        if self == i8::MIN {
            self
        } else if self < 0 {
            -self
        } else {
            self
        }
    }
}

impl SignedNumeric for i16 {
    type NumericUnsignedType = u16;
}

impl SignedInteger for i16 {
    type Unsigned = u16;

    fn into_unsigned(self) -> (r: u16) {
        proof {
            lemma_pow2_named_widths();
        }
        u16::cast_from(self)
    }

    fn to_bits_string(&self, break_every: usize) -> (s: String) {
        proof {
            lemma_pow2_named_widths();
        }
        grouped_bit_string((*self).into_unsigned() as u128, 16, break_every)
    }

    fn wrapping_abs(self) -> (r: Self) {
        proof {
            lemma_pow2_named_widths();
        }
        if self == i16::MIN {
            self
        } else if self < 0 {
            -self
        } else {
            self
        }
    }
}

impl SignedNumeric for i32 {
    type NumericUnsignedType = u32;
}

impl SignedInteger for i32 {
    type Unsigned = u32;

    fn into_unsigned(self) -> (r: u32) {
        proof {
            lemma_pow2_named_widths();
        }
        u32::cast_from(self)
    }

    fn to_bits_string(&self, break_every: usize) -> (s: String) {
        proof {
            lemma_pow2_named_widths();
        }
        grouped_bit_string((*self).into_unsigned() as u128, 32, break_every)
    }

    fn wrapping_abs(self) -> (r: Self) {
        proof {
            lemma_pow2_named_widths();
        }
        if self == i32::MIN {
            self
        } else if self < 0 {
            -self
        } else {
            self
        }
    }
}

impl SignedNumeric for i64 {
    type NumericUnsignedType = u64;
}

impl SignedInteger for i64 {
    type Unsigned = u64;

    fn into_unsigned(self) -> (r: u64) {
        proof {
            lemma_pow2_named_widths();
        }
        u64::cast_from(self)
    }

    fn to_bits_string(&self, break_every: usize) -> (s: String) {
        proof {
            lemma_pow2_named_widths();
        }
        grouped_bit_string((*self).into_unsigned() as u128, 64, break_every)
    }

    fn wrapping_abs(self) -> (r: Self) {
        proof {
            lemma_pow2_named_widths();
        }
        if self == i64::MIN {
            self
        } else if self < 0 {
            -self
        } else {
            self
        }
    }
}

impl SignedNumeric for i128 {
    type NumericUnsignedType = u128;
}

impl SignedInteger for i128 {
    type Unsigned = u128;

    fn into_unsigned(self) -> (r: u128) {
        proof {
            lemma_pow2_named_widths();
        }
        u128::cast_from(self)
    }

    fn to_bits_string(&self, break_every: usize) -> (s: String) {
        proof {
            lemma_pow2_named_widths();
        }
        grouped_bit_string((*self).into_unsigned(), 128, break_every)
    }

    fn wrapping_abs(self) -> (r: Self) {
        proof {
            lemma_pow2_named_widths();
        }
        if self == i128::MIN {
            self
        } else if self < 0 {
            -self
        } else {
            self
        }
    }
}

impl SignedNumeric for isize {
    type NumericUnsignedType = usize;
}

impl SignedInteger for isize {
    type Unsigned = usize;

    fn into_unsigned(self) -> (r: usize) {
        proof {
            broadcast use layout_of_primitives;

            unsigned_int_max_values();
            signed_int_min_max_values();
            lemma_pow2_unfold(usize::BITS as nat);
        }
        usize::cast_from(self)
    }

    fn to_bits_string(&self, break_every: usize) -> (s: String) {
        proof {
            broadcast use layout_of_primitives;

            unsigned_int_max_values();
        }
        grouped_bit_string((*self).into_unsigned() as u128, usize::BITS as usize, break_every)
    }

    fn wrapping_abs(self) -> (r: Self) {
        proof {
            broadcast use layout_of_primitives;

            signed_int_min_max_values();
        }
        if self == isize::MIN {
            self
        } else if self < 0 {
            -self
        } else {
            self
        }
    }
}

/// The minimum representable value of a signed type is a fixed point of
/// the wrapping absolute value: wrapping it changes nothing.
pub proof fn lemma_wrapped_abs_minimum(bits: nat)
    requires
        1 <= bits,
    ensures
        wrapped_abs(-pow2((bits - 1) as nat), bits) == -pow2((bits - 1) as nat),
{
}

} // verus!
