use crate::numeric::Numeric;
use vstd::prelude::*;

verus! {

/// Capability of the floating point types: closure under the arithmetic
/// operators together with the float-specific operations of the concrete
/// type. The operations follow the type's native floating point
/// semantics and carry no contracts here; the bit-pattern rendering that
/// `to_bit_string` produces is the one computed, with a full contract, by
/// [`crate::float_bit_string`] from the value's raw bits.
pub trait FloatingPoint:
    Numeric
    + core::ops::Neg<Output = Self>
    + core::ops::Add<Self, Output = Self>
    + core::ops::Div<Self, Output = Self>
    + core::ops::Mul<Self, Output = Self>
    + core::ops::Rem<Self, Output = Self>
    + core::ops::Sub<Self, Output = Self> {
    /// Number of significant digits in base 2.
    const MANTISSA_DIGITS: usize;

    /// Raise the value to an integer power.
    #[must_use]
    fn powi(self, power: i32) -> Self;

    /// Round the value to the closest integer.
    #[must_use]
    fn round(self) -> Self;

    /// Keep the fractional part of the number.
    #[must_use]
    fn fract(self) -> Self;

    /// Remainder of the euclidean division, non-negative whenever the
    /// divisor is positive.
    #[must_use]
    fn rem_euclid(self, rhs: Self) -> Self;

    /// Return the square root of the value.
    #[must_use]
    fn sqrt(self) -> Self;

    /// Return the natural logarithm of the value.
    #[must_use]
    fn ln(self) -> Self;

    /// Return the absolute value.
    #[must_use]
    fn abs(self) -> Self;

    /// Return the floor of the value.
    #[must_use]
    fn floor(self) -> Self;

    /// Return a rendering of the value's raw bit pattern, with the sign,
    /// exponent and mantissa bits separated by spaces for readability.
    fn to_bit_string(&self) -> String;
}

} // verus!
