use crate::numeric::Numeric;
use vstd::prelude::*;

verus! {

/// Capability of the unsigned integer types: each one names the signed
/// integer type that shares its bit width.
pub trait UnsignedInteger: Numeric {
    /// The signed integer type with the same bit width.
    type Signed;
}

impl UnsignedInteger for u8 {
    type Signed = i8;
}

impl UnsignedInteger for u16 {
    type Signed = i16;
}

impl UnsignedInteger for u32 {
    type Signed = i32;
}

impl UnsignedInteger for u64 {
    type Signed = i64;
}

impl UnsignedInteger for u128 {
    type Signed = i128;
}

impl UnsignedInteger for usize {
    type Signed = isize;
}

} // verus!
