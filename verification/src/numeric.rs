use vstd::arithmetic::power2::{lemma2_to64, lemma_pow2_strictly_increases, pow2};
use vstd::layout::{layout_of_primitives, unsigned_int_max_values};
use vstd::prelude::*;

verus! {

/// Base capability shared by every concrete numeric type: its exact
/// storage width in bits and literal constants for zero, one, two and the
/// maximum representable value.
pub trait Numeric: Sized + Copy {
    /// The value seen as a mathematical integer.
    spec fn as_int(self) -> int;

    /// Exact storage width of the type, in bits, as a spec-level value.
    spec fn bits() -> nat;

    /// Exact storage width of the type, in bits.
    const BITS: usize;

    /// The value `0` of the type.
    const ZERO: Self;

    /// The value `1` of the type.
    const ONE: Self;

    /// The value `2` of the type.
    const TWO: Self;

    /// The maximum representable value of the type.
    const MAX: Self;

    /// The constants are ordered: zero below one, one below two, and two
    /// no greater than the maximum representable value.
    proof fn constants_are_ordered()
        ensures
            Self::ZERO.as_int() < Self::ONE.as_int(),
            Self::ONE.as_int() < Self::TWO.as_int(),
            Self::TWO.as_int() <= Self::MAX.as_int(),
    ;

    /// The constants take their defining values: the width constant
    /// matches the spec-level bit count, zero, one and two are the first
    /// three integers, and no value of the type exceeds the maximum.
    proof fn constants_are_exact(x: Self)
        ensures
            Self::BITS as nat == Self::bits(),
            Self::ZERO.as_int() == 0,
            Self::ONE.as_int() == 1,
            Self::TWO.as_int() == 2,
            x.as_int() <= Self::MAX.as_int(),
    ;
}

impl Numeric for u8 {
    open spec fn as_int(self) -> int {
        self as int
    }

    open spec fn bits() -> nat {
        8
    }

    const BITS: usize = 8;

    const ZERO: Self = 0;

    const ONE: Self = 1;

    const TWO: Self = 2;

    const MAX: Self = u8::MAX;

    proof fn constants_are_ordered() {
    }

    proof fn constants_are_exact(x: Self) {
    }
}

impl Numeric for u16 {
    open spec fn as_int(self) -> int {
        self as int
    }

    open spec fn bits() -> nat {
        16
    }

    const BITS: usize = 16;

    const ZERO: Self = 0;

    const ONE: Self = 1;

    const TWO: Self = 2;

    const MAX: Self = u16::MAX;

    proof fn constants_are_ordered() {
    }

    proof fn constants_are_exact(x: Self) {
    }
}

impl Numeric for u32 {
    open spec fn as_int(self) -> int {
        self as int
    }

    open spec fn bits() -> nat {
        32
    }

    const BITS: usize = 32;

    const ZERO: Self = 0;

    const ONE: Self = 1;

    const TWO: Self = 2;

    const MAX: Self = u32::MAX;

    proof fn constants_are_ordered() {
    }

    proof fn constants_are_exact(x: Self) {
    }
}

impl Numeric for u64 {
    open spec fn as_int(self) -> int {
        self as int
    }

    open spec fn bits() -> nat {
        64
    }

    const BITS: usize = 64;

    const ZERO: Self = 0;

    const ONE: Self = 1;

    const TWO: Self = 2;

    const MAX: Self = u64::MAX;

    proof fn constants_are_ordered() {
    }

    proof fn constants_are_exact(x: Self) {
    }
}

impl Numeric for u128 {
    open spec fn as_int(self) -> int {
        self as int
    }

    open spec fn bits() -> nat {
        128
    }

    const BITS: usize = 128;

    const ZERO: Self = 0;

    const ONE: Self = 1;

    const TWO: Self = 2;

    const MAX: Self = u128::MAX;

    proof fn constants_are_ordered() {
    }

    proof fn constants_are_exact(x: Self) {
    }
}

impl Numeric for usize {
    open spec fn as_int(self) -> int {
        self as int
    }

    open spec fn bits() -> nat {
        usize::BITS as nat
    }

    const BITS: usize = usize::BITS as usize;

    const ZERO: Self = 0;

    const ONE: Self = 1;

    const TWO: Self = 2;

    const MAX: Self = usize::MAX;

    proof fn constants_are_ordered() {
        broadcast use layout_of_primitives;

        unsigned_int_max_values();
        lemma2_to64();
        lemma_pow2_strictly_increases(2, usize::BITS as nat);
    }

    proof fn constants_are_exact(x: Self) {
        broadcast use layout_of_primitives;

    }
}

impl Numeric for i8 {
    open spec fn as_int(self) -> int {
        self as int
    }

    open spec fn bits() -> nat {
        8
    }

    const BITS: usize = 8;

    const ZERO: Self = 0;

    const ONE: Self = 1;

    const TWO: Self = 2;

    const MAX: Self = i8::MAX;

    proof fn constants_are_ordered() {
    }

    proof fn constants_are_exact(x: Self) {
    }
}

impl Numeric for i16 {
    open spec fn as_int(self) -> int {
        self as int
    }

    open spec fn bits() -> nat {
        16
    }

    const BITS: usize = 16;

    const ZERO: Self = 0;

    const ONE: Self = 1;

    const TWO: Self = 2;

    const MAX: Self = i16::MAX;

    proof fn constants_are_ordered() {
    }

    proof fn constants_are_exact(x: Self) {
    }
}

impl Numeric for i32 {
    open spec fn as_int(self) -> int {
        self as int
    }

    open spec fn bits() -> nat {
        32
    }

    const BITS: usize = 32;

    const ZERO: Self = 0;

    const ONE: Self = 1;

    const TWO: Self = 2;

    const MAX: Self = i32::MAX;

    proof fn constants_are_ordered() {
    }

    proof fn constants_are_exact(x: Self) {
    }
}

impl Numeric for i64 {
    open spec fn as_int(self) -> int {
        self as int
    }

    open spec fn bits() -> nat {
        64
    }

    const BITS: usize = 64;

    const ZERO: Self = 0;

    const ONE: Self = 1;

    const TWO: Self = 2;

    const MAX: Self = i64::MAX;

    proof fn constants_are_ordered() {
    }

    proof fn constants_are_exact(x: Self) {
    }
}

impl Numeric for i128 {
    open spec fn as_int(self) -> int {
        self as int
    }

    open spec fn bits() -> nat {
        128
    }

    const BITS: usize = 128;

    const ZERO: Self = 0;

    const ONE: Self = 1;

    const TWO: Self = 2;

    const MAX: Self = i128::MAX;

    proof fn constants_are_ordered() {
    }

    proof fn constants_are_exact(x: Self) {
    }
}

impl Numeric for isize {
    open spec fn as_int(self) -> int {
        self as int
    }

    open spec fn bits() -> nat {
        usize::BITS as nat
    }

    const BITS: usize = usize::BITS as usize;

    const ZERO: Self = 0;

    const ONE: Self = 1;

    const TWO: Self = 2;

    const MAX: Self = isize::MAX;

    proof fn constants_are_ordered() {
        broadcast use layout_of_primitives;

        vstd::layout::signed_int_min_max_values();
        lemma2_to64();
        lemma_pow2_strictly_increases(2, (usize::BITS - 1) as nat);
    }

    proof fn constants_are_exact(x: Self) {
        broadcast use layout_of_primitives;

        vstd::layout::signed_int_min_max_values();
    }
}

} // verus!
