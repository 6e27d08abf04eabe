//! A uniform numeric abstraction layer over the machine's primitive
//! types: a capability trait family exposing bit widths, named constants,
//! two's complement reinterpretation, wrapping absolute value, grouped
//! bit-string rendering and total casts between paired types, so that
//! higher-level code can be written once and instantiated for every
//! concrete width.

mod bits;
mod cast;
mod create_from;
mod float;
mod numeric;
mod signed;
mod unsigned;

pub use cast::CastFrom;
pub use cast::CastInto;
pub use create_from::CreateFrom;
pub use create_from::DummyCreateFrom;
pub use create_from::NoMetadata;
pub use float::FloatingPoint;
pub use numeric::Numeric;
pub use signed::SignedInteger;
pub use signed::SignedNumeric;
pub use unsigned::UnsignedInteger;

pub use bits::float_bit_string;
pub use bits::grouped_bit_string;

pub use bits::bit_char;
pub use bits::bit_chars;
pub use bits::exponent_len;
pub use bits::float_fields;
pub use bits::grouped_chars;
pub use bits::reinterpret_signed;
pub use bits::reinterpret_unsigned;
pub use signed::wrapped_abs;

pub use bits::lemma_pow2_named_widths;
pub use cast::lemma_cast_round_trip_i128;
pub use cast::lemma_cast_round_trip_i16;
pub use cast::lemma_cast_round_trip_i32;
pub use cast::lemma_cast_round_trip_i64;
pub use cast::lemma_cast_round_trip_i8;
pub use cast::lemma_cast_round_trip_isize;
pub use cast::lemma_reinterpret_signed_round_trip;
pub use cast::lemma_reinterpret_unsigned_round_trip;
pub use signed::lemma_wrapped_abs_minimum;
