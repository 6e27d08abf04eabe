use vstd::prelude::*;

verus! {

/// A contract for constructing a value of the implementing type out of a
/// contiguous buffer together with a small copyable metadata value that
/// says how the buffer is to be interpreted. Each implementation defines
/// and documents its own preconditions tying the buffer to the metadata;
/// the base contract imposes none.
pub trait CreateFrom<T>: Sized {
    /// Metadata handed along with the buffer; it must be cheap to
    /// duplicate.
    type Metadata: Clone + Copy;

    /// Build a value from the buffer `from`, interpreted as described by
    /// `meta`.
    fn create_from(from: T, meta: Self::Metadata) -> Self;
}

/// Metadata for implementations that interpret their buffer without any
/// extra information.
#[derive(Clone, Copy)]
pub struct NoMetadata;

/// A degenerate [`CreateFrom`] implementation that ignores the buffer and
/// the metadata entirely, for testing and placeholder purposes.
pub struct DummyCreateFrom {}

impl<'data, T> CreateFrom<&'data [T]> for DummyCreateFrom {
    type Metadata = NoMetadata;

    fn create_from(_from: &'data [T], _meta: NoMetadata) -> Self {
        DummyCreateFrom {  }
    }
}

impl<'data, T> CreateFrom<&'data mut [T]> for DummyCreateFrom {
    type Metadata = NoMetadata;

    fn create_from(_from: &'data mut [T], _meta: NoMetadata) -> Self {
        DummyCreateFrom {  }
    }
}

} // verus!
