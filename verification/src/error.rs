//! Error taxonomies for the two codec directions.
//!
//! Causes differ by direction, so the encode side and the decode side each
//! have their own disjoint enumeration.  Every decode failure is a
//! recoverable, typed result; only a violated structural precondition of a
//! type itself (a tagged union declaring more variants than one discriminant
//! byte can carry) is a schema defect, which the codec excludes by
//! precondition rather than reporting at run time.

use vstd::prelude::*;

verus! {

/// Failure kinds for the encode direction.
#[derive(Clone, Copy, Debug, PartialEq, Eq, Structural)]
pub enum SerError {
    /// The destination buffer has insufficient remaining space for the next
    /// write.  Recoverable: the caller may retry with a larger buffer.
    Overflow,
    /// A tagged union declares more variants than a single discriminant byte
    /// can represent.  This is a schema defect; the verified encoder excludes
    /// it by precondition and never returns it.
    EnumLarge,
}

/// Failure kinds for the decode direction.
#[derive(Clone, Copy, Debug, PartialEq, Eq, Structural)]
pub enum DeError {
    /// Fewer bytes remain than the next primitive requires.
    BufferSmall,
    /// Bytes remain after the root value was fully decoded.
    BufferLarge,
    /// A byte outside {0, 1} was read where a boolean or presence tag was
    /// expected.
    ExpectedBoolean,
    /// A discriminant at or above the type's declared variant count was read.
    InvalidVariant,
}

/// Result of an encode-side operation.
pub type SerResult<T> = Result<T, SerError>;

/// Result of a decode-side operation.
pub type DeResult<T> = Result<T, DeError>;

} // verus!
