//! A minimal, fixed-layout binary codec for memory-constrained environments.
//!
//! Structured values (primitives, options, tuples/structs, tagged unions) are
//! converted to and from a flat byte buffer using a big-endian,
//! non-self-describing wire format.  The codec enforces a strict buffer-bounds
//! discipline: before consuming `k` bytes it verifies that `k` bytes remain,
//! and it never reads or writes outside the supplied buffer.

pub mod adapters;
pub mod de;
pub mod error;
pub mod fields;
pub mod roots;
pub mod ser;
pub mod wire;

pub use de::Deserializer;
pub use error::DeError;
pub use error::SerError;
pub use ser::Serializer;
