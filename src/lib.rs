/// Calls of the checked API on a byte array, as values
pub mod calls;

/// Laws that relate the operations to each other
pub mod laws;

/// Miscellaneous stuff
pub mod misc;

/// A fixed-capacity storage over a preallocated buffer
pub mod preallocated;

/// The storage a wrapper can sit on
pub mod storage;

/// Array traits exposing a checked API only
pub mod traits;

/// A generic wrapper that implements the `Array*`-traits for the underlying storage
pub mod wrapper;

pub use crate::preallocated::Preallocated;
pub use crate::traits::{ArrayAlloc, ArrayAllocPanic, ArrayMut, ArrayRef, CanAlloc};
pub use crate::wrapper::Array;
