//! Aliasing duplication of values.
//!
//! A carrier is a value that owns or refers to some storage. Duplicating a
//! carrier shallowly yields a second handle with the same representation as
//! the first: nothing behind the handle is copied and no reference count is
//! touched. The [`ShallowCopy`] trait is that one operation; the other
//! modules implement it for the carrier shapes this crate supports.

pub mod buffer;
pub mod reference;
pub mod scalar;
pub mod shallow_copy;
pub mod tuple;

pub use buffer::BufferParts;
pub use shallow_copy::ShallowCopy;
