//! A small vector of bytes that always holds at least one element.
//!
//! [`SmallBuf`] keeps up to [`INLINE_SIZE`] bytes inline and moves to the heap
//! beyond that. [`SmallVec1`] owns one such buffer and never lets it become
//! empty: what could remove the last element is a `try_` method that fails
//! and leaves the container as it was, and `first` and `last` hand out a
//! byte, not an `Option`.
//!
//! The storage is smallvec's. What its methods do is written down, and
//! believed, in [`buffer`]; everything else is proved from that: that a
//! `SmallVec1` holds a byte whatever is done to it, and, of each operation,
//! which bytes the container holds afterwards. The sequences that these
//! contracts speak of are defined in [`model`] and [`order`], and what holds
//! of them in general is proved in [`laws`].

pub mod access;
pub mod buffer;
pub mod convert;
pub mod equality;
pub mod error;
pub mod laws;
pub mod model;
pub mod nonempty;
pub mod order;

pub use crate::buffer::SmallBuf;
pub use crate::buffer::INLINE_SIZE;
pub use crate::buffer::MAX_CAPACITY;
pub use crate::buffer::MAX_LEN;
pub use crate::error::CollectionAllocErr;
pub use crate::error::Size0Error;
pub use crate::nonempty::SmallVec1;
