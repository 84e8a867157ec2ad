//! The error values that the containers of this crate hand out.

use vstd::prelude::*;

verus! {

/// The error of an operation that was given no element, or that would have
/// left a [`crate::SmallVec1`] without any element.
#[derive(Debug, Clone, Copy, PartialEq, Eq, Structural, Hash, PartialOrd, Ord)]
pub struct Size0Error;

/// Why a buffer could not be given the capacity that was asked for.
#[derive(Debug, Clone, Copy, PartialEq, Eq, Structural, Hash)]
pub enum CollectionAllocErr {
    /// The capacity asked for is more than one allocation can hold.
    CapacityOverflow,
    /// The allocator did not hand out the memory.
    AllocErr,
}

} // verus!
