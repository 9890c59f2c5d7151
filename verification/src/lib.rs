//! A growable, contiguous sequence container with explicit control over
//! capacity growth, element lifetime, and double-ended iteration.
//!
//! The crate is layered from the bottom up:
//!
//! - [`buffer::RawBuffer`] accounts for one contiguous allocation: how many
//!   elements it can hold, when it grows (by doubling), and when it is
//!   released. It knows nothing about which slots hold live elements.
//! - [`array::Vec`] pairs a buffer with the initialized elements and
//!   offers push/pop/insert/remove, reads, and the two iteration forms.
//! - [`iter`] holds the double-ended iterators: a consuming one that owns the
//!   buffer until it is dropped, and a draining one that empties the array
//!   while the array keeps its capacity.
//! - [`compare`] and [`option_ext`] are small companions: slice comparison
//!   utilities and an extension trait for in-place `Option` replacement.

use vstd::prelude::*;

pub mod array;
pub mod buffer;
pub mod compare;
pub mod iter;
pub mod option_ext;

verus! {

/// Why a container operation could not be carried out.
///
/// Allocation failure has no variant here: the allocator treats running out
/// of memory as fatal, so it never reports back to this crate.
#[derive(Clone, Copy, Debug, PartialEq, Eq, Structural)]
pub enum ArrayError {
    /// The index lies outside the range that the operation accepts.
    IndexOutOfBounds,
    /// The operation would need a capacity that cannot be represented.
    CapacityOverflow,
}

} // verus!
