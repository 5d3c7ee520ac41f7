//! Capability-gated accessors for memory-mapped registers.
//!
//! A device register lives at a physical address. An accessor pairs that
//! address with a [`mapper::Mapper`], which translates the physical range to a
//! virtual one, and with a capability marker from [`marker`] that decides at
//! compile time whether the handle may read, write, or both. The accessor owns
//! the mapped cell for its whole lifetime: no other handle may touch the range
//! while it lives, and releasing it hands the range back to the mapper with
//! exactly one `unmap` call carrying the same arguments as the original `map`.
//!
//! [`single`] holds the one-element accessor, [`array`] the accessor for a
//! contiguous run of elements, and [`structural`] a worked field-projection
//! companion that reads and writes the fields of a two-field register
//! independently.

use vstd::prelude::*;

pub mod array;
pub mod error;
pub mod field;
pub mod mapper;
pub mod marker;
pub mod single;
pub mod structural;

verus! {

/// True when `addr` is a multiple of `T`'s natural alignment.
pub open spec fn is_aligned_spec<T>(addr: usize) -> bool {
    addr as int % vstd::layout::align_of::<T>() as int == 0
}

/// The number of bytes one `T` occupies, as a region length for a mapper.
pub open spec fn bytes_of<T>() -> usize {
    vstd::layout::size_of::<T>() as usize
}

/// Returns whether `phys_base` meets `T`'s alignment requirement.
pub fn is_aligned<T>(phys_base: usize) -> (r: bool)
    ensures
        r == is_aligned_spec::<T>(phys_base),
{
    proof {
        broadcast use vstd::layout::align_nonzero;
    }
    let align: usize = core::mem::align_of::<T>();
    phys_base % align == 0
}

} // verus!
