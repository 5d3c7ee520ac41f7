//! The recoverable errors of this crate.

use vstd::prelude::*;

verus! {

/// An error returned by the fallible accessor constructors.
#[derive(Clone, Copy, Debug, PartialEq, Eq, Structural)]
pub enum Error {
    /// The physical base address does not meet the accessed type's alignment
    /// requirement. Carries the required alignment and the offending address.
    NotAligned { alignment: usize, address: usize },
}

} // verus!
