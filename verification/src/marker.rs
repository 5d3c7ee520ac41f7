//! Compile-time capability markers.
//!
//! A marker type parameter decides which operations an accessor exposes.
//! Hardware frequently declares a register read-only or write-only; calling
//! the missing operation is a programming error that these markers turn into
//! a type error, with no runtime tag to check on the access path.

use vstd::prelude::*;

verus! {

/// Implemented by every capability marker.
pub trait AccessorTypeSpecifier {

}

/// Implemented by the markers whose accessors may read.
pub trait Readable: AccessorTypeSpecifier {

}

/// Implemented by the markers whose accessors may write.
pub trait Writable: AccessorTypeSpecifier {

}

/// The marker of a read-only accessor.
pub struct ReadOnly;

/// The marker of a write-only accessor.
pub struct WriteOnly;

/// The marker of an accessor that may both read and write.
pub struct ReadWrite;

impl AccessorTypeSpecifier for ReadOnly {

}

impl Readable for ReadOnly {

}

impl AccessorTypeSpecifier for WriteOnly {

}

impl Writable for WriteOnly {

}

impl AccessorTypeSpecifier for ReadWrite {

}

impl Readable for ReadWrite {

}

impl Writable for ReadWrite {

}

} // verus!
