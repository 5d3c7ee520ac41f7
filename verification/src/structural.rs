//! A worked field-projection companion for a two-field register.
//!
//! The step that derives such a companion from a plain struct definition is a
//! code generator outside this crate; its output is consumed through the
//! [`BoundedStructural`] and [`BoundedStructuralMut`] contracts. This module
//! holds the expansion for one register shape, written out by hand, as the
//! reference implementation of those contracts.

use vstd::prelude::*;

use crate::field::FieldView;
use crate::mapper::Mapper;
use crate::marker;
use crate::marker::Readable;
use crate::marker::Writable;
use crate::single::BoundedStructural;
use crate::single::BoundedStructuralMut;
use crate::single::Generic;

verus! {

/// A register made of two 32-bit fields.
#[derive(Clone, Copy, Debug, PartialEq, Eq, Structural)]
pub struct RegisterPair {
    pub x: u32,
    pub y: u32,
}

/// The struct-of-views companion of [`RegisterPair`]: one field view per
/// field, under the same field names.
pub struct RegisterPairStructural<A> where A: marker::AccessorTypeSpecifier {
    pub x: FieldView<u32, A>,
    pub y: FieldView<u32, A>,
}

impl<M, A> BoundedStructural<RegisterPair, M, A> for Generic<RegisterPair, M, A> where
    M: Mapper,
    A: Readable,
 {
    type BoundedStructuralType = RegisterPairStructural<marker::ReadOnly>;

    open spec fn structural_spec(&self) -> RegisterPairStructural<marker::ReadOnly> {
        RegisterPairStructural {
            x: FieldView::spec_of(self@.x),
            y: FieldView::spec_of(self@.y),
        }
    }

    fn structural(&self) -> (r: RegisterPairStructural<marker::ReadOnly>) {
        let v = self.read_volatile();
        RegisterPairStructural { x: FieldView::of(v.x), y: FieldView::of(v.y) }
    }
}

impl<M, A> BoundedStructuralMut<RegisterPair, M, A> for Generic<RegisterPair, M, A> where
    M: Mapper,
    A: Writable,
 {
    type BoundedStructuralType = RegisterPairStructural<A>;

    open spec fn structural_mut_spec(&self) -> RegisterPairStructural<A> {
        RegisterPairStructural {
            x: FieldView::spec_of(self@.x),
            y: FieldView::spec_of(self@.y),
        }
    }

    open spec fn committed_spec(self, s: RegisterPairStructural<A>) -> Self {
        self.with_value(RegisterPair { x: s.x@, y: s.y@ })
    }

    fn structural_mut(&mut self) -> (r: RegisterPairStructural<A>) {
        let v = self.peek();
        RegisterPairStructural { x: FieldView::of(v.x), y: FieldView::of(v.y) }
    }

    fn structural_commit(&mut self, s: RegisterPairStructural<A>) {
        let v = RegisterPair { x: s.x.get(), y: s.y.get() };
        self.write_volatile(v);
    }
}

} // verus!
