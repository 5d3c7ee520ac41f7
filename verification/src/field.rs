//! Capability-gated views of one field of a mapped element.

use core::marker::PhantomData;
use vstd::prelude::*;

use crate::marker::AccessorTypeSpecifier;
use crate::marker::Readable;
use crate::marker::Writable;

verus! {

/// A read or write handle over one field of a mapped element, or over one
/// element of a mapped array.
///
/// A view owns no mapping of its own: it is derived from a parent accessor,
/// performs no map or unmap call, and a write made through it reaches the
/// element when the parent commits the view. The capability marker `A` gates
/// its operations exactly as it gates the parent's.
pub struct FieldView<F, A> where A: AccessorTypeSpecifier {
    pub(crate) value: F,
    pub(crate) _access: PhantomData<A>,
}

impl<F, A> View for FieldView<F, A> where A: AccessorTypeSpecifier {
    type V = F;

    /// The value the view holds.
    closed spec fn view(&self) -> F {
        self.value
    }
}

impl<F, A> FieldView<F, A> where A: AccessorTypeSpecifier {
    /// The view as a spec value: what a parent derives for a field currently
    /// holding `v`.
    pub closed spec fn spec_of(v: F) -> Self {
        FieldView { value: v, _access: PhantomData }
    }

    /// Derives a view of a field currently holding `value`.
    pub(crate) fn of(value: F) -> (r: Self)
        ensures
            r == Self::spec_of(value),
            r@ == value,
    {
        FieldView { value, _access: PhantomData }
    }
}

/// A view derived for a field currently holding `v` holds exactly `v`.
pub broadcast proof fn lemma_spec_of_holds<F, A>(v: F) where A: AccessorTypeSpecifier
    ensures
        #![trigger FieldView::<F, A>::spec_of(v)]
        FieldView::<F, A>::spec_of(v)@ == v,
{
}

impl<F, A> FieldView<F, A> where F: Copy, A: AccessorTypeSpecifier {
    /// The value the view holds, for committing it inside the crate; the
    /// public read path is capability-gated.
    pub(crate) fn get(&self) -> (r: F)
        ensures
            r == self@,
    {
        self.value
    }
}

impl<F, A> FieldView<F, A> where F: Copy, A: Readable {
    /// Reads the value the view holds and returns a bitwise copy of it.
    pub fn read_volatile(&self) -> (r: F)
        ensures
            r == self@,
    {
        self.value
    }
}

impl<F, A> FieldView<F, A> where A: Writable {
    /// Writes `v` into the view; the parent's commit stores it back into the
    /// element.
    pub fn write_volatile(&mut self, v: F)
        ensures
            *final(self) == FieldView::<F, A>::spec_of(v),
            final(self)@ == v,
    {
        self.value = v;
    }
}

} // verus!
