//! An accessor to a single element.

use core::marker::PhantomData;
use vstd::prelude::*;

use crate::bytes_of;
use crate::error::Error;
use crate::is_aligned;
use crate::is_aligned_spec;
use crate::mapper::Mapper;
use crate::marker;
use crate::marker::AccessorTypeSpecifier;
use crate::marker::Readable;
use crate::marker::Writable;

verus! {

/// A readable and writable accessor.
pub type ReadWrite<T, M> = Generic<T, M, marker::ReadWrite>;

/// A read-only accessor.
pub type ReadOnly<T, M> = Generic<T, M, marker::ReadOnly>;

/// A write-only accessor.
pub type WriteOnly<T, M> = Generic<T, M, marker::WriteOnly>;

/// Converts a read-capable accessor of a field-struct type into a struct of
/// read-only field views carrying the same field names.
///
/// It is implemented once per concrete struct type; [`crate::structural`]
/// holds a worked implementation for a two-field register. The views are
/// derived from the parent element and own no mapping of their own.
pub trait BoundedStructural<T, M, A> where M: Mapper, A: Readable {
    /// The struct-of-views type that `structural` returns.
    type BoundedStructuralType;

    /// The struct of views that `structural` returns, one per field of `T`,
    /// each holding the field's current value.
    spec fn structural_spec(&self) -> Self::BoundedStructuralType;

    /// Returns a struct of read-only field views over the element.
    fn structural(&self) -> (r: Self::BoundedStructuralType)
        ensures
            r == self.structural_spec(),
    ;
}

/// The writable counterpart of [`BoundedStructural`].
///
/// Writes go through an exchange discipline: `structural_mut` hands out the
/// aggregate of writable views, the caller writes into them, and
/// `structural_commit` stores the aggregate's fields back into the element as
/// one whole-value write. At most one aggregate should be live per parent at
/// a time, mirroring an exclusive borrow.
pub trait BoundedStructuralMut<T, M, A>: Sized where M: Mapper, A: Writable {
    /// The struct-of-views type that `structural_mut` returns.
    type BoundedStructuralType;

    /// The struct of views that `structural_mut` returns, one per field of
    /// `T`, each holding the field's current value.
    spec fn structural_mut_spec(&self) -> Self::BoundedStructuralType;

    /// The accessor as it stands once `s` is committed.
    spec fn committed_spec(self, s: Self::BoundedStructuralType) -> Self;

    /// Returns a struct of writable field views over the element.
    fn structural_mut(&mut self) -> (r: Self::BoundedStructuralType)
        ensures
            r == old(self).structural_mut_spec(),
            *final(self) == *old(self),
    ;

    /// Writes the element whose fields are the values held by `s`.
    fn structural_commit(&mut self, s: Self::BoundedStructuralType)
        ensures
            *final(self) == old(self).committed_spec(s),
    ;
}

/// An accessor to read, modify, and write one value of type `T` on a mapped
/// region of exactly `size_of::<T>()` bytes.
///
/// The accessor owns the mapping for its whole lifetime: it is created by
/// mapping the physical address of the cell, no other handle may access the
/// cell while it lives, and [`Generic::release`] hands the region back to the
/// mapper with exactly one unmap call. The capability marker `A` decides at
/// compile time whether the accessor may read, write, or both.
pub struct Generic<T, M, A> where M: Mapper, A: AccessorTypeSpecifier {
    virt: usize,
    phys: usize,
    value: T,
    mapper: M,
    _access: PhantomData<A>,
}

impl<T, M, A> View for Generic<T, M, A> where M: Mapper, A: AccessorTypeSpecifier {
    type V = T;

    /// The value the mapped cell currently holds.
    closed spec fn view(&self) -> T {
        self.value
    }
}

impl<T, M, A> Generic<T, M, A> where M: Mapper, A: AccessorTypeSpecifier {
    /// The physical base address the accessor was created at.
    pub closed spec fn phys_base(&self) -> usize {
        self.phys
    }

    /// The virtual address the mapper returned for the cell.
    pub closed spec fn virt_addr(&self) -> usize {
        self.virt
    }

    /// The mapper the accessor owns.
    pub closed spec fn mapper_view(&self) -> M {
        self.mapper
    }

    /// The accessor as it stands with `v` in its cell: what a volatile write
    /// of `v` leaves behind.
    pub closed spec fn with_value(self, v: T) -> Self {
        Generic { value: v, ..self }
    }

    /// The (physical base, byte length) pair of the accessor's mapping.
    pub open spec fn region(&self) -> (usize, usize) {
        (self.phys_base(), bytes_of::<T>())
    }

    /// The accessor's invariant: the physical base is aligned for `T`, and
    /// the mapper carries the accessor's region as an active mapping under
    /// the virtual address the accessor stores.
    pub open spec fn wf(&self) -> bool {
        &&& self.virt_addr() != 0
        &&& is_aligned_spec::<T>(self.phys_base())
        &&& self.mapper_view().mappings().dom().contains(self.region())
        &&& self.mapper_view().mappings()[self.region()] == self.virt_addr()
    }

    /// True when `other` covers the same mapping as `self`: same addresses
    /// and the same mapper state.
    pub open spec fn same_region(self, other: Self) -> bool {
        &&& other.phys_base() == self.phys_base()
        &&& other.virt_addr() == self.virt_addr()
        &&& other.mapper_view() == self.mapper_view()
    }

    /// Law: a write followed by a read returns the written value, and the
    /// write touches neither the addresses nor the mapper. In the terms of
    /// the read and write contracts: the cell of `self.with_value(v)` holds
    /// `v`.
    pub broadcast proof fn lemma_write_then_read(self, v: T)
        ensures
            #![trigger self.with_value(v)]
            self.with_value(v)@ == v,
            self.same_region(self.with_value(v)),
            self.with_value(v).wf() == self.wf(),
    {
    }

    /// Creates an accessor to the element of type `T` at the physical
    /// address `phys_base`, whose cell currently holds `value`.
    ///
    /// The caller must guarantee that the cell at `phys_base` is valid for
    /// `T`, holds `value`, and that no other accessor touches it while the
    /// returned one lives; the mapper must not already carry a mapping of
    /// this region. `phys_base` must be aligned as `T` requires.
    pub fn new(phys_base: usize, mapper: M, value: T) -> (r: Self)
        requires
            is_aligned_spec::<T>(phys_base),
            !mapper.mappings().dom().contains((phys_base, bytes_of::<T>())),
        ensures
            r.wf(),
            r@ == value,
            r.phys_base() == phys_base,
            r.mapper_view().mappings() == mapper.mappings().insert(
                (phys_base, bytes_of::<T>()),
                r.virt_addr(),
            ),
            r.mapper_view().unmap_log() == mapper.unmap_log(),
    {
        let bytes: usize = core::mem::size_of::<T>();
        let mut mapper = mapper;
        let virt = mapper.map(phys_base, bytes);
        Generic { virt, phys: phys_base, value, mapper, _access: PhantomData }
    }

    /// Creates an accessor as [`Generic::new`] does, but reports a misaligned
    /// `phys_base` as an [`Error::NotAligned`] carrying the required
    /// alignment and the offending address, instead of demanding alignment up
    /// front.
    pub fn try_new(phys_base: usize, mapper: M, value: T) -> (r: Result<Self, Error>)
        requires
            !mapper.mappings().dom().contains((phys_base, bytes_of::<T>())),
        ensures
            match r {
                Ok(a) => {
                    &&& is_aligned_spec::<T>(phys_base)
                    &&& a.wf()
                    &&& a@ == value
                    &&& a.phys_base() == phys_base
                    &&& a.mapper_view().mappings() == mapper.mappings().insert(
                        (phys_base, bytes_of::<T>()),
                        a.virt_addr(),
                    )
                    &&& a.mapper_view().unmap_log() == mapper.unmap_log()
                },
                Err(e) => {
                    &&& !is_aligned_spec::<T>(phys_base)
                    &&& e == (Error::NotAligned {
                        alignment: vstd::layout::align_of::<T>() as usize,
                        address: phys_base,
                    })
                },
            },
    {
        if is_aligned::<T>(phys_base) {
            Ok(Self::new(phys_base, mapper, value))
        } else {
            let alignment: usize = core::mem::align_of::<T>();
            Err(Error::NotAligned { alignment, address: phys_base })
        }
    }

    /// Returns the virtual address of the element.
    pub fn addr(&self) -> (r: usize)
        ensures
            r == self.virt_addr(),
    {
        self.virt
    }

    /// Destroys the accessor: releases its region with exactly one unmap
    /// call, carrying the same physical address and byte length that the
    /// originating map call received, and returns the mapper.
    pub fn release(self) -> (m: M)
        requires
            self.wf(),
        ensures
            m.mappings() == self.mapper_view().mappings().remove(self.region()),
            m.unmap_log() == self.mapper_view().unmap_log().push(self.region()),
    {
        let bytes: usize = core::mem::size_of::<T>();
        let Generic { phys, mut mapper, .. } = self;
        mapper.unmap(phys, bytes);
        mapper
    }
}

impl<T, M, A> Generic<T, M, A> where T: Copy, M: Mapper, A: AccessorTypeSpecifier {
    /// The element's current contents, for deriving views inside the crate;
    /// the public read path is capability-gated.
    pub(crate) fn peek(&self) -> (r: T)
        ensures
            r == self@,
    {
        self.value
    }
}

impl<T, M, A> Generic<T, M, A> where T: Copy, M: Mapper, A: Readable {
    /// Reads the value the cell holds and returns a bitwise copy of it.
    pub fn read_volatile(&self) -> (r: T)
        ensures
            r == self@,
    {
        self.value
    }

    /// Alias of [`Generic::read_volatile`], kept from earlier releases.
    pub fn read(&self) -> (r: T)
        ensures
            r == self@,
    {
        self.read_volatile()
    }
}

impl<T, M, A> Generic<T, M, A> where M: Mapper, A: Writable {
    /// Writes `v` to the cell.
    pub fn write_volatile(&mut self, v: T)
        ensures
            *final(self) == old(self).with_value(v),
            final(self)@ == v,
            old(self).same_region(*final(self)),
            final(self).wf() == old(self).wf(),
    {
        self.value = v;
    }

    /// Alias of [`Generic::write_volatile`], kept from earlier releases.
    pub fn write(&mut self, v: T)
        ensures
            *final(self) == old(self).with_value(v),
            final(self)@ == v,
            old(self).same_region(*final(self)),
            final(self).wf() == old(self).wf(),
    {
        self.write_volatile(v);
    }
}

impl<T, M, A> Generic<T, M, A> where T: Copy, M: Mapper, A: Readable + Writable {
    /// Updates the cell by reading it, applying `f`, and writing the result
    /// back: it leaves behind exactly what `write_volatile(f(read_volatile()))`
    /// would.
    ///
    /// Some hardware registers read back as zero regardless of what was
    /// written to them; on such a register the read half does not return the
    /// written value, so this operation should be called only once.
    pub fn update_volatile<U>(&mut self, f: U) where U: FnOnce(T) -> T
        requires
            call_requires(f, (old(self)@,)),
        ensures
            call_ensures(f, (old(self)@,), final(self)@),
            *final(self) == old(self).with_value(final(self)@),
            old(self).same_region(*final(self)),
            final(self).wf() == old(self).wf(),
    {
        let v = self.read_volatile();
        let w = f(v);
        self.write_volatile(w);
    }

    /// Alias of [`Generic::update_volatile`], kept from earlier releases.
    pub fn update<U>(&mut self, f: U) where U: FnOnce(T) -> T
        requires
            call_requires(f, (old(self)@,)),
        ensures
            call_ensures(f, (old(self)@,), final(self)@),
            *final(self) == old(self).with_value(final(self)@),
            old(self).same_region(*final(self)),
            final(self).wf() == old(self).wf(),
    {
        self.update_volatile(f);
    }
}

} // verus!
