//! An accessor to a contiguous array of elements.

use core::marker::PhantomData;
use vstd::pervasive::VecAdditionalExecFns;
use vstd::prelude::*;

use crate::error::Error;
use crate::field::FieldView;
use crate::is_aligned;
use crate::is_aligned_spec;
use crate::mapper::Mapper;
use crate::marker;
use crate::marker::AccessorTypeSpecifier;
use crate::marker::Readable;
use crate::marker::Writable;

verus! {

/// A readable and writable array accessor.
pub type ReadWrite<T, M> = Generic<T, M, marker::ReadWrite>;

/// A read-only array accessor.
pub type ReadOnly<T, M> = Generic<T, M, marker::ReadOnly>;

/// A write-only array accessor.
pub type WriteOnly<T, M> = Generic<T, M, marker::WriteOnly>;

/// The byte length of a mapped run of `count` elements of type `T`.
pub open spec fn region_bytes<T>(count: nat) -> usize {
    (count * vstd::layout::size_of::<T>()) as usize
}

/// An accessor to read, modify, and write a contiguous run of elements of
/// type `T` on one mapped region of `count * size_of::<T>()` bytes.
///
/// Every per-index operation demands an index below the element count. The
/// accessor owns the whole region for its lifetime and [`Generic::release`]
/// hands it back to the mapper in one unmap call, exactly as the
/// single-element accessor does.
pub struct Generic<T, M, A> where M: Mapper, A: AccessorTypeSpecifier {
    virt: usize,
    phys: usize,
    items: Vec<T>,
    mapper: M,
    _access: PhantomData<A>,
}

impl<T, M, A> View for Generic<T, M, A> where M: Mapper, A: AccessorTypeSpecifier {
    type V = Seq<T>;

    /// The elements the mapped run currently holds, in address order.
    closed spec fn view(&self) -> Seq<T> {
        self.items@
    }
}

impl<T, M, A> Generic<T, M, A> where M: Mapper, A: AccessorTypeSpecifier {
    /// The physical base address the accessor was created at.
    pub closed spec fn phys_base(&self) -> usize {
        self.phys
    }

    /// The virtual address the mapper returned for the run.
    pub closed spec fn virt_addr(&self) -> usize {
        self.virt
    }

    /// The mapper the accessor owns.
    pub closed spec fn mapper_view(&self) -> M {
        self.mapper
    }

    /// The (physical base, byte length) pair of the accessor's mapping.
    pub open spec fn region(&self) -> (usize, usize) {
        (self.phys_base(), region_bytes::<T>(self@.len()))
    }

    /// The accessor's invariant: the physical base is aligned for `T`, the
    /// region's byte length fits the address space, and the mapper carries
    /// the region as an active mapping under the stored virtual address.
    pub open spec fn wf(&self) -> bool {
        &&& self.virt_addr() != 0
        &&& is_aligned_spec::<T>(self.phys_base())
        &&& self@.len() * vstd::layout::size_of::<T>() <= usize::MAX
        &&& self.mapper_view().mappings().dom().contains(self.region())
        &&& self.mapper_view().mappings()[self.region()] == self.virt_addr()
    }

    /// True when `other` covers the same mapping as `self`: same addresses,
    /// same element count, and the same mapper state.
    pub open spec fn same_region(self, other: Self) -> bool {
        &&& other.phys_base() == self.phys_base()
        &&& other.virt_addr() == self.virt_addr()
        &&& other.mapper_view() == self.mapper_view()
        &&& other@.len() == self@.len()
    }

    /// Creates an accessor to the run of `items.len()` elements of type `T`
    /// at the physical address `phys_base`, whose cells currently hold
    /// `items`.
    ///
    /// The caller must guarantee that the run at `phys_base` is valid for
    /// that many `T`, holds `items`, and that no other accessor touches it
    /// while the returned one lives; the mapper must not already carry a
    /// mapping of this region. `phys_base` must be aligned as `T` requires.
    pub fn new(phys_base: usize, mapper: M, items: Vec<T>) -> (r: Self)
        requires
            is_aligned_spec::<T>(phys_base),
            items@.len() * vstd::layout::size_of::<T>() <= usize::MAX,
            !mapper.mappings().dom().contains((phys_base, region_bytes::<T>(items@.len()))),
        ensures
            r.wf(),
            r@ == items@,
            r.phys_base() == phys_base,
            r.mapper_view().mappings() == mapper.mappings().insert(
                (phys_base, region_bytes::<T>(items@.len())),
                r.virt_addr(),
            ),
            r.mapper_view().unmap_log() == mapper.unmap_log(),
    {
        let bytes: usize = items.len() * core::mem::size_of::<T>();
        let mut mapper = mapper;
        let virt = mapper.map(phys_base, bytes);
        Generic { virt, phys: phys_base, items, mapper, _access: PhantomData }
    }

    /// Creates an accessor as [`Generic::new`] does, but reports a misaligned
    /// `phys_base` as an [`Error::NotAligned`] carrying the required
    /// alignment and the offending address, instead of demanding alignment
    /// up front.
    pub fn try_new(phys_base: usize, mapper: M, items: Vec<T>) -> (r: Result<Self, Error>)
        requires
            items@.len() * vstd::layout::size_of::<T>() <= usize::MAX,
            !mapper.mappings().dom().contains((phys_base, region_bytes::<T>(items@.len()))),
        ensures
            match r {
                Ok(a) => {
                    &&& is_aligned_spec::<T>(phys_base)
                    &&& a.wf()
                    &&& a@ == items@
                    &&& a.phys_base() == phys_base
                    &&& a.mapper_view().mappings() == mapper.mappings().insert(
                        (phys_base, region_bytes::<T>(items@.len())),
                        a.virt_addr(),
                    )
                    &&& a.mapper_view().unmap_log() == mapper.unmap_log()
                },
                Err(e) => {
                    &&& !is_aligned_spec::<T>(phys_base)
                    &&& e == (Error::NotAligned {
                        alignment: vstd::layout::align_of::<T>() as usize,
                        address: phys_base,
                    })
                },
            },
    {
        if is_aligned::<T>(phys_base) {
            Ok(Self::new(phys_base, mapper, items))
        } else {
            let alignment: usize = core::mem::align_of::<T>();
            Err(Error::NotAligned { alignment, address: phys_base })
        }
    }

    /// Returns the number of elements of the run.
    pub fn len(&self) -> (r: usize)
        ensures
            r == self@.len(),
    {
        self.items.len()
    }

    /// Destroys the accessor: releases the whole region with exactly one
    /// unmap call, carrying the same physical address and byte length that
    /// the originating map call received, and returns the mapper.
    pub fn release(self) -> (m: M)
        requires
            self.wf(),
        ensures
            m.mappings() == self.mapper_view().mappings().remove(self.region()),
            m.unmap_log() == self.mapper_view().unmap_log().push(self.region()),
    {
        let bytes: usize = self.items.len() * core::mem::size_of::<T>();
        let Generic { phys, mut mapper, .. } = self;
        mapper.unmap(phys, bytes);
        mapper
    }
}

impl<T, M, A> Generic<T, M, A> where T: Copy, M: Mapper, A: Readable {
    /// Reads the element at index `i` and returns a bitwise copy of it.
    pub fn read_volatile_at(&self, i: usize) -> (r: T)
        requires
            i < self@.len(),
        ensures
            r == self@[i as int],
    {
        self.items[i]
    }

    /// Returns a read-only view of the element at index `i`.
    pub fn at(&self, i: usize) -> (r: FieldView<T, marker::ReadOnly>)
        requires
            i < self@.len(),
        ensures
            r == FieldView::<T, marker::ReadOnly>::spec_of(self@[i as int]),
            r@ == self@[i as int],
    {
        FieldView::of(self.items[i])
    }
}

impl<T, M, A> Generic<T, M, A> where M: Mapper, A: Writable {
    /// Writes `v` to the element at index `i`.
    pub fn write_volatile_at(&mut self, i: usize, v: T)
        requires
            i < old(self)@.len(),
        ensures
            final(self)@ == old(self)@.update(i as int, v),
            old(self).same_region(*final(self)),
            final(self).wf() == old(self).wf(),
    {
        self.items.set(i, v);
    }
}

impl<T, M, A> Generic<T, M, A> where T: Copy, M: Mapper, A: Writable {
    /// Returns a writable view of the element at index `i`. A write made
    /// through the view reaches the run when the view is handed back to
    /// [`Generic::commit_at`].
    pub fn at_mut(&mut self, i: usize) -> (r: FieldView<T, A>)
        requires
            i < old(self)@.len(),
        ensures
            r == FieldView::<T, A>::spec_of(old(self)@[i as int]),
            r@ == old(self)@[i as int],
            *final(self) == *old(self),
    {
        FieldView::of(self.items[i])
    }

    /// Commits a view taken with [`Generic::at_mut`]: writes the value it
    /// holds to the element at index `i`.
    pub fn commit_at(&mut self, i: usize, view: FieldView<T, A>)
        requires
            i < old(self)@.len(),
        ensures
            final(self)@ == old(self)@.update(i as int, view@),
            old(self).same_region(*final(self)),
            final(self).wf() == old(self).wf(),
    {
        self.items.set(i, view.get());
    }
}

impl<T, M, A> Generic<T, M, A> where T: Copy, M: Mapper, A: Readable + Writable {
    /// Updates the element at index `i` by reading it, applying `f`, and
    /// writing the result back: it leaves behind exactly what
    /// `write_volatile_at(i, f(read_volatile_at(i)))` would.
    pub fn update_volatile_at<U>(&mut self, i: usize, f: U) where U: FnOnce(T) -> T
        requires
            i < old(self)@.len(),
            call_requires(f, (old(self)@[i as int],)),
        ensures
            call_ensures(f, (old(self)@[i as int],), final(self)@[i as int]),
            final(self)@ == old(self)@.update(i as int, final(self)@[i as int]),
            old(self).same_region(*final(self)),
            final(self).wf() == old(self).wf(),
    {
        let v = self.read_volatile_at(i);
        let w = f(v);
        self.write_volatile_at(i, w);
    }
}

} // verus!
