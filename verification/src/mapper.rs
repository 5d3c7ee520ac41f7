//! The physical-to-virtual mapping contract.

use vstd::prelude::*;

verus! {

/// A strategy that translates a physical address range into a virtual one.
///
/// `map` establishes a mapping of `bytes` bytes at `phys_start` and returns a
/// non-null virtual address for it; `unmap` releases a mapping established
/// earlier, named by the same pair of arguments. The contract asks every
/// implementation to account for its active mappings and for the unmap calls
/// it has served, so that an accessor can promise that the region it owns is
/// released exactly once, with the arguments of the originating map call.
///
/// The physical memory behind a mapping must genuinely exist and must not
/// alias another live mapping; the accessor constructors carry that obligation
/// to their callers as a precondition.
pub trait Mapper: Sized {
    /// The active mappings: each (physical base, byte length) pair that was
    /// mapped and not yet unmapped, with the virtual address it received.
    spec fn mappings(&self) -> Map<(usize, usize), usize>;

    /// Every unmap call served so far, oldest first.
    spec fn unmap_log(&self) -> Seq<(usize, usize)>;

    /// Establishes a mapping of `bytes` bytes at `phys_start` and returns a
    /// non-null virtual address valid for that many bytes.
    fn map(&mut self, phys_start: usize, bytes: usize) -> (virt: usize)
        requires
            !old(self).mappings().dom().contains((phys_start, bytes)),
        ensures
            virt != 0,
            final(self).mappings() == old(self).mappings().insert((phys_start, bytes), virt),
            final(self).unmap_log() == old(self).unmap_log(),
    ;

    /// Releases the mapping that `map` established for the same arguments.
    fn unmap(&mut self, phys_start: usize, bytes: usize)
        requires
            old(self).mappings().dom().contains((phys_start, bytes)),
        ensures
            final(self).mappings() == old(self).mappings().remove((phys_start, bytes)),
            final(self).unmap_log() == old(self).unmap_log().push((phys_start, bytes)),
    ;
}

/// A mapper for identity-mapped environments that also keeps a journal of the
/// calls made to it, so a caller can check that every mapping it handed out
/// came back exactly once.
///
/// The translation returns the physical address itself; physical address zero
/// is relocated to one so that the returned address is never null.
pub struct RecordingMapper {
    map_calls: Vec<(usize, usize)>,
    unmap_calls: Vec<(usize, usize)>,
    active: Ghost<Map<(usize, usize), usize>>,
}

impl RecordingMapper {
    /// Every map call served so far, oldest first.
    pub closed spec fn map_log(&self) -> Seq<(usize, usize)> {
        self.map_calls@
    }

    /// Creates a mapper with no active mappings and an empty journal.
    pub fn new() -> (m: Self)
        ensures
            m.mappings() == Map::<(usize, usize), usize>::empty(),
            m.map_log() == Seq::<(usize, usize)>::empty(),
            m.unmap_log() == Seq::<(usize, usize)>::empty(),
    {
        RecordingMapper {
            map_calls: Vec::new(),
            unmap_calls: Vec::new(),
            active: Ghost(Map::empty()),
        }
    }

    /// The recorded map calls, oldest first.
    pub fn map_calls(&self) -> (r: &Vec<(usize, usize)>)
        ensures
            r@ == self.map_log(),
    {
        &self.map_calls
    }

    /// The recorded unmap calls, oldest first.
    pub fn unmap_calls(&self) -> (r: &Vec<(usize, usize)>)
        ensures
            r@ == self.unmap_log(),
    {
        &self.unmap_calls
    }
}

impl Mapper for RecordingMapper {
    closed spec fn mappings(&self) -> Map<(usize, usize), usize> {
        self.active@
    }

    closed spec fn unmap_log(&self) -> Seq<(usize, usize)> {
        self.unmap_calls@
    }

    fn map(&mut self, phys_start: usize, bytes: usize) -> (virt: usize)
        ensures
            virt == (if phys_start == 0 { 1usize } else { phys_start }),
            final(self).map_log() == old(self).map_log().push((phys_start, bytes)),
    {
        let virt: usize = if phys_start == 0 {
            1
        } else {
            phys_start
        };
        self.map_calls.push((phys_start, bytes));
        self.active = Ghost(self.active@.insert((phys_start, bytes), virt));
        virt
    }

    fn unmap(&mut self, phys_start: usize, bytes: usize)
        ensures
            final(self).map_log() == old(self).map_log(),
    {
        self.unmap_calls.push((phys_start, bytes));
        self.active = Ghost(self.active@.remove((phys_start, bytes)));
    }
}

} // verus!
