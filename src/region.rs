//! Physical addresses and half-open extents of physical memory.
use vstd::prelude::*;

verus! {

/// A 64-bit physical address.
#[derive(Clone, Copy, Debug, PartialEq, Eq, Structural)]
pub struct PAddr(pub u64);

/// The extent `[base, base + length)` of physical memory. A region of length 0
/// holds no address.
#[derive(Clone, Copy, Debug, PartialEq, Eq, Structural)]
pub struct MemoryRegion {
    pub base: PAddr,
    pub length: u64,
}

impl MemoryRegion {
    /// The first address past the region.
    pub open spec fn end_excl(self) -> int {
        self.base.0 + self.length
    }

    /// The end of the region fits in the address width.
    pub open spec fn wf(self) -> bool {
        self.end_excl() <= u64::MAX
    }

    /// The addresses the region holds.
    pub open spec fn addrs(self) -> Set<int> {
        Set::new(|a: int| self.base.0 <= a < self.end_excl())
    }

    /// `x` covers some prefix of `self`: it starts at or before `self`'s base
    /// and reaches past it.
    pub open spec fn overlaps_bottom(self, x: MemoryRegion) -> bool {
        self.length > 0 && x.base.0 <= self.base.0 && self.base.0 < x.end_excl()
    }

    /// What is left of `self` above `x`: it starts right after `x` and is empty
    /// where `x` reaches to or past `self`'s end.
    pub open spec fn above(self, x: MemoryRegion) -> MemoryRegion {
        MemoryRegion {
            base: PAddr(x.end_excl() as u64),
            length: if x.end_excl() >= self.end_excl() {
                0
            } else {
                (self.end_excl() - x.end_excl()) as u64
            },
        }
    }

    /// The region of `length` bytes at `base`.
    pub fn new(base: PAddr, length: u64) -> (r: MemoryRegion)
        requires
            base.0 + length <= u64::MAX,
        ensures
            r == (MemoryRegion { base, length }),
            r.wf(),
    {
        MemoryRegion { base, length }
    }

    /// The region from `start` to `end`, both included; `None` where `end` is
    /// below `start` or is the last address, whose successor does not fit.
    pub fn from_bounds(start: PAddr, end: PAddr) -> (r: Option<MemoryRegion>)
        ensures
            r == bounds_region(start.0, end.0),
    {
        if start.0 <= end.0 && end.0 < u64::MAX {
            Some(MemoryRegion { base: start, length: end.0 + 1 - start.0 })
        } else {
            None
        }
    }

    /// Remove `region` from the bottom of `self`. Where `region` covers a
    /// prefix of `self`, `self` is moved up to start right after `region`,
    /// shrinks by the overlap (to length 0 where `region` covers all of it),
    /// and the result is `true`. Otherwise `self` is unchanged and the result
    /// is `false`.
    pub fn skip_up(&mut self, region: &MemoryRegion) -> (r: bool)
        requires
            old(self).wf(),
            region.wf(),
        ensures
            r == old(self).overlaps_bottom(*region),
            r ==> *final(self) == old(self).above(*region),
            !r ==> *final(self) == *old(self),
            final(self).wf(),
            region.end_excl() <= old(self).base.0 ==> !r && *final(self) == *old(self),
            region.base.0 <= old(self).base.0 && old(self).base.0 < region.end_excl()
                && region.end_excl() < old(self).end_excl() ==> r && *final(self) == (MemoryRegion {
                base: PAddr(region.end_excl() as u64),
                length: (old(self).length - (region.end_excl() - old(self).base.0)) as u64,
            }),
            old(self).length > 0 && region.base.0 <= old(self).base.0 && old(self).end_excl()
                <= region.end_excl() ==> r && final(self).length == 0,
    {
        let region_end: u64 = region.base.0 + region.length;
        let self_end: u64 = self.base.0 + self.length;
        if self.length > 0 && region.base.0 <= self.base.0 && self.base.0 < region_end {
            let length: u64 = if region_end >= self_end {
                0
            } else {
                self_end - region_end
            };
            *self = MemoryRegion { base: PAddr(region_end), length };
            true
        } else {
            false
        }
    }
}

/// The region from `start` to `end`, both included, where it can be formed.
pub open spec fn bounds_region(start: u64, end: u64) -> Option<MemoryRegion> {
    if start <= end && end < u64::MAX {
        Some(MemoryRegion { base: PAddr(start), length: (end + 1 - start) as u64 })
    } else {
        None
    }
}

} // verus!
