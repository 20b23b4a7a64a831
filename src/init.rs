//! The boot memory topology: the free regions the firmware reports, less the
//! kernel and rinit images, and the arena for the first page-table pages.
use vstd::prelude::*;
use crate::region::{MemoryRegion, PAddr, bounds_region};

verus! {

/// How many free regions an `InitInfo` holds at most.
pub const MAX_FREE_REGIONS: usize = 16;

/// Why building the boot topology failed. Each of these halts the boot.
#[derive(Clone, Copy, Debug, PartialEq, Eq, Structural)]
pub enum BootError {
    /// An address computation does not fit in 64 bits.
    AddressOverflow,
    /// No module was loaded, so there is no rinit image.
    MissingRinitModule,
    /// An entry holds the kernel image but not the rinit image right above it.
    RinitNotAdjacent,
    /// No entry holds the kernel image, so there is no allocation arena.
    NoAllocationArena,
    /// More free regions than an `InitInfo` can hold.
    CapacityExceeded,
}

/// The kind of memory a memory-map entry describes.
#[derive(Clone, Copy, Debug, PartialEq, Eq, Structural)]
pub enum MemoryType {
    /// Usable RAM.
    Ram,
    /// Reserved or device memory.
    Reserved,
}

/// One entry of the firmware memory map.
#[derive(Clone, Copy, Debug, PartialEq, Eq, Structural)]
pub struct MemoryMapEntry {
    pub base: u64,
    pub length: u64,
    pub memory_type: MemoryType,
}

/// A loaded boot module, from `start` to `end`, both included.
#[derive(Clone, Copy, Debug, PartialEq, Eq, Structural)]
pub struct BootModule {
    pub start: PAddr,
    pub end: PAddr,
}

/// Initialization information handed to the kernel's main phase: up to
/// `MAX_FREE_REGIONS` free regions in the order they were found, the kernel
/// image's region and the rinit image's region.
#[derive(Debug)]
pub struct InitInfo {
    free_regions: Vec<MemoryRegion>,
    rinit_region: MemoryRegion,
    kernel_region: MemoryRegion,
}

/// The populated free regions of an `InitInfo`, one at a time.
pub struct FreeRegionsIterator<'a> {
    info: &'a InitInfo,
    pos: usize,
}

impl<'a> FreeRegionsIterator<'a> {
    /// The regions not yet returned.
    pub closed spec fn remaining(&self) -> Seq<MemoryRegion> {
        if self.pos <= self.info.free_regions@.len() {
            self.info.free_regions@.subrange(self.pos as int, self.info.free_regions@.len() as int)
        } else {
            Seq::empty()
        }
    }

    /// The next free region, or `None` once all were returned.
    pub fn next(&mut self) -> (r: Option<MemoryRegion>)
        ensures
            old(self).remaining().len() == 0 ==> r.is_none() && final(self).remaining()
                == old(self).remaining(),
            old(self).remaining().len() > 0 ==> r == Some(old(self).remaining()[0])
                && final(self).remaining() == old(self).remaining().drop_first(),
    {
        if self.pos < self.info.free_regions.len() {
            let region = self.info.free_regions[self.pos];
            self.pos = self.pos + 1;
            assert(final(self).remaining() =~= old(self).remaining().drop_first());
            Some(region)
        } else {
            None
        }
    }
}

impl InitInfo {
    /// The free regions, in the order they were added.
    pub closed spec fn free_view(&self) -> Seq<MemoryRegion> {
        self.free_regions@
    }

    /// The kernel image's region.
    pub closed spec fn spec_kernel_region(&self) -> MemoryRegion {
        self.kernel_region
    }

    /// The rinit image's region.
    pub closed spec fn spec_rinit_region(&self) -> MemoryRegion {
        self.rinit_region
    }

    /// At most `MAX_FREE_REGIONS` free regions.
    pub open spec fn wf(&self) -> bool {
        self.free_view().len() <= MAX_FREE_REGIONS
    }

    /// An iterator over the free regions.
    pub fn free_regions(&self) -> (r: FreeRegionsIterator<'_>)
        ensures
            r.remaining() == self.free_view(),
    {
        let r = FreeRegionsIterator { info: self, pos: 0 };
        assert(r.remaining() =~= self.free_view());
        r
    }

    /// The kernel image's region.
    pub fn kernel_region(&self) -> (r: MemoryRegion)
        ensures
            r == self.spec_kernel_region(),
    {
        self.kernel_region
    }

    /// The rinit image's region.
    pub fn rinit_region(&self) -> (r: MemoryRegion)
        ensures
            r == self.spec_rinit_region(),
    {
        self.rinit_region
    }

    /// Information with the given kernel and rinit regions and no free region.
    pub fn new(kernel_region: MemoryRegion, rinit_region: MemoryRegion) -> (r: InitInfo)
        ensures
            r.free_view() == Seq::<MemoryRegion>::empty(),
            r.spec_kernel_region() == kernel_region,
            r.spec_rinit_region() == rinit_region,
            r.wf(),
    {
        InitInfo { free_regions: Vec::new(), rinit_region, kernel_region }
    }

    /// Append a free region; fails, leaving `self` unchanged, where
    /// `MAX_FREE_REGIONS` are held already.
    pub fn push_free_region(&mut self, region: MemoryRegion) -> (r: Result<(), BootError>)
        ensures
            old(self).free_view().len() < MAX_FREE_REGIONS ==> r == Ok::<(), BootError>(())
                && final(self).free_view() == old(self).free_view().push(region),
            old(self).free_view().len() >= MAX_FREE_REGIONS ==> r == Err::<(), BootError>(
                BootError::CapacityExceeded,
            ) && final(self).free_view() == old(self).free_view(),
            final(self).spec_kernel_region() == old(self).spec_kernel_region(),
            final(self).spec_rinit_region() == old(self).spec_rinit_region(),
    {
        if self.free_regions.len() < MAX_FREE_REGIONS {
            self.free_regions.push(region);
            Ok(())
        } else {
            Err(BootError::CapacityExceeded)
        }
    }
}

/// The region an entry describes.
pub open spec fn entry_region(e: MemoryMapEntry) -> MemoryRegion {
    MemoryRegion { base: PAddr(e.base), length: e.length }
}

/// The free regions and the allocation arena found in `entries`, taken in
/// order: an entry that is not RAM is passed over; a RAM entry that holds the
/// kernel image at its bottom must hold the rinit image right above it, and
/// what is left above both is the arena; any other RAM entry is a free region.
/// The first entry that cannot be handled decides the error.
pub open spec fn scan_entries(entries: Seq<MemoryMapEntry>, kernel: MemoryRegion, rinit: MemoryRegion) -> Result<
    (Seq<MemoryRegion>, Option<MemoryRegion>),
    BootError,
>
    decreases entries.len(),
{
    if entries.len() == 0 {
        Ok((Seq::empty(), None))
    } else {
        match scan_entries(entries.drop_last(), kernel, rinit) {
            Err(e) => Err(e),
            Ok((free, arena)) => {
                let e = entries.last();
                let reg = entry_region(e);
                if e.memory_type != MemoryType::Ram {
                    Ok((free, arena))
                } else if !reg.wf() {
                    Err(BootError::AddressOverflow)
                } else if reg.overlaps_bottom(kernel) {
                    if reg.above(kernel).overlaps_bottom(rinit) {
                        Ok((free, Some(reg.above(kernel).above(rinit))))
                    } else {
                        Err(BootError::RinitNotAdjacent)
                    }
                } else if free.len() >= MAX_FREE_REGIONS {
                    Err(BootError::CapacityExceeded)
                } else {
                    Ok((free.push(reg), arena))
                }
            },
        }
    }
}

/// Once a prefix of the entries fails, the whole scan fails with its error.
proof fn lemma_scan_error_persists(
    entries: Seq<MemoryMapEntry>,
    kernel: MemoryRegion,
    rinit: MemoryRegion,
    j: int,
    e: BootError,
)
    requires
        0 <= j <= entries.len(),
        scan_entries(entries.take(j), kernel, rinit) == Err::<
            (Seq<MemoryRegion>, Option<MemoryRegion>),
            BootError,
        >(e),
    ensures
        scan_entries(entries, kernel, rinit) == Err::<
            (Seq<MemoryRegion>, Option<MemoryRegion>),
            BootError,
        >(e),
    decreases entries.len() - j,
{
    if j == entries.len() {
        assert(entries.take(j) =~= entries);
    } else {
        assert(entries.take(j + 1).drop_last() =~= entries.take(j));
        lemma_scan_error_persists(entries, kernel, rinit, j + 1, e);
    }
}

/// The free regions and the allocation arena built from `entries`; an error
/// where the scan fails or finds no arena.
pub open spec fn topology(entries: Seq<MemoryMapEntry>, kernel: MemoryRegion, rinit: MemoryRegion) -> Result<
    (Seq<MemoryRegion>, MemoryRegion),
    BootError,
> {
    match scan_entries(entries, kernel, rinit) {
        Err(e) => Err(e),
        Ok((free, None)) => Err(BootError::NoAllocationArena),
        Ok((free, Some(arena))) => Ok((free, arena)),
    }
}

/// Build the boot topology from the memory map, given the kernel and rinit
/// regions. Returns the information with its free regions, and the allocation
/// arena apart from them.
pub fn build_topology(
    kernel: MemoryRegion,
    rinit: MemoryRegion,
    memory_map: &Vec<MemoryMapEntry>,
) -> (r: Result<(InitInfo, MemoryRegion), BootError>)
    requires
        kernel.wf(),
        rinit.wf(),
    ensures
        match r {
            Ok((info, arena)) => topology(memory_map@, kernel, rinit) == Ok::<
                (Seq<MemoryRegion>, MemoryRegion),
                BootError,
            >((info.free_view(), arena)) && info.spec_kernel_region() == kernel
                && info.spec_rinit_region() == rinit && info.wf(),
            Err(e) => topology(memory_map@, kernel, rinit) == Err::<
                (Seq<MemoryRegion>, MemoryRegion),
                BootError,
            >(e),
        },
{
    let mut info = InitInfo::new(kernel, rinit);
    let mut arena: Option<MemoryRegion> = None;
    let n = memory_map.len();
    let mut i: usize = 0;
    while i < n
        invariant
            n == memory_map@.len(),
            i <= n,
            scan_entries(memory_map@.take(i as int), kernel, rinit) == Ok::<
                (Seq<MemoryRegion>, Option<MemoryRegion>),
                BootError,
            >((info.free_view(), arena)),
            info.spec_kernel_region() == kernel,
            info.wf(),
            info.spec_rinit_region() == rinit,
            kernel.wf(),
            rinit.wf(),
        decreases n - i,
    {
        let entry = memory_map[i];
        assert(memory_map@.take(i + 1).drop_last() =~= memory_map@.take(i as int));
        assert(memory_map@.take(i + 1).last() == entry);
        if entry.memory_type == MemoryType::Ram {
            if entry.base > u64::MAX - entry.length {
                proof {
                    lemma_scan_error_persists(
                        memory_map@,
                        kernel,
                        rinit,
                        i + 1,
                        BootError::AddressOverflow,
                    );
                }
                return Err(BootError::AddressOverflow);
            }
            let mut cur = MemoryRegion::new(PAddr(entry.base), entry.length);
            if cur.skip_up(&kernel) {
                if cur.skip_up(&rinit) {
                    arena = Some(cur);
                } else {
                    proof {
                        lemma_scan_error_persists(
                            memory_map@,
                            kernel,
                            rinit,
                            i + 1,
                            BootError::RinitNotAdjacent,
                        );
                    }
                    return Err(BootError::RinitNotAdjacent);
                }
            } else {
                match info.push_free_region(cur) {
                    Ok(()) => {},
                    Err(e) => {
                        proof {
                            lemma_scan_error_persists(memory_map@, kernel, rinit, i + 1, e);
                        }
                        return Err(e);
                    },
                }
            }
        }
        i = i + 1;
    }
    assert(memory_map@.take(n as int) =~= memory_map@);
    match arena {
        Some(a) => Ok((info, a)),
        None => Err(BootError::NoAllocationArena),
    }
}

/// The kernel region from the kernel image's first and last addresses, and the
/// rinit region from the first module; the first step that fails decides the
/// error.
pub open spec fn image_regions(kernel_start: u64, kernel_end: u64, modules: Seq<BootModule>) -> Result<
    (MemoryRegion, MemoryRegion),
    BootError,
> {
    match bounds_region(kernel_start, kernel_end) {
        None => Err(BootError::AddressOverflow),
        Some(kernel) => if modules.len() == 0 {
            Err(BootError::MissingRinitModule)
        } else {
            match bounds_region(modules[0].start.0, modules[0].end.0) {
                None => Err(BootError::AddressOverflow),
                Some(rinit) => Ok((kernel, rinit)),
            }
        },
    }
}

/// Build the boot topology from what the boot loader reports: the kernel
/// image's first and last addresses, the loaded modules (the first is the
/// rinit image) and the memory map. Returns the information with its free
/// regions, and the allocation arena apart from them.
pub fn bootstrap_archinfo(
    kernel_start: PAddr,
    kernel_end: PAddr,
    modules: &Vec<BootModule>,
    memory_map: &Vec<MemoryMapEntry>,
) -> (r: Result<(InitInfo, MemoryRegion), BootError>)
    ensures
        match image_regions(kernel_start.0, kernel_end.0, modules@) {
            Err(e) => r == Err::<(InitInfo, MemoryRegion), BootError>(e),
            Ok((kernel, rinit)) => match r {
                Ok((info, arena)) => topology(memory_map@, kernel, rinit) == Ok::<
                    (Seq<MemoryRegion>, MemoryRegion),
                    BootError,
                >((info.free_view(), arena)) && info.spec_kernel_region() == kernel
                    && info.spec_rinit_region() == rinit && info.wf(),
                Err(e) => topology(memory_map@, kernel, rinit) == Err::<
                    (Seq<MemoryRegion>, MemoryRegion),
                    BootError,
                >(e),
            },
        },
{
    let kernel = match MemoryRegion::from_bounds(kernel_start, kernel_end) {
        Some(k) => k,
        None => {
            return Err(BootError::AddressOverflow);
        },
    };
    if modules.len() == 0 {
        return Err(BootError::MissingRinitModule);
    }
    let rinit_module = modules[0];
    let rinit = match MemoryRegion::from_bounds(rinit_module.start, rinit_module.end) {
        Some(r) => r,
        None => {
            return Err(BootError::AddressOverflow);
        },
    };
    build_topology(kernel, rinit, memory_map)
}

/// Fold what is left of the allocation arena back into the free regions
/// before the information is handed to the kernel's main phase. An empty
/// arena holds no memory and is not added.
pub fn return_arena(info: &mut InitInfo, arena: MemoryRegion) -> (r: Result<(), BootError>)
    ensures
        arena.length == 0 ==> r == Ok::<(), BootError>(()) && final(info).free_view() == old(
            info,
        ).free_view(),
        arena.length > 0 && old(info).free_view().len() < MAX_FREE_REGIONS ==> r == Ok::<
            (),
            BootError,
        >(()) && final(info).free_view() == old(info).free_view().push(arena),
        arena.length > 0 && old(info).free_view().len() >= MAX_FREE_REGIONS ==> r == Err::<
            (),
            BootError,
        >(BootError::CapacityExceeded) && final(info).free_view() == old(info).free_view(),
        final(info).spec_kernel_region() == old(info).spec_kernel_region(),
        final(info).spec_rinit_region() == old(info).spec_rinit_region(),
{
    if arena.length == 0 {
        Ok(())
    } else {
        info.push_free_region(arena)
    }
}

} // verus!
