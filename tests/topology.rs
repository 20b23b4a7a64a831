use kernel_init::init::{
    BootError, BootModule, InitInfo, MemoryMapEntry, MemoryType, bootstrap_archinfo, build_topology,
};
use kernel_init::region::{MemoryRegion, PAddr};

fn region(base: u64, length: u64) -> MemoryRegion {
    MemoryRegion::new(PAddr(base), length)
}

fn ram(base: u64, length: u64) -> MemoryMapEntry {
    MemoryMapEntry { base, length, memory_type: MemoryType::Ram }
}

fn reserved(base: u64, length: u64) -> MemoryMapEntry {
    MemoryMapEntry { base, length, memory_type: MemoryType::Reserved }
}

fn free_list(info: &InitInfo) -> Vec<MemoryRegion> {
    let mut out = Vec::new();
    let mut it = info.free_regions();
    while let Some(r) = it.next() {
        out.push(r);
    }
    out
}

const KERNEL_START: u64 = 0x100000;
const KERNEL_END: u64 = 0x2FFFFF;

fn rinit_module() -> Vec<BootModule> {
    vec![BootModule { start: PAddr(0x300000), end: PAddr(0x30FFFF) }]
}

#[test]
fn single_entry_holds_kernel_rinit_and_arena() {
    let map = vec![ram(0x100000, 0x1000000)];
    let (info, arena) =
        bootstrap_archinfo(PAddr(KERNEL_START), PAddr(KERNEL_END), &rinit_module(), &map).unwrap();
    assert_eq!(info.kernel_region(), region(0x100000, 0x200000));
    assert_eq!(info.rinit_region(), region(0x300000, 0x10000));
    assert_eq!(arena, region(0x310000, 0xDF0000));
    assert!(free_list(&info).is_empty());
}

#[test]
fn other_ram_entries_become_free_regions_in_order() {
    let map = vec![
        ram(0x0, 0x9F000),
        reserved(0x9F000, 0x61000),
        ram(0x100000, 0x1000000),
        ram(0x2000000, 0x4000000),
    ];
    let (info, arena) =
        bootstrap_archinfo(PAddr(KERNEL_START), PAddr(KERNEL_END), &rinit_module(), &map).unwrap();
    assert_eq!(arena, region(0x310000, 0xDF0000));
    assert_eq!(free_list(&info), vec![region(0x0, 0x9F000), region(0x2000000, 0x4000000)]);
}

#[test]
fn sixteen_free_entries_fit() {
    let mut map = Vec::new();
    for i in 0..16u64 {
        map.push(ram(0x10000000 + i * 0x100000, 0x1000));
    }
    map.push(ram(0x100000, 0x1000000));
    let (info, _) =
        bootstrap_archinfo(PAddr(KERNEL_START), PAddr(KERNEL_END), &rinit_module(), &map).unwrap();
    assert_eq!(free_list(&info).len(), 16);
}

#[test]
fn seventeen_free_entries_overflow() {
    let mut map = Vec::new();
    for i in 0..17u64 {
        map.push(ram(0x10000000 + i * 0x100000, 0x1000));
    }
    map.push(ram(0x100000, 0x1000000));
    let r = bootstrap_archinfo(PAddr(KERNEL_START), PAddr(KERNEL_END), &rinit_module(), &map);
    assert_eq!(r.err(), Some(BootError::CapacityExceeded));
}

#[test]
fn no_kernel_entry_means_no_arena() {
    let map = vec![ram(0x2000000, 0x1000000)];
    let r = bootstrap_archinfo(PAddr(KERNEL_START), PAddr(KERNEL_END), &rinit_module(), &map);
    assert_eq!(r.err(), Some(BootError::NoAllocationArena));
}

#[test]
fn rinit_not_above_kernel_is_an_error() {
    let map = vec![ram(0x100000, 0x1000000)];
    let modules = vec![BootModule { start: PAddr(0x800000), end: PAddr(0x80FFFF) }];
    let r = bootstrap_archinfo(PAddr(KERNEL_START), PAddr(KERNEL_END), &modules, &map);
    assert_eq!(r.err(), Some(BootError::RinitNotAdjacent));
}

#[test]
fn missing_module_is_an_error() {
    let map = vec![ram(0x100000, 0x1000000)];
    let r = bootstrap_archinfo(PAddr(KERNEL_START), PAddr(KERNEL_END), &Vec::new(), &map);
    assert_eq!(r.err(), Some(BootError::MissingRinitModule));
}

#[test]
fn overflowing_entry_is_an_error() {
    let map = vec![ram(0xFFFF_FFFF_FFFF_0000, 0x20000), ram(0x100000, 0x1000000)];
    let r = bootstrap_archinfo(PAddr(KERNEL_START), PAddr(KERNEL_END), &rinit_module(), &map);
    assert_eq!(r.err(), Some(BootError::AddressOverflow));
}

#[test]
fn reversed_kernel_bounds_are_an_error() {
    let map = vec![ram(0x100000, 0x1000000)];
    let r = bootstrap_archinfo(PAddr(KERNEL_END), PAddr(KERNEL_START), &rinit_module(), &map);
    assert_eq!(r.err(), Some(BootError::AddressOverflow));
}

#[test]
fn reserved_entries_are_ignored() {
    let map = vec![reserved(0x100000, 0x1000000), reserved(0x0, 0x1000)];
    let r = build_topology(region(0x100000, 0x200000), region(0x300000, 0x10000), &map);
    assert_eq!(r.err(), Some(BootError::NoAllocationArena));
}

#[test]
fn pieces_cover_ram_without_overlap() {
    let map = vec![ram(0x0, 0x9F000), ram(0x100000, 0x1000000), ram(0x2000000, 0x100000)];
    let kernel = region(0x100000, 0x200000);
    let rinit = region(0x300000, 0x10000);
    let (info, arena) = build_topology(kernel, rinit, &map).unwrap();
    let mut pieces = free_list(&info);
    pieces.push(kernel);
    pieces.push(rinit);
    pieces.push(arena);
    pieces.sort_by_key(|r| r.base.0);
    let total: u64 = pieces.iter().map(|r| r.length).sum();
    let ram_total: u64 = map.iter().map(|e| e.length).sum();
    assert_eq!(total, ram_total);
    for w in pieces.windows(2) {
        assert!(w[0].base.0 + w[0].length <= w[1].base.0);
    }
}

#[test]
fn push_free_region_stops_at_capacity() {
    let mut info = InitInfo::new(region(0x100000, 0x1000), region(0x101000, 0x1000));
    for i in 0..16u64 {
        assert_eq!(info.push_free_region(region(i * 0x1000, 0x1000)), Ok(()));
    }
    assert_eq!(info.push_free_region(region(0x200000, 0x1000)), Err(BootError::CapacityExceeded));
    assert_eq!(free_list(&info).len(), 16);
}

#[test]
fn arena_is_pushed_back_as_a_free_region() {
    let map = vec![ram(0x100000, 0x1000000)];
    let (mut info, arena) =
        bootstrap_archinfo(PAddr(KERNEL_START), PAddr(KERNEL_END), &rinit_module(), &map).unwrap();
    assert_eq!(info.push_free_region(arena), Ok(()));
    assert_eq!(free_list(&info), vec![region(0x310000, 0xDF0000)]);
}

#[test]
fn empty_arena_is_not_returned() {
    let mut info = InitInfo::new(region(0x100000, 0x1000), region(0x101000, 0x1000));
    assert_eq!(kernel_init::init::return_arena(&mut info, region(0x102000, 0)), Ok(()));
    assert!(free_list(&info).is_empty());
    assert_eq!(kernel_init::init::return_arena(&mut info, region(0x102000, 0x1000)), Ok(()));
    assert_eq!(free_list(&info), vec![region(0x102000, 0x1000)]);
}
