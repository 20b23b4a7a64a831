//! What the boot topology covers: exactly the RAM of the memory map, split
//! into pieces that do not overlap.
use vstd::prelude::*;
use crate::init::{MAX_FREE_REGIONS, MemoryMapEntry, MemoryType, entry_region, scan_entries, topology};
use crate::region::MemoryRegion;

verus! {

/// The addresses of the RAM entries of `entries`.
pub open spec fn ram_addrs(entries: Seq<MemoryMapEntry>) -> Set<int>
    decreases entries.len(),
{
    if entries.len() == 0 {
        Set::empty()
    } else {
        let e = entries.last();
        ram_addrs(entries.drop_last()) + if e.memory_type == MemoryType::Ram {
            entry_region(e).addrs()
        } else {
            Set::empty()
        }
    }
}

/// The addresses of all of `regions`.
pub open spec fn regions_addrs(regions: Seq<MemoryRegion>) -> Set<int>
    decreases regions.len(),
{
    if regions.len() == 0 {
        Set::empty()
    } else {
        regions_addrs(regions.drop_last()) + regions.last().addrs()
    }
}

/// No two RAM entries share an address.
pub open spec fn ram_entries_disjoint(entries: Seq<MemoryMapEntry>) -> bool {
    forall|i: int, j: int|
        #![trigger entries[i], entries[j]]
        0 <= i < j < entries.len() && entries[i].memory_type == MemoryType::Ram
            && entries[j].memory_type == MemoryType::Ram ==> entry_region(entries[i]).addrs().disjoint(
            entry_region(entries[j]).addrs(),
        )
}

/// Entry `j` is RAM, starts where the kernel image starts, and holds the
/// rinit image right above the kernel image.
pub open spec fn images_at_bottom_of(
    entries: Seq<MemoryMapEntry>,
    kernel: MemoryRegion,
    rinit: MemoryRegion,
    j: int,
) -> bool {
    0 <= j < entries.len() && entries[j].memory_type == MemoryType::Ram && entries[j].base
        == kernel.base.0 && rinit.base.0 == kernel.end_excl() && rinit.end_excl() <= entry_region(
        entries[j],
    ).end_excl()
}

proof fn lemma_region_in_union(regions: Seq<MemoryRegion>, i: int)
    requires
        0 <= i < regions.len(),
    ensures
        regions[i].addrs().subset_of(regions_addrs(regions)),
    decreases regions.len(),
{
    if i < regions.len() - 1 {
        lemma_region_in_union(regions.drop_last(), i);
    }
}

proof fn lemma_entry_disjoint_from_prefix(entries: Seq<MemoryMapEntry>, n: int, m: int)
    requires
        ram_entries_disjoint(entries),
        0 <= m <= n < entries.len(),
        entries[n].memory_type == MemoryType::Ram,
    ensures
        entry_region(entries[n]).addrs().disjoint(ram_addrs(entries.take(m))),
    decreases m,
{
    if m > 0 {
        assert(entries.take(m).drop_last() =~= entries.take(m - 1));
        lemma_entry_disjoint_from_prefix(entries, n, m - 1);
        if entries[m - 1].memory_type == MemoryType::Ram {
            assert(entry_region(entries[m - 1]).addrs().disjoint(entry_region(entries[n]).addrs()));
        }
    }
}

proof fn lemma_entry_in_prefix(entries: Seq<MemoryMapEntry>, j: int, n: int)
    requires
        0 <= j < n <= entries.len(),
        entries[j].memory_type == MemoryType::Ram,
    ensures
        entry_region(entries[j]).addrs().subset_of(ram_addrs(entries.take(n))),
    decreases n,
{
    assert(entries.take(n).drop_last() =~= entries.take(n - 1));
    if j < n - 1 {
        lemma_entry_in_prefix(entries, j, n - 1);
    }
}

/// What the scan of the first `n` entries has found, where it succeeds: the
/// arena once the kernel's entry is behind, the free regions and (once found)
/// the kernel, rinit and arena cover the RAM so far, and the free regions
/// overlap neither each other nor the kernel's entry.
proof fn lemma_scan_prefix(
    entries: Seq<MemoryMapEntry>,
    kernel: MemoryRegion,
    rinit: MemoryRegion,
    j0: int,
    n: int,
)
    requires
        kernel.wf(),
        rinit.wf(),
        ram_entries_disjoint(entries),
        images_at_bottom_of(entries, kernel, rinit, j0),
        0 <= n <= entries.len(),
    ensures
        match scan_entries(entries.take(n), kernel, rinit) {
            Err(_) => true,
            Ok((free, arena)) => {
                &&& (arena is Some <==> (j0 < n && kernel.length > 0))
                &&& (arena is Some ==> regions_addrs(free) + kernel.addrs() + rinit.addrs()
                    + arena.unwrap().addrs() == ram_addrs(entries.take(n)))
                &&& (arena is None ==> regions_addrs(free) == ram_addrs(entries.take(n)))
                &&& (arena is Some ==> entry_region(entries[j0]).addrs() =~= kernel.addrs()
                    + rinit.addrs() + arena.unwrap().addrs())
                &&& (arena is Some ==> kernel.addrs().disjoint(rinit.addrs())
                    && kernel.addrs().disjoint(arena.unwrap().addrs()) && rinit.addrs().disjoint(
                    arena.unwrap().addrs(),
                ))
                &&& forall|i: int, j: int|
                    #![trigger free[i], free[j]]
                    0 <= i < j < free.len() ==> free[i].addrs().disjoint(free[j].addrs())
                &&& (arena is Some ==> forall|i: int|
                    0 <= i < free.len() ==> (#[trigger] free[i]).addrs().disjoint(
                        entry_region(entries[j0]).addrs(),
                    ))
            },
        },
    decreases n,
{
    if n == 0 {
        assert(entries.take(0) =~= Seq::<MemoryMapEntry>::empty());
        assert(regions_addrs(Seq::<MemoryRegion>::empty()) =~= Set::<int>::empty());
        return;
    }
    let p = entries.take(n - 1);
    assert(entries.take(n).drop_last() =~= p);
    let e = entries[n - 1];
    assert(entries.take(n).last() == e);
    lemma_scan_prefix(entries, kernel, rinit, j0, n - 1);
    match scan_entries(p, kernel, rinit) {
        Err(_) => {},
        Ok((free, arena)) => {
            let reg = entry_region(e);
            let e0 = entry_region(entries[j0]);
            if e.memory_type != MemoryType::Ram {
                assert(ram_addrs(entries.take(n)) =~= ram_addrs(p));
            } else if !reg.wf() {
            } else if reg.overlaps_bottom(kernel) {
                if n - 1 != j0 {
                    assert(reg.addrs().contains(reg.base.0 as int));
                    assert(e0.addrs().contains(reg.base.0 as int));
                    if n - 1 < j0 {
                        assert(reg.addrs().disjoint(e0.addrs()));
                    } else {
                        assert(e0.addrs().disjoint(reg.addrs()));
                    }
                    assert(false);
                }
                let rest = reg.above(kernel);
                if rest.overlaps_bottom(rinit) {
                    let a = rest.above(rinit);
                    assert(e0.addrs() =~= kernel.addrs() + rinit.addrs() + a.addrs());
                    lemma_entry_disjoint_from_prefix(entries, n - 1, n - 1);
                    assert forall|i: int| 0 <= i < free.len() implies (#[trigger] free[i]).addrs().disjoint(
                        e0.addrs(),
                    ) by {
                        lemma_region_in_union(free, i);
                    }
                    assert(ram_addrs(entries.take(n)) =~= ram_addrs(p) + reg.addrs());
                    assert(regions_addrs(free) + kernel.addrs() + rinit.addrs() + a.addrs()
                        =~= ram_addrs(entries.take(n)));
                }
            } else if free.len() >= MAX_FREE_REGIONS {
            } else {
                let nf = free.push(reg);
                assert(nf.drop_last() =~= free);
                assert(ram_addrs(entries.take(n)) =~= ram_addrs(p) + reg.addrs());
                lemma_entry_disjoint_from_prefix(entries, n - 1, n - 1);
                if n - 1 == j0 {
                    assert(kernel.length == 0);
                }
                assert forall|i: int| 0 <= i < free.len() implies (#[trigger] free[i]).addrs().disjoint(
                    reg.addrs(),
                ) by {
                    lemma_region_in_union(free, i);
                }
                assert forall|i: int, j: int|
                    #![trigger nf[i], nf[j]]
                    0 <= i < j < nf.len() implies nf[i].addrs().disjoint(nf[j].addrs()) by {
                    if j == free.len() {
                        assert(nf[i] == free[i]);
                    } else {
                        assert(nf[i] == free[i] && nf[j] == free[j]);
                    }
                }
                if arena is Some {
                    lemma_entry_in_prefix(entries, j0, n - 1);
                    assert forall|i: int| 0 <= i < nf.len() implies (#[trigger] nf[i]).addrs().disjoint(
                        e0.addrs(),
                    ) by {
                        if i < free.len() {
                            assert(nf[i] == free[i]);
                        }
                    }
                    assert(regions_addrs(nf) + kernel.addrs() + rinit.addrs()
                        + arena.unwrap().addrs() =~= ram_addrs(entries.take(n)));
                } else {
                    assert(regions_addrs(nf) =~= ram_addrs(entries.take(n)));
                }
            }
        },
    }
}

/// Where no two RAM entries of the memory map overlap and the kernel and
/// rinit images lie one right above the other at the bottom of one RAM entry,
/// a successful build splits the RAM of the map exactly: the free regions,
/// the kernel region, the rinit region and the allocation arena together hold
/// every RAM address and no other, and no two of them share an address.
pub proof fn lemma_topology_coverage(
    entries: Seq<MemoryMapEntry>,
    kernel: MemoryRegion,
    rinit: MemoryRegion,
)
    requires
        kernel.wf(),
        rinit.wf(),
        ram_entries_disjoint(entries),
        exists|j: int| images_at_bottom_of(entries, kernel, rinit, j),
        topology(entries, kernel, rinit) is Ok,
    ensures
        match topology(entries, kernel, rinit) {
            Err(_) => true,
            Ok((free, arena)) => {
                &&& regions_addrs(free) + kernel.addrs() + rinit.addrs() + arena.addrs()
                    == ram_addrs(entries)
                &&& forall|i: int, j: int|
                    #![trigger free[i], free[j]]
                    0 <= i < j < free.len() ==> free[i].addrs().disjoint(free[j].addrs())
                &&& forall|i: int|
                    0 <= i < free.len() ==> (#[trigger] free[i]).addrs().disjoint(kernel.addrs())
                        && free[i].addrs().disjoint(rinit.addrs()) && free[i].addrs().disjoint(
                        arena.addrs(),
                    )
                &&& kernel.addrs().disjoint(rinit.addrs())
                &&& kernel.addrs().disjoint(arena.addrs())
                &&& rinit.addrs().disjoint(arena.addrs())
            },
        },
{
    let j0 = choose|j: int| images_at_bottom_of(entries, kernel, rinit, j);
    assert(entries.take(entries.len() as int) =~= entries);
    lemma_scan_prefix(entries, kernel, rinit, j0, entries.len() as int);
    match scan_entries(entries, kernel, rinit) {
        Err(_) => {},
        Ok((free, arena)) => {
            if arena is Some {
                let a = arena.unwrap();
                let e0 = entry_region(entries[j0]);
                assert forall|i: int| 0 <= i < free.len() implies (#[trigger] free[i]).addrs().disjoint(
                    kernel.addrs(),
                ) && free[i].addrs().disjoint(rinit.addrs()) && free[i].addrs().disjoint(
                    a.addrs(),
                ) by {
                    assert(free[i].addrs().disjoint(e0.addrs()));
                }
            }
        },
    }
}

} // verus!
