use kernel_init::segmentation::{
    DESC_DB, DESC_DPL3, DESC_G, DESC_L, DESC_P, DESC_S, RPL_3, SegmentDescriptor, SegmentSelector,
    TYPE_C_ER, TYPE_D_RW, TYPE_SYS_TSS_AVAILABLE,
};

#[test]
fn selector_from_index() {
    let s = SegmentSelector::new(5);
    assert_eq!(s.bits(), 0x28);
    assert_eq!(s.index(), 5);
    assert!(!s.uses_ldt());
    assert_eq!(s.rpl(), 0);
}

#[test]
fn selector_from_raw_decodes_fields() {
    let s = SegmentSelector::from_raw(0x002B);
    assert_eq!(s.index(), 5);
    assert_eq!(s.rpl(), RPL_3);
    assert!(!s.uses_ldt());
    assert_eq!(s.bits(), 0x002B);
}

#[test]
fn selector_ldt_bit() {
    let s = SegmentSelector::from_raw(0x000F);
    assert!(s.uses_ldt());
    assert_eq!(s.index(), 1);
    assert_eq!(s.rpl(), 3);
}

#[test]
fn selector_index_keeps_low_thirteen_bits() {
    let s = SegmentSelector::new(0x2001);
    assert_eq!(s.index(), 1);
    assert_eq!(s.bits(), 0x8);
}

#[test]
fn descriptor_layout() {
    let d = SegmentDescriptor::new(0x1234_5678, 0xA_BCDE);
    assert_eq!(d.bits(), 0x120A_0034_5678_BCDE);
    assert_eq!(d.flags(), 0);
}

#[test]
fn descriptor_flat_code_segment() {
    let d = SegmentDescriptor::new(0, 0xFFFFF)
        .union(SegmentDescriptor::from_raw(DESC_P | DESC_S | TYPE_C_ER | DESC_L | DESC_G));
    assert_eq!(d.bits(), 0x00AF_9A00_0000_FFFF);
}

#[test]
fn descriptor_limit_drops_bits_above_twenty() {
    let d = SegmentDescriptor::new(0, 0xFFF0_0001);
    assert_eq!(d.limit(), 1);
}

#[test]
fn descriptor_round_trip() {
    let flag_sets = [0u64, DESC_P | DESC_S | TYPE_D_RW | DESC_DB | DESC_G, DESC_P | DESC_DPL3 | TYPE_SYS_TSS_AVAILABLE, 0x00F0_FF00_0000_0000];
    for &base in &[0x0000_0000u32, 0x00FF_FFFF, 0xFFFF_FFFF] {
        for &limit in &[0x00000u32, 0x0FFFF, 0xFFFFF] {
            for &flags in &flag_sets {
                let d = SegmentDescriptor::new(base, limit).union(SegmentDescriptor::from_raw(flags));
                assert_eq!(d.base(), base);
                assert_eq!(d.limit(), limit);
                assert_eq!(d.flags(), flags);
            }
        }
    }
}

#[test]
fn descriptor_from_raw_keeps_bits() {
    let d = SegmentDescriptor::from_raw(0xDEAD_BEEF_0123_4567);
    assert_eq!(d.bits(), 0xDEAD_BEEF_0123_4567);
    assert_eq!(d.base(), 0xDE_EF0123);
    assert_eq!(d.limit(), 0xD_4567);
    assert_eq!(d.flags(), 0x00A0_BE00_0000_0000);
}
