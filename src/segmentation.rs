//! Segment selectors and segment descriptors, bit for bit as the CPU reads them.
use vstd::prelude::*;

verus! {

/// Requested privilege level 0.
pub const RPL_0: u16 = 0b00;
/// Requested privilege level 1.
pub const RPL_1: u16 = 0b01;
/// Requested privilege level 2.
pub const RPL_2: u16 = 0b10;
/// Requested privilege level 3.
pub const RPL_3: u16 = 0b11;
/// Table indicator clear: the selector indexes the GDT.
pub const TI_GDT: u16 = 0b000;
/// Table indicator set: the selector indexes the LDT.
pub const TI_LDT: u16 = 0b100;

/// A 16-bit selector: bits 0-1 are the requested privilege level, bit 2 the
/// table indicator (0 = GDT, 1 = LDT), bits 3-15 the index into the table.
#[derive(Clone, Copy, Debug, PartialEq, Eq, Structural)]
pub struct SegmentSelector {
    bits: u16,
}

/// The index field of a selector.
pub open spec fn selector_index(bits: u16) -> u16 {
    bits >> 3u16
}

/// The requested privilege level of a selector.
pub open spec fn selector_rpl(bits: u16) -> u16 {
    bits & 0b11u16
}

/// Whether a selector refers to the LDT.
pub open spec fn selector_uses_ldt(bits: u16) -> bool {
    bits & TI_LDT != 0
}

impl SegmentSelector {
    /// The raw bits of the selector.
    pub closed spec fn spec_bits(&self) -> u16 {
        self.bits
    }

    /// Create a selector for entry `index` of the GDT, with privilege level 0.
    /// Only the low 13 bits of `index` fit in the selector.
    pub fn new(index: u16) -> (r: SegmentSelector)
        ensures
            r.spec_bits() == (index as int * 8) % 0x10000,
            selector_index(r.spec_bits()) == index % 0x2000,
            selector_rpl(r.spec_bits()) == 0,
            !selector_uses_ldt(r.spec_bits()),
    {
        let bits: u16 = index << 3u16;
        assert(bits == (index as int * 8) % 0x10000) by (bit_vector)
            requires
                bits == index << 3u16,
        ;
        assert(bits >> 3u16 == index % 0x2000 && bits & 0b11u16 == 0 && bits & 0b100u16 == 0)
            by (bit_vector)
            requires
                bits == index << 3u16,
        ;
        SegmentSelector { bits }
    }

    /// Reinterpret a raw 16-bit value, such as one read back from a segment
    /// register, as a selector.
    pub fn from_raw(bits: u16) -> (r: SegmentSelector)
        ensures
            r.spec_bits() == bits,
    {
        SegmentSelector { bits }
    }

    /// The raw bits of the selector.
    pub fn bits(&self) -> (r: u16)
        ensures
            r == self.spec_bits(),
    {
        self.bits
    }

    /// The index into the descriptor table.
    pub fn index(&self) -> (r: u16)
        ensures
            r == selector_index(self.spec_bits()),
            r < 0x2000,
    {
        let bits = self.bits;
        assert(bits >> 3u16 < 0x2000) by (bit_vector);
        bits >> 3u16
    }

    /// The requested privilege level, 0 to 3.
    pub fn rpl(&self) -> (r: u16)
        ensures
            r == selector_rpl(self.spec_bits()),
            r <= 3,
    {
        let bits = self.bits;
        assert(bits & 0b11u16 <= 3) by (bit_vector);
        bits & 0b11u16
    }

    /// Whether the selector refers to the LDT rather than the GDT.
    pub fn uses_ldt(&self) -> (r: bool)
        ensures
            r == selector_uses_ldt(self.spec_bits()),
    {
        self.bits & TI_LDT != 0
    }
}

/// Descriptor type: set for code or data segments, clear for system segments.
pub const DESC_S: u64 = 0x0000_1000_0000_0000;
/// Descriptor privilege level 0.
pub const DESC_DPL0: u64 = 0x0000_0000_0000_0000;
/// Descriptor privilege level 1.
pub const DESC_DPL1: u64 = 0x0000_2000_0000_0000;
/// Descriptor privilege level 2.
pub const DESC_DPL2: u64 = 0x0000_4000_0000_0000;
/// Descriptor privilege level 3.
pub const DESC_DPL3: u64 = 0x0000_6000_0000_0000;
/// The segment is present.
pub const DESC_P: u64 = 0x0000_8000_0000_0000;
/// Available for use by system software.
pub const DESC_AVL: u64 = 0x0010_0000_0000_0000;
/// 64-bit code segment (IA-32e mode only).
pub const DESC_L: u64 = 0x0020_0000_0000_0000;
/// Default operation size (0 = 16-bit segment, 1 = 32-bit segment).
pub const DESC_DB: u64 = 0x0040_0000_0000_0000;
/// Granularity: the limit counts 4 KiB pages rather than bytes.
pub const DESC_G: u64 = 0x0080_0000_0000_0000;

/// System segment: local descriptor table.
pub const TYPE_SYS_LDT: u64 = 0x0000_0200_0000_0000;
/// System segment: available 64-bit TSS.
pub const TYPE_SYS_TSS_AVAILABLE: u64 = 0x0000_0900_0000_0000;
/// System segment: busy 64-bit TSS.
pub const TYPE_SYS_TSS_BUSY: u64 = 0x0000_0B00_0000_0000;
/// System segment: call gate.
pub const TYPE_SYS_CALL_GATE: u64 = 0x0000_0C00_0000_0000;
/// System segment: interrupt gate.
pub const TYPE_SYS_INTERRUPT_GATE: u64 = 0x0000_0E00_0000_0000;
/// System segment: trap gate.
pub const TYPE_SYS_TRAP_GATE: u64 = 0x0000_0F00_0000_0000;

/// Data, read-only.
pub const TYPE_D_RO: u64 = 0x0000_0000_0000_0000;
/// Data, read-only, accessed.
pub const TYPE_D_ROA: u64 = 0x0000_0100_0000_0000;
/// Data, read/write.
pub const TYPE_D_RW: u64 = 0x0000_0200_0000_0000;
/// Data, read/write, accessed.
pub const TYPE_D_RWA: u64 = 0x0000_0300_0000_0000;
/// Data, read-only, expand-down.
pub const TYPE_D_ROEXD: u64 = 0x0000_0400_0000_0000;
/// Data, read-only, expand-down, accessed.
pub const TYPE_D_ROEXDA: u64 = 0x0000_0500_0000_0000;
/// Data, read/write, expand-down.
pub const TYPE_D_RWEXD: u64 = 0x0000_0600_0000_0000;
/// Data, read/write, expand-down, accessed.
pub const TYPE_D_RWEXDA: u64 = 0x0000_0700_0000_0000;
/// Code, execute-only.
pub const TYPE_C_EO: u64 = 0x0000_0800_0000_0000;
/// Code, execute-only, accessed.
pub const TYPE_C_EOA: u64 = 0x0000_0900_0000_0000;
/// Code, execute/read.
pub const TYPE_C_ER: u64 = 0x0000_0A00_0000_0000;
/// Code, execute/read, accessed.
pub const TYPE_C_ERA: u64 = 0x0000_0B00_0000_0000;
/// Code, execute-only, conforming.
pub const TYPE_C_EOC: u64 = 0x0000_0C00_0000_0000;
/// Code, execute-only, conforming, accessed.
pub const TYPE_C_EOCA: u64 = 0x0000_0D00_0000_0000;
/// Code, execute/read, conforming.
pub const TYPE_C_ERC: u64 = 0x0000_0E00_0000_0000;
/// Code, execute/read, conforming, accessed.
pub const TYPE_C_ERCA: u64 = 0x0000_0F00_0000_0000;

/// The bits of a descriptor that hold neither base nor limit: type (40-43),
/// S (44), DPL (45-46), P (47), AVL (52), L (53), D/B (54) and G (55).
pub const FLAG_MASK: u64 = 0x00F0_FF00_0000_0000;

/// The 32-bit base address held in a descriptor: bits 16-39 hold its low 24
/// bits and bits 56-63 its high 8 bits.
pub open spec fn descriptor_base(bits: u64) -> u64 {
    ((bits >> 16u64) & 0xff_ffffu64) | (((bits >> 56u64) & 0xffu64) << 24u64)
}

/// The 20-bit limit held in a descriptor: bits 0-15 hold its low 16 bits and
/// bits 48-51 its high 4 bits.
pub open spec fn descriptor_limit(bits: u64) -> u64 {
    (bits & 0xffffu64) | (((bits >> 48u64) & 0xfu64) << 16u64)
}

/// The descriptor bits for a base and a limit with every flag bit clear.
pub open spec fn descriptor_encode(base: u32, limit: u32) -> u64 {
    let b = base as u64;
    let l = limit as u64;
    (l & 0xffffu64) | ((b & 0xff_ffffu64) << 16u64) | (((l >> 16u64) & 0xfu64) << 48u64) | (((b
        >> 24u64) & 0xffu64) << 56u64)
}

/// The flag bits of a descriptor.
pub open spec fn descriptor_flags(bits: u64) -> u64 {
    bits & FLAG_MASK
}

/// An entry of the GDT or an LDT: the location and size of a segment and its
/// flags, in the 64-bit layout the CPU reads.
#[derive(Clone, Copy, Debug, PartialEq, Eq, Structural)]
pub struct SegmentDescriptor {
    bits: u64,
}

impl SegmentDescriptor {
    /// The raw bits of the descriptor.
    pub closed spec fn spec_bits(&self) -> u64 {
        self.bits
    }

    /// A descriptor with the given base and the low 20 bits of `limit`, and
    /// every flag bit clear.
    pub fn new(base: u32, limit: u32) -> (r: SegmentDescriptor)
        ensures
            r.spec_bits() == descriptor_encode(base, limit),
            descriptor_base(r.spec_bits()) == base as u64,
            descriptor_limit(r.spec_bits()) == limit as u64 % 0x10_0000,
            descriptor_flags(r.spec_bits()) == 0,
    {
        let base_low: u64 = base as u64 & 0xff_ffff;
        let base_high: u64 = (base as u64 >> 24u64) & 0xff;
        let limit_low: u64 = limit as u64 & 0xffff;
        let limit_high: u64 = (limit as u64 & (0b1111u64 << 16u64)) >> 16u64;
        let bits: u64 = limit_low | base_low << 16u64 | limit_high << 48u64 | base_high << 56u64;
        let b: u64 = base as u64;
        let l: u64 = limit as u64;
        assert(descriptor_base(bits) == b && descriptor_limit(bits) == l % 0x10_0000
            && bits & 0x00F0_FF00_0000_0000u64 == 0) by (bit_vector)
            requires
                b < 0x1_0000_0000u64,
                l < 0x1_0000_0000u64,
                bits == (l & 0xffffu64) | (b & 0xff_ffffu64) << 16u64 | ((l & (0b1111u64
                    << 16u64)) >> 16u64) << 48u64 | ((b >> 24u64) & 0xffu64) << 56u64,
        ;
        assert(bits == (l & 0xffffu64) | ((b & 0xff_ffffu64) << 16u64) | (((l >> 16u64) & 0xfu64)
            << 48u64) | (((b >> 24u64) & 0xffu64) << 56u64)) by (bit_vector)
            requires
                bits == (l & 0xffffu64) | (b & 0xff_ffffu64) << 16u64 | ((l & (0b1111u64
                    << 16u64)) >> 16u64) << 48u64 | ((b >> 24u64) & 0xffu64) << 56u64,
        ;
        SegmentDescriptor { bits }
    }

    /// Reinterpret a raw 64-bit value as a descriptor; used for read-back and
    /// for descriptors best written as a full set of flags.
    pub fn from_raw(raw: u64) -> (r: SegmentDescriptor)
        ensures
            r.spec_bits() == raw,
    {
        SegmentDescriptor { bits: raw }
    }

    /// The descriptor with the bits of both `self` and `other` set.
    pub fn union(self, other: SegmentDescriptor) -> (r: SegmentDescriptor)
        ensures
            r.spec_bits() == self.spec_bits() | other.spec_bits(),
    {
        SegmentDescriptor { bits: self.bits | other.bits }
    }

    /// The raw bits of the descriptor.
    pub fn bits(&self) -> (r: u64)
        ensures
            r == self.spec_bits(),
    {
        self.bits
    }

    /// The base address.
    pub fn base(&self) -> (r: u32)
        ensures
            r as u64 == descriptor_base(self.spec_bits()),
    {
        let bits = self.bits;
        let v: u64 = ((bits >> 16u64) & 0xff_ffff) | (((bits >> 56u64) & 0xff) << 24u64);
        assert(v < 0x1_0000_0000u64) by (bit_vector)
            requires
                v == ((bits >> 16u64) & 0xff_ffffu64) | (((bits >> 56u64) & 0xffu64) << 24u64),
        ;
        v as u32
    }

    /// The 20-bit limit.
    pub fn limit(&self) -> (r: u32)
        ensures
            r as u64 == descriptor_limit(self.spec_bits()),
            r < 0x10_0000,
    {
        let bits = self.bits;
        let v: u64 = (bits & 0xffff) | (((bits >> 48u64) & 0xf) << 16u64);
        assert(v < 0x10_0000u64) by (bit_vector)
            requires
                v == (bits & 0xffffu64) | (((bits >> 48u64) & 0xfu64) << 16u64),
        ;
        v as u32
    }

    /// The flag bits, in their places within the descriptor.
    pub fn flags(&self) -> (r: u64)
        ensures
            r == descriptor_flags(self.spec_bits()),
    {
        self.bits & FLAG_MASK
    }
}

/// Encoding a base, a limit and a set of flag bits and decoding the result
/// gives back the base, the limit's 20 bits and the flags.
pub proof fn lemma_descriptor_round_trip(base: u32, limit: u32, flags: u64)
    requires
        flags & !FLAG_MASK == 0,
    ensures
        descriptor_base(descriptor_encode(base, limit) | flags) == base as u64,
        descriptor_limit(descriptor_encode(base, limit) | flags) == limit as u64 % 0x10_0000,
        descriptor_flags(descriptor_encode(base, limit) | flags) == flags,
{
    let b = base as u64;
    let l = limit as u64;
    let e = descriptor_encode(base, limit);
    assert(descriptor_base(e | flags) == b && descriptor_limit(e | flags) == l % 0x10_0000
        && descriptor_flags(e | flags) == flags) by (bit_vector)
        requires
            b < 0x1_0000_0000u64,
            l < 0x1_0000_0000u64,
            flags & !0x00F0_FF00_0000_0000u64 == 0,
            e == (l & 0xffffu64) | ((b & 0xff_ffffu64) << 16u64) | (((l >> 16u64) & 0xfu64)
                << 48u64) | (((b >> 24u64) & 0xffu64) << 56u64),
    ;
}

} // verus!
