use vstd::prelude::*;

use crate::Dpl;

verus! {

/// One of two alternatives.
pub enum Either<L, R> {
    Left(L),
    Right(R),
}

/// A segment descriptor that can be placed in a global descriptor table.
pub enum Descriptor {
    Null,
    Memory(Memory),
}

impl Descriptor {
    /// The raw bits of a descriptor: eight bytes (`Left`) or sixteen (`Right`).
    pub open spec fn encoding(self) -> Either<u64, u128> {
        match self {
            Descriptor::Null => Either::Left(0),
            Descriptor::Memory(memory) => Either::Left(memory_bits(memory@)),
        }
    }

    /// Returns the raw bits of the underlying representation.
    pub fn bits(&self) -> (r: Either<u64, u128>)
        ensures
            r == self.encoding(),
    {
        match self {
            Descriptor::Null => Either::Left(0),
            Descriptor::Memory(memory) => Either::Left(memory.bits()),
        }
    }
}

/// The growth direction of a data segment.
#[derive(Clone, Copy, Debug, PartialEq, Eq, Hash, Structural)]
pub enum Direction {
    Down,
    Up,
}

/// The operating mode of a memory segment.
#[derive(Clone, Copy, Debug, PartialEq, Eq, Hash, Structural)]
pub enum Mode {
    /// Protected mode (16-bit).
    Prot16,
    /// Protected mode (32-bit).
    Prot32,
    /// Long mode (64-bit). Valid only for long-mode code segments.
    Long,
}

/// The unit in which a segment limit is counted.
#[derive(Clone, Copy, Debug, PartialEq, Eq, Hash, Structural)]
pub enum Granularity {
    Byte,
    Page,
}

/// The fields of a code or data segment descriptor.
pub struct MemoryView {
    /// The 20-bit segment limit.
    pub limit: u32,
    /// The 32-bit segment base.
    pub base: u32,
    /// The access byte: accessed (0x1), readable or writable (0x2), conforming or
    /// direction (0x4), executable (0x8), code-or-data (0x10), privilege level
    /// (0x60) and present (0x80).
    pub access: u8,
    /// The flags nibble, kept in the upper four bits: long mode (0x20),
    /// default operand size (0x40) and granularity (0x80).
    pub flags: u8,
}

/// The eight bytes of a memory segment descriptor as the processor lays them out.
pub open spec fn memory_bits(v: MemoryView) -> u64 {
    (v.limit & 0xFFFF) as u64
        | ((v.base & 0xFF_FFFF) as u64) << 16
        | (v.access as u64) << 40
        | ((((v.limit >> 16) & 0xF) as u8 | v.flags) as u64) << 48
        | ((v.base >> 24) as u64) << 56
}

/// The operating mode that a flags nibble selects.
pub open spec fn mode_of(flags: u8) -> Mode {
    if flags & 0x20 != 0 {
        Mode::Long
    } else if flags & 0x40 != 0 {
        Mode::Prot32
    } else {
        Mode::Prot16
    }
}

/// What holds of every memory segment descriptor this crate builds: the
/// code-or-data bit (0x10) is set, the available bit (0x10 of the flags) is
/// clear, long mode and the 32-bit default size are never both set, only code
/// segments are in long mode, the limit fits in 20 bits and the flags sit in the
/// upper nibble.
pub open spec fn memory_wf(v: MemoryView) -> bool {
    &&& v.access & 0x10 != 0
    &&& v.flags & 0x10 == 0
    &&& v.flags & 0x60 != 0x60
    &&& (v.flags & 0x20 != 0 ==> v.access & 0x8 != 0)
    &&& v.limit <= 0xF_FFFF
    &&& v.flags & 0xF == 0
}

/// A code or data segment descriptor.
#[derive(Clone, Copy, Debug, PartialEq, Eq, Hash, Structural)]
pub struct Memory {
    limit_0_15: u16,
    base_0_15: u16,
    base_16_23: u8,
    access_0_7: u8,
    limit_16_19_flags_0_3: u8,
    base_24_31: u8,
}

impl View for Memory {
    type V = MemoryView;

    closed spec fn view(&self) -> MemoryView {
        MemoryView {
            limit: self.limit_0_15 as u32 | ((self.limit_16_19_flags_0_3 & 0xF) as u32) << 16,
            base: self.base_0_15 as u32 | (self.base_16_23 as u32) << 16 | (self.base_24_31 as u32)
                << 24,
            access: self.access_0_7,
            flags: self.limit_16_19_flags_0_3 & 0xF0,
        }
    }
}

impl Memory {
    #[verifier::type_invariant]
    spec fn inv(self) -> bool {
        memory_wf(self@)
    }
}

const ACCESSED_0_1: u8 = 0x1;
const READABLE_0_1: u8 = 0x2;
const CONFORMING_0_1: u8 = 0x4;
const EXECUTABLE_0_1: u8 = 0x8;
const SYSTEM_0_1: u8 = 0x10;
const DPL_0_2: u8 = 0x60;
const DPL_0_2_BIT: u8 = 5;
const PRESENT_0_1: u8 = 0x80;
const LIMIT_16_19: u8 = 0xF;
const LONG_0_1: u8 = 0x20;
const DB_0_1: u8 = 0x40;
const GRANULARITY_0_1: u8 = 0x80;

/// How the raw fields of a descriptor combine into its bits and its limit, base
/// and flags, and what the field updates of the setters do to them.
proof fn lemma_memory_fields(
    l0: u16,
    b0: u16,
    b1: u8,
    a: u8,
    lf: u8,
    b2: u8,
    limit: u32,
    base: u32,
) by (bit_vector)
    ensures
        ({
            let v = MemoryView {
                limit: l0 as u32 | ((lf & 0xF) as u32) << 16,
                base: b0 as u32 | (b1 as u32) << 16 | (b2 as u32) << 24,
                access: a,
                flags: lf & 0xF0,
            };
            memory_bits(v) == (l0 as u64 | (b0 as u64) << 16 | (b1 as u64) << 32 | (a as u64)
                << 40 | (lf as u64) << 48 | (b2 as u64) << 56)
        }),
        l0 as u32 | ((lf & 0xF) as u32) << 16 <= 0xF_FFFF,
        limit <= 0xF_FFFF ==> (limit as u16) as u32 | ((((lf & !0xFu8) | (limit >> 16) as u8)
            & 0xF) as u32) << 16 == limit,
        limit <= 0xF_FFFF ==> ((lf & !0xFu8) | (limit >> 16) as u8) & 0xF0 == lf & 0xF0,
        (base as u16) as u32 | (((base >> 16) as u8) as u32) << 16 | (((base >> 24) as u8) as u32)
            << 24 == base,
        (lf | 0x80) & 0xF == lf & 0xF,
        (lf | 0x80) & 0xF0 == (lf & 0xF0) | 0x80,
        (lf & !0x80u8) & 0xF == lf & 0xF,
        (lf & !0x80u8) & 0xF0 == (lf & 0xF0) & !0x80u8,
        (lf & !(0x40u8 | 0x20u8)) & 0xF == lf & 0xF,
        (lf & !(0x40u8 | 0x20u8)) & 0xF0 == (lf & 0xF0) & !0x60u8,
        ((lf & !0x20u8) | 0x40) & 0xF == lf & 0xF,
        ((lf & !0x20u8) | 0x40) & 0xF0 == ((lf & 0xF0) & !0x20u8) | 0x40,
        ((lf & !0x40u8) | 0x20) & 0xF == lf & 0xF,
        ((lf & !0x40u8) | 0x20) & 0xF0 == ((lf & 0xF0) & !0x40u8) | 0x20,
        (lf & 0xF0) & 0x20 == lf & 0x20,
        (lf & 0xF0) & 0x40 == lf & 0x40,
        (lf & 0xF0) & 0x80 == lf & 0x80,
        (a & 0x60) >> 5 < 4,
{
}

/// The bit arithmetic that shows each update of the access byte or the flags
/// keeps `memory_wf`.
proof fn lemma_invariant_facts(a: u8, lf: u8, l: u8) by (bit_vector)
    requires
        l < 4,
    ensures
        (a | 0x1) & 0x10 == a & 0x10,
        (a | 0x2) & 0x10 == a & 0x10,
        (a | 0x4) & 0x10 == a & 0x10,
        (a | 0x8) & 0x10 == a & 0x10,
        (a | 0x80) & 0x10 == a & 0x10,
        (a & !0x1u8) & 0x10 == a & 0x10,
        (a & !0x2u8) & 0x10 == a & 0x10,
        (a & !0x4u8) & 0x10 == a & 0x10,
        (a & !0x8u8) & 0x10 == a & 0x10,
        (a & !0x80u8) & 0x10 == a & 0x10,
        ((a & !0x60u8) | (l << 5)) & 0x10 == a & 0x10,
        (a | 0x1) & 0x8 == a & 0x8,
        (a | 0x2) & 0x8 == a & 0x8,
        (a | 0x4) & 0x8 == a & 0x8,
        (a | 0x80) & 0x8 == a & 0x8,
        (a & !0x1u8) & 0x8 == a & 0x8,
        (a & !0x2u8) & 0x8 == a & 0x8,
        (a & !0x4u8) & 0x8 == a & 0x8,
        (a & !0x80u8) & 0x8 == a & 0x8,
        ((a & !0x60u8) | (l << 5)) & 0x8 == a & 0x8,
        (a | 0x8) & 0x8 != 0,
        ({
            let f = lf & 0xF0;
            &&& f & 0xF == 0
            &&& f & 0x10 == lf & 0x10
            &&& f & 0x20 == lf & 0x20
            &&& f & 0x60 == lf & 0x60
            &&& (f & !0x60u8) & 0x60 == 0
            &&& (f & !0x60u8) & 0x20 == 0
            &&& (f & !0x60u8) & 0x10 == f & 0x10
            &&& (f & !0x60u8) & 0xF == 0
            &&& ((f & !0x20u8) | 0x40) & 0x60 == 0x40
            &&& ((f & !0x20u8) | 0x40) & 0x20 == 0
            &&& ((f & !0x20u8) | 0x40) & 0x10 == f & 0x10
            &&& ((f & !0x20u8) | 0x40) & 0xF == 0
            &&& ((f & !0x40u8) | 0x20) & 0x60 == 0x20
            &&& ((f & !0x40u8) | 0x20) & 0x20 != 0
            &&& ((f & !0x40u8) | 0x20) & 0x10 == f & 0x10
            &&& ((f & !0x40u8) | 0x20) & 0xF == 0
            &&& (f | 0x80) & 0x60 == f & 0x60
            &&& (f | 0x80) & 0x20 == f & 0x20
            &&& (f | 0x80) & 0x10 == f & 0x10
            &&& (f | 0x80) & 0xF == 0
            &&& (f & !0x80u8) & 0x60 == f & 0x60
            &&& (f & !0x80u8) & 0x20 == f & 0x20
            &&& (f & !0x80u8) & 0x10 == f & 0x10
            &&& (f & !0x80u8) & 0xF == 0
        }),
{
}

impl Memory {
    /// Constructs a zeroed memory segment, except for bits that must be set.
    pub fn new() -> (r: Self)
        ensures
            r@ == (MemoryView { limit: 0, base: 0, access: 0x10, flags: 0 }),
            memory_wf(r@),
    {
        proof {
            lemma_standard_segments();
        }
        Memory {
            limit_0_15: 0,
            base_0_15: 0,
            base_16_23: 0,
            access_0_7: SYSTEM_0_1,
            limit_16_19_flags_0_3: 0,
            base_24_31: 0,
        }
    }

    /// Creates a code segment suitable for use in a long-mode kernel.
    pub fn kernel_code_segment() -> (r: Self)
        ensures
            r@ == (MemoryView { limit: 0xF_FFFF, base: 0, access: 0x9A, flags: 0xA0 }),
            memory_bits(r@) == 0x00AF_9A00_0000_FFFF,
            memory_wf(r@),
    {
        let r = Self::new().with_max_limit().with_code_segment().with_readable(true).with_conforming(
            false,
        );
        proof {
            lemma_standard_segments();
        }
        let r = r.with_dpl(Dpl::Ring0).with_present(true).with_mode(Mode::Long).with_granularity(
            Granularity::Page,
        );
        proof {
            use_type_invariant(&r);
        }
        r
    }

    /// Creates a data segment suitable for use in a long-mode kernel.
    pub fn kernel_data_segment() -> (r: Self)
        ensures
            r@ == (MemoryView { limit: 0xF_FFFF, base: 0, access: 0x92, flags: 0xC0 }),
            memory_bits(r@) == 0x00CF_9200_0000_FFFF,
            memory_wf(r@),
    {
        proof {
            lemma_standard_segments();
        }
        let r = Self::new().with_max_limit().with_data_segment().with_writable(true).with_direction(
            Direction::Up,
        ).with_dpl(Dpl::Ring0).with_present(true).with_mode(Mode::Prot32).with_granularity(
            Granularity::Page,
        );
        proof {
            use_type_invariant(&r);
        }
        r
    }

    /// Creates a code segment suitable for use in long-mode user space.
    pub fn user_code_segment() -> (r: Self)
        ensures
            r@ == (MemoryView { limit: 0xF_FFFF, base: 0, access: 0xFA, flags: 0xA0 }),
            memory_bits(r@) == 0x00AF_FA00_0000_FFFF,
            memory_wf(r@),
    {
        let r = Self::new().with_max_limit().with_code_segment().with_readable(true).with_conforming(
            false,
        );
        proof {
            lemma_standard_segments();
        }
        let r = r.with_dpl(Dpl::Ring3).with_present(true).with_mode(Mode::Long).with_granularity(
            Granularity::Page,
        );
        proof {
            use_type_invariant(&r);
        }
        r
    }

    /// Creates a data segment suitable for use in long-mode user space.
    pub fn user_data_segment() -> (r: Self)
        ensures
            r@ == (MemoryView { limit: 0xF_FFFF, base: 0, access: 0xF2, flags: 0xC0 }),
            memory_bits(r@) == 0x00CF_F200_0000_FFFF,
            memory_wf(r@),
    {
        proof {
            lemma_standard_segments();
        }
        let r = Self::new().with_max_limit().with_data_segment().with_writable(true).with_direction(
            Direction::Up,
        ).with_dpl(Dpl::Ring3).with_present(true).with_mode(Mode::Prot32).with_granularity(
            Granularity::Page,
        );
        proof {
            use_type_invariant(&r);
        }
        r
    }

    /// Returns the raw bits of this descriptor.
    pub fn bits(&self) -> (r: u64)
        ensures
            r == memory_bits(self@),
            memory_wf(self@),
    {
        proof {
            use_type_invariant(self);
        }
        proof {
            lemma_memory_fields(
                self.limit_0_15,
                self.base_0_15,
                self.base_16_23,
                self.access_0_7,
                self.limit_16_19_flags_0_3,
                self.base_24_31,
                0,
                0,
            );
        }
        self.limit_0_15 as u64 | (self.base_0_15 as u64) << 16 | (self.base_16_23 as u64) << 32 | (
        self.access_0_7 as u64) << 40 | (self.limit_16_19_flags_0_3 as u64) << 48 | (
        self.base_24_31 as u64) << 56
    }

    /// Converts the descriptor into raw bits.
    pub fn into_bits(self) -> (r: u64)
        ensures
            r == memory_bits(self@),
            memory_wf(self@),
    {
        proof {
            use_type_invariant(self);
        }
        self.bits()
    }

    /// Returns the limit of the memory segment.
    pub fn limit(&self) -> (r: u32)
        ensures
            r == self@.limit,
            r <= 0xF_FFFF,
    {
        proof {
            lemma_memory_fields(self.limit_0_15, 0, 0, 0, self.limit_16_19_flags_0_3, 0, 0, 0);
        }
        self.limit_0_15 as u32 | ((self.limit_16_19_flags_0_3 & LIMIT_16_19) as u32) << 16
    }

    /// Sets the limit of the memory segment; `limit` must not exceed 0xFFFFF.
    pub fn set_limit(&mut self, limit: u32)
        requires
            limit <= 0xF_FFFF,
        ensures
            final(self)@ == (MemoryView { limit: limit, ..old(self)@ }),
    {
        proof {
            use_type_invariant(&*self);
            lemma_memory_fields(limit as u16, 0, 0, 0, self.limit_16_19_flags_0_3, 0, limit, 0);
            lemma_invariant_facts(self.access_0_7, self.limit_16_19_flags_0_3, 0);
        }
        let flags = (self.limit_16_19_flags_0_3 & !LIMIT_16_19) | (limit >> 16) as u8;
        proof {
            lemma_memory_fields(limit as u16, 0, 0, 0, flags, 0, limit, 0);
            lemma_invariant_facts(self.access_0_7, flags, 0);
        }
        self.limit_0_15 = limit as u16;
        self.limit_16_19_flags_0_3 = flags;
    }

    /// Builds a new memory segment with `limit`, which must not exceed 0xFFFFF.
    pub fn with_limit(self, limit: u32) -> (r: Self)
        requires
            limit <= 0xF_FFFF,
        ensures
            r@ == (MemoryView { limit: limit, ..self@ }),
    {
        let mut m = self;
        m.set_limit(limit);
        m
    }

    /// Builds a new memory segment with the maximum limit.
    pub fn with_max_limit(self) -> (r: Self)
        ensures
            r@ == (MemoryView { limit: 0xF_FFFF, ..self@ }),
    {
        self.with_limit(0xFFFFF)
    }

    /// Returns the base of the memory segment.
    pub fn base(&self) -> (r: u32)
        ensures
            r == self@.base,
    {
        self.base_0_15 as u32 | (self.base_16_23 as u32) << 16 | (self.base_24_31 as u32) << 24
    }

    /// Sets the base of the memory segment.
    pub fn set_base(&mut self, base: u32)
        ensures
            final(self)@ == (MemoryView { base: base, ..old(self)@ }),
    {
        proof {
            use_type_invariant(&*self);
            lemma_invariant_facts(self.access_0_7, self.limit_16_19_flags_0_3, 0);
        }
        proof {
            lemma_memory_fields(0, 0, 0, 0, 0, 0, 0, base);
        }
        self.base_0_15 = base as u16;
        self.base_16_23 = (base >> 16) as u8;
        self.base_24_31 = (base >> 24) as u8;
    }

    /// Builds a memory segment with `base`.
    pub fn with_base(self, base: u32) -> (r: Self)
        ensures
            r@ == (MemoryView { base: base, ..self@ }),
    {
        let mut m = self;
        m.set_base(base);
        m
    }

    /// Returns whether the CPU has accessed the descriptor.
    pub fn was_accessed(&self) -> (r: bool)
        ensures
            r == (self@.access & 0x1 != 0),
    {
        self.access_0_7 & ACCESSED_0_1 != 0
    }

    /// Sets whether the descriptor has been accessed. Note that
    /// this bypasses the CPU which usually sets the relevant bit.
    pub fn set_accessed(&mut self, accessed: bool)
        ensures
            final(self)@ == (MemoryView {
                access: if accessed {
                    old(self)@.access | 0x1
                } else {
                    old(self)@.access & !0x1u8
                },
                ..old(self)@
            }),
    {
        proof {
            use_type_invariant(&*self);
            lemma_invariant_facts(self.access_0_7, self.limit_16_19_flags_0_3, 0);
        }
        if accessed {
            self.access_0_7 = self.access_0_7 | ACCESSED_0_1;
        } else {
            self.access_0_7 = self.access_0_7 & !ACCESSED_0_1;
        }
    }

    /// Builds a memory segment with `accessed`.
    pub fn with_accessed(self, accessed: bool) -> (r: Self)
        ensures
            r@ == (MemoryView {
                access: if accessed {
                    self@.access | 0x1
                } else {
                    self@.access & !0x1u8
                },
                ..self@
            }),
    {
        let mut m = self;
        m.set_accessed(accessed);
        m
    }

    /// Returns whether this code segment is readable. Aliases with writable for data segments.
    pub fn readable(&self) -> (r: bool)
        ensures
            r == (self@.access & 0x2 != 0),
    {
        self.access_0_7 & READABLE_0_1 != 0
    }

    /// Sets whether the code segment is readable or not.
    pub fn set_readable(&mut self, readable: bool)
        ensures
            final(self)@ == (MemoryView {
                access: if readable {
                    old(self)@.access | 0x2
                } else {
                    old(self)@.access & !0x2u8
                },
                ..old(self)@
            }),
    {
        proof {
            use_type_invariant(&*self);
            lemma_invariant_facts(self.access_0_7, self.limit_16_19_flags_0_3, 0);
        }
        if readable {
            self.access_0_7 = self.access_0_7 | READABLE_0_1;
        } else {
            self.access_0_7 = self.access_0_7 & !READABLE_0_1;
        }
    }

    /// Builds a memory segment with `readable`.
    pub fn with_readable(self, readable: bool) -> (r: Self)
        ensures
            r@ == (MemoryView {
                access: if readable {
                    self@.access | 0x2
                } else {
                    self@.access & !0x2u8
                },
                ..self@
            }),
    {
        let mut m = self;
        m.set_readable(readable);
        m
    }

    /// Returns whether this data segment is writable. Aliases with readable for code segments.
    pub fn writable(&self) -> (r: bool)
        ensures
            r == (self@.access & 0x2 != 0),
    {
        self.readable()
    }

    /// Sets whether the data segment is writable or not.
    pub fn set_writable(&mut self, writable: bool)
        ensures
            final(self)@ == (MemoryView {
                access: if writable {
                    old(self)@.access | 0x2
                } else {
                    old(self)@.access & !0x2u8
                },
                ..old(self)@
            }),
    {
        self.set_readable(writable);
    }

    /// Builds a memory segment with `writable`.
    pub fn with_writable(self, writable: bool) -> (r: Self)
        ensures
            r@ == (MemoryView {
                access: if writable {
                    self@.access | 0x2
                } else {
                    self@.access & !0x2u8
                },
                ..self@
            }),
    {
        let mut m = self;
        m.set_writable(writable);
        m
    }

    /// Returns whether the code segment is conforming. If conforming, this segment
    /// can be executed from an equal or lower privilege level. Aliases with `direction` for data segments.
    pub fn conforming(&self) -> (r: bool)
        ensures
            r == (self@.access & 0x4 != 0),
    {
        self.access_0_7 & CONFORMING_0_1 != 0
    }

    /// Sets whether the code segment is conforming or not.
    pub fn set_conforming(&mut self, conforming: bool)
        ensures
            final(self)@ == (MemoryView {
                access: if conforming {
                    old(self)@.access | 0x4
                } else {
                    old(self)@.access & !0x4u8
                },
                ..old(self)@
            }),
    {
        proof {
            use_type_invariant(&*self);
            lemma_invariant_facts(self.access_0_7, self.limit_16_19_flags_0_3, 0);
        }
        if conforming {
            self.access_0_7 = self.access_0_7 | CONFORMING_0_1;
        } else {
            self.access_0_7 = self.access_0_7 & !CONFORMING_0_1;
        }
    }

    /// Builds a memory segment with `conforming`.
    pub fn with_conforming(self, conforming: bool) -> (r: Self)
        ensures
            r@ == (MemoryView {
                access: if conforming {
                    self@.access | 0x4
                } else {
                    self@.access & !0x4u8
                },
                ..self@
            }),
    {
        let mut m = self;
        m.set_conforming(conforming);
        m
    }

    /// Returns the growth direction for the data segment. Aliases with conforming for code segments.
    pub fn direction(&self) -> (r: Direction)
        ensures
            r == (if self@.access & 0x4 != 0 {
                Direction::Down
            } else {
                Direction::Up
            }),
    {
        match self.conforming() {
            false => Direction::Up,
            true => Direction::Down,
        }
    }

    /// Sets whether the data segment grows up or down.
    pub fn set_direction(&mut self, direction: Direction)
        ensures
            final(self)@ == (MemoryView {
                access: match direction {
                    Direction::Down => old(self)@.access | 0x4,
                    Direction::Up => old(self)@.access & !0x4u8,
                },
                ..old(self)@
            }),
    {
        self.set_conforming(
            match direction {
                Direction::Up => false,
                Direction::Down => true,
            },
        );
    }

    /// Builds a memory segment with `direction`.
    pub fn with_direction(self, direction: Direction) -> (r: Self)
        ensures
            r@ == (MemoryView {
                access: match direction {
                    Direction::Down => self@.access | 0x4,
                    Direction::Up => self@.access & !0x4u8,
                },
                ..self@
            }),
    {
        let mut m = self;
        m.set_direction(direction);
        m
    }

    /// Returns whether this memory segment is a code segment.
    pub fn is_code_segment(&self) -> (r: bool)
        ensures
            r == (self@.access & 0x8 != 0),
            memory_wf(self@),
    {
        proof {
            use_type_invariant(self);
        }
        self.access_0_7 & EXECUTABLE_0_1 != 0
    }

    /// Converts the memory segment into a code segment.
    pub fn set_code_segment(&mut self)
        ensures
            final(self)@ == (MemoryView { access: old(self)@.access | 0x8, ..old(self)@ }),
    {
        proof {
            use_type_invariant(&*self);
            lemma_invariant_facts(self.access_0_7, self.limit_16_19_flags_0_3, 0);
        }
        self.access_0_7 = self.access_0_7 | EXECUTABLE_0_1;
    }

    /// Builds a code segment.
    pub fn with_code_segment(self) -> (r: Self)
        ensures
            r@ == (MemoryView { access: self@.access | 0x8, ..self@ }),
    {
        let mut m = self;
        m.set_code_segment();
        m
    }

    /// Returns whether this memory segment is a data segment.
    pub fn is_data_segment(&self) -> (r: bool)
        ensures
            r == (self@.access & 0x8 == 0),
            memory_wf(self@),
    {
        proof {
            use_type_invariant(self);
        }
        self.access_0_7 & EXECUTABLE_0_1 == 0
    }

    /// Converts the memory segment into a data segment; the segment must not be
    /// in long mode.
    pub fn set_data_segment(&mut self)
        requires
            mode_of(old(self)@.flags) != Mode::Long,
        ensures
            final(self)@ == (MemoryView { access: old(self)@.access & !0x8u8, ..old(self)@ }),
    {
        proof {
            use_type_invariant(&*self);
            lemma_invariant_facts(self.access_0_7, self.limit_16_19_flags_0_3, 0);
        }
        self.access_0_7 = self.access_0_7 & !EXECUTABLE_0_1;
    }

    /// Builds a data segment from a segment that is not in long mode.
    pub fn with_data_segment(self) -> (r: Self)
        requires
            mode_of(self@.flags) != Mode::Long,
        ensures
            r@ == (MemoryView { access: self@.access & !0x8u8, ..self@ }),
    {
        let mut m = self;
        m.set_data_segment();
        m
    }

    /// Returns the privilege level of the memory segment.
    pub fn dpl(&self) -> (r: Dpl)
        ensures
            r == Dpl::from_level((self@.access & 0x60) >> 5),
    {
        proof {
            lemma_memory_fields(0, 0, 0, self.access_0_7, 0, 0, 0, 0);
        }
        let dpl = (self.access_0_7 & DPL_0_2) >> DPL_0_2_BIT;
        Dpl::from_bits(dpl)
    }

    /// Set the privilege level for this memory segment.
    pub fn set_dpl(&mut self, dpl: Dpl)
        ensures
            final(self)@ == (MemoryView {
                access: (old(self)@.access & !0x60u8) | (dpl.level() << 5),
                ..old(self)@
            }),
    {
        let dpl = dpl.bits();
        proof {
            use_type_invariant(&*self);
            lemma_invariant_facts(self.access_0_7, self.limit_16_19_flags_0_3, dpl);
        }
        self.access_0_7 = (self.access_0_7 & !DPL_0_2) | dpl << DPL_0_2_BIT;
    }

    /// Builds a memory segment with `dpl`.
    pub fn with_dpl(self, dpl: Dpl) -> (r: Self)
        ensures
            r@ == (MemoryView { access: (self@.access & !0x60u8) | (dpl.level() << 5), ..self@ }),
    {
        let mut m = self;
        m.set_dpl(dpl);
        m
    }

    /// Returns whether this descriptor is present. If not set,
    /// the descriptor is considered invalid by the CPU.
    pub fn present(&self) -> (r: bool)
        ensures
            r == (self@.access & 0x80 != 0),
    {
        self.access_0_7 & PRESENT_0_1 != 0
    }

    /// Sets whether the descriptor is present.
    pub fn set_present(&mut self, present: bool)
        ensures
            final(self)@ == (MemoryView {
                access: if present {
                    old(self)@.access | 0x80
                } else {
                    old(self)@.access & !0x80u8
                },
                ..old(self)@
            }),
    {
        proof {
            use_type_invariant(&*self);
            lemma_invariant_facts(self.access_0_7, self.limit_16_19_flags_0_3, 0);
        }
        if present {
            self.access_0_7 = self.access_0_7 | PRESENT_0_1;
        } else {
            self.access_0_7 = self.access_0_7 & !PRESENT_0_1;
        }
    }

    /// Builds a memory segment with `present`.
    pub fn with_present(self, present: bool) -> (r: Self)
        ensures
            r@ == (MemoryView {
                access: if present {
                    self@.access | 0x80
                } else {
                    self@.access & !0x80u8
                },
                ..self@
            }),
    {
        let mut m = self;
        m.set_present(present);
        m
    }

    /// Returns the operating mode of this memory segment.
    pub fn mode(&self) -> (r: Mode)
        ensures
            r == mode_of(self@.flags),
            memory_wf(self@),
    {
        proof {
            use_type_invariant(self);
        }
        proof {
            lemma_memory_fields(0, 0, 0, 0, self.limit_16_19_flags_0_3, 0, 0, 0);
        }
        if self.limit_16_19_flags_0_3 & LONG_0_1 != 0 {
            Mode::Long
        } else if self.limit_16_19_flags_0_3 & DB_0_1 != 0 {
            Mode::Prot32
        } else {
            Mode::Prot16
        }
    }

    /// Sets the operating mode of the memory segment; long mode is only for
    /// code segments.
    pub fn set_mode(&mut self, mode: Mode)
        requires
            mode == Mode::Long ==> old(self)@.access & 0x8 != 0,
        ensures
            final(self)@ == (MemoryView {
                flags: match mode {
                    Mode::Prot16 => old(self)@.flags & !0x60u8,
                    Mode::Prot32 => (old(self)@.flags & !0x20u8) | 0x40,
                    Mode::Long => (old(self)@.flags & !0x40u8) | 0x20,
                },
                ..old(self)@
            }),
    {
        proof {
            use_type_invariant(&*self);
            lemma_invariant_facts(self.access_0_7, self.limit_16_19_flags_0_3, 0);
        }
        proof {
            lemma_memory_fields(0, 0, 0, 0, self.limit_16_19_flags_0_3, 0, 0, 0);
        }
        match mode {
            Mode::Prot16 => {
                self.limit_16_19_flags_0_3 = self.limit_16_19_flags_0_3 & !(DB_0_1 | LONG_0_1);
            },
            Mode::Prot32 => {
                self.limit_16_19_flags_0_3 = (self.limit_16_19_flags_0_3 & !LONG_0_1) | DB_0_1;
            },
            Mode::Long => {
                self.limit_16_19_flags_0_3 = (self.limit_16_19_flags_0_3 & !DB_0_1) | LONG_0_1;
            },
        }
    }

    /// Builds a memory segment with `mode`; long mode is only for code segments.
    pub fn with_mode(self, mode: Mode) -> (r: Self)
        requires
            mode == Mode::Long ==> self@.access & 0x8 != 0,
        ensures
            r@ == (MemoryView {
                flags: match mode {
                    Mode::Prot16 => self@.flags & !0x60u8,
                    Mode::Prot32 => (self@.flags & !0x20u8) | 0x40,
                    Mode::Long => (self@.flags & !0x40u8) | 0x20,
                },
                ..self@
            }),
    {
        let mut m = self;
        m.set_mode(mode);
        m
    }

    /// Returns the granularity of the memory segment. The granularity scales
    /// the limit. For [`Granularity::Byte`], limit is scaled by 1. And for
    /// [`Granularity::Page`], limit is scaled by 4096.
    pub fn granularity(&self) -> (r: Granularity)
        ensures
            r == (if self@.flags & 0x80 != 0 {
                Granularity::Page
            } else {
                Granularity::Byte
            }),
    {
        proof {
            lemma_memory_fields(0, 0, 0, 0, self.limit_16_19_flags_0_3, 0, 0, 0);
        }
        if self.limit_16_19_flags_0_3 & GRANULARITY_0_1 != 0 {
            Granularity::Page
        } else {
            Granularity::Byte
        }
    }

    /// Sets the granularity of the memory segment.
    pub fn set_granularity(&mut self, granularity: Granularity)
        ensures
            final(self)@ == (MemoryView {
                flags: match granularity {
                    Granularity::Byte => old(self)@.flags & !0x80u8,
                    Granularity::Page => old(self)@.flags | 0x80,
                },
                ..old(self)@
            }),
    {
        proof {
            use_type_invariant(&*self);
            lemma_invariant_facts(self.access_0_7, self.limit_16_19_flags_0_3, 0);
        }
        proof {
            lemma_memory_fields(0, 0, 0, 0, self.limit_16_19_flags_0_3, 0, 0, 0);
        }
        match granularity {
            Granularity::Byte => {
                self.limit_16_19_flags_0_3 = self.limit_16_19_flags_0_3 & !GRANULARITY_0_1
            },
            Granularity::Page => {
                self.limit_16_19_flags_0_3 = self.limit_16_19_flags_0_3 | GRANULARITY_0_1
            },
        }
    }

    /// Builds a memory segment with `granularity`.
    pub fn with_granularity(self, granularity: Granularity) -> (r: Self)
        ensures
            r@ == (MemoryView {
                flags: match granularity {
                    Granularity::Byte => self@.flags & !0x80u8,
                    Granularity::Page => self@.flags | 0x80,
                },
                ..self@
            }),
    {
        let mut m = self;
        m.set_granularity(granularity);
        m
    }
}

/// The bit arithmetic behind the four standard long-mode segments.
proof fn lemma_standard_segments() by (bit_vector)
    ensures
        0u16 as u32 | ((0u8 & 0xF) as u32) << 16 == 0u32,
        0u16 as u32 | (0u8 as u32) << 16 | (0u8 as u32) << 24 == 0u32,
        0u8 & 0xF0 == 0u8,
        0x10u8 & 0x10 != 0,
        0u8 & 0x10 == 0,
        0u8 & 0x60 == 0,
        0u8 & 0x20 == 0,
        0u8 & 0xF == 0,
        0x10u8 | 0x8 == 0x18u8,
        0x18u8 | 0x2 == 0x1Au8,
        0x1Au8 & !0x4u8 == 0x1Au8,
        (0x1Au8 & !0x60u8) | (0u8 << 5) == 0x1Au8,
        (0x1Au8 & !0x60u8) | (3u8 << 5) == 0x7Au8,
        0x1Au8 | 0x80 == 0x9Au8,
        0x7Au8 | 0x80 == 0xFAu8,
        0x1Au8 & 0x8 != 0,
        0x9Au8 & 0x8 != 0,
        0xFAu8 & 0x8 != 0,
        (0u8 & !0x40u8) | 0x20 == 0x20u8,
        0x20u8 | 0x80 == 0xA0u8,
        0u8 & 0x20 == 0,
        0x10u8 & !0x8u8 == 0x10u8,
        0x10u8 | 0x2 == 0x12u8,
        0x12u8 & !0x4u8 == 0x12u8,
        (0x12u8 & !0x60u8) | (0u8 << 5) == 0x12u8,
        (0x12u8 & !0x60u8) | (3u8 << 5) == 0x72u8,
        0x12u8 | 0x80 == 0x92u8,
        0x72u8 | 0x80 == 0xF2u8,
        (0u8 & !0x20u8) | 0x40 == 0x40u8,
        0x40u8 | 0x80 == 0xC0u8,
        memory_bits(MemoryView { limit: 0xF_FFFF, base: 0, access: 0x9A, flags: 0xA0 })
            == 0x00AF_9A00_0000_FFFFu64,
        memory_bits(MemoryView { limit: 0xF_FFFF, base: 0, access: 0x92, flags: 0xC0 })
            == 0x00CF_9200_0000_FFFFu64,
        memory_bits(MemoryView { limit: 0xF_FFFF, base: 0, access: 0xFA, flags: 0xA0 })
            == 0x00AF_FA00_0000_FFFFu64,
        memory_bits(MemoryView { limit: 0xF_FFFF, base: 0, access: 0xF2, flags: 0xC0 })
            == 0x00CF_F200_0000_FFFFu64,
{
}

/// Setting (or clearing) one of the single-bit access flags (accessed, readable or
/// writable, conforming or direction, executable, present) makes the matching
/// getter report it, and leaves every other bit of the access byte unchanged.
pub proof fn lemma_access_flag_update(access: u8, flag: u8, on: bool, other: u8) by (bit_vector)
    requires
        flag == 0x1 || flag == 0x2 || flag == 0x4 || flag == 0x8 || flag == 0x80,
        other & flag == 0,
    ensures
        ((if on {
            access | flag
        } else {
            access & !flag
        }) & flag != 0) == on,
        (if on {
            access | flag
        } else {
            access & !flag
        }) & other == access & other,
{
}

/// Setting the privilege level makes `dpl` report it, and leaves the other bits
/// of the access byte unchanged.
pub proof fn lemma_dpl_update(access: u8, dpl: Dpl)
    ensures
        Dpl::from_level((((access & !0x60u8) | (dpl.level() << 5)) & 0x60) >> 5) == dpl,
        ((access & !0x60u8) | (dpl.level() << 5)) & !0x60u8 == access & !0x60u8,
{
    let l = dpl.level();
    assert((((access & !0x60u8) | (l << 5)) & 0x60) >> 5 == l && ((access & !0x60u8) | (l << 5))
        & !0x60u8 == access & !0x60u8) by (bit_vector)
        requires
            l < 4,
    ;
}

/// Setting the mode makes `mode` report it and leaves the granularity alone;
/// setting the granularity makes `granularity` report it and leaves the mode alone.
pub proof fn lemma_flags_update(flags: u8, mode: Mode, page: bool)
    ensures
        mode_of(
            match mode {
                Mode::Prot16 => flags & !0x60u8,
                Mode::Prot32 => (flags & !0x20u8) | 0x40,
                Mode::Long => (flags & !0x40u8) | 0x20,
            },
        ) == mode,
        (match mode {
            Mode::Prot16 => flags & !0x60u8,
            Mode::Prot32 => (flags & !0x20u8) | 0x40,
            Mode::Long => (flags & !0x40u8) | 0x20,
        }) & 0x80 == flags & 0x80,
        ((if page {
            flags | 0x80
        } else {
            flags & !0x80u8
        }) & 0x80 != 0) == page,
        mode_of(
            if page {
                flags | 0x80
            } else {
                flags & !0x80u8
            },
        ) == mode_of(flags),
{
    assert({
        &&& (flags & !0x60u8) & 0x20 == 0
        &&& (flags & !0x60u8) & 0x40 == 0
        &&& ((flags & !0x20u8) | 0x40) & 0x20 == 0
        &&& ((flags & !0x20u8) | 0x40) & 0x40 != 0
        &&& ((flags & !0x40u8) | 0x20) & 0x20 != 0
        &&& (flags & !0x60u8) & 0x80 == flags & 0x80
        &&& ((flags & !0x20u8) | 0x40) & 0x80 == flags & 0x80
        &&& ((flags & !0x40u8) | 0x20) & 0x80 == flags & 0x80
        &&& (flags | 0x80) & 0x80 != 0
        &&& (flags & !0x80u8) & 0x80 == 0
        &&& (flags | 0x80) & 0x20 == flags & 0x20
        &&& (flags | 0x80) & 0x40 == flags & 0x40
        &&& (flags & !0x80u8) & 0x20 == flags & 0x20
        &&& (flags & !0x80u8) & 0x40 == flags & 0x40
    }) by (bit_vector);
}

/// The descriptor bits hold the limit, base, access byte and flags at their
/// architectural positions: each can be read back from `memory_bits`.
pub proof fn lemma_memory_bits_fields(v: MemoryView)
    requires
        v.limit <= 0xF_FFFF,
        v.flags & 0xF == 0,
    ensures
        ({
            let b = memory_bits(v);
            &&& (b & 0xFFFF) | (((b >> 48) & 0xF) << 16) == v.limit as u64
            &&& ((b >> 16) & 0xFF_FFFF) | (((b >> 56) & 0xFF) << 24) == v.base as u64
            &&& (b >> 40) & 0xFF == v.access as u64
            &&& (b >> 48) & 0xF0 == v.flags as u64
        }),
{
    let limit = v.limit;
    let base = v.base;
    let access = v.access;
    let flags = v.flags;
    assert({
        let b = (limit & 0xFFFF) as u64 | ((base & 0xFF_FFFF) as u64) << 16 | (access as u64) << 40
            | ((((limit >> 16) & 0xF) as u8 | flags) as u64) << 48 | ((base >> 24) as u64) << 56;
        &&& (b & 0xFFFF) | (((b >> 48) & 0xF) << 16) == limit as u64
        &&& ((b >> 16) & 0xFF_FFFF) | (((b >> 56) & 0xFF) << 24) == base as u64
        &&& (b >> 40) & 0xFF == access as u64
        &&& (b >> 48) & 0xF0 == flags as u64
    }) by (bit_vector)
        requires
            limit <= 0xF_FFFF,
            flags & 0xF == 0,
    ;
}

/// Every descriptor's view keeps the limit within 20 bits and the flags in the
/// upper nibble.
pub proof fn lemma_memory_view_bounds(m: Memory)
    ensures
        m@.limit <= 0xF_FFFF,
        m@.flags & 0xF == 0,
{
    lemma_memory_fields(
        m.limit_0_15,
        m.base_0_15,
        m.base_16_23,
        m.access_0_7,
        m.limit_16_19_flags_0_3,
        m.base_24_31,
        0,
        0,
    );
    let lf = m.limit_16_19_flags_0_3;
    assert((lf & 0xF0) & 0xF == 0) by (bit_vector);
}

/// What `memory_wf` says of a descriptor's bits: the code-or-data bit (44) is
/// set, the available bit (52) is clear, long mode and the default operand size
/// (bits 53 and 54) are never both set, and a long-mode segment is a code segment.
pub proof fn lemma_memory_wf_bits(v: MemoryView)
    requires
        memory_wf(v),
    ensures
        (memory_bits(v) >> 44) & 1 == 1,
        (memory_bits(v) >> 52) & 1 == 0,
        (memory_bits(v) >> 53) & 3 != 3,
        mode_of(v.flags) == Mode::Long ==> v.access & 0x8 != 0,
{
    let limit = v.limit;
    let base = v.base;
    let access = v.access;
    let flags = v.flags;
    assert({
        let b = (limit & 0xFFFF) as u64 | ((base & 0xFF_FFFF) as u64) << 16 | (access as u64) << 40
            | ((((limit >> 16) & 0xF) as u8 | flags) as u64) << 48 | ((base >> 24) as u64) << 56;
        &&& (b >> 44) & 1 == 1
        &&& (b >> 52) & 1 == 0
        &&& (b >> 53) & 3 != 3
    }) by (bit_vector)
        requires
            access & 0x10 != 0,
            flags & 0x10 == 0,
            flags & 0x60 != 0x60,
            limit <= 0xF_FFFF,
            flags & 0xF == 0,
    ;
}

/// A global descriptor table entry made from a memory descriptor holds the
/// descriptor's limit, base, access byte and flags at their architectural bit
/// positions, so each reads back from the entry; a null descriptor is zero.
pub proof fn lemma_descriptor_encoding_fields(m: Memory)
    ensures
        Descriptor::Null.encoding() == Either::<u64, u128>::Left(0),
        Descriptor::Memory(m).encoding() is Left,
        ({
            let b = Descriptor::Memory(m).encoding()->Left_0;
            &&& (b & 0xFFFF) | (((b >> 48) & 0xF) << 16) == m@.limit as u64
            &&& ((b >> 16) & 0xFF_FFFF) | (((b >> 56) & 0xFF) << 24) == m@.base as u64
            &&& (b >> 40) & 0xFF == m@.access as u64
            &&& (b >> 48) & 0xF0 == m@.flags as u64
        }),
{
    lemma_memory_view_bounds(m);
    lemma_memory_bits_fields(m@);
}

} // verus!
