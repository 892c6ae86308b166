use vstd::prelude::*;

use core::ops::Index;

use crate::{Dpl, segment::Selector};

verus! {

/// The operand of `lidt`: the table's size in bytes minus one, and its linear
/// address.
pub struct Idtr {
    size: u16,
    offset: u64,
}

impl Idtr {
    /// The size field (bytes minus one).
    pub closed spec fn size_view(&self) -> u16 {
        self.size
    }

    /// The linear address field.
    pub closed spec fn offset_view(&self) -> u64 {
        self.offset
    }

    /// The operand that loads `idt`, which lives at the linear address `offset`.
    pub fn from_idt<const N: usize>(idt: &Idt<N>, offset: u64) -> (r: Self)
        requires
            0 < N <= 256,
        ensures
            r.size_view() == N * 16 - 1,
            r.offset_view() == offset,
    {
        Idtr { size: (N * 16 - 1) as u16, offset }
    }

    /// The size of the table in bytes, minus one.
    pub fn size(&self) -> (r: u16)
        ensures
            r == self.size_view(),
    {
        self.size
    }

    /// The linear address of the table.
    pub fn offset(&self) -> (r: u64)
        ensures
            r == self.offset_view(),
    {
        self.offset
    }
}

/// An interrupt descriptor table of `N` gate descriptors.
#[derive(Clone, Copy, Debug, PartialEq, Eq, Hash)]
pub struct Idt<const N: usize> {
    descriptors: [Descriptor; N],
}

impl<const N: usize> View for Idt<N> {
    type V = Seq<Descriptor>;

    closed spec fn view(&self) -> Seq<Descriptor> {
        self.descriptors@
    }
}

impl<const N: usize> Idt<N> {
    /// A table of null descriptors; `N` must be between 1 and 256.
    pub fn new() -> (r: Self)
        requires
            0 < N <= 256,
        ensures
            r@.len() == N,
            forall|i: int| 0 <= i < N ==> #[trigger] r@[i] == Descriptor::null_value(),
    {
        Self::filled()
    }

    /// A table of null descriptors.
    fn filled() -> (r: Self)
        ensures
            r@.len() == N,
            forall|i: int| 0 <= i < N ==> #[trigger] r@[i] == Descriptor::null_value(),
    {
        let null = Descriptor::null();
        let arr: [Descriptor; N] = [null; N];
        assert(arr == vstd::array::spec_array_fill_for_copy_type::<Descriptor, N>(null));
        Idt { descriptors: arr }
    }

    /// The descriptors of the table in the processor's layout, sixteen bytes each.
    pub fn encode(&self) -> (r: [u128; N])
        ensures
            forall|i: int| 0 <= i < N ==> #[trigger] r@[i] == descriptor_bits(self@[i]@),
    {
        let mut out: [u128; N] = [0u128; N];
        let mut i: usize = 0;
        while i < N
            invariant
                0 <= i <= N,
                forall|j: int| 0 <= j < i ==> #[trigger] out@[j] == descriptor_bits(self@[j]@),
            decreases N - i,
        {
            out[i] = self.descriptors[i].bits();
            i = i + 1;
        }
        out
    }

    /// The number of descriptors in the table.
    pub fn len() -> (r: usize)
        ensures
            r == N,
    {
        N
    }

    /// The descriptor at `index` for writing, which must be below `N`; this is
    /// what `idt[index] = ...` does.
    pub fn get_mut(&mut self, index: usize) -> (r: &mut Descriptor)
        requires
            index < N,
        ensures
            *r == old(self)@[index as int],
            final(self)@ == old(self)@.update(index as int, *final(r)),
    {
        &mut self.descriptors[index]
    }
}

impl<const N: usize> Default for Idt<N> {
    fn default() -> (r: Self)
        ensures
            r@.len() == N,
            forall|i: int| 0 <= i < N ==> #[trigger] r@[i] == Descriptor::null_value(),
    {
        Self::filled()
    }
}

impl<const N: usize> Index<usize> for Idt<N> {
    type Output = Descriptor;

    fn index(&self, index: usize) -> (r: &Self::Output)
        ensures
            *r == self@[index as int],
    {
        &self.descriptors[index]
    }
}

impl<const N: usize> vstd::std_specs::core::IndexSpecImpl<usize> for Idt<N> {
    open spec fn index_req(&self, index: &usize) -> bool {
        *index < N
    }
}

/// The kind of an interrupt gate.
#[derive(Clone, Copy, Debug, PartialEq, Eq, Hash, Structural)]
pub enum Gate {
    Interrupt,
    Trap,
}

impl Gate {
    /// The four-bit gate type the processor uses for this kind of gate.
    pub open spec fn type_bits(self) -> u16 {
        match self {
            Gate::Interrupt => 0xE,
            Gate::Trap => 0xF,
        }
    }
}

/// The fields of a gate descriptor: the handler's 64-bit offset, the code
/// segment selector, and the options word (interrupt stack table index in
/// bits 0..3, gate type in bits 8..12, privilege level in bits 13..15 and the
/// present bit in bit 15), and the reserved doubleword that ends the
/// descriptor and must be zero.
pub struct DescriptorView {
    pub offset: u64,
    pub selector: Selector,
    pub options: u16,
    pub reserved: u32,
}

/// The sixteen bytes of a gate descriptor, as one little-endian 128-bit value in
/// the processor's layout: offset bits 0..16, selector, options, offset bits
/// 16..32, offset bits 32..64 and the reserved doubleword.
pub open spec fn descriptor_bits(v: DescriptorView) -> u128 {
    (v.offset & 0xFFFF) as u128 | (v.selector@ as u128) << 16 | (v.options as u128) << 32 | (((
    v.offset >> 16) & 0xFFFF) as u128) << 48 | ((v.offset >> 32) as u128) << 64 | (v.reserved as u128)
        << 96
}

/// A gate descriptor of the interrupt descriptor table.
#[derive(Clone, Copy, Debug, PartialEq, Eq, Hash, Structural)]
pub struct Descriptor {
    offset_lo: u16,
    selector: Selector,
    options: u16,
    offset_mid: u16,
    offset_hi: u32,
    reserved: u32,
}

impl View for Descriptor {
    type V = DescriptorView;

    closed spec fn view(&self) -> DescriptorView {
        DescriptorView {
            offset: self.offset_lo as u64 | (self.offset_mid as u64) << 16 | (self.offset_hi as u64)
                << 32,
            selector: self.selector,
            options: self.options,
            reserved: self.reserved,
        }
    }
}

/// The descriptor-type bits of an options word.
pub open spec fn gate_bits(options: u16) -> u16 {
    (options >> 8) & 0xF
}

/// How the offset pieces combine, and what the option updates do.
proof fn lemma_descriptor_fields(offset: u64, options: u16, t: u16, l: u16) by (bit_vector)
    requires
        t == 0xE || t == 0xF,
        l < 4,
    ensures
        ((offset as u16) as u64 | (((offset >> 16) as u16) as u64) << 16 | (((offset >> 32) as u32)
            as u64) << 32) == offset,
        (((options & !0xF00u16) | (t << 8)) >> 8) & 0xF == t,
        (((options & !0x6000u16) | (l << 13)) >> 13) & 0x3 == l,
        (((options | 0x8000) >> 15) & 0x1 == 0x1),
        (((options & !0x8000u16) >> 15) & 0x1 != 0x1),
        (options >> 13) & 0x3 < 4,
        0u16 as u64 | (0u16 as u64) << 16 | (0u32 as u64) << 32 == 0u64,
        ((0u16 & !0xF00u16) | (0xEu16 << 8)) | 0x8000 == 0x8E00u16,
{
}

/// How the offset pieces and the other fields make up the 128-bit image.
proof fn lemma_descriptor_image(lo: u16, sel: u16, opt: u16, mid: u16, hi: u32, res: u32) by (bit_vector)
    ensures
        ({
            let offset = lo as u64 | (mid as u64) << 16 | (hi as u64) << 32;
            (offset & 0xFFFF) as u128 | (sel as u128) << 16 | (opt as u128) << 32 | (((offset >> 16)
                & 0xFFFF) as u128) << 48 | ((offset >> 32) as u128) << 64 | (res as u128) << 96
                == lo as u128 | (sel as u128) << 16 | (opt as u128) << 32 | (mid as u128) << 48 | (
            hi as u128) << 64 | (res as u128) << 96
        }),
{
}

impl Descriptor {
    /// The fields of a null descriptor.
    pub open spec fn null_view() -> DescriptorView {
        DescriptorView { offset: 0, selector: Selector::null_view(), options: 0, reserved: 0 }
    }

    /// The null descriptor.
    pub closed spec fn null_value() -> Descriptor {
        Descriptor {
            offset_lo: 0,
            selector: Selector::null_view(),
            options: 0,
            offset_mid: 0,
            offset_hi: 0,
            reserved: 0,
        }
    }

    /// Constructs a new IDT descriptor with a given offset and code segment. The new
    /// descriptor is marked present and is an interrupt gate.
    pub fn new_with(offset: u64, cs: Selector) -> (r: Self)
        ensures
            r@ == (DescriptorView { offset: offset, selector: cs, options: 0x8E00, reserved: 0 }),
    {
        proof {
            lemma_descriptor_fields(0, 0, 0xE, 0);
        }
        Self::null().with_offset(offset).with_segment_selector(cs).with_gate_type(
            Gate::Interrupt,
        ).with_present(true)
    }

    pub fn null() -> (r: Self)
        ensures
            r@ == Self::null_view(),
            r == Self::null_value(),
    {
        proof {
            lemma_descriptor_fields(0, 0, 0xE, 0);
        }
        Descriptor {
            offset_lo: 0,
            selector: Selector::null(),
            options: 0,
            offset_mid: 0,
            offset_hi: 0,
            reserved: 0,
        }
    }

    /// The sixteen bytes of this descriptor in the processor's layout.
    pub fn bits(&self) -> (r: u128)
        ensures
            r == descriptor_bits(self@),
    {
        proof {
            lemma_descriptor_image(
                self.offset_lo,
                self.selector@,
                self.options,
                self.offset_mid,
                self.offset_hi,
                self.reserved,
            );
        }
        self.offset_lo as u128 | (self.selector.bits() as u128) << 16 | (self.options as u128) << 32
            | (self.offset_mid as u128) << 48 | (self.offset_hi as u128) << 64 | (
        self.reserved as u128) << 96
    }

    pub fn offset(&self) -> (r: u64)
        ensures
            r == self@.offset,
    {
        self.offset_lo as u64 | (self.offset_mid as u64) << 16 | (self.offset_hi as u64) << 32
    }

    pub fn with_offset(self, offset: u64) -> (r: Self)
        ensures
            r@ == (DescriptorView { offset: offset, ..self@ }),
    {
        let mut d = self;
        d.set_offset(offset);
        d
    }

    pub fn set_offset(&mut self, offset: u64)
        ensures
            final(self)@ == (DescriptorView { offset: offset, ..old(self)@ }),
    {
        proof {
            lemma_descriptor_fields(offset, 0, 0xE, 0);
        }
        self.offset_lo = offset as u16;
        self.offset_mid = (offset >> 16) as u16;
        self.offset_hi = (offset >> 32) as u32;
    }

    pub fn segment_selector(&self) -> (r: Selector)
        ensures
            r == self@.selector,
    {
        self.selector
    }

    pub fn with_segment_selector(self, selector: Selector) -> (r: Self)
        ensures
            r@ == (DescriptorView { selector: selector, ..self@ }),
    {
        let mut d = self;
        d.selector = selector;
        d
    }

    pub fn set_segment_selector(&mut self, selector: Selector)
        ensures
            final(self)@ == (DescriptorView { selector: selector, ..old(self)@ }),
    {
        self.selector = selector;
    }

    /// The kind of this descriptor; its type bits must name an interrupt or trap gate.
    pub fn gate_type(&self) -> (r: Gate)
        requires
            gate_bits(self@.options) == 0xE || gate_bits(self@.options) == 0xF,
        ensures
            r.type_bits() == gate_bits(self@.options),
    {
        let gate_type = (self.options >> 8) & 0xF;
        if gate_type == 0xE {
            Gate::Interrupt
        } else {
            Gate::Trap
        }
    }

    pub fn with_gate_type(self, gate_type: Gate) -> (r: Self)
        ensures
            r@ == (DescriptorView {
                options: (self@.options & !0xF00u16) | (gate_type.type_bits() << 8),
                ..self@
            }),
    {
        let mut d = self;
        d.set_gate_type(gate_type);
        d
    }

    pub fn set_gate_type(&mut self, gate_type: Gate)
        ensures
            final(self)@ == (DescriptorView {
                options: (old(self)@.options & !0xF00u16) | (gate_type.type_bits() << 8),
                ..old(self)@
            }),
    {
        let bits: u16 = match gate_type {
            Gate::Interrupt => 0xE,
            Gate::Trap => 0xF,
        };
        self.options = self.options & !0xF00;
        self.options = self.options | bits << 8;
    }

    pub fn dpl(&self) -> (r: Dpl)
        ensures
            r == Dpl::from_level(((self@.options >> 13) & 0x3) as u8),
    {
        proof {
            lemma_descriptor_fields(0, self.options, 0xE, 0);
        }
        let dpl = (self.options >> 13) & 0x3;
        Dpl::from_bits(dpl as u8)
    }

    pub fn with_dpl(self, dpl: Dpl) -> (r: Self)
        ensures
            r@ == (DescriptorView {
                options: (self@.options & !0x6000u16) | ((dpl.level() as u16) << 13),
                ..self@
            }),
    {
        let mut d = self;
        d.set_dpl(dpl);
        d
    }

    pub fn set_dpl(&mut self, dpl: Dpl)
        ensures
            final(self)@ == (DescriptorView {
                options: (old(self)@.options & !0x6000u16) | ((dpl.level() as u16) << 13),
                ..old(self)@
            }),
    {
        self.options = self.options & !0x6000;
        self.options = self.options | (dpl.bits() as u16) << 13;
    }

    pub fn present(&self) -> (r: bool)
        ensures
            r == ((self@.options >> 15) & 0x1 == 0x1),
    {
        self.options >> 15 & 0x1 == 0x1
    }

    pub fn with_present(self, present: bool) -> (r: Self)
        ensures
            r@ == (DescriptorView {
                options: if present {
                    self@.options | 0x8000
                } else {
                    self@.options & !0x8000u16
                },
                ..self@
            }),
    {
        let mut d = self;
        d.set_present(present);
        d
    }

    pub fn set_present(&mut self, present: bool)
        ensures
            final(self)@ == (DescriptorView {
                options: if present {
                    old(self)@.options | 0x8000
                } else {
                    old(self)@.options & !0x8000u16
                },
                ..old(self)@
            }),
    {
        if present {
            self.options = self.options | 0x8000;
        } else {
            self.options = self.options & !0x8000;
        }
    }
}

/// Each of the type bits, privilege level and present bit reads back as it was
/// last set, and setting one leaves the other two unchanged; a descriptor from
/// `new_with` is a present interrupt gate at ring 0.
pub proof fn lemma_gate_options(options: u16, gate: Gate, dpl: Dpl, present: bool)
    ensures
        ({
            let o = (options & !0xF00u16) | (gate.type_bits() << 8);
            &&& gate_bits(o) == gate.type_bits()
            &&& (o >> 13) & 0x3 == (options >> 13) & 0x3
            &&& (o >> 15) & 0x1 == (options >> 15) & 0x1
        }),
        ({
            let o = (options & !0x6000u16) | ((dpl.level() as u16) << 13);
            &&& Dpl::from_level(((o >> 13) & 0x3) as u8) == dpl
            &&& gate_bits(o) == gate_bits(options)
            &&& (o >> 15) & 0x1 == (options >> 15) & 0x1
        }),
        ({
            let o = if present {
                options | 0x8000
            } else {
                options & !0x8000u16
            };
            &&& ((o >> 15) & 0x1 == 0x1) == present
            &&& gate_bits(o) == gate_bits(options)
            &&& (o >> 13) & 0x3 == (options >> 13) & 0x3
        }),
        gate_bits(0x8E00) == 0xE,
        (0x8E00u16 >> 13) & 0x3 == 0,
        (0x8E00u16 >> 15) & 0x1 == 0x1,
{
    let t = gate.type_bits();
    let l = dpl.level() as u16;
    assert({
        let o1 = (options & !0xF00u16) | (t << 8);
        let o2 = (options & !0x6000u16) | (l << 13);
        let o3 = options | 0x8000;
        let o4 = options & !0x8000u16;
        &&& (o1 >> 8) & 0xF == t
        &&& (o1 >> 13) & 0x3 == (options >> 13) & 0x3
        &&& (o1 >> 15) & 0x1 == (options >> 15) & 0x1
        &&& (o2 >> 13) & 0x3 == l
        &&& (o2 >> 8) & 0xF == (options >> 8) & 0xF
        &&& (o2 >> 15) & 0x1 == (options >> 15) & 0x1
        &&& (o3 >> 15) & 0x1 == 0x1
        &&& (o4 >> 15) & 0x1 == 0
        &&& (o3 >> 8) & 0xF == (options >> 8) & 0xF
        &&& (o4 >> 8) & 0xF == (options >> 8) & 0xF
        &&& (o3 >> 13) & 0x3 == (options >> 13) & 0x3
        &&& (o4 >> 13) & 0x3 == (options >> 13) & 0x3
        &&& (0x8E00u16 >> 8) & 0xF == 0xE
        &&& (0x8E00u16 >> 13) & 0x3 == 0
        &&& (0x8E00u16 >> 15) & 0x1 == 0x1
    }) by (bit_vector)
        requires
            t == 0xE || t == 0xF,
            l < 4,
    ;
}

/// The sixteen-byte image of a gate holds the whole handler offset (split
/// over bits 0..16, 48..64 and 64..96), the selector at bit 16, the options at
/// bit 32 and the reserved doubleword at bit 96; each reads back from it.
pub proof fn lemma_descriptor_bits_fields(v: DescriptorView)
    ensures
        ({
            let b = descriptor_bits(v);
            &&& (b & 0xFFFF) | (((b >> 48) & 0xFFFF) << 16) | (((b >> 64) & 0xFFFF_FFFF) << 32)
                == v.offset as u128
            &&& (b >> 16) & 0xFFFF == v.selector@ as u128
            &&& (b >> 32) & 0xFFFF == v.options as u128
            &&& b >> 96 == v.reserved as u128
        }),
{
    let offset = v.offset;
    let sel = v.selector@;
    let opt = v.options;
    let res = v.reserved;
    assert({
        let b = (offset & 0xFFFF) as u128 | (sel as u128) << 16 | (opt as u128) << 32 | (((offset
            >> 16) & 0xFFFF) as u128) << 48 | ((offset >> 32) as u128) << 64 | (res as u128) << 96;
        &&& (b & 0xFFFF) | (((b >> 48) & 0xFFFF) << 16) | (((b >> 64) & 0xFFFF_FFFF) << 32)
            == offset as u128
        &&& (b >> 16) & 0xFFFF == sel as u128
        &&& (b >> 32) & 0xFFFF == opt as u128
        &&& b >> 96 == res as u128
    }) by (bit_vector);
}

} // verus!
