use x86_cpu::Dpl;
use x86_cpu::idt::{Descriptor, Gate, Idt, Idtr};
use x86_cpu::segment::{Segment, Selector, TableIndex, Writable};

#[test]
fn null_descriptor() {
    let d = Descriptor::null();
    assert_eq!(d.offset(), 0);
    assert_eq!(d.segment_selector(), Selector::null());
    assert!(!d.present());
    assert_eq!(d.dpl(), Dpl::Ring0);
}

#[test]
fn new_with_is_present_interrupt_gate() {
    let cs = Selector::from_index(1);
    let d = Descriptor::new_with(0xFFFF_8000_1234_5678, cs);
    assert_eq!(d.offset(), 0xFFFF_8000_1234_5678);
    assert_eq!(d.segment_selector(), cs);
    assert_eq!(d.gate_type(), Gate::Interrupt);
    assert!(d.present());
    assert_eq!(d.dpl(), Dpl::Ring0);
}

#[test]
fn offset_round_trip() {
    let mut d = Descriptor::null();
    for off in [0u64, 1, 0xFFFF, 0x1_0000, 0xDEAD_BEEF_CAFE_F00D, u64::MAX] {
        d.set_offset(off);
        assert_eq!(d.offset(), off);
        assert_eq!(d.with_offset(off).offset(), off);
    }
}

#[test]
fn option_fields_are_independent() {
    let mut d = Descriptor::new_with(0x1000, Selector::from_index(2));
    d.set_dpl(Dpl::Ring3);
    assert_eq!(d.dpl(), Dpl::Ring3);
    assert_eq!(d.gate_type(), Gate::Interrupt);
    assert!(d.present());
    d.set_gate_type(Gate::Trap);
    assert_eq!(d.gate_type(), Gate::Trap);
    assert_eq!(d.dpl(), Dpl::Ring3);
    d.set_present(false);
    assert!(!d.present());
    assert_eq!(d.gate_type(), Gate::Trap);
    assert_eq!(d.dpl(), Dpl::Ring3);
    let e = d.with_present(true).with_dpl(Dpl::Ring1).with_gate_type(Gate::Interrupt);
    assert!(e.present());
    assert_eq!(e.dpl(), Dpl::Ring1);
    assert_eq!(e.gate_type(), Gate::Interrupt);
    assert_eq!(e.offset(), 0x1000);
    let mut f = e;
    f.set_segment_selector(Selector::from_index(7));
    assert_eq!(f.segment_selector().index(), 7);
    assert_eq!(e.with_segment_selector(Selector::null()).segment_selector(), Selector::null());
}

#[test]
fn idt_new_index_and_write() {
    let mut idt = Idt::<32>::new();
    assert_eq!(Idt::<32>::len(), 32);
    assert_eq!(idt[0], Descriptor::null());
    assert_eq!(idt[31], Descriptor::null());
    let d = Descriptor::new_with(0xABCD, Selector::from_index(1));
    *idt.get_mut(14) = d;
    assert_eq!(idt[14], d);
    assert_eq!(idt[13], Descriptor::null());
    let def: Idt<32> = Default::default();
    assert_eq!(def, Idt::<32>::new());
}

#[test]
fn idtr_size_and_offset() {
    let idt = Idt::<256>::new();
    let idtr = Idtr::from_idt(&idt, 0x2000);
    assert_eq!(idtr.size(), 4095);
    assert_eq!(idtr.offset(), 0x2000);
    let small = Idt::<1>::new();
    assert_eq!(Idtr::from_idt(&small, 0).size(), 15);
}

#[test]
fn selector_from_index_and_fields() {
    let s = Selector::from_index(5);
    assert_eq!(s.bits(), 40);
    assert_eq!(s.index(), 5);
    assert_eq!(s.rpl(), Dpl::Ring0);
    assert_eq!(s.table_index(), TableIndex::GDT);
    assert_eq!(Selector::from_index(8191).index(), 8191);
    // Index bits beyond the thirteen that fit are dropped.
    assert_eq!(Selector::from_index(8192).bits(), 0);
    assert_eq!(Selector::null().bits(), 0);
    assert_eq!(Selector::default().bits(), 0);
    assert_eq!(Selector::from(0x2Bu16).bits(), 0x2B);
}

#[test]
fn selector_rpl_and_table_round_trip() {
    let s = Selector::from_index(6);
    for d in [Dpl::Ring0, Dpl::Ring1, Dpl::Ring2, Dpl::Ring3] {
        let t = s.with_rpl(d);
        assert_eq!(t.rpl(), d);
        assert_eq!(t.index(), 6);
        assert_eq!(t.table_index(), TableIndex::GDT);
    }
    let mut t = s.with_rpl(Dpl::Ring3);
    t.set_table_index(TableIndex::LDT);
    assert_eq!(t.table_index(), TableIndex::LDT);
    assert_eq!(t.rpl(), Dpl::Ring3);
    assert_eq!(t.index(), 6);
    assert_eq!(t.bits(), 0x37);
    t.set_table_index(TableIndex::GDT);
    assert_eq!(t.bits(), 0x33);
    t.set_rpl(Dpl::Ring1);
    assert_eq!(t.bits(), 0x31);
    assert_eq!(s.with_table_index(TableIndex::LDT).bits(), 0x34);
}

#[test]
fn selector_with_index_clears_low_bits_and_ors_index() {
    let s = Selector::from(0x0003u16);
    assert_eq!(s.with_index(4).bits(), 0x20);
    let mut t = Selector::from_index(1).with_rpl(Dpl::Ring3);
    t.set_index(2);
    // The index field keeps the bit of the old index and gains the new one.
    assert_eq!(t.index(), 3);
    assert_eq!(t.rpl(), Dpl::Ring0);
    assert_eq!(Selector::null().with_index(9).index(), 9);
}

#[test]
fn writable_segment_conversions() {
    assert_eq!(Writable::try_from(Segment::CS), Err(()));
    assert_eq!(Writable::try_from(Segment::DS), Ok(Writable::DS));
    assert_eq!(Writable::try_from(Segment::SS), Ok(Writable::SS));
    for w in [Writable::DS, Writable::ES, Writable::FS, Writable::GS, Writable::SS] {
        assert_eq!(Writable::try_from(w.as_segment()), Ok(w));
        assert_eq!(Segment::from(w), w.as_segment());
    }
    assert_eq!(Writable::GS.as_segment(), Segment::GS);
}

#[test]
fn descriptor_bits_layout() {
    assert_eq!(Descriptor::null().bits(), 0);
    let d = Descriptor::new_with(0x1122_3344_5566_7788, Selector::from_index(1));
    assert_eq!(d.bits(), 0x0000_0000_1122_3344_5566_8E00_0008_7788);
    let t = d.with_gate_type(Gate::Trap).with_dpl(Dpl::Ring3);
    assert_eq!(t.bits(), 0x0000_0000_1122_3344_5566_EF00_0008_7788);
}

#[test]
fn idt_encode() {
    let mut idt = Idt::<4>::new();
    *idt.get_mut(2) = Descriptor::new_with(0xFFFF_8000_0000_1000, Selector::from_index(1));
    let image = idt.encode();
    assert_eq!(image[0], 0);
    assert_eq!(image[1], 0);
    assert_eq!(image[2], idt[2].bits());
    assert_eq!(image[2], 0x0000_0000_FFFF_8000_0000_8E00_0008_1000);
    assert_eq!(image[3], 0);
}
