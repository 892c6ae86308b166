use x86_cpu::Dpl;
use x86_cpu::gdt::desc::{Descriptor, Direction, Either, Granularity, Memory, Mode};
use x86_cpu::gdt::{Gdt, Gdtr};

#[test]
fn standard_segments_have_architectural_bits() {
    assert_eq!(Memory::kernel_code_segment().bits(), 0x00AF_9A00_0000_FFFF);
    assert_eq!(Memory::kernel_data_segment().bits(), 0x00CF_9200_0000_FFFF);
    assert_eq!(Memory::user_code_segment().bits(), 0x00AF_FA00_0000_FFFF);
    assert_eq!(Memory::user_data_segment().bits(), 0x00CF_F200_0000_FFFF);
    assert_eq!(Memory::kernel_code_segment().into_bits(), 0x00AF_9A00_0000_FFFF);
}

#[test]
fn new_segment_only_has_descriptor_type_bit() {
    let m = Memory::new();
    assert_eq!(m.bits(), 0x0000_1000_0000_0000);
    assert_eq!(m.limit(), 0);
    assert_eq!(m.base(), 0);
    assert!(!m.present());
    assert!(m.is_data_segment());
    assert_eq!(m.mode(), Mode::Prot16);
    assert_eq!(m.granularity(), Granularity::Byte);
    assert_eq!(m.dpl(), Dpl::Ring0);
}

#[test]
fn standard_segment_fields() {
    let k = Memory::kernel_code_segment();
    assert!(k.is_code_segment());
    assert!(k.readable());
    assert!(!k.conforming());
    assert!(k.present());
    assert_eq!(k.dpl(), Dpl::Ring0);
    assert_eq!(k.mode(), Mode::Long);
    assert_eq!(k.granularity(), Granularity::Page);
    assert_eq!(k.limit(), 0xFFFFF);
    let u = Memory::user_data_segment();
    assert!(u.is_data_segment());
    assert!(u.writable());
    assert_eq!(u.direction(), Direction::Up);
    assert_eq!(u.dpl(), Dpl::Ring3);
    assert_eq!(u.mode(), Mode::Prot32);
}

#[test]
fn limit_round_trip_and_layout() {
    let m = Memory::new().with_limit(0xABCDE);
    assert_eq!(m.limit(), 0xABCDE);
    assert_eq!(m.bits(), 0x000A_1000_0000_BCDE);
    let m = m.with_granularity(Granularity::Page).with_limit(0x12345);
    assert_eq!(m.limit(), 0x12345);
    assert_eq!(m.granularity(), Granularity::Page);
    let m = m.with_max_limit();
    assert_eq!(m.limit(), 0xFFFFF);
}

#[test]
fn base_round_trip_and_layout() {
    let mut m = Memory::new();
    m.set_base(0x1234_5678);
    assert_eq!(m.base(), 0x1234_5678);
    assert_eq!(m.bits(), 0x1200_1034_5678_0000);
    let m = m.with_base(0xFFFF_FFFF).with_limit(0xFFFFF);
    assert_eq!(m.base(), 0xFFFF_FFFF);
    assert_eq!(m.limit(), 0xFFFFF);
}

#[test]
fn access_flags_round_trip() {
    let m = Memory::new();
    assert!(m.with_accessed(true).was_accessed());
    assert!(!m.with_accessed(true).with_accessed(false).was_accessed());
    assert!(m.with_readable(true).readable());
    assert!(m.with_writable(true).writable());
    assert!(m.with_writable(true).readable());
    assert!(m.with_conforming(true).conforming());
    assert_eq!(m.with_direction(Direction::Down).direction(), Direction::Down);
    assert!(m.with_direction(Direction::Down).conforming());
    assert_eq!(m.with_direction(Direction::Up).direction(), Direction::Up);
    assert!(m.with_present(true).present());
    assert!(!m.with_present(true).with_present(false).present());
    let mut a = m;
    a.set_accessed(true);
    assert_eq!(a.bits(), m.bits() | (1 << 40));
}

#[test]
fn dpl_round_trip() {
    for d in [Dpl::Ring0, Dpl::Ring1, Dpl::Ring2, Dpl::Ring3] {
        let m = Memory::kernel_code_segment().with_dpl(d);
        assert_eq!(m.dpl(), d);
        assert!(m.present());
        assert!(m.is_code_segment());
    }
    let mut m = Memory::new();
    m.set_dpl(Dpl::Ring2);
    assert_eq!(m.bits(), 0x0000_5000_0000_0000);
}

#[test]
fn mode_and_granularity_round_trip() {
    let mut m = Memory::new().with_code_segment();
    for mode in [Mode::Long, Mode::Prot32, Mode::Prot16, Mode::Long] {
        m.set_mode(mode);
        assert_eq!(m.mode(), mode);
    }
    m.set_granularity(Granularity::Page);
    assert_eq!(m.granularity(), Granularity::Page);
    assert_eq!(m.mode(), Mode::Long);
    m.set_granularity(Granularity::Byte);
    assert_eq!(m.granularity(), Granularity::Byte);
    assert_eq!(m.mode(), Mode::Long);
}

#[test]
fn code_and_data_segments() {
    let mut m = Memory::new();
    m.set_code_segment();
    assert!(m.is_code_segment());
    assert!(!m.is_data_segment());
    m.set_data_segment();
    assert!(m.is_data_segment());
    assert!(!m.with_code_segment().is_data_segment());
}

#[test]
fn descriptor_bits() {
    match Descriptor::Null.bits() {
        Either::Left(b) => assert_eq!(b, 0),
        Either::Right(_) => panic!("a null descriptor has eight bytes"),
    }
    match Descriptor::Memory(Memory::user_code_segment()).bits() {
        Either::Left(b) => assert_eq!(b, 0x00AF_FA00_0000_FFFF),
        Either::Right(_) => panic!("a memory descriptor has eight bytes"),
    }
}

#[test]
fn gdt_new_and_append() {
    let mut gdt = Gdt::<5>::new();
    assert_eq!(gdt.capacity(), 5);
    assert_eq!(gdt.len(), 1);
    assert_eq!(gdt.as_slice(), &[0, 0, 0, 0]);
    gdt.append(Descriptor::Memory(Memory::kernel_code_segment()));
    gdt.append(Descriptor::Memory(Memory::kernel_data_segment()));
    gdt.append(Descriptor::Null);
    assert_eq!(gdt.len(), 4);
    assert_eq!(gdt.as_slice(), &[0x00AF_9A00_0000_FFFF, 0x00CF_9200_0000_FFFF, 0, 0]);
}

#[test]
fn gdt_mut_slice_keeps_null_entry() {
    let mut gdt = Gdt::<3>::new();
    {
        let s = gdt.as_mut_slice();
        assert_eq!(s.len(), 2);
        s[0] = 0x1111;
        s[1] = 0x2222;
    }
    assert_eq!(gdt.as_slice(), &[0x1111, 0x2222]);
    assert_eq!(gdt.len(), 1);
}

#[test]
fn gdtr_size_and_offset() {
    let gdt = Gdt::<8>::new();
    let gdtr = Gdtr::new(&gdt, 0xFFFF_8000_0000_1000);
    assert_eq!(gdtr.size(), 63);
    assert_eq!(gdtr.offset(), 0xFFFF_8000_0000_1000);
    let big = Gdt::<8192>::new();
    assert_eq!(Gdtr::new(&big, 0).size(), 0xFFFF);
    let raw = Gdtr::from_raw(0x17, 0x1000);
    assert_eq!(raw.size(), 0x17);
    assert_eq!(raw.offset(), 0x1000);
}

#[test]
fn gdt_iter_yields_used_entries_after_null_entry() {
    let mut gdt = Gdt::<4>::new();
    gdt.append(Descriptor::Memory(Memory::kernel_code_segment()));
    gdt.append(Descriptor::Null);
    let mut it = gdt.iter();
    assert_eq!(it.next_raw(), Some(0x00AF_9A00_0000_FFFF));
    assert_eq!(it.next_raw(), Some(0));
    assert_eq!(it.next_raw(), None);
    assert_eq!(it.next_raw(), None);
    let fresh = Gdt::<2>::new();
    let mut empty = x86_cpu::gdt::Iter::new(&fresh);
    assert_eq!(empty.next_raw(), None);
}

#[test]
fn gdt_table_and_unchecked_slice() {
    let mut gdt = Gdt::<3>::new();
    gdt.append(Descriptor::Memory(Memory::user_data_segment()));
    assert_eq!(gdt.table(), &[0, 0x00CF_F200_0000_FFFF, 0]);
    {
        let all = gdt.as_mut_slice_unchecked();
        assert_eq!(all.len(), 3);
        all[2] = 0x42;
    }
    assert_eq!(gdt.table(), &[0, 0x00CF_F200_0000_FFFF, 0x42]);
    assert_eq!(gdt.len(), 2);
}

#[test]
fn segment_bits_keep_descriptor_invariant() {
    let segs = [
        Memory::new(),
        Memory::kernel_code_segment(),
        Memory::kernel_data_segment(),
        Memory::user_code_segment(),
        Memory::user_data_segment().with_mode(Mode::Prot16).with_accessed(true),
        Memory::new().with_code_segment().with_mode(Mode::Long).with_mode(Mode::Prot32),
    ];
    for m in segs {
        let b = m.bits();
        assert_eq!((b >> 44) & 1, 1);
        assert_eq!((b >> 52) & 1, 0);
        assert_ne!((b >> 53) & 3, 3);
        if m.mode() == Mode::Long {
            assert!(m.is_code_segment());
        }
    }
}
