use x86_cpu::msr::{Msr, Rmw};
use x86_cpu::tss::{IoBitmap, PortRange, Sp, TSS_SIZE, Tss, TssIoBitmap};

#[test]
fn msr_numbers() {
    assert_eq!(Msr::Ia32Efer.number(), 0xC000_0080);
    assert_eq!(Msr::FsBase.number(), 0xC000_0100);
    assert_eq!(Msr::GsBase.number(), 0xC000_0101);
    assert_eq!(Msr::KernelGsBase.number(), 0xC000_0102);
}

#[test]
fn rmw_reads_and_writes_bits() {
    let mut rmw = Rmw::new(Msr::Ia32Efer, 0x0000_0000_0000_0D01);
    assert_eq!(rmw.read(), 0xD01);
    assert!(rmw.read_bit(0));
    assert!(!rmw.read_bit(1));
    assert!(rmw.read_bit(11));
    assert_eq!(rmw.read_bits(8, 4), 0xD);
    assert_eq!(rmw.read_bits(0, 64), 0xD01);
    rmw.write_bit(63, true);
    assert!(rmw.read_bit(63));
    assert_eq!(rmw.read(), 0x8000_0000_0000_0D01);
    rmw.write_bit(0, false);
    assert_eq!(rmw.read(), 0x8000_0000_0000_0D00);
    rmw.write_bits(4, 8, 0xFFF);
    assert_eq!(rmw.read_bits(4, 8), 0xFF);
    assert_eq!(rmw.read(), 0x8000_0000_0000_0FF0);
    rmw.write_bits(0, 64, 0x1234);
    assert_eq!(rmw.read(), 0x1234);
    rmw.write_bits(60, 4, 0xA);
    assert_eq!(rmw.read(), 0xA000_0000_0000_1234);
    rmw.zero();
    assert_eq!(rmw.read(), 0);
    rmw.write(7);
    assert_eq!(rmw.read(), 7);
    assert_eq!(rmw.read_bits(1, 0), 0);
}

#[test]
fn rmw_commit_and_rollback_decide_writes() {
    let mut rmw = Rmw::new(Msr::GsBase, 5);
    assert_eq!(rmw.msr(), Msr::GsBase);
    assert_eq!(rmw.commit(), None);
    rmw.write(9);
    assert_eq!(rmw.commit(), Some(9));
    assert_eq!(rmw.commit(), None);
    assert_eq!(rmw.rollback(), Some(5));
    assert_eq!(rmw.read(), 5);
    assert_eq!(rmw.rollback(), None);
    assert_eq!(rmw.commit(), None);
    rmw.write(6);
    assert_eq!(rmw.rollback(), None);
    assert_eq!(rmw.read(), 5);
}

#[test]
fn sp_round_trip() {
    for a in [0u64, 1, 0xFFFF_FFFF, 0x1_0000_0000, 0xFFFF_8000_DEAD_BEEF, u64::MAX] {
        assert_eq!(Sp::new(a).address(), a);
        let mut sp = Sp::new(0);
        sp.set_address(a);
        assert_eq!(sp.address(), a);
    }
}

#[test]
fn io_bitmap_starts_all_revoked() {
    let mut io = IoBitmap::<4>::new();
    assert!(io.all().is_revoked());
    assert!(!io.all().is_granted());
    assert_eq!(io.all().len(), 32);
    assert_eq!(IoBitmap::<4>::MAX, 8192);
}

#[test]
fn grant_and_revoke_ranges() {
    let mut io = IoBitmap::<4>::new();
    io.ports(3, 10).grant();
    assert!(io.ports(3, 10).is_granted());
    assert!(io.port(2).is_revoked());
    assert!(io.port(13).is_revoked());
    assert!(!io.ports(2, 2).is_granted());
    assert!(!io.ports(2, 2).is_revoked());
    io.port(7).revoke();
    assert!(io.port(7).is_revoked());
    assert!(io.port(6).is_granted());
    assert!(io.port(8).is_granted());
    io.all().grant();
    assert!(io.all().is_granted());
    io.ports(8, 16).revoke();
    let mut raw = [0u8; 4];
    let mut r = PortRange::new_with(&mut raw, 8, 16);
    r.revoke();
    assert_eq!(raw, [0x00, 0xFF, 0xFF, 0x00]);
}

#[test]
fn partial_bytes_and_raw_slices() {
    let mut raw = [0u8; 3];
    PortRange::new_with(&mut raw, 5, 13).revoke();
    assert_eq!(raw, [0xE0, 0xFF, 0x03]);
    PortRange::new_with(&mut raw, 6, 1).grant();
    assert_eq!(raw, [0xA0, 0xFF, 0x03]);
    PortRange::new_with(&mut raw, 0, 24).toggle();
    assert_eq!(raw, [0x5F, 0x00, 0xFC]);
    PortRange::new_with(&mut raw, 0, 24).toggle();
    assert_eq!(raw, [0xA0, 0xFF, 0x03]);
    PortRange::new_with(&mut raw, 2, 3).toggle();
    assert_eq!(raw, [0xBC, 0xFF, 0x03]);
    let empty = PortRange::new_with(&mut raw, 24, 0);
    assert!(empty.is_empty());
    assert!(empty.is_revoked());
    assert!(empty.is_granted());
}

#[test]
fn truncation() {
    let mut raw = [0u8; 4];
    let mut r = PortRange::new_with(&mut raw, 4, 20);
    r.truncate_front(6);
    assert_eq!(r.start(), 10);
    assert_eq!(r.len(), 14);
    r.truncate_back(4);
    assert_eq!(r.start(), 10);
    assert_eq!(r.len(), 10);
    r.truncate_back(100);
    assert_eq!(r.len(), 0);
    assert!(r.is_empty());
    r.truncate_front(5);
    assert_eq!(r.start(), 10);
    r.revoke();
    assert_eq!(raw, [0, 0, 0, 0]);
}

#[test]
fn range_of_ports() {
    let mut io = IoBitmap::<4>::new();
    io.range(4..12).grant();
    assert!(io.ports(4, 8).is_granted());
    assert!(io.port(3).is_revoked());
    assert!(io.port(12).is_revoked());
    let backwards = io.range(12..4);
    assert!(backwards.is_empty());
    assert_eq!(backwards.start(), 12);
    assert_eq!(io.range(5..5).len(), 0);
    // A backwards range whose start lies past the bitmap is empty too.
    let past = io.range(100..7);
    assert!(past.is_empty());
    assert_eq!(past.start(), 7);
    assert!(io.port(3).is_revoked());
}

#[test]
fn tss_new_and_stacks() {
    let mut tss = Tss::new();
    assert_eq!(tss.io_map_base(), 0xFFFF);
    assert!(tss.rsp().iter().all(|sp| sp.address() == 0));
    assert!(tss.ist().iter().all(|sp| sp.address() == 0));
    tss.rsp_mut()[0].set_address(0xFFFF_8000_0001_0000);
    tss.ist_mut()[6] = Sp::new(0x4000);
    assert_eq!(tss.rsp()[0].address(), 0xFFFF_8000_0001_0000);
    assert_eq!(tss.ist()[6].address(), 0x4000);
    tss.set_io_map_base(0x68);
    assert_eq!(tss.io_map_base(), 0x68);
    tss.set_io_map_base_seq();
    assert_eq!(tss.io_map_base() as usize, tss.to_bytes().len());
    assert_eq!(tss.io_map_base(), 104);
}

#[test]
fn tss_with_io_bitmap() {
    let mut t = TssIoBitmap::<8192>::new();
    assert_eq!(t.io_map_base(), 104);
    assert_eq!(t.io_map_base(), TSS_SIZE);
    assert!(t.io_bitmap.all().is_revoked());
    t.io_bitmap.port(0x3F8).grant();
    assert!(t.io_bitmap.port(0x3F8).is_granted());
    t.rsp_mut()[2] = Sp::new(0x9000);
    assert_eq!(t.rsp()[2].address(), 0x9000);
    t.ist_mut()[0] = Sp::new(0x8000);
    assert_eq!(t.ist()[0].address(), 0x8000);
}

#[test]
fn tss_bytes_layout() {
    let mut tss = Tss::new();
    tss.rsp_mut()[0] = Sp::new(0x1122_3344_5566_7788);
    tss.ist_mut()[6] = Sp::new(0xAABB);
    let b = tss.to_bytes();
    assert_eq!(b.len(), 104);
    assert_eq!(&b[0..4], &[0, 0, 0, 0]);
    assert_eq!(&b[4..12], &[0x88, 0x77, 0x66, 0x55, 0x44, 0x33, 0x22, 0x11]);
    assert!(b[12..84].iter().all(|x| *x == 0));
    assert_eq!(&b[84..92], &[0xBB, 0xAA, 0, 0, 0, 0, 0, 0]);
    assert!(b[92..102].iter().all(|x| *x == 0));
    assert_eq!(&b[102..104], &[0xFF, 0xFF]);
}

#[test]
fn tss_io_bitmap_bytes() {
    let mut t = TssIoBitmap::<2>::new();
    t.io_bitmap.port(3).grant();
    let b = t.to_bytes();
    assert_eq!(b.len(), 104 + 2 + 1);
    assert_eq!(&b[102..104], &[104, 0]);
    assert_eq!(&b[104..], &[0xF7, 0xFF, 0xFF]);
    assert!(b[0..102].iter().all(|x| *x == 0));
}
