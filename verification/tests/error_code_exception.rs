use x86_cpu::Dpl;
use x86_cpu::error_code::PageFault;
use x86_cpu::exception::Exception;

#[test]
fn page_fault_bits_round_trip() {
    assert_eq!(PageFault::new(0x5A).bits(), 0x5A);
    assert_eq!(PageFault::new(0).bits(), 0);
    assert_eq!(PageFault::new(u32::MAX).bits(), u32::MAX);
}

#[test]
fn page_fault_flags_each_bit() {
    let names: [fn(&PageFault) -> bool; 7] = [
        PageFault::was_page_present,
        PageFault::was_write,
        PageFault::was_user,
        PageFault::was_malformed_page_table,
        PageFault::was_instruction_fetch,
        PageFault::was_protection_key_violation,
        PageFault::was_shadow_stack_access,
    ];
    for (i, f) in names.iter().enumerate() {
        let pf = PageFault::new(1 << i);
        for (j, g) in names.iter().enumerate() {
            assert_eq!(g(&pf), i == j, "bit {} read by flag {}", i, j);
        }
        assert!(!f(&PageFault::new(!(1u32 << i))));
    }
}

#[test]
fn page_fault_typical_codes() {
    // A user-mode write to a present page.
    let pf = PageFault::new(0x7);
    assert!(pf.was_page_present());
    assert!(pf.was_write());
    assert!(pf.was_user());
    assert!(!pf.was_malformed_page_table());
    assert!(!pf.was_instruction_fetch());
    // A kernel instruction fetch from a missing page.
    let pf = PageFault::new(0x10);
    assert!(!pf.was_page_present());
    assert!(pf.was_instruction_fetch());
    assert!(!pf.was_user());
}

#[test]
fn exception_vectors_are_their_positions() {
    assert_eq!(Exception::Division.vector(), 0);
    assert_eq!(Exception::Nmi.vector(), 2);
    assert_eq!(Exception::Breakpoint.vector(), 3);
    assert_eq!(Exception::DoubleFault.vector(), 8);
    assert_eq!(Exception::GeneralProtectionFault.vector(), 13);
    assert_eq!(Exception::PageFault.vector(), 14);
    assert_eq!(Exception::Reserved15.vector(), 15);
    assert_eq!(Exception::ControlProtection.vector(), 21);
    assert_eq!(Exception::HypervisorInjection.vector(), 28);
    assert_eq!(Exception::Security.vector(), 30);
    assert_eq!(Exception::Reserved31.vector(), 31);
}

#[test]
fn exception_names() {
    assert_eq!(Exception::Division.to_string(), "Division");
    assert_eq!(Exception::Nmi.to_string(), "Non-Maskable Interrupt");
    assert_eq!(Exception::InvalidTss.to_string(), "Invalid TSS");
    assert_eq!(Exception::FloatingPoint.to_string(), "x87 Floating Point");
    assert_eq!(Exception::SimdFloatingPoint.to_string(), "SIMD Floating Point");
    assert_eq!(Exception::VmmCommunication.to_string(), "VMM Communication");
    assert_eq!(Exception::Reserved15.to_string(), "Unknown");
    assert_eq!(Exception::Reserved22.to_string(), "Unknown");
    assert_eq!(Exception::Reserved27.to_string(), "Unknown");
    assert_eq!(Exception::Reserved31.to_string(), "Unknown");
}

#[test]
fn exceptions_order_by_vector() {
    assert!(Exception::Division < Exception::Debug);
    assert!(Exception::PageFault < Exception::Reserved15);
    assert!(Exception::Security < Exception::Reserved31);
}

#[test]
fn dpl_try_from() {
    assert_eq!(Dpl::try_from(0u8), Ok(Dpl::Ring0));
    assert_eq!(Dpl::try_from(1u8), Ok(Dpl::Ring1));
    assert_eq!(Dpl::try_from(2u8), Ok(Dpl::Ring2));
    assert_eq!(Dpl::try_from(3u8), Ok(Dpl::Ring3));
    assert_eq!(Dpl::try_from(4u8), Err(()));
    assert_eq!(Dpl::try_from(255u8), Err(()));
}

#[test]
fn dpl_bits_round_trip() {
    for d in [Dpl::Ring0, Dpl::Ring1, Dpl::Ring2, Dpl::Ring3] {
        assert_eq!(Dpl::try_from(d.bits()), Ok(d));
    }
    assert_eq!(Dpl::Ring3.bits(), 3);
    assert!(Dpl::Ring0 < Dpl::Ring3);
}
