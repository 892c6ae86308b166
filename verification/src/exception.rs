use vstd::prelude::*;

verus! {

/// The architectural exception vectors, 0 through 31.
#[derive(Clone, Copy, Debug, PartialOrd, Ord, PartialEq, Eq, Hash, Structural)]
pub enum Exception {
    Division,
    Debug,
    Nmi,
    Breakpoint,
    Overflow,
    BoundRangeExceeded,
    InvalidOpcode,
    DeviceNotAvailable,
    DoubleFault,
    CoprocessorSegmentOverrun,
    InvalidTss,
    SegmentNotPresent,
    StackSegmentFault,
    GeneralProtectionFault,
    PageFault,
    Reserved15,
    FloatingPoint,
    AlignmentCheck,
    MachineCheck,
    SimdFloatingPoint,
    Virtualization,
    ControlProtection,
    Reserved22,
    Reserved23,
    Reserved24,
    Reserved25,
    Reserved26,
    Reserved27,
    HypervisorInjection,
    VmmCommunication,
    Security,
    Reserved31,
}

impl Exception {
    /// The interrupt vector of this exception.
    pub open spec fn vector_number(self) -> u8 {
        match self {
            Exception::Division => 0,
            Exception::Debug => 1,
            Exception::Nmi => 2,
            Exception::Breakpoint => 3,
            Exception::Overflow => 4,
            Exception::BoundRangeExceeded => 5,
            Exception::InvalidOpcode => 6,
            Exception::DeviceNotAvailable => 7,
            Exception::DoubleFault => 8,
            Exception::CoprocessorSegmentOverrun => 9,
            Exception::InvalidTss => 10,
            Exception::SegmentNotPresent => 11,
            Exception::StackSegmentFault => 12,
            Exception::GeneralProtectionFault => 13,
            Exception::PageFault => 14,
            Exception::Reserved15 => 15,
            Exception::FloatingPoint => 16,
            Exception::AlignmentCheck => 17,
            Exception::MachineCheck => 18,
            Exception::SimdFloatingPoint => 19,
            Exception::Virtualization => 20,
            Exception::ControlProtection => 21,
            Exception::Reserved22 => 22,
            Exception::Reserved23 => 23,
            Exception::Reserved24 => 24,
            Exception::Reserved25 => 25,
            Exception::Reserved26 => 26,
            Exception::Reserved27 => 27,
            Exception::HypervisorInjection => 28,
            Exception::VmmCommunication => 29,
            Exception::Security => 30,
            Exception::Reserved31 => 31,
        }
    }

    /// The human-readable name of this exception.
    pub open spec fn description(self) -> Seq<char> {
        match self {
            Exception::Division => "Division"@,
            Exception::Debug => "Debug"@,
            Exception::Nmi => "Non-Maskable Interrupt"@,
            Exception::Breakpoint => "Breakpoint"@,
            Exception::Overflow => "Overflow"@,
            Exception::BoundRangeExceeded => "Bound Range Exceeded"@,
            Exception::InvalidOpcode => "Invalid Opcode"@,
            Exception::DeviceNotAvailable => "Device Not Available"@,
            Exception::DoubleFault => "Double Fault"@,
            Exception::CoprocessorSegmentOverrun => "Coprocessor Segment Overrun"@,
            Exception::InvalidTss => "Invalid TSS"@,
            Exception::SegmentNotPresent => "Segment Not Present"@,
            Exception::StackSegmentFault => "Stack Segment Fault"@,
            Exception::GeneralProtectionFault => "General Protection Fault"@,
            Exception::PageFault => "Page Fault"@,
            Exception::Reserved15 => "Unknown"@,
            Exception::FloatingPoint => "x87 Floating Point"@,
            Exception::AlignmentCheck => "Alignment Check"@,
            Exception::MachineCheck => "Machine Check"@,
            Exception::SimdFloatingPoint => "SIMD Floating Point"@,
            Exception::Virtualization => "Virtualization"@,
            Exception::ControlProtection => "Control Protection"@,
            Exception::Reserved22 => "Unknown"@,
            Exception::Reserved23 => "Unknown"@,
            Exception::Reserved24 => "Unknown"@,
            Exception::Reserved25 => "Unknown"@,
            Exception::Reserved26 => "Unknown"@,
            Exception::Reserved27 => "Unknown"@,
            Exception::HypervisorInjection => "Hypervisor Injection"@,
            Exception::VmmCommunication => "VMM Communication"@,
            Exception::Security => "Security"@,
            Exception::Reserved31 => "Unknown"@,
        }
    }

    /// The interrupt vector of this exception.
    pub fn vector(self) -> (r: u8)
        ensures
            r == self.vector_number(),
            r == self as u8,
            r < 32,
    {
        match self {
            Exception::Division => 0,
            Exception::Debug => 1,
            Exception::Nmi => 2,
            Exception::Breakpoint => 3,
            Exception::Overflow => 4,
            Exception::BoundRangeExceeded => 5,
            Exception::InvalidOpcode => 6,
            Exception::DeviceNotAvailable => 7,
            Exception::DoubleFault => 8,
            Exception::CoprocessorSegmentOverrun => 9,
            Exception::InvalidTss => 10,
            Exception::SegmentNotPresent => 11,
            Exception::StackSegmentFault => 12,
            Exception::GeneralProtectionFault => 13,
            Exception::PageFault => 14,
            Exception::Reserved15 => 15,
            Exception::FloatingPoint => 16,
            Exception::AlignmentCheck => 17,
            Exception::MachineCheck => 18,
            Exception::SimdFloatingPoint => 19,
            Exception::Virtualization => 20,
            Exception::ControlProtection => 21,
            Exception::Reserved22 => 22,
            Exception::Reserved23 => 23,
            Exception::Reserved24 => 24,
            Exception::Reserved25 => 25,
            Exception::Reserved26 => 26,
            Exception::Reserved27 => 27,
            Exception::HypervisorInjection => 28,
            Exception::VmmCommunication => 29,
            Exception::Security => 30,
            Exception::Reserved31 => 31,
        }
    }

    /// The human-readable name of this exception; reserved vectors read "Unknown".
    pub fn to_string(&self) -> (r: String)
        ensures
            r@ == self.description(),
    {
        match self {
            Exception::Division => "Division".to_owned(),
            Exception::Debug => "Debug".to_owned(),
            Exception::Nmi => "Non-Maskable Interrupt".to_owned(),
            Exception::Breakpoint => "Breakpoint".to_owned(),
            Exception::Overflow => "Overflow".to_owned(),
            Exception::BoundRangeExceeded => "Bound Range Exceeded".to_owned(),
            Exception::InvalidOpcode => "Invalid Opcode".to_owned(),
            Exception::DeviceNotAvailable => "Device Not Available".to_owned(),
            Exception::DoubleFault => "Double Fault".to_owned(),
            Exception::CoprocessorSegmentOverrun => "Coprocessor Segment Overrun".to_owned(),
            Exception::InvalidTss => "Invalid TSS".to_owned(),
            Exception::SegmentNotPresent => "Segment Not Present".to_owned(),
            Exception::StackSegmentFault => "Stack Segment Fault".to_owned(),
            Exception::GeneralProtectionFault => "General Protection Fault".to_owned(),
            Exception::PageFault => "Page Fault".to_owned(),
            Exception::Reserved15 => "Unknown".to_owned(),
            Exception::FloatingPoint => "x87 Floating Point".to_owned(),
            Exception::AlignmentCheck => "Alignment Check".to_owned(),
            Exception::MachineCheck => "Machine Check".to_owned(),
            Exception::SimdFloatingPoint => "SIMD Floating Point".to_owned(),
            Exception::Virtualization => "Virtualization".to_owned(),
            Exception::ControlProtection => "Control Protection".to_owned(),
            Exception::Reserved22 => "Unknown".to_owned(),
            Exception::Reserved23 => "Unknown".to_owned(),
            Exception::Reserved24 => "Unknown".to_owned(),
            Exception::Reserved25 => "Unknown".to_owned(),
            Exception::Reserved26 => "Unknown".to_owned(),
            Exception::Reserved27 => "Unknown".to_owned(),
            Exception::HypervisorInjection => "Hypervisor Injection".to_owned(),
            Exception::VmmCommunication => "VMM Communication".to_owned(),
            Exception::Security => "Security".to_owned(),
            Exception::Reserved31 => "Unknown".to_owned(),
        }
    }
}

/// Each exception's vector is its position in the architectural table, which
/// is the order in which the variants are declared (and the order `Ord` uses).
pub proof fn lemma_vector_is_position(e: Exception)
    ensures
        e.vector_number() == e as u8,
{
}

/// Distinct exceptions have distinct vectors.
pub proof fn lemma_vectors_distinct(a: Exception, b: Exception)
    ensures
        a.vector_number() == b.vector_number() ==> a == b,
{
}

} // verus!
