use vstd::prelude::*;

verus! {

/// The error code the processor pushes for a page fault.
#[derive(Clone, Copy, Debug, PartialEq, Eq, Hash, Structural)]
pub struct PageFault(u32);

impl View for PageFault {
    type V = u32;

    closed spec fn view(&self) -> u32 {
        self.0
    }
}

const PRESENT: u32 = 0x1;
const WRITE: u32 = 0x2;
const USER: u32 = 0x4;
const RESERVED: u32 = 0x8;
const INSTRUCTION_FETCH: u32 = 0x10;
const PROTECTION_KEY: u32 = 0x20;
const SHADOW_STACK: u32 = 0x40;

impl PageFault {
    pub fn new(error_code: u32) -> (r: Self)
        ensures
            r@ == error_code,
    {
        PageFault(error_code)
    }

    pub fn bits(self) -> (r: u32)
        ensures
            r == self@,
    {
        self.0
    }

    pub fn was_page_present(&self) -> (r: bool)
        ensures
            r == (self@ & 0x1 != 0),
    {
        self.0 & PRESENT != 0
    }

    pub fn was_write(&self) -> (r: bool)
        ensures
            r == (self@ & 0x2 != 0),
    {
        self.0 & WRITE != 0
    }

    pub fn was_user(&self) -> (r: bool)
        ensures
            r == (self@ & 0x4 != 0),
    {
        self.0 & USER != 0
    }

    /// One or more page table entries contain reserved bits which are set to 1.
    pub fn was_malformed_page_table(&self) -> (r: bool)
        ensures
            r == (self@ & 0x8 != 0),
    {
        self.0 & RESERVED != 0
    }

    pub fn was_instruction_fetch(&self) -> (r: bool)
        ensures
            r == (self@ & 0x10 != 0),
    {
        self.0 & INSTRUCTION_FETCH != 0
    }

    pub fn was_protection_key_violation(&self) -> (r: bool)
        ensures
            r == (self@ & 0x20 != 0),
    {
        self.0 & PROTECTION_KEY != 0
    }

    pub fn was_shadow_stack_access(&self) -> (r: bool)
        ensures
            r == (self@ & 0x40 != 0),
    {
        self.0 & SHADOW_STACK != 0
    }
}

} // verus!
