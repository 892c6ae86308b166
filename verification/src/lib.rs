//! Verified building blocks for x86-64 system programming: segment and
//! interrupt descriptors, selectors, the task-state segment with its I/O
//! permission bitmap, page-fault error codes, exception vectors and batched
//! edits of model-specific register values.
//!
//! Everything here computes on plain values; the instructions that load these
//! structures into the processor live with the caller.

use vstd::prelude::*;

pub mod error_code;
pub mod exception;
pub mod gdt;
pub mod idt;
pub mod msr;
pub mod segment;
pub mod tss;

verus! {

/// A descriptor privilege level (ring).
#[derive(Clone, Copy, Debug, PartialOrd, Ord, PartialEq, Eq, Hash, Structural)]
pub enum Dpl {
    /// Kernel
    Ring0,
    Ring1,
    Ring2,
    /// User
    Ring3,
}

impl Dpl {
    /// The two-bit privilege level that encodes this ring.
    pub open spec fn level(self) -> u8 {
        match self {
            Dpl::Ring0 => 0,
            Dpl::Ring1 => 1,
            Dpl::Ring2 => 2,
            Dpl::Ring3 => 3,
        }
    }

    /// The ring encoded by a two-bit privilege level (meaningful for `x < 4`).
    pub open spec fn from_level(x: u8) -> Dpl {
        if x == 0 {
            Dpl::Ring0
        } else if x == 1 {
            Dpl::Ring1
        } else if x == 2 {
            Dpl::Ring2
        } else {
            Dpl::Ring3
        }
    }

    /// The two-bit privilege level that encodes this ring.
    pub fn bits(self) -> (r: u8)
        ensures
            r == self.level(),
            r < 4,
    {
        match self {
            Dpl::Ring0 => 0,
            Dpl::Ring1 => 1,
            Dpl::Ring2 => 2,
            Dpl::Ring3 => 3,
        }
    }

    /// Decodes a privilege level that is known to fit in two bits.
    pub(crate) fn from_bits(x: u8) -> (r: Dpl)
        requires
            x < 4,
        ensures
            r == Dpl::from_level(x),
            r.level() == x,
    {
        if x == 0 {
            Dpl::Ring0
        } else if x == 1 {
            Dpl::Ring1
        } else if x == 2 {
            Dpl::Ring2
        } else {
            Dpl::Ring3
        }
    }
}

impl TryFrom<u8> for Dpl {
    type Error = ();

    fn try_from(x: u8) -> (r: Result<Self, Self::Error>)
        ensures
            x < 4 ==> r == Ok::<Dpl, ()>(Dpl::from_level(x)),
            x >= 4 ==> r == Err::<Dpl, ()>(()),
    {
        if x < 4 {
            Ok(Dpl::from_bits(x))
        } else {
            Err(())
        }
    }
}

impl vstd::std_specs::convert::TryFromSpecImpl<u8> for Dpl {
    open spec fn obeys_try_from_spec() -> bool {
        true
    }

    open spec fn try_from_spec(x: u8) -> Result<Self, Self::Error> {
        if x < 4 {
            Ok(Dpl::from_level(x))
        } else {
            Err(())
        }
    }
}

/// A ring's privilege level is its number, the position of the variant.
pub proof fn lemma_dpl_level_is_ring(d: Dpl)
    ensures
        d.level() == d as u8,
{
}

/// Decoding a ring's encoding gives the ring back, and every level below four
/// is the encoding of the ring it decodes to.
pub proof fn lemma_dpl_level_roundtrip(d: Dpl, x: u8)
    ensures
        Dpl::from_level(d.level()) == d,
        d.level() < 4,
        x < 4 ==> Dpl::from_level(x).level() == x,
{
}

} // verus!
