use vstd::prelude::*;

use crate::Dpl;

verus! {

/// The segment registers.
#[derive(Clone, Copy, Debug, PartialEq, Eq, Hash, Structural)]
pub enum Segment {
    CS,
    DS,
    ES,
    FS,
    GS,
    SS,
}

impl TryFrom<Segment> for Writable {
    type Error = ();

    fn try_from(segment: Segment) -> (r: Result<Self, Self::Error>)
        ensures
            r == writable_register(segment),
    {
        match segment {
            Segment::CS => Err(()),
            Segment::DS => Ok(Writable::DS),
            Segment::ES => Ok(Writable::ES),
            Segment::FS => Ok(Writable::FS),
            Segment::GS => Ok(Writable::GS),
            Segment::SS => Ok(Writable::SS),
        }
    }
}

impl vstd::std_specs::convert::TryFromSpecImpl<Segment> for Writable {
    open spec fn obeys_try_from_spec() -> bool {
        true
    }

    open spec fn try_from_spec(segment: Segment) -> Result<Self, Self::Error> {
        writable_register(segment)
    }
}

/// The writable register a segment register is, if it is one: every segment
/// register but `CS` can be loaded with a `mov`.
pub open spec fn writable_register(segment: Segment) -> Result<Writable, ()> {
    match segment {
        Segment::CS => Err(()),
        Segment::DS => Ok(Writable::DS),
        Segment::ES => Ok(Writable::ES),
        Segment::FS => Ok(Writable::FS),
        Segment::GS => Ok(Writable::GS),
        Segment::SS => Ok(Writable::SS),
    }
}

/// The segment registers that can be loaded with a `mov`.
#[derive(Clone, Copy, Debug, PartialEq, Eq, Hash, Structural)]
pub enum Writable {
    DS,
    ES,
    FS,
    GS,
    SS,
}

impl Writable {
    /// The segment register this writable register names.
    pub open spec fn segment(self) -> Segment {
        match self {
            Writable::DS => Segment::DS,
            Writable::ES => Segment::ES,
            Writable::FS => Segment::FS,
            Writable::GS => Segment::GS,
            Writable::SS => Segment::SS,
        }
    }

    pub fn as_segment(self) -> (r: Segment)
        ensures
            r == self.segment(),
    {
        match self {
            Writable::DS => Segment::DS,
            Writable::ES => Segment::ES,
            Writable::FS => Segment::FS,
            Writable::GS => Segment::GS,
            Writable::SS => Segment::SS,
        }
    }
}

impl From<Writable> for Segment {
    fn from(writable: Writable) -> (r: Self)
        ensures
            r == writable.segment(),
    {
        writable.as_segment()
    }
}

impl vstd::std_specs::convert::FromSpecImpl<Writable> for Segment {
    open spec fn obeys_from_spec() -> bool {
        true
    }

    open spec fn from_spec(writable: Writable) -> Self {
        writable.segment()
    }
}

/// Converting a writable register to a segment and back gives it back, and
/// the one segment register that is not writable is `CS`.
pub proof fn lemma_writable_roundtrip(w: Writable, s: Segment)
    ensures
        writable_register(w.segment()) == Ok::<Writable, ()>(w),
        writable_register(s) is Err <==> s == Segment::CS,
{
}

/// The descriptor table a selector points into.
#[derive(Clone, Copy, Debug, PartialEq, Eq, Hash, Structural)]
pub enum TableIndex {
    GDT,
    LDT,
}

impl TableIndex {
    /// The table-indicator bit of this table.
    pub open spec fn bit(self) -> u16 {
        match self {
            TableIndex::GDT => 0,
            TableIndex::LDT => 1,
        }
    }
}

/// A segment selector: requested privilege level in bits 0..2, table indicator
/// in bit 2 and descriptor index in bits 3..16.
#[derive(Clone, Copy, Debug, PartialEq, Eq, Hash, Structural)]
pub struct Selector(u16);

impl View for Selector {
    type V = u16;

    closed spec fn view(&self) -> u16 {
        self.0
    }
}

impl Selector {
    /// A selector for entry `index` of the global descriptor table, at ring 0
    /// (index bits above the 13 that fit are dropped).
    pub fn from_index(index: u16) -> (r: Self)
        ensures
            r@ == index << 3,
    {
        Selector(index << 3)
    }

    /// The null selector.
    pub closed spec fn null_view() -> Selector {
        Selector(0)
    }

    pub fn null() -> (r: Self)
        ensures
            r@ == 0,
            r == Self::null_view(),
    {
        Selector(0)
    }

    pub fn bits(&self) -> (r: u16)
        ensures
            r == self@,
    {
        self.0
    }

    /// The requested privilege level of the selector.
    pub fn rpl(&self) -> (r: Dpl)
        ensures
            r == Dpl::from_level((self@ & 0x3) as u8),
    {
        let bits = self.0;
        let dpl = bits & 0x3;
        assert(dpl < 4) by (bit_vector)
            requires
                dpl == bits & 0x3,
        ;
        Dpl::from_bits(dpl as u8)
    }

    pub fn with_rpl(self, rpl: Dpl) -> (r: Self)
        ensures
            r@ == (self@ & !0x3u16) | rpl.level() as u16,
    {
        let mut s = self;
        s.set_rpl(rpl);
        s
    }

    pub fn set_rpl(&mut self, rpl: Dpl)
        ensures
            final(self)@ == (old(self)@ & !0x3u16) | rpl.level() as u16,
    {
        self.0 = self.0 & !0x3;
        self.0 = self.0 | rpl.bits() as u16;
    }

    pub fn table_index(&self) -> (r: TableIndex)
        ensures
            r == (if (self@ >> 2) & 0x1 == 0 {
                TableIndex::GDT
            } else {
                TableIndex::LDT
            }),
    {
        let ti = self.0 >> 2 & 0x1;
        if ti == 0 {
            TableIndex::GDT
        } else {
            TableIndex::LDT
        }
    }

    pub fn with_table_index(self, table_index: TableIndex) -> (r: Self)
        ensures
            r@ == (self@ & !0x4u16) | (table_index.bit() << 2),
    {
        let mut s = self;
        s.set_table_index(table_index);
        s
    }

    pub fn set_table_index(&mut self, table_index: TableIndex)
        ensures
            final(self)@ == (old(self)@ & !0x4u16) | (table_index.bit() << 2),
    {
        let bit: u16 = match table_index {
            TableIndex::GDT => 0,
            TableIndex::LDT => 1,
        };
        self.0 = self.0 & !0x4;
        self.0 = self.0 | bit << 2;
    }

    pub fn index(&self) -> (r: u16)
        ensures
            r == self@ >> 3,
    {
        self.0 >> 3
    }

    /// Clears the privilege level and table indicator, and sets the bits of
    /// `index` in the index field (bits already set there stay set).
    pub fn with_index(self, index: u16) -> (r: Self)
        ensures
            r@ == (self@ & !0x7u16) | (index << 3),
    {
        let mut s = self;
        s.set_index(index);
        s
    }

    /// Clears the privilege level and table indicator, and sets the bits of
    /// `index` in the index field (bits already set there stay set).
    pub fn set_index(&mut self, index: u16)
        ensures
            final(self)@ == (old(self)@ & !0x7u16) | (index << 3),
    {
        self.0 = self.0 & !0x7;
        self.0 = self.0 | index << 3;
    }
}

impl From<u16> for Selector {
    fn from(x: u16) -> (r: Self)
        ensures
            r@ == x,
    {
        Selector(x)
    }
}

impl vstd::std_specs::convert::FromSpecImpl<u16> for Selector {
    open spec fn obeys_from_spec() -> bool {
        true
    }

    closed spec fn from_spec(x: u16) -> Self {
        Selector(x)
    }
}

impl Default for Selector {
    fn default() -> (r: Self)
        ensures
            r@ == 0,
    {
        Self::null()
    }
}

/// Setting the requested privilege level makes `rpl` report it and keeps the
/// table indicator and index; setting the table indicator makes `table_index`
/// report it and keeps the privilege level and index.
pub proof fn lemma_selector_fields(s: u16, rpl: Dpl, table: TableIndex)
    ensures
        Dpl::from_level((((s & !0x3u16) | rpl.level() as u16) & 0x3) as u8) == rpl,
        ((s & !0x3u16) | rpl.level() as u16) >> 2 == s >> 2,
        ((((s & !0x4u16) | (table.bit() << 2)) >> 2) & 0x1 == 0) <==> table == TableIndex::GDT,
        ((s & !0x4u16) | (table.bit() << 2)) & 0x3 == s & 0x3,
        ((s & !0x4u16) | (table.bit() << 2)) >> 3 == s >> 3,
{
    let l = rpl.level() as u16;
    let t = table.bit();
    assert({
        &&& ((s & !0x3u16) | l) & 0x3 == l
        &&& ((s & !0x3u16) | l) >> 2 == s >> 2
        &&& (((s & !0x4u16) | (t << 2)) >> 2) & 0x1 == t
        &&& ((s & !0x4u16) | (t << 2)) & 0x3 == s & 0x3
        &&& ((s & !0x4u16) | (t << 2)) >> 3 == s >> 3
    }) by (bit_vector)
        requires
            l < 4,
            t < 2,
    ;
}

/// A selector built from an index below 8192 has that index, ring 0 and the
/// global table; replacing the index of a selector whose index is zero gives
/// the new index, and in every case clears the privilege level and table bit.
pub proof fn lemma_selector_index(s: u16, index: u16)
    ensures
        index < 8192 ==> (index << 3) >> 3 == index,
        (index << 3) & 0x7 == 0,
        index < 8192 ==> ((s & !0x7u16) | (index << 3)) >> 3 == (s >> 3) | index,
        ((s & !0x7u16) | (index << 3)) & 0x7 == 0,
{
    assert({
        &&& index < 8192 ==> (index << 3) >> 3 == index
        &&& (index << 3) & 0x7 == 0
        &&& index < 8192 ==> ((s & !0x7u16) | (index << 3)) >> 3 == (s >> 3) | index
        &&& ((s & !0x7u16) | (index << 3)) & 0x7 == 0
    }) by (bit_vector);
}

} // verus!
