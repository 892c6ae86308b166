use vstd::prelude::*;

verus! {

/// The model-specific registers this crate knows.
#[derive(Clone, Copy, Debug, PartialOrd, Ord, PartialEq, Eq, Hash, Structural)]
pub enum Msr {
    Ia32Efer,
    FsBase,
    GsBase,
    KernelGsBase,
}

impl Msr {
    /// The register number that `rdmsr` and `wrmsr` take in `ecx`.
    pub open spec fn register_number(self) -> u32 {
        match self {
            Msr::Ia32Efer => 0xC000_0080,
            Msr::FsBase => 0xC000_0100,
            Msr::GsBase => 0xC000_0101,
            Msr::KernelGsBase => 0xC000_0102,
        }
    }

    /// The register number that `rdmsr` and `wrmsr` take in `ecx`.
    pub fn number(self) -> (r: u32)
        ensures
            r == self.register_number(),
    {
        match self {
            Msr::Ia32Efer => 0xC000_0080,
            Msr::FsBase => 0xC000_0100,
            Msr::GsBase => 0xC000_0101,
            Msr::KernelGsBase => 0xC000_0102,
        }
    }
}

/// A mask of the `len` lowest bits.
pub open spec fn low_mask(len: u64) -> u64 {
    if len < 64 {
        ((1u64 << len) - 1) as u64
    } else {
        0xFFFF_FFFF_FFFF_FFFF
    }
}

/// The state of a batched read-modify-write of a model-specific register: the
/// value read at the start, the value the register holds now, and the value
/// being built.
pub struct RmwView {
    pub msr: Msr,
    pub original: u64,
    pub current: u64,
    pub new: u64,
}

/// The write a commit makes: the new value, unless the register holds it already.
pub open spec fn commit_write(v: RmwView) -> Option<u64> {
    if v.current != v.new {
        Some(v.new)
    } else {
        None
    }
}

/// The state after a commit: the register holds the new value.
pub open spec fn committed(v: RmwView) -> RmwView {
    RmwView { current: v.new, ..v }
}

/// The write a rollback makes: the original value, unless the register holds it.
pub open spec fn rollback_write(v: RmwView) -> Option<u64> {
    if v.original != v.current {
        Some(v.original)
    } else {
        None
    }
}

/// The state after a rollback: the new value and the register are the original.
pub open spec fn rolled_back(v: RmwView) -> RmwView {
    RmwView { current: v.original, new: v.original, ..v }
}

/// A batched read-modify-write of a model-specific register.
pub struct Rmw {
    msr: Msr,
    original: u64,
    current: u64,
    new: u64,
}

impl View for Rmw {
    type V = RmwView;

    closed spec fn view(&self) -> RmwView {
        RmwView { msr: self.msr, original: self.original, current: self.current, new: self.new }
    }
}

/// What the bit operations of a read-modify-write need: the masks they build
/// and the shifts they make stay within the word.
proof fn lemma_mask_facts(bit: u64, len: u64) by (bit_vector)
    requires
        bit < 64,
        bit + len <= 64,
    ensures
        len < 64 ==> 1u64 << len >= 1,
{
}

impl Rmw {
    /// Starts a read-modify-write of `msr`, whose value was just read as `original`.
    pub fn new(msr: Msr, original: u64) -> (r: Self)
        ensures
            r@ == (RmwView { msr, original, current: original, new: original }),
    {
        Rmw { msr, original, current: original, new: original }
    }

    /// A mask of the `len` lowest bits, for a field `bit..bit + len` that fits in
    /// the register.
    fn mask(bit: usize, len: usize) -> (r: u64)
        requires
            bit < 64,
            bit + len <= 64,
        ensures
            r == low_mask(len as u64),
    {
        proof {
            lemma_mask_facts(bit as u64, len as u64);
        }
        if len < 64 {
            (1u64 << len) - 1
        } else {
            u64::MAX
        }
    }

    /// Decides the write that commits the new value: it is due when the register
    /// does not hold the new value already. Returns the value to write, if any.
    pub fn commit(&mut self) -> (w: Option<u64>)
        ensures
            final(self)@ == committed(old(self)@),
            w == commit_write(old(self)@),
    {
        if self.current != self.new {
            self.current = self.new;
            Some(self.new)
        } else {
            None
        }
    }

    /// Discards the new value, and decides the write that restores the original
    /// value: it is due when the register does not hold the original value.
    /// Returns the value to write, if any.
    pub fn rollback(&mut self) -> (w: Option<u64>)
        ensures
            final(self)@ == rolled_back(old(self)@),
            w == rollback_write(old(self)@),
    {
        self.new = self.original;
        if self.original != self.current {
            self.current = self.original;
            Some(self.original)
        } else {
            None
        }
    }

    /// The register this read-modify-write works on.
    pub fn msr(&self) -> (r: Msr)
        ensures
            r == self@.msr,
    {
        self.msr
    }

    /// Reads the new value.
    pub fn read(&self) -> (r: u64)
        ensures
            r == self@.new,
    {
        self.new
    }

    /// Reads bit `bit` (below 64) of the new value.
    pub fn read_bit(&self, bit: usize) -> (r: bool)
        requires
            bit < 64,
        ensures
            r == ((self@.new >> bit as u64) & 1 == 1),
    {
        (self.new >> bit) & 1 == 1
    }

    /// Reads the field of `len` bits at `bit` of the new value; the field must
    /// fit in the register.
    pub fn read_bits(&self, bit: usize, len: usize) -> (r: u64)
        requires
            bit < 64,
            bit + len <= 64,
        ensures
            r == (self@.new >> bit as u64) & low_mask(len as u64),
    {
        let mask = Self::mask(bit, len);
        self.new >> bit & mask
    }

    /// Zeroes the new value.
    pub fn zero(&mut self)
        ensures
            final(self)@ == (RmwView { new: 0, ..old(self)@ }),
    {
        self.new = 0;
    }

    /// Writes the new value.
    pub fn write(&mut self, new: u64)
        ensures
            final(self)@ == (RmwView { new: new, ..old(self)@ }),
    {
        self.new = new;
    }

    /// Sets or clears bit `bit` (below 64) of the new value.
    pub fn write_bit(&mut self, bit: usize, set: bool)
        requires
            bit < 64,
        ensures
            final(self)@ == (RmwView {
                new: if set {
                    old(self)@.new | (1u64 << bit as u64)
                } else {
                    old(self)@.new & !(1u64 << bit as u64)
                },
                ..old(self)@
            }),
    {
        if set {
            self.new = self.new | 1u64 << bit;
        } else {
            self.new = self.new & !(1u64 << bit);
        }
    }

    /// Writes the low `len` bits of `value` into the field of `len` bits at
    /// `bit` of the new value; the field must fit in the register.
    pub fn write_bits(&mut self, bit: usize, len: usize, value: u64)
        requires
            bit < 64,
            bit + len <= 64,
        ensures
            final(self)@ == (RmwView {
                new: (old(self)@.new & !(low_mask(len as u64) << bit as u64)) | ((value & low_mask(
                    len as u64,
                )) << bit as u64),
                ..old(self)@
            }),
    {
        let mask = Self::mask(bit, len);
        self.new = self.new & !(mask << bit);
        self.new = self.new | (value & mask) << bit;
    }
}

/// Writing a bit and reading it back gives what was written, and writing a bit
/// leaves every other bit unchanged.
pub proof fn lemma_write_bit_read_bit(new: u64, bit: u64, set: bool, other: u64)
    requires
        bit < 64,
        other < 64,
        other != bit,
    ensures
        ({
            let w = if set {
                new | (1u64 << bit)
            } else {
                new & !(1u64 << bit)
            };
            &&& ((w >> bit) & 1 == 1) == set
            &&& (w >> other) & 1 == (new >> other) & 1
        }),
{
    assert({
        &&& ((new | (1u64 << bit)) >> bit) & 1 == 1
        &&& ((new & !(1u64 << bit)) >> bit) & 1 == 0
        &&& ((new | (1u64 << bit)) >> other) & 1 == (new >> other) & 1
        &&& ((new & !(1u64 << bit)) >> other) & 1 == (new >> other) & 1
    }) by (bit_vector)
        requires
            bit < 64,
            other < 64,
            other != bit,
    ;
}

/// Writing a field and reading it back gives the low `len` bits of what was
/// written, and writing a field leaves every bit outside it unchanged.
pub proof fn lemma_write_bits_read_bits(new: u64, bit: u64, len: u64, value: u64, other: u64)
    requires
        bit < 64,
        bit + len <= 64,
        other < 64,
        other < bit || other >= bit + len,
    ensures
        ({
            let w = (new & !(low_mask(len) << bit)) | ((value & low_mask(len)) << bit);
            &&& (w >> bit) & low_mask(len) == value & low_mask(len)
            &&& (w >> other) & 1 == (new >> other) & 1
        }),
{
    let m = low_mask(len);
    assert({
        let w = (new & !(m << bit)) | ((value & m) << bit);
        &&& (w >> bit) & m == value & m
        &&& (w >> other) & 1 == (new >> other) & 1
    }) by (bit_vector)
        requires
            bit < 64,
            bit + len <= 64,
            other < 64,
            other < bit || other >= bit + len,
            m == (if len < 64 {
                ((1u64 << len) - 1) as u64
            } else {
                0xFFFF_FFFF_FFFF_FFFFu64
            }),
    ;
}

/// A one-bit field is the bit itself.
pub proof fn lemma_one_bit_field(new: u64, bit: u64)
    requires
        bit < 64,
    ensures
        ((new >> bit) & low_mask(1) == 1) == ((new >> bit) & 1 == 1),
{
    assert(((1u64 << 1u64) - 1) as u64 == 1u64) by (bit_vector);
}

/// Committing twice writes at most once: after a commit, another commit
/// decides no write and leaves the state alone. After a rollback, neither
/// another rollback nor a commit decides a write, and the register holds the
/// value read at the start.
pub proof fn lemma_commit_rollback_settle(v: RmwView)
    ensures
        commit_write(committed(v)) is None,
        committed(committed(v)) == committed(v),
        rollback_write(rolled_back(v)) is None,
        commit_write(rolled_back(v)) is None,
        rolled_back(v).current == v.original,
{
}

/// `low_mask(len)` has exactly its `len` lowest bits set, for every field
/// width up to the whole register.
pub proof fn lemma_low_mask_bits(len: u64, i: u64)
    requires
        len <= 64,
        i < 64,
    ensures
        ((low_mask(len) >> i) & 1 == 1) <==> i < len,
{
    let m = low_mask(len);
    assert(((m >> i) & 1 == 1) <==> i < len) by (bit_vector)
        requires
            len <= 64,
            i < 64,
            m == (if len < 64 {
                ((1u64 << len) - 1) as u64
            } else {
                0xFFFF_FFFF_FFFF_FFFFu64
            }),
    ;
}

/// Reading a field gives, in its bit `i`, bit `bit + i` of the value for every
/// `i` inside the field, and zero above it; writing a field puts bit `i` of the
/// written value at bit `bit + i` for every `i` inside the field.
pub proof fn lemma_field_bits(new: u64, bit: u64, len: u64, value: u64, i: u64)
    requires
        bit < 64,
        bit + len <= 64,
        i < 64,
    ensures
        (((new >> bit) & low_mask(len)) >> i) & 1 == if i < len {
            (new >> (bit + i)) & 1
        } else {
            0
        },
        i < len ==> (((new & !(low_mask(len) << bit)) | ((value & low_mask(len)) << bit)) >> (bit
            + i)) & 1 == (value >> i) & 1,
{
    let m = low_mask(len);
    assert({
        &&& (((new >> bit) & m) >> i) & 1 == if i < len {
            (new >> (bit + i)) & 1
        } else {
            0
        }
        &&& i < len ==> (((new & !(m << bit)) | ((value & m) << bit)) >> (bit + i)) & 1 == (value
            >> i) & 1
    }) by (bit_vector)
        requires
            bit < 64,
            bit + len <= 64,
            i < 64,
            m == (if len < 64 {
                ((1u64 << len) - 1) as u64
            } else {
                0xFFFF_FFFF_FFFF_FFFFu64
            }),
    ;
}

} // verus!
