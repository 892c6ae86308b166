use vstd::prelude::*;

verus! {

/// A stack pointer slot of the task-state segment, stored as two 32-bit halves.
#[derive(Clone, Copy, Debug, PartialEq, Eq, Hash, Structural)]
pub struct Sp {
    lo: u32,
    hi: u32,
}

impl View for Sp {
    type V = u64;

    closed spec fn view(&self) -> u64 {
        self.lo as u64 | (self.hi as u64) << 32
    }
}

/// Splitting an address into halves and joining them gives the address back.
proof fn lemma_sp_halves(address: u64) by (bit_vector)
    ensures
        (address as u32) as u64 | (((address >> 32) as u32) as u64) << 32 == address,
{
}

impl Sp {
    pub fn new(address: u64) -> (r: Self)
        ensures
            r@ == address,
    {
        proof {
            lemma_sp_halves(address);
        }
        Sp { lo: address as u32, hi: (address >> 32) as u32 }
    }

    /// Returns the virtual address of the stack pointer.
    pub fn address(&self) -> (r: u64)
        ensures
            r == self@,
    {
        self.lo as u64 | (self.hi as u64) << 32
    }

    /// Sets the virtual address of the stack pointer.
    pub fn set_address(&mut self, address: u64)
        ensures
            final(self)@ == address,
    {
        proof {
            lemma_sp_halves(address);
        }
        self.lo = address as u32;
        self.hi = (address >> 32) as u32;
    }
}

/// Whether bit `i` of `x` is set.
pub open spec fn bit_set(x: u8, i: u8) -> bool {
    (x >> i) & 1 == 1
}

/// Whether `port` is revoked in an I/O permission bitmap: a set bit denies
/// access to its port, a clear bit grants it.
pub open spec fn port_revoked(bitmap: Seq<u8>, port: int) -> bool {
    bit_set(bitmap[port / 8], (port % 8) as u8)
}

/// A mask of `len` bits starting at bit `bit` covers exactly those bits.
proof fn lemma_mask_bits(bit: u8, len: u8, i: u8) by (bit_vector)
    requires
        bit + len <= 8,
        len < 8,
        i < 8,
    ensures
        1u8 << len >= 1,
        ((((((1u8 << len) - 1) as u8) << bit) >> i) & 1 == 1) <==> (bit <= i && i < bit + len),
        (0xFFu8 >> i) & 1 == 1,
{
}

/// What setting, clearing and flipping the bits of a mask do to each bit.
proof fn lemma_byte_ops(x: u8, m: u8, i: u8) by (bit_vector)
    requires
        i < 8,
    ensures
        ((x | m) >> i) & 1 == 1 <==> ((m >> i) & 1 == 1 || (x >> i) & 1 == 1),
        ((x & !m) >> i) & 1 == 1 <==> ((m >> i) & 1 != 1 && (x >> i) & 1 == 1),
        ((x ^ m) >> i) & 1 == 1 <==> (((m >> i) & 1 == 1) != ((x >> i) & 1 == 1)),
{
}

/// Whether every bit of `m` is set in `x`.
spec fn all_set_under(x: u8, m: u8) -> bool {
    &&& (bit_set(m, 0) ==> bit_set(x, 0))
    &&& (bit_set(m, 1) ==> bit_set(x, 1))
    &&& (bit_set(m, 2) ==> bit_set(x, 2))
    &&& (bit_set(m, 3) ==> bit_set(x, 3))
    &&& (bit_set(m, 4) ==> bit_set(x, 4))
    &&& (bit_set(m, 5) ==> bit_set(x, 5))
    &&& (bit_set(m, 6) ==> bit_set(x, 6))
    &&& (bit_set(m, 7) ==> bit_set(x, 7))
}

/// Whether every bit of `m` is clear in `x`.
spec fn all_clear_under(x: u8, m: u8) -> bool {
    &&& (bit_set(m, 0) ==> !bit_set(x, 0))
    &&& (bit_set(m, 1) ==> !bit_set(x, 1))
    &&& (bit_set(m, 2) ==> !bit_set(x, 2))
    &&& (bit_set(m, 3) ==> !bit_set(x, 3))
    &&& (bit_set(m, 4) ==> !bit_set(x, 4))
    &&& (bit_set(m, 5) ==> !bit_set(x, 5))
    &&& (bit_set(m, 6) ==> !bit_set(x, 6))
    &&& (bit_set(m, 7) ==> !bit_set(x, 7))
}

/// The byte tests of `is_revoked` and `is_granted`, bit by bit.
proof fn lemma_byte_tests(x: u8, m: u8) by (bit_vector)
    ensures
        (x & m == m) == all_set_under(x, m),
        (x & m == 0) == all_clear_under(x, m),
{
}

/// The eight-bit conjunctions above, as statements over every bit.
proof fn lemma_under_forall(x: u8, m: u8)
    ensures
        all_set_under(x, m) <==> forall|i: u8| i < 8 ==> (#[trigger] bit_set(m, i) ==> bit_set(x, i)),
        all_clear_under(x, m) <==> forall|i: u8|
            i < 8 ==> (#[trigger] bit_set(m, i) ==> !bit_set(x, i)),
{
    assert forall|i: u8| i < 8 && all_set_under(x, m) && #[trigger] bit_set(m, i) implies bit_set(
        x,
        i,
    ) by {
        assert(i == 0 || i == 1 || i == 2 || i == 3 || i == 4 || i == 5 || i == 6 || i == 7);
    }
    assert forall|i: u8| i < 8 && all_clear_under(x, m) && #[trigger] bit_set(m, i) implies !bit_set(
        x,
        i,
    ) by {
        assert(i == 0 || i == 1 || i == 2 || i == 3 || i == 4 || i == 5 || i == 6 || i == 7);
    }
    if forall|i: u8| i < 8 ==> (#[trigger] bit_set(m, i) ==> bit_set(x, i)) {
        assert(bit_set(m, 0) ==> bit_set(x, 0));
        assert(bit_set(m, 1) ==> bit_set(x, 1));
        assert(bit_set(m, 2) ==> bit_set(x, 2));
        assert(bit_set(m, 3) ==> bit_set(x, 3));
        assert(bit_set(m, 4) ==> bit_set(x, 4));
        assert(bit_set(m, 5) ==> bit_set(x, 5));
        assert(bit_set(m, 6) ==> bit_set(x, 6));
        assert(bit_set(m, 7) ==> bit_set(x, 7));
    }
    if forall|i: u8| i < 8 ==> (#[trigger] bit_set(m, i) ==> !bit_set(x, i)) {
        assert(bit_set(m, 0) ==> !bit_set(x, 0));
        assert(bit_set(m, 1) ==> !bit_set(x, 1));
        assert(bit_set(m, 2) ==> !bit_set(x, 2));
        assert(bit_set(m, 3) ==> !bit_set(x, 3));
        assert(bit_set(m, 4) ==> !bit_set(x, 4));
        assert(bit_set(m, 5) ==> !bit_set(x, 5));
        assert(bit_set(m, 6) ==> !bit_set(x, 6));
        assert(bit_set(m, 7) ==> !bit_set(x, 7));
    }
}

/// `after` is `before` with every port of `start..start + len` revoked.
pub open spec fn revoked_range(before: Seq<u8>, after: Seq<u8>, start: int, len: int) -> bool {
    &&& after.len() == before.len()
    &&& forall|p: int|
        0 <= p < before.len() * 8 ==> #[trigger] port_revoked(after, p) == ((start <= p < start + len)
            || port_revoked(before, p))
}

/// `after` is `before` with every port of `start..start + len` granted.
pub open spec fn granted_range(before: Seq<u8>, after: Seq<u8>, start: int, len: int) -> bool {
    &&& after.len() == before.len()
    &&& forall|p: int|
        0 <= p < before.len() * 8 ==> #[trigger] port_revoked(after, p) == (!(start <= p < start
            + len) && port_revoked(before, p))
}

/// `after` is `before` with every port of `start..start + len` toggled.
pub open spec fn toggled_range(before: Seq<u8>, after: Seq<u8>, start: int, len: int) -> bool {
    &&& after.len() == before.len()
    &&& forall|p: int|
        0 <= p < before.len() * 8 ==> #[trigger] port_revoked(after, p) == ((start <= p < start + len)
            != port_revoked(before, p))
}

/// What an operation over a port range does to each port's bit.
enum Access {
    Revoke,
    Grant,
    Toggle,
}

/// The bit a port in the range ends with, given the bit it had.
spec fn applied(op: Access, revoked: bool) -> bool {
    match op {
        Access::Revoke => true,
        Access::Grant => false,
        Access::Toggle => !revoked,
    }
}

/// A range of ports `start..start + len` in an I/O permission bitmap.
///
/// The fields are public so that contracts can say what the borrowed bitmap
/// holds once the range is dropped; `wf` is the condition every constructor
/// establishes and every method keeps.
#[derive(Debug)]
pub struct PortRange<'a> {
    pub bitmap: &'a mut [u8],
    pub start: u32,
    pub len: u32,
}

impl<'a> PortRange<'a> {
    /// The range's end fits in `u32` and its ports lie within the bitmap.
    pub open spec fn wf(&self) -> bool {
        &&& self.start + self.len <= u32::MAX
        &&& self.start + self.len <= self.bitmap@.len() * 8
    }

    /// Whether `port` lies in the range.
    pub open spec fn contains(&self, port: int) -> bool {
        self.start <= port < self.start + self.len
    }

    /// Constructs a port range from an I/O bitmap; the end of the range must not
    /// exceed the bitmap's `N * 8` ports.
    pub fn new<const N: usize>(io_bitmap: &'a mut IoBitmap<N>, start: u32, len: u32) -> (r: Self)
        requires
            start + len <= u32::MAX,
            start + len <= N * 8,
        ensures
            r.wf(),
            r.bitmap@ == old(io_bitmap)@.bitmap,
            r.start == start,
            r.len == len,
            final(io_bitmap)@ == (IoBitmapView { bitmap: final(r.bitmap)@, ..old(io_bitmap)@ }),
    {
        Self::new_with(&mut io_bitmap.bitmap, start, len)
    }

    /// Constructs a port range from a raw slice; the end of the range must fit
    /// in `u32` and must not exceed the slice's ports.
    pub fn new_with(bitmap: &'a mut [u8], start: u32, len: u32) -> (r: Self)
        requires
            start + len <= u32::MAX,
            start + len <= old(bitmap)@.len() * 8,
        ensures
            r.wf(),
            r.bitmap@ == old(bitmap)@,
            r.start == start,
            r.len == len,
            final(bitmap)@ == final(r.bitmap)@,
    {
        PortRange { bitmap, start, len }
    }

    /// Returns the first port in the port range, assuming the length is non-zero.
    pub fn start(&self) -> (r: u32)
        ensures
            r == self.start,
    {
        self.start
    }

    /// Returns the length of the port range.
    pub fn len(&self) -> (r: u32)
        ensures
            r == self.len,
    {
        self.len
    }

    /// The bits `bit..bit + len` of a byte, for a run shorter than a byte.
    fn mask(bit: u8, len: u8) -> (r: u8)
        requires
            bit < 8,
            bit + len <= 8,
            len < 8,
        ensures
            forall|i: u8| i < 8 ==> (#[trigger] bit_set(r, i) <==> (bit <= i && i < bit + len)),
    {
        proof {
            lemma_mask_bits(bit, len, 0);
        }
        let r = ((1u8 << len) - 1) << bit;
        proof {
            assert forall|i: u8| i < 8 implies (#[trigger] bit_set(r, i) <==> (bit <= i && i < bit
                + len)) by {
                lemma_mask_bits(bit, len, i);
            }
        }
        r
    }

    /// One step of a walk over the ports `pos..end`: the byte that holds port
    /// `pos`, the mask of that byte's ports from `pos` up to `end` or the end of
    /// the byte, and the first port after them.
    fn walk_step(pos: u32, end: u32) -> (r: (usize, u8, u32))
        requires
            pos < end,
        ensures
            r.0 == pos / 8,
            pos < r.2 <= end,
            r.2 <= (pos / 8) * 8 + 8,
            r.2 == end || r.2 == (pos / 8) * 8 + 8,
            forall|i: u8|
                i < 8 ==> (#[trigger] bit_set(r.1, i) <==> (pos <= (pos / 8) * 8 + i < r.2)),
    {
        let bit = (pos % 8) as u8;
        let byte = (pos / 8) as usize;
        let rest = end - pos;
        if bit == 0 && rest >= 8 {
            proof {
                assert forall|i: u8| i < 8 implies #[trigger] bit_set(0xFFu8, i) by {
                    lemma_mask_bits(0, 0, i);
                }
            }
            (byte, 0xFF, pos + 8)
        } else {
            let n: u8 = if (8 - bit as u32) < rest {
                8 - bit
            } else {
                rest as u8
            };
            let mask = Self::mask(bit, n);
            (byte, mask, pos + n as u32)
        }
    }

    /// Applies `op` to every port in the range.
    fn over(&mut self, op: Access)
        requires
            old(self).wf(),
        ensures
            final(self).start == old(self).start,
            final(self).len == old(self).len,
            final(self).bitmap@.len() == old(self).bitmap@.len(),
            final(final(self).bitmap)@ == final(old(self).bitmap)@,
            forall|p: int|
                0 <= p < old(self).bitmap@.len() * 8 ==> #[trigger] port_revoked(
                    final(self).bitmap@,
                    p,
                ) == if old(self).contains(p) {
                    applied(op, port_revoked(old(self).bitmap@, p))
                } else {
                    port_revoked(old(self).bitmap@, p)
                },
    {
        let ghost before = self.bitmap@;
        let end = self.start + self.len;
        let mut pos = self.start;
        while pos < end
            invariant
                self.start == old(self).start,
                self.len == old(self).len,
                end == self.start + self.len,
                self.start <= pos <= end,
                end <= before.len() * 8,
                before == old(self).bitmap@,
                self.bitmap@.len() == before.len(),
                final(self.bitmap)@ == final(old(self).bitmap)@,
                forall|p: int|
                    0 <= p < before.len() * 8 ==> #[trigger] port_revoked(self.bitmap@, p) == if self.start
                        <= p < pos {
                        applied(op, port_revoked(before, p))
                    } else {
                        port_revoked(before, p)
                    },
            decreases end - pos,
        {
            let (byte, mask, next) = Self::walk_step(pos, end);
            let current = self.bitmap[byte];
            let updated = match op {
                Access::Revoke => current | mask,
                Access::Grant => current & !mask,
                Access::Toggle => current ^ mask,
            };
            let ghost mid = self.bitmap@;
            self.bitmap[byte] = updated;
            proof {
                assert forall|p: int| 0 <= p < before.len() * 8 implies #[trigger] port_revoked(
                    self.bitmap@,
                    p,
                ) == if self.start <= p < next {
                    applied(op, port_revoked(before, p))
                } else {
                    port_revoked(before, p)
                } by {
                    if p / 8 == byte as int {
                        let i = (p % 8) as u8;
                        lemma_byte_ops(current, mask, i);
                        assert(bit_set(mask, i) <==> (pos <= (pos / 8) * 8 + i < next));
                        assert(port_revoked(mid, p) == bit_set(current, i));
                    } else {
                        assert(port_revoked(self.bitmap@, p) == port_revoked(mid, p));
                    }
                }
            }
            pos = next;
        }
    }

    /// Whether every port in the range is revoked (`revoked`) or every one granted.
    fn over_ref(&self, revoked: bool) -> (r: bool)
        requires
            self.wf(),
        ensures
            r == forall|p: int| #[trigger] self.contains(p) ==> port_revoked(old(self.bitmap)@, p) == revoked,
    {
        let end = self.start + self.len;
        let mut pos = self.start;
        while pos < end
            invariant
                end == self.start + self.len,
                self.start <= pos <= end,
                end <= self.bitmap@.len() * 8,
                forall|p: int| self.start <= p < pos ==> #[trigger] port_revoked(old(self.bitmap)@, p) == revoked,
            decreases end - pos,
        {
            let (byte, mask, next) = Self::walk_step(pos, end);
            let current = self.bitmap[byte];
            let ok = if revoked {
                current & mask == mask
            } else {
                current & mask == 0
            };
            proof {
                lemma_byte_tests(current, mask);
                lemma_under_forall(current, mask);
            }
            if !ok {
                proof {
                    let i = choose|i: u8| i < 8 && bit_set(mask, i) && bit_set(current, i) != revoked;
                    let p = (pos / 8) * 8 + i;
                    assert(self.contains(p as int));
                    assert(port_revoked(self.bitmap@, p as int) != revoked);
                }
                return false;
            }
            proof {
                assert forall|p: int| self.start <= p < next implies #[trigger] port_revoked(
                    self.bitmap@,
                    p,
                ) == revoked by {
                    if p >= pos {
                        let i = (p % 8) as u8;
                        assert(bit_set(mask, i));
                    }
                }
            }
            pos = next;
        }
        true
    }

    /// Revokes access to all ports in the range.
    pub fn revoke(&mut self)
        requires
            old(self).wf(),
        ensures
            final(self).start == old(self).start,
            final(self).len == old(self).len,
            final(final(self).bitmap)@ == final(old(self).bitmap)@,
            revoked_range(old(self).bitmap@, final(self).bitmap@, old(self).start as int, old(self).len as int),
    {
        self.over(Access::Revoke);
    }

    /// Returns true if all ports in the range are revoked.
    pub fn is_revoked(&self) -> (r: bool)
        requires
            self.wf(),
        ensures
            r == forall|p: int| #[trigger] self.contains(p) ==> port_revoked(old(self.bitmap)@, p),
    {
        self.over_ref(true)
    }

    /// Grants access to all ports in the range.
    pub fn grant(&mut self)
        requires
            old(self).wf(),
        ensures
            final(self).start == old(self).start,
            final(self).len == old(self).len,
            final(final(self).bitmap)@ == final(old(self).bitmap)@,
            granted_range(old(self).bitmap@, final(self).bitmap@, old(self).start as int, old(self).len as int),
    {
        self.over(Access::Grant);
    }

    /// Returns true if all ports in the range are granted.
    pub fn is_granted(&self) -> (r: bool)
        requires
            self.wf(),
        ensures
            r == forall|p: int| #[trigger] self.contains(p) ==> !port_revoked(old(self.bitmap)@, p),
    {
        self.over_ref(false)
    }

    /// Toggles access to all ports in the range.
    pub fn toggle(&mut self)
        requires
            old(self).wf(),
        ensures
            final(self).start == old(self).start,
            final(self).len == old(self).len,
            final(final(self).bitmap)@ == final(old(self).bitmap)@,
            toggled_range(old(self).bitmap@, final(self).bitmap@, old(self).start as int, old(self).len as int),
    {
        self.over(Access::Toggle);
    }

    /// Removes up to `n` ports from the front of the port range.
    pub fn truncate_front(&mut self, n: u32)
        requires
            old(self).wf(),
        ensures
            final(self).wf(),
            final(self).start == old(self).start + if n < old(self).len {
                n
            } else {
                old(self).len
            },
            final(self).start + final(self).len == old(self).start + old(self).len,
            final(self).bitmap@ == old(self).bitmap@,
            final(final(self).bitmap)@ == final(old(self).bitmap)@,
    {
        let truncate = if n < self.len {
            n
        } else {
            self.len
        };
        self.start = self.start + truncate;
        self.len = self.len - truncate;
    }

    /// Removes up to `n` ports from the back of the port range.
    pub fn truncate_back(&mut self, n: u32)
        requires
            old(self).wf(),
        ensures
            final(self).wf(),
            final(self).start == old(self).start,
            final(self).len == old(self).len - if n < old(self).len {
                n
            } else {
                old(self).len
            },
            final(self).bitmap@ == old(self).bitmap@,
            final(final(self).bitmap)@ == final(old(self).bitmap)@,
    {
        let truncate = if n < self.len {
            n
        } else {
            self.len
        };
        self.len = self.len - truncate;
    }

    /// Returns true if the port range is empty.
    pub fn is_empty(&self) -> (r: bool)
        ensures
            r == (self.len == 0),
    {
        self.len == 0
    }
}

/// The contents of an I/O permission bitmap: one bit per port, and the byte of
/// all ones that the processor expects after the last one.
pub struct IoBitmapView {
    pub bitmap: Seq<u8>,
    pub extra: u8,
}

/// An I/O permission bitmap for `N * 8` ports.
#[derive(Clone, Copy, Debug, PartialEq, Eq, Hash)]
pub struct IoBitmap<const N: usize> {
    bitmap: [u8; N],
    extra: u8,
}

impl<const N: usize> View for IoBitmap<N> {
    type V = IoBitmapView;

    closed spec fn view(&self) -> IoBitmapView {
        IoBitmapView { bitmap: self.bitmap@, extra: self.extra }
    }
}

impl<const N: usize> IoBitmap<N> {
    /// The max byte size for an I/O bitmap.
    pub const MAX: usize = 8192;

    /// Constructs an I/O bitmap that supports N * 8 ports, all of them revoked;
    /// `N` must not exceed [`IoBitmap::MAX`].
    pub fn new() -> (r: Self)
        requires
            N <= 8192,
        ensures
            r@.bitmap.len() == N,
            forall|i: int| 0 <= i < N ==> #[trigger] r@.bitmap[i] == 0xFF,
            r@.extra == 0xFF,
    {
        let bitmap: [u8; N] = [0xFFu8; N];
        assert(bitmap == vstd::array::spec_array_fill_for_copy_type::<u8, N>(0xFF));
        IoBitmap { bitmap, extra: 0xFF }
    }

    /// Yields the full range of ports in this I/O bitmap.
    pub fn all(&mut self) -> (r: PortRange<'_>)
        requires
            N <= 8192,
        ensures
            r.wf(),
            r.bitmap@ == old(self)@.bitmap,
            r.start == 0,
            r.len == N * 8,
            final(self)@ == (IoBitmapView { bitmap: final(r.bitmap)@, ..old(self)@ }),
    {
        PortRange::new(self, 0, N as u32 * 8)
    }

    /// Yields a single port, which must lie within the bitmap.
    pub fn port(&mut self, port: u16) -> (r: PortRange<'_>)
        requires
            port + 1 <= N * 8,
        ensures
            r.wf(),
            r.bitmap@ == old(self)@.bitmap,
            r.start == port,
            r.len == 1,
            final(self)@ == (IoBitmapView { bitmap: final(r.bitmap)@, ..old(self)@ }),
    {
        PortRange::new(self, port as u32, 1)
    }

    /// Yields a range of ports port..port + len, which must lie within the bitmap.
    pub fn ports(&mut self, port: u16, len: u16) -> (r: PortRange<'_>)
        requires
            port + len <= N * 8,
        ensures
            r.wf(),
            r.bitmap@ == old(self)@.bitmap,
            r.start == port,
            r.len == len,
            final(self)@ == (IoBitmapView { bitmap: final(r.bitmap)@, ..old(self)@ }),
    {
        PortRange::new(self, port as u32, len as u32)
    }

    /// Yields a range of ports over the supplied `range`, whose end must lie
    /// within the bitmap. If `range` is backwards, an empty [`PortRange`] is
    /// always returned; it starts at `range.start`, or at `range.end` when
    /// `range.start` lies past the bitmap.
    pub fn range(&mut self, range: core::ops::Range<u16>) -> (r: PortRange<'_>)
        requires
            range.end <= N * 8,
        ensures
            r.wf(),
            r.bitmap@ == old(self)@.bitmap,
            r.start == if range.start <= range.end || range.start <= N * 8 {
                range.start
            } else {
                range.end
            },
            r.len == if range.start <= range.end {
                range.end - range.start
            } else {
                0
            },
            final(self)@ == (IoBitmapView { bitmap: final(r.bitmap)@, ..old(self)@ }),
    {
        if range.start <= range.end {
            self.ports(range.start, range.end - range.start)
        } else if N > 8192 || (range.start as usize) <= N * 8 {
            self.ports(range.start, 0)
        } else {
            self.ports(range.end, 0)
        }
    }
}

/// The fields of a 64-bit task-state segment: the ring 0-2 stack pointers, the
/// interrupt stack table, the I/O map base and the reserved fields (at byte
/// offsets 0, 28, 32, 92, 96 and 100), which the processor expects to be zero.
pub struct TssView {
    pub rsp: [Sp; 3],
    pub ist: [Sp; 7],
    pub io_map_base: u16,
    pub reserved: (u32, u32, u32, u32, u32, u16),
}

/// The little-endian bytes of a 16-bit value.
pub open spec fn le16(x: u16) -> Seq<u8> {
    seq![x as u8, (x >> 8) as u8]
}

/// The little-endian bytes of a 32-bit value.
pub open spec fn le32(x: u32) -> Seq<u8> {
    seq![x as u8, (x >> 8) as u8, (x >> 16) as u8, (x >> 24) as u8]
}

/// The little-endian bytes of a 64-bit value.
pub open spec fn le64(x: u64) -> Seq<u8> {
    seq![
        x as u8,
        (x >> 8) as u8,
        (x >> 16) as u8,
        (x >> 24) as u8,
        (x >> 32) as u8,
        (x >> 40) as u8,
        (x >> 48) as u8,
        (x >> 56) as u8,
    ]
}

/// The bytes of a 64-bit task-state segment as the processor reads them.
pub open spec fn tss_image(v: TssView) -> Seq<u8> {
    le32(v.reserved.0) + le64(v.rsp[0]@) + le64(v.rsp[1]@) + le64(v.rsp[2]@) + le32(v.reserved.1)
        + le32(v.reserved.2) + le64(v.ist[0]@) + le64(v.ist[1]@) + le64(v.ist[2]@) + le64(
        v.ist[3]@,
    ) + le64(v.ist[4]@) + le64(v.ist[5]@) + le64(v.ist[6]@) + le32(v.reserved.3) + le32(
        v.reserved.4,
    ) + le16(v.reserved.5) + le16(v.io_map_base)
}

/// The size in bytes of a 64-bit task-state segment: the length of `tss_image`,
/// and the offset of an I/O bitmap that follows it directly.
pub const TSS_SIZE: u16 = 0x68;

/// The 64-bit value whose little-endian bytes are `s[0..8]`.
pub open spec fn u64_from_le(s: Seq<u8>) -> u64 {
    s[0] as u64 | (s[1] as u64) << 8 | (s[2] as u64) << 16 | (s[3] as u64) << 24 | (s[4] as u64)
        << 32 | (s[5] as u64) << 40 | (s[6] as u64) << 48 | (s[7] as u64) << 56
}

/// The 32-bit value whose little-endian bytes are `s[0..4]`.
pub open spec fn u32_from_le(s: Seq<u8>) -> u32 {
    s[0] as u32 | (s[1] as u32) << 8 | (s[2] as u32) << 16 | (s[3] as u32) << 24
}

/// The 16-bit value whose little-endian bytes are `s[0..2]`.
pub open spec fn u16_from_le(s: Seq<u8>) -> u16 {
    s[0] as u16 | (s[1] as u16) << 8
}

/// Reading back the little-endian bytes of a value gives the value.
pub proof fn lemma_le_roundtrip(x: u64, y: u32, z: u16)
    ensures
        le64(x).len() == 8,
        u64_from_le(le64(x)) == x,
        le32(y).len() == 4,
        u32_from_le(le32(y)) == y,
        le16(z).len() == 2,
        u16_from_le(le16(z)) == z,
{
    assert(((x as u8) as u64 | (((x >> 8) as u8) as u64) << 8 | (((x >> 16) as u8) as u64) << 16
        | (((x >> 24) as u8) as u64) << 24 | (((x >> 32) as u8) as u64) << 32 | (((x >> 40) as u8)
        as u64) << 40 | (((x >> 48) as u8) as u64) << 48 | (((x >> 56) as u8) as u64) << 56) == x
        && ((y as u8) as u32 | (((y >> 8) as u8) as u32) << 8 | (((y >> 16) as u8) as u32) << 16
        | (((y >> 24) as u8) as u32) << 24) == y && ((z as u8) as u16 | (((z >> 8) as u8) as u16)
        << 8) == z) by (bit_vector);
}

/// Byte `j` of the little-endian bytes of `x` is `x >> 8j`, truncated to a byte.
pub proof fn lemma_le64_byte(x: u64, j: int)
    requires
        0 <= j < 8,
    ensures
        le64(x)[j] == (x >> ((8 * j) as u64)) as u8,
{
    assert(j == 0 || j == 1 || j == 2 || j == 3 || j == 4 || j == 5 || j == 6 || j == 7);
    assert((x >> 0u64) == x) by (bit_vector);
}

/// The stack slots and the I/O map base lie in the image byte by byte, least
/// significant byte first: RSPk at 4 + 8k, ISTk+1 at 36 + 8k, the base at 102.
pub proof fn lemma_tss_image_bytes(v: TssView)
    ensures
        forall|k: int, j: int|
            0 <= k < 3 && 0 <= j < 8 ==> #[trigger] tss_image(v)[4 + 8 * k + j] == (v.rsp[k]@ >> ((8
                * j) as u64)) as u8,
        forall|k: int, j: int|
            0 <= k < 7 && 0 <= j < 8 ==> #[trigger] tss_image(v)[36 + 8 * k + j] == (v.ist[k]@ >> ((
            8 * j) as u64)) as u8,
        tss_image(v)[102] == v.io_map_base as u8,
        tss_image(v)[103] == (v.io_map_base >> 8) as u8,
{
    lemma_tss_image_fields(v);
    let img = tss_image(v);
    assert forall|k: int, j: int| 0 <= k < 3 && 0 <= j < 8 implies #[trigger] img[4 + 8 * k + j] == (
    v.rsp[k]@ >> ((8 * j) as u64)) as u8 by {
        assert(img.subrange(4 + 8 * k, 12 + 8 * k) =~= le64(v.rsp[k]@));
        assert(img[4 + 8 * k + j] == img.subrange(4 + 8 * k, 12 + 8 * k)[j]);
        lemma_le64_byte(v.rsp[k]@, j);
    }
    assert forall|k: int, j: int| 0 <= k < 7 && 0 <= j < 8 implies #[trigger] img[36 + 8 * k + j]
        == (v.ist[k]@ >> ((8 * j) as u64)) as u8 by {
        assert(img.subrange(36 + 8 * k, 44 + 8 * k) =~= le64(v.ist[k]@));
        assert(img[36 + 8 * k + j] == img.subrange(36 + 8 * k, 44 + 8 * k)[j]);
        lemma_le64_byte(v.ist[k]@, j);
    }
    assert(img.subrange(102, 104) =~= le16(v.io_map_base));
    assert(img[102] == img.subrange(102, 104)[0]);
    assert(img[103] == img.subrange(102, 104)[1]);
}

/// Each field of a task-state segment sits at its architectural byte offset in
/// the image and reads back from there: the reserved doubleword at 0, RSP0-2
/// at 4, 12 and 20, reserved doublewords at 28 and 32, IST1-7 at 36 + 8k,
/// reserved doublewords at 92 and 96, a reserved word at 100 and the I/O map
/// base at 102.
pub proof fn lemma_tss_image_fields(v: TssView)
    ensures
        tss_image(v).len() == 0x68,
        u32_from_le(tss_image(v).subrange(0, 4)) == v.reserved.0,
        forall|k: int| 0 <= k < 3 ==> u64_from_le(#[trigger] tss_image(v).subrange(4 + 8 * k, 12 + 8 * k)) == v.rsp[k]@,
        u32_from_le(tss_image(v).subrange(28, 32)) == v.reserved.1,
        u32_from_le(tss_image(v).subrange(32, 36)) == v.reserved.2,
        forall|k: int| 0 <= k < 7 ==> u64_from_le(#[trigger] tss_image(v).subrange(36 + 8 * k, 44 + 8 * k)) == v.ist[k]@,
        u32_from_le(tss_image(v).subrange(92, 96)) == v.reserved.3,
        u32_from_le(tss_image(v).subrange(96, 100)) == v.reserved.4,
        u16_from_le(tss_image(v).subrange(100, 102)) == v.reserved.5,
        u16_from_le(tss_image(v).subrange(102, 104)) == v.io_map_base,
{
    let img = tss_image(v);
    lemma_le_roundtrip(0, v.reserved.0, 0);
    assert(img.subrange(0, 4) =~= le32(v.reserved.0));
    assert forall|k: int| 0 <= k < 3 implies u64_from_le(#[trigger] img.subrange(4 + 8 * k, 12 + 8 * k))
        == v.rsp[k]@ by {
        lemma_le_roundtrip(v.rsp[k]@, 0, 0);
        assert(img.subrange(4 + 8 * k, 12 + 8 * k) =~= le64(v.rsp[k]@));
    }
    lemma_le_roundtrip(0, v.reserved.1, 0);
    assert(img.subrange(28, 32) =~= le32(v.reserved.1));
    lemma_le_roundtrip(0, v.reserved.2, 0);
    assert(img.subrange(32, 36) =~= le32(v.reserved.2));
    assert forall|k: int| 0 <= k < 7 implies u64_from_le(#[trigger] img.subrange(36 + 8 * k, 44 + 8 * k))
        == v.ist[k]@ by {
        lemma_le_roundtrip(v.ist[k]@, 0, 0);
        assert(img.subrange(36 + 8 * k, 44 + 8 * k) =~= le64(v.ist[k]@));
    }
    lemma_le_roundtrip(0, v.reserved.3, v.reserved.5);
    assert(img.subrange(92, 96) =~= le32(v.reserved.3));
    assert(img.subrange(100, 102) =~= le16(v.reserved.5));
    lemma_le_roundtrip(0, v.reserved.4, v.io_map_base);
    assert(img.subrange(96, 100) =~= le32(v.reserved.4));
    assert(img.subrange(102, 104) =~= le16(v.io_map_base));
}

/// Every task-state segment image is `TSS_SIZE` bytes long.
pub proof fn lemma_tss_image_len(v: TssView)
    ensures
        tss_image(v).len() == TSS_SIZE,
{
}

/// Appends the little-endian bytes of `x`.
fn push_le16(out: &mut Vec<u8>, x: u16)
    ensures
        final(out)@ == old(out)@ + le16(x),
{
    out.push(x as u8);
    out.push((x >> 8) as u8);
    assert(final(out)@ =~= old(out)@ + le16(x));
}

/// Appends the little-endian bytes of `x`.
fn push_le32(out: &mut Vec<u8>, x: u32)
    ensures
        final(out)@ == old(out)@ + le32(x),
{
    out.push(x as u8);
    out.push((x >> 8) as u8);
    out.push((x >> 16) as u8);
    out.push((x >> 24) as u8);
    assert(final(out)@ =~= old(out)@ + le32(x));
}

/// Appends the little-endian bytes of `x`.
fn push_le64(out: &mut Vec<u8>, x: u64)
    ensures
        final(out)@ == old(out)@ + le64(x),
{
    out.push(x as u8);
    out.push((x >> 8) as u8);
    out.push((x >> 16) as u8);
    out.push((x >> 24) as u8);
    out.push((x >> 32) as u8);
    out.push((x >> 40) as u8);
    out.push((x >> 48) as u8);
    out.push((x >> 56) as u8);
    assert(final(out)@ =~= old(out)@ + le64(x));
}

/// A 64-bit task-state segment.
#[derive(Clone, Copy, Debug, PartialEq, Eq, Hash)]
pub struct Tss {
    reserved1: u32,
    rsp: [Sp; 3],
    reserved2: u32,
    reserved3: u32,
    ist: [Sp; 7],
    reserved4: u32,
    reserved5: u32,
    reserved6: u16,
    io_map_base: u16,
}

impl View for Tss {
    type V = TssView;

    closed spec fn view(&self) -> TssView {
        TssView {
            rsp: self.rsp,
            ist: self.ist,
            io_map_base: self.io_map_base,
            reserved: (
                self.reserved1,
                self.reserved2,
                self.reserved3,
                self.reserved4,
                self.reserved5,
                self.reserved6,
            ),
        }
    }
}

impl Tss {
    /// A task-state segment with null stack pointers and an I/O map base past
    /// any segment limit, so that no port is granted.
    pub fn new() -> (r: Self)
        ensures
            forall|i: int| 0 <= i < 3 ==> (#[trigger] r@.rsp@[i])@ == 0,
            forall|i: int| 0 <= i < 7 ==> (#[trigger] r@.ist@[i])@ == 0,
            r@.io_map_base == 0xFFFF,
            r@.reserved == (0u32, 0u32, 0u32, 0u32, 0u32, 0u16),
    {
        let zero = Sp::new(0);
        let rsp: [Sp; 3] = [zero; 3];
        let ist: [Sp; 7] = [zero; 7];
        assert(rsp == vstd::array::spec_array_fill_for_copy_type::<Sp, 3>(zero));
        assert(ist == vstd::array::spec_array_fill_for_copy_type::<Sp, 7>(zero));
        Tss {
            reserved1: 0,
            rsp,
            reserved2: 0,
            reserved3: 0,
            ist,
            reserved4: 0,
            reserved5: 0,
            reserved6: 0,
            io_map_base: u16::MAX,
        }
    }

    pub fn rsp(&self) -> (r: &[Sp; 3])
        ensures
            *r == self@.rsp,
    {
        &self.rsp
    }

    pub fn rsp_mut(&mut self) -> (r: &mut [Sp; 3])
        ensures
            *r == old(self)@.rsp,
            final(self)@ == (TssView { rsp: *final(r), ..old(self)@ }),
    {
        &mut self.rsp
    }

    pub fn ist(&self) -> (r: &[Sp; 7])
        ensures
            *r == self@.ist,
    {
        &self.ist
    }

    pub fn ist_mut(&mut self) -> (r: &mut [Sp; 7])
        ensures
            *r == old(self)@.ist,
            final(self)@ == (TssView { ist: *final(r), ..old(self)@ }),
    {
        &mut self.ist
    }

    pub fn io_map_base(&self) -> (r: u16)
        ensures
            r == self@.io_map_base,
    {
        self.io_map_base
    }

    pub fn set_io_map_base(&mut self, io_map_base: u16)
        ensures
            final(self)@ == (TssView { io_map_base: io_map_base, ..old(self)@ }),
    {
        self.io_map_base = io_map_base;
    }

    /// Sets the I/O map base immediately after the TSS.
    pub fn set_io_map_base_seq(&mut self)
        ensures
            final(self)@.io_map_base == tss_image(old(self)@).len(),
            final(self)@ == (TssView {
                io_map_base: TSS_SIZE,
                ..old(self)@
            }),
    {
        self.io_map_base = TSS_SIZE;
    }

    /// The processor's image of the segment, byte by byte.
    pub fn to_bytes(&self) -> (r: Vec<u8>)
        ensures
            r@ == tss_image(self@),
            r@.len() == TSS_SIZE,
    {
        let mut out: Vec<u8> = Vec::new();
        push_le32(&mut out, self.reserved1);
        push_le64(&mut out, self.rsp[0].address());
        push_le64(&mut out, self.rsp[1].address());
        push_le64(&mut out, self.rsp[2].address());
        push_le32(&mut out, self.reserved2);
        push_le32(&mut out, self.reserved3);
        push_le64(&mut out, self.ist[0].address());
        push_le64(&mut out, self.ist[1].address());
        push_le64(&mut out, self.ist[2].address());
        push_le64(&mut out, self.ist[3].address());
        push_le64(&mut out, self.ist[4].address());
        push_le64(&mut out, self.ist[5].address());
        push_le64(&mut out, self.ist[6].address());
        push_le32(&mut out, self.reserved4);
        push_le32(&mut out, self.reserved5);
        push_le16(&mut out, self.reserved6);
        push_le16(&mut out, self.io_map_base);
        assert(out@ =~= tss_image(self@));
        out
    }
}

/// A task-state segment followed by its I/O permission bitmap.
#[derive(Clone, Copy, Debug, PartialEq, Eq, Hash)]
pub struct TssIoBitmap<const N: usize> {
    tss: Tss,
    pub io_bitmap: IoBitmap<N>,
}

impl<const N: usize> View for TssIoBitmap<N> {
    type V = (TssView, IoBitmapView);

    closed spec fn view(&self) -> (TssView, IoBitmapView) {
        (self.tss@, self.io_bitmap@)
    }
}

impl<const N: usize> TssIoBitmap<N> {
    /// A task-state segment whose I/O map base points just past it, at an I/O
    /// bitmap with every port revoked; `N` must not exceed [`IoBitmap::MAX`].
    pub fn new() -> (r: Self)
        requires
            N <= 8192,
        ensures
            forall|i: int| 0 <= i < 3 ==> (#[trigger] r@.0.rsp@[i])@ == 0,
            forall|i: int| 0 <= i < 7 ==> (#[trigger] r@.0.ist@[i])@ == 0,
            r@.0.io_map_base == TSS_SIZE,
            r@.0.io_map_base == tss_image(r@.0).len(),
            r@.0.reserved == (0u32, 0u32, 0u32, 0u32, 0u32, 0u16),
            r@.1.bitmap.len() == N,
            forall|i: int| 0 <= i < N ==> #[trigger] r@.1.bitmap[i] == 0xFF,
            r@.1.extra == 0xFF,
    {
        let mut tss = Tss::new();
        tss.set_io_map_base_seq();
        TssIoBitmap { tss, io_bitmap: IoBitmap::new() }
    }

    pub fn rsp(&self) -> (r: &[Sp; 3])
        ensures
            *r == self@.0.rsp,
    {
        self.tss.rsp()
    }

    pub fn rsp_mut(&mut self) -> (r: &mut [Sp; 3])
        ensures
            *r == old(self)@.0.rsp,
            final(self)@ == (TssView { rsp: *final(r), ..old(self)@.0 }, old(self)@.1),
    {
        self.tss.rsp_mut()
    }

    pub fn ist(&self) -> (r: &[Sp; 7])
        ensures
            *r == self@.0.ist,
    {
        self.tss.ist()
    }

    pub fn ist_mut(&mut self) -> (r: &mut [Sp; 7])
        ensures
            *r == old(self)@.0.ist,
            final(self)@ == (TssView { ist: *final(r), ..old(self)@.0 }, old(self)@.1),
    {
        self.tss.ist_mut()
    }

    pub fn io_map_base(&self) -> (r: u16)
        ensures
            r == self@.0.io_map_base,
    {
        self.tss.io_map_base()
    }

    /// The bytes of the task-state segment followed by its I/O bitmap and the
    /// byte of all ones that ends it, in the processor's layout.
    pub fn to_bytes(&self) -> (r: Vec<u8>)
        ensures
            r@ == tss_image(self@.0) + self@.1.bitmap + seq![self@.1.extra],
    {
        let mut out = self.tss.to_bytes();
        let mut i: usize = 0;
        while i < N
            invariant
                0 <= i <= N,
                self.io_bitmap.bitmap@.len() == N,
                out@ == tss_image(self@.0) + self@.1.bitmap.subrange(0, i as int),
            decreases N - i,
        {
            out.push(self.io_bitmap.bitmap[i]);
            i = i + 1;
            assert(self@.1.bitmap.subrange(0, i as int) =~= self@.1.bitmap.subrange(0, i - 1)
                + seq![self@.1.bitmap[i - 1]]);
        }
        out.push(self.io_bitmap.extra);
        assert(self@.1.bitmap.subrange(0, N as int) =~= self@.1.bitmap);
        out
    }
}

/// A byte is determined by its eight bits.
proof fn lemma_byte_from_bits(x: u8, y: u8) by (bit_vector)
    requires
        bit_set(x, 0) == bit_set(y, 0),
        bit_set(x, 1) == bit_set(y, 1),
        bit_set(x, 2) == bit_set(y, 2),
        bit_set(x, 3) == bit_set(y, 3),
        bit_set(x, 4) == bit_set(y, 4),
        bit_set(x, 5) == bit_set(y, 5),
        bit_set(x, 6) == bit_set(y, 6),
        bit_set(x, 7) == bit_set(y, 7),
    ensures
        x == y,
{
}

/// Two bitmaps of the same length that agree on every port are equal.
pub proof fn lemma_bitmap_ext(a: Seq<u8>, b: Seq<u8>)
    requires
        a.len() == b.len(),
        forall|p: int| 0 <= p < a.len() * 8 ==> #[trigger] port_revoked(a, p) == port_revoked(b, p),
    ensures
        a == b,
{
    assert forall|k: int| 0 <= k < a.len() implies a[k] == b[k] by {
        assert(port_revoked(a, 8 * k + 0) == port_revoked(b, 8 * k + 0));
        assert(port_revoked(a, 8 * k + 1) == port_revoked(b, 8 * k + 1));
        assert(port_revoked(a, 8 * k + 2) == port_revoked(b, 8 * k + 2));
        assert(port_revoked(a, 8 * k + 3) == port_revoked(b, 8 * k + 3));
        assert(port_revoked(a, 8 * k + 4) == port_revoked(b, 8 * k + 4));
        assert(port_revoked(a, 8 * k + 5) == port_revoked(b, 8 * k + 5));
        assert(port_revoked(a, 8 * k + 6) == port_revoked(b, 8 * k + 6));
        assert(port_revoked(a, 8 * k + 7) == port_revoked(b, 8 * k + 7));
        lemma_byte_from_bits(a[k], b[k]);
    }
    assert(a =~= b);
}

/// After revoking a range, every port of it is revoked (`is_revoked` holds), and
/// the ports outside it are as they were.
pub proof fn lemma_revoke_then_is_revoked(before: Seq<u8>, after: Seq<u8>, start: int, len: int)
    requires
        revoked_range(before, after, start, len),
        0 <= start,
        start + len <= before.len() * 8,
    ensures
        forall|p: int| start <= p < start + len ==> #[trigger] port_revoked(after, p),
        forall|p: int|
            0 <= p < before.len() * 8 && !(start <= p < start + len) ==> #[trigger] port_revoked(
                after,
                p,
            ) == port_revoked(before, p),
{
}

/// After granting a range, every port of it is granted (`is_granted` holds), and
/// the ports outside it are as they were.
pub proof fn lemma_grant_then_is_granted(before: Seq<u8>, after: Seq<u8>, start: int, len: int)
    requires
        granted_range(before, after, start, len),
        0 <= start,
        start + len <= before.len() * 8,
    ensures
        forall|p: int| start <= p < start + len ==> !#[trigger] port_revoked(after, p),
        forall|p: int|
            0 <= p < before.len() * 8 && !(start <= p < start + len) ==> #[trigger] port_revoked(
                after,
                p,
            ) == port_revoked(before, p),
{
}

/// Toggling a range twice gives back the bitmap it started from.
pub proof fn lemma_toggle_twice(a: Seq<u8>, b: Seq<u8>, c: Seq<u8>, start: int, len: int)
    requires
        toggled_range(a, b, start, len),
        toggled_range(b, c, start, len),
    ensures
        c == a,
{
    lemma_bitmap_ext(c, a);
}

/// Revoking a range and then granting it leaves its ports granted whatever they
/// were; granting and then revoking leaves them revoked. Either way the rest of
/// the bitmap is as it was.
pub proof fn lemma_revoke_grant(a: Seq<u8>, b: Seq<u8>, c: Seq<u8>, start: int, len: int)
    requires
        revoked_range(a, b, start, len),
        granted_range(b, c, start, len),
    ensures
        granted_range(a, c, start, len),
{
}

/// In a bitmap whose bytes are all ones, every port is revoked: this is the
/// bitmap `IoBitmap::new` builds.
pub proof fn lemma_all_ones_revoked(bitmap: Seq<u8>)
    requires
        forall|i: int| 0 <= i < bitmap.len() ==> #[trigger] bitmap[i] == 0xFF,
    ensures
        forall|p: int| 0 <= p < bitmap.len() * 8 ==> #[trigger] port_revoked(bitmap, p),
{
    assert forall|p: int| 0 <= p < bitmap.len() * 8 implies #[trigger] port_revoked(bitmap, p) by {
        lemma_mask_bits(0, 0, (p % 8) as u8);
        assert(bitmap[p / 8] == 0xFF);
    }
}

} // verus!
