use vstd::prelude::*;

pub mod desc;

verus! {

/// The operand of `lgdt` and `sgdt`: the table's size in bytes minus one, and
/// its linear address.
pub struct Gdtr {
    size: u16,
    offset: u64,
}

impl Gdtr {
    /// The size field (bytes minus one).
    pub closed spec fn size_view(&self) -> u16 {
        self.size
    }

    /// The linear address field.
    pub closed spec fn offset_view(&self) -> u64 {
        self.offset
    }

    /// Constructs a Gdtr for a global descriptor table that lives at the
    /// linear address `offset`.
    pub fn new<const N: usize>(gdt: &Gdt<N>, offset: u64) -> (r: Self)
        ensures
            r.size_view() == N * 8 - 1,
            r.offset_view() == offset,
    {
        proof {
            use_type_invariant(gdt);
        }
        let size = (N * 8) - 1;
        Gdtr { size: size as u16, offset }
    }

    /// The operand with the given size field and linear address, as `sgdt`
    /// stores them.
    pub fn from_raw(size: u16, offset: u64) -> (r: Self)
        ensures
            r.size_view() == size,
            r.offset_view() == offset,
    {
        Gdtr { size, offset }
    }

    /// The size of the table in bytes, minus one.
    pub fn size(&self) -> (r: u16)
        ensures
            r == self.size_view(),
    {
        self.size
    }

    /// The linear address of the table.
    pub fn offset(&self) -> (r: u64)
        ensures
            r == self.offset_view(),
    {
        self.offset
    }
}

/// The contents of a global descriptor table: its `N` raw entries and how many
/// of them are in use, the reserved null entry included.
pub struct GdtView {
    pub entries: Seq<u64>,
    pub len: nat,
}

/// The table that `Gdt::new` builds and a series of eight-byte descriptors with
/// the given bits appended to it, one `append` at a time.
pub open spec fn appended(n: nat, bits: Seq<u64>) -> GdtView
    decreases bits.len(),
{
    if bits.len() == 0 {
        GdtView { entries: Seq::new(n, |i: int| 0u64), len: 1 }
    } else {
        let g = appended(n, bits.drop_last());
        GdtView { entries: g.entries.update(g.len as int, bits.last()), len: g.len + 1 }
    }
}

/// After appending `k` eight-byte descriptors to a new table of `n` entries
/// (`k < n`), the table counts `k + 1` entries: the null entry, the appended
/// bits in order, and zeros after them.
pub proof fn lemma_appended(n: nat, bits: Seq<u64>)
    requires
        bits.len() < n,
    ensures
        appended(n, bits).len == bits.len() + 1,
        appended(n, bits).entries == seq![0u64] + bits + Seq::new(
            (n - 1 - bits.len()) as nat,
            |i: int| 0u64,
        ),
    decreases bits.len(),
{
    if bits.len() == 0 {
        assert(appended(n, bits).entries =~= seq![0u64] + bits + Seq::new(
            (n - 1) as nat,
            |i: int| 0u64,
        ));
    } else {
        lemma_appended(n, bits.drop_last());
        assert(appended(n, bits).entries =~= seq![0u64] + bits + Seq::new(
            (n - 1 - bits.len()) as nat,
            |i: int| 0u64,
        ));
    }
}

/// A global descriptor table with room for `N` eight-byte entries.
pub struct Gdt<const N: usize> {
    entries: [u64; N],
    len: usize,
}

impl<const N: usize> View for Gdt<N> {
    type V = GdtView;

    closed spec fn view(&self) -> GdtView {
        GdtView { entries: self.entries@, len: self.len as nat }
    }
}

impl<const N: usize> Gdt<N> {
    /// Every table holds `N` entries, between 1 and 8192, and counts at least the
    /// reserved null entry and at most `N`.
    #[verifier::type_invariant]
    spec fn inv(self) -> bool {
        &&& 1 <= N <= 8192
        &&& 1 <= self.len <= N
    }

    /// The reserved first entry is null; every operation but
    /// `as_mut_slice_unchecked` keeps it so.
    pub open spec fn null_first(&self) -> bool {
        self@.entries[0] == 0
    }

    /// Constructs a zeroed global descriptor table; `N` must be between 1 and 8192.
    pub fn new() -> (r: Self)
        requires
            1 <= N <= 8192,
        ensures
            r@ == appended(N as nat, seq![]),
            r@.len == 1,
            r.null_first(),
            forall|i: int| 0 <= i < N ==> r@.entries[i] == 0,
    {
        let entries: [u64; N] = [0u64; N];
        assert(entries == vstd::array::spec_array_fill_for_copy_type::<u64, N>(0));
        let r = Gdt { entries, len: 1 };
        assert(r@.entries =~= Seq::new(N as nat, |i: int| 0u64));
        r
    }

    /// Returns the total capacity of the global descriptor table, including the reserved null entry.
    pub fn capacity(&self) -> (r: usize)
        ensures
            r == N,
            1 <= r <= 8192,
    {
        proof {
            use_type_invariant(self);
        }
        N
    }

    /// Returns the total entries in the global descriptor table, including the reserved null entry.
    pub fn len(&self) -> (r: usize)
        ensures
            r == self@.len,
            1 <= r <= N,
            self@.entries.len() == N,
    {
        proof {
            use_type_invariant(self);
        }
        self.len
    }

    /// The whole table, reserved null entry included, as the processor reads it.
    pub fn table(&self) -> (r: &[u64; N])
        ensures
            r@ == self@.entries,
    {
        &self.entries
    }

    /// Returns the raw entries, excluding the reserved null entry.
    ///
    /// #### Note: This also yields null (zeroed) entries beyond [`Gdt::len`].
    ///
    pub fn as_slice(&self) -> (r: &[u64])
        ensures
            r@ == self@.entries.subrange(1, N as int),
    {
        proof {
            use_type_invariant(self);
        }
        let all: &[u64] = &self.entries;
        let (_null, rest) = all.split_at(1);
        rest
    }

    /// Returns the raw mutable entries, excluding the reserved null entry.
    ///
    /// #### Note: This also yields null (zeroed) entries beyond [`Gdt::len`].
    ///
    pub fn as_mut_slice(&mut self) -> (r: &mut [u64])
        ensures
            r@ == old(self)@.entries.subrange(1, N as int),
            final(self)@ == (GdtView {
                entries: seq![old(self)@.entries[0]] + final(r)@,
                len: old(self)@.len,
            }),
            old(self).null_first() ==> final(self).null_first(),
    {
        proof {
            use_type_invariant(&*self);
        }
        let all: &mut [u64] = &mut self.entries;
        let (null, rest) = all.split_at_mut(1);
        assert(null@ == seq![old(self)@.entries[0]]);
        assert(final(null)@ == null@);
        rest
    }

    /// Returns the raw mutable entries, including the reserved null entry, which
    /// the caller must take care to keep null: a table loaded with a non-null
    /// first entry can raise a general-protection fault.
    ///
    /// #### Note: This also yields null (zeroed) entries beyond [`Gdt::len`].
    ///
    pub fn as_mut_slice_unchecked(&mut self) -> (r: &mut [u64])
        ensures
            r@ == old(self)@.entries,
            final(self)@ == (GdtView { entries: final(r)@, len: old(self)@.len }),
    {
        proof {
            use_type_invariant(&*self);
        }
        let all: &mut [u64] = &mut self.entries;
        all
    }

    /// Appends a descriptor to the table, which must have room for it.
    pub fn append(&mut self, desc: desc::Descriptor)
        requires
            match desc.encoding() {
                desc::Either::Left(_) => old(self)@.len + 1 <= N,
                desc::Either::Right(_) => old(self)@.len + 2 <= N,
            },
        ensures
            old(self).null_first() ==> final(self).null_first(),
            forall|bits: Seq<u64>|
                old(self)@ == #[trigger] appended(N as nat, bits) && desc.encoding() is Left
                    ==> final(self)@ == appended(N as nat, bits.push(desc.encoding()->Left_0)),
            final(self)@ == match desc.encoding() {
                desc::Either::Left(bits) => GdtView {
                    entries: old(self)@.entries.update(old(self)@.len as int, bits),
                    len: old(self)@.len + 1,
                },
                desc::Either::Right(bits) => GdtView {
                    entries: old(self)@.entries.update(old(self)@.len as int, bits as u64).update(
                        (old(self)@.len + 1) as int,
                        (bits >> 64) as u64,
                    ),
                    len: old(self)@.len + 2,
                },
            },
    {
        proof {
            use_type_invariant(&*self);
            assert forall|bits: Seq<u64>, b: u64| #[trigger] appended(N as nat, bits.push(b))
                == (GdtView {
                entries: appended(N as nat, bits).entries.update(
                    appended(N as nat, bits).len as int,
                    b,
                ),
                len: appended(N as nat, bits).len + 1,
            }) by {
                lemma_append_step(N as nat, bits, b);
            }
        }
        match desc.bits() {
            desc::Either::Left(bits) => {
                self.entries[self.len] = bits;
                self.len = self.len + 1;
            },
            desc::Either::Right(bits) => {
                self.entries[self.len] = bits as u64;
                self.entries[self.len + 1] = (bits >> 64) as u64;
                self.len = self.len + 2;
            },
        }
    }

    /// Returns an iterator over the entries, excluding the reserved null entry.
    pub fn iter(&self) -> (r: Iter<'_>)
        ensures
            r@ == (IterView { entries: self@.entries.subrange(0, self@.len as int), index: 1 }),
    {
        Iter::new(self)
    }
}

/// After a new table of `n` entries has had `k < n` eight-byte descriptors with
/// the bits `bits` appended, `as_slice` (the entries after the null one) is
/// `bits` followed by `n - 1 - k` zeros, and `len` is `k + 1`.
pub proof fn lemma_as_slice_after_appends(n: nat, bits: Seq<u64>)
    requires
        bits.len() < n,
    ensures
        appended(n, bits).entries.subrange(1, n as int) == bits + Seq::new(
            (n - 1 - bits.len()) as nat,
            |i: int| 0u64,
        ),
        appended(n, bits).len == bits.len() + 1,
{
    lemma_appended(n, bits);
    assert(appended(n, bits).entries.subrange(1, n as int) =~= bits + Seq::new(
        (n - 1 - bits.len()) as nat,
        |i: int| 0u64,
    ));
}

/// Appending the bits of an eight-byte descriptor takes `appended(n, bits)` to
/// `appended(n, bits.push(b))`: the step that `append` makes.
pub proof fn lemma_append_step(n: nat, bits: Seq<u64>, b: u64)
    ensures
        appended(n, bits.push(b)) == (GdtView {
            entries: appended(n, bits).entries.update(appended(n, bits).len as int, b),
            len: appended(n, bits).len + 1,
        }),
{
    assert(bits.push(b).drop_last() =~= bits);
}

/// A position in the used entries of a global descriptor table.
pub struct IterView {
    pub entries: Seq<u64>,
    pub index: nat,
}

/// A cursor over the entries of a global descriptor table in use, starting
/// after the reserved null entry. It yields the raw entries; decoding them
/// into descriptors is left to the caller.
pub struct Iter<'a> {
    entries: &'a [u64],
    index: usize,
}

impl<'a> View for Iter<'a> {
    type V = IterView;

    closed spec fn view(&self) -> IterView {
        IterView { entries: self.entries@, index: self.index as nat }
    }
}

impl<'a> Iter<'a> {
    pub fn new<const N: usize>(gdt: &'a Gdt<N>) -> (r: Self)
        ensures
            r@ == (IterView { entries: gdt@.entries.subrange(0, gdt@.len as int), index: 1 }),
    {
        proof {
            use_type_invariant(gdt);
        }
        let all: &[u64] = &gdt.entries;
        let (used, _rest) = all.split_at(gdt.len);
        Iter { entries: used, index: 1 }
    }

    /// The raw entry at the cursor, moving the cursor past it; `None` once every
    /// entry in use has been yielded.
    pub fn next_raw(&mut self) -> (r: Option<u64>)
        ensures
            old(self)@.index < old(self)@.entries.len() ==> r == Some(
                old(self)@.entries[old(self)@.index as int],
            ) && final(self)@ == (IterView { index: old(self)@.index + 1, ..old(self)@ }),
            old(self)@.index >= old(self)@.entries.len() ==> r is None && final(self)@ == old(
                self,
            )@,
    {
        if self.index < self.entries.len() {
            let e = self.entries[self.index];
            self.index = self.index + 1;
            Some(e)
        } else {
            None
        }
    }
}

} // verus!
