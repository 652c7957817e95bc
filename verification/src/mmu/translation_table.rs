//! Translation tables of 512 entries, one type for each level.
//!
//! The level of a table is part of its type, and each level offers only the
//! entries that may live there: a table entry cannot be written into a
//! level 3 table, nor a page entry into a table of the levels 0 to 2.
use crate::bits::{bit, field, get_field, set_bit, set_field, with_bit, with_field};
use crate::mmu::{
    BlockAttrs, Level0, Level1, Level2, Level3, PageAttrs, TableAttrs, TranslationLevel,
};
use core::marker::PhantomData;
use vstd::prelude::*;

verus! {

/// What an entry of a translation table is.
#[derive(Debug, Clone, Copy, PartialEq, Eq, Structural)]
pub enum EntryKind {
    /// The entry maps nothing.
    Invalid,
    /// The entry points to the table of the next level.
    Table,
    /// The entry maps a block of memory.
    Block,
    /// The entry maps one page of 4 KiB.
    Page,
}

/// The kind that the two low bits of `raw` give an entry at `level`. On the
/// levels 0 to 2 an entry with bit 0 set is a table where bit 1 is set and a
/// block where it is clear. On level 3 an entry with both bits set is a
/// page. Every other entry is invalid.
pub open spec fn kind_of(raw: u64, level: int) -> EntryKind {
    if level < 3 {
        if raw & 0x3 == 0x3 {
            EntryKind::Table
        } else if raw & 0x3 == 0x1 {
            EntryKind::Block
        } else {
            EntryKind::Invalid
        }
    } else {
        if raw & 0x3 == 0x3 {
            EntryKind::Page
        } else {
            EntryKind::Invalid
        }
    }
}

/// Whether a table of `level` may hold an entry of `kind`.
pub open spec fn permitted(kind: EntryKind, level: int) -> bool {
    match kind {
        EntryKind::Invalid => true,
        EntryKind::Table => level < 3,
        EntryKind::Block => level < 3,
        EntryKind::Page => level >= 3,
    }
}

/// Whatever the bits of an entry, its kind is one that its level permits.
pub proof fn lemma_kind_permitted(raw: u64, level: int)
    ensures
        permitted(kind_of(raw, level), level),
{
}

/// The index of the entry for `vaddr` in a table of `level`: nine bits of
/// the address, bits 39 to 47 at level 0, then nine bits less for each
/// level.
pub open spec fn index_of(vaddr: u64, level: int) -> u64 {
    field(vaddr, (39 - 9 * level) as u32, 0x1ff)
}

/// The attribute bits of a block or page entry written into `base`: the
/// access flag set, then shareability, access permission, the non-secure
/// bit and the attribute index.
pub open spec fn leaf_bits(base: u64, sh: u64, ap: u64, ns: bool, attr_idx: u64) -> u64 {
    with_field(
        with_bit(with_field(with_field(with_bit(base, 10, true), 8, 0x3, sh), 6, 0x3, ap), 5, ns),
        2,
        0x7,
        attr_idx,
    )
}

/// The entry that points to the next-level table at `paddr`: the tag of a
/// table, bits 12 to 47 of the address, and the non-secure bit.
pub open spec fn table_entry(paddr: u64, attrs: TableAttrs) -> u64 {
    with_bit(
        with_field(0x3, 12, 0xf_ffff_ffff, field(paddr, 12, 0xf_ffff_ffff)),
        63,
        attrs.security.non_secure(),
    )
}

/// The entry that maps the block at `paddr`. A block of level 1 keeps the
/// bits 30 to 47 of the address (`shift` 30), a block of level 2 the bits 21
/// to 47 (`shift` 21).
pub open spec fn block_entry(shift: u32, mask: u64, paddr: u64, attrs: BlockAttrs) -> u64 {
    leaf_bits(
        with_field(0x1, shift, mask, field(paddr, shift, mask)),
        attrs.shareability.code(),
        attrs.access.code(),
        attrs.security.non_secure(),
        attrs.mem_typ.index(),
    )
}

/// The entry that maps the page at `paddr`: the tag of a page, bits 12 to
/// 47 of the address, and the attributes.
pub open spec fn page_entry(paddr: u64, attrs: PageAttrs) -> u64 {
    leaf_bits(
        with_field(0x3, 12, 0xf_ffff_ffff, field(paddr, 12, 0xf_ffff_ffff)),
        attrs.shareability.code(),
        attrs.access.code(),
        attrs.security.non_secure(),
        attrs.mem_typ.index(),
    )
}

/// A table entry carries the tag of a table, whatever the address and the
/// attributes, and holds the address bits 12 to 47.
pub proof fn lemma_table_entry(paddr: u64, ns: bool)
    by (bit_vector)
    ensures
        with_bit(with_field(0x3, 12, 0xf_ffff_ffff, field(paddr, 12, 0xf_ffff_ffff)), 63, ns) & 0x3
            == 0x3,
        field(
            with_bit(with_field(0x3, 12, 0xf_ffff_ffff, field(paddr, 12, 0xf_ffff_ffff)), 63, ns),
            12,
            0xf_ffff_ffff,
        ) == field(paddr, 12, 0xf_ffff_ffff),
        bit(
            with_bit(with_field(0x3, 12, 0xf_ffff_ffff, field(paddr, 12, 0xf_ffff_ffff)), 63, ns),
            63,
        ) == ns,
{
}

/// The attribute bits change neither the tag in the two low bits nor any
/// bit from bit 11 up, and the access flag is set.
pub proof fn lemma_leaf_bits(base: u64, sh: u64, ap: u64, ns: bool, attr_idx: u64)
    by (bit_vector)
    ensures
        leaf_bits(base, sh, ap, ns, attr_idx) & 0x3 == base & 0x3,
        leaf_bits(base, sh, ap, ns, attr_idx) >> 11 == base >> 11,
        bit(leaf_bits(base, sh, ap, ns, attr_idx), 10),
        field(leaf_bits(base, sh, ap, ns, attr_idx), 8, 0x3) == sh & 0x3,
        field(leaf_bits(base, sh, ap, ns, attr_idx), 6, 0x3) == ap & 0x3,
        bit(leaf_bits(base, sh, ap, ns, attr_idx), 5) == ns,
        field(leaf_bits(base, sh, ap, ns, attr_idx), 2, 0x7) == attr_idx & 0x7,
{
}

/// An address field that starts at bit 12 or above leaves the tag as it
/// was.
pub proof fn lemma_address_keeps_tag(tag: u64, shift: u32, mask: u64, addr: u64)
    by (bit_vector)
    requires
        2 <= shift < 64,
    ensures
        with_field(tag, shift, mask, addr) & 0x3 == tag & 0x3,
{
}

/// Constructed entries decode to the kind they were constructed as: a table
/// entry is a table on the levels 0 to 2, a block entry is a block on the
/// levels 0 to 2, and a page entry is a page on level 3. This holds for
/// every address and every choice of attributes.
pub proof fn lemma_entry_kinds(
    paddr: u64,
    table: TableAttrs,
    block: BlockAttrs,
    page: PageAttrs,
    level: int,
)
    ensures
        level < 3 ==> kind_of(table_entry(paddr, table), level) == EntryKind::Table,
        level < 3 ==> kind_of(block_entry(30, 0x3_ffff, paddr, block), level) == EntryKind::Block,
        level < 3 ==> kind_of(block_entry(21, 0x7ff_ffff, paddr, block), level)
            == EntryKind::Block,
        level >= 3 ==> kind_of(page_entry(paddr, page), level) == EntryKind::Page,
{
    lemma_table_entry(paddr, table.security.non_secure());
    lemma_block_tag(30, 0x3_ffff, paddr, block);
    lemma_block_tag(21, 0x7ff_ffff, paddr, block);
    lemma_page_tag(paddr, page);
}

/// A block entry carries the tag of a block.
pub proof fn lemma_block_tag(shift: u32, mask: u64, paddr: u64, attrs: BlockAttrs)
    requires
        2 <= shift < 64,
    ensures
        block_entry(shift, mask, paddr, attrs) & 0x3 == 0x1,
{
    let base = with_field(0x1, shift, mask, field(paddr, shift, mask));
    lemma_address_keeps_tag(0x1, shift, mask, field(paddr, shift, mask));
    lemma_leaf_bits(
        base,
        attrs.shareability.code(),
        attrs.access.code(),
        attrs.security.non_secure(),
        attrs.mem_typ.index(),
    );
    assert(0x1u64 & 0x3 == 0x1) by (bit_vector);
}

/// A page entry carries the tag of a page.
pub proof fn lemma_page_tag(paddr: u64, attrs: PageAttrs)
    ensures
        page_entry(paddr, attrs) & 0x3 == 0x3,
{
    let base = with_field(0x3, 12, 0xf_ffff_ffff, field(paddr, 12, 0xf_ffff_ffff));
    lemma_address_keeps_tag(0x3, 12, 0xf_ffff_ffff, field(paddr, 12, 0xf_ffff_ffff));
    lemma_leaf_bits(
        base,
        attrs.shareability.code(),
        attrs.access.code(),
        attrs.security.non_secure(),
        attrs.mem_typ.index(),
    );
    assert(0x3u64 & 0x3 == 0x3) by (bit_vector);
}

/// One entry of a table of level `L`.
pub struct TranslationTableEntry<L> {
    pub raw: u64,
    pub level: PhantomData<L>,
}

impl<L: TranslationLevel> TranslationTableEntry<L> {
    /// The entry that maps nothing.
    pub fn INVALID() -> (entry: Self)
        ensures
            entry.raw == 0,
            kind_of(entry.raw, L::NUM as int) == EntryKind::Invalid,
    {
        assert(0u64 & 0x3 == 0) by (bit_vector);
        TranslationTableEntry { raw: 0, level: PhantomData }
    }

    /// The entry with the bits `raw`.
    pub fn from_raw(raw: u64) -> (entry: Self)
        ensures
            entry.raw == raw,
    {
        TranslationTableEntry { raw, level: PhantomData }
    }

    /// Decodes the kind of the entry from its two low bits.
    pub fn kind(&self) -> (kind: EntryKind)
        ensures
            kind == kind_of(self.raw, L::NUM as int),
            permitted(kind, L::NUM as int),
    {
        let tag = self.raw & 0x3;
        if L::NUM < 3 {
            if tag == 0x3 {
                EntryKind::Table
            } else if tag == 0x1 {
                EntryKind::Block
            } else {
                EntryKind::Invalid
            }
        } else {
            if tag == 0x3 {
                EntryKind::Page
            } else {
                EntryKind::Invalid
            }
        }
    }

    /// Whether the entry maps nothing.
    pub fn is_invalid(&self) -> (r: bool)
        ensures
            r == (kind_of(self.raw, L::NUM as int) == EntryKind::Invalid),
    {
        matches!(self.kind(), EntryKind::Invalid)
    }

    /// Whether the entry points to a table.
    pub fn is_table(&self) -> (r: bool)
        ensures
            r == (kind_of(self.raw, L::NUM as int) == EntryKind::Table),
    {
        matches!(self.kind(), EntryKind::Table)
    }

    /// Whether the entry maps a block.
    pub fn is_block(&self) -> (r: bool)
        ensures
            r == (kind_of(self.raw, L::NUM as int) == EntryKind::Block),
    {
        matches!(self.kind(), EntryKind::Block)
    }

    /// Whether the entry maps a page.
    pub fn is_page(&self) -> (r: bool)
        ensures
            r == (kind_of(self.raw, L::NUM as int) == EntryKind::Page),
    {
        matches!(self.kind(), EntryKind::Page)
    }
}

/// Builds [`table_entry`].
fn make_table(paddr: u64, attrs: TableAttrs) -> (raw: u64)
    ensures
        raw == table_entry(paddr, attrs),
        raw & 0x3 == 0x3,
{
    proof {
        lemma_table_entry(paddr, attrs.security.non_secure());
    }
    let addr = get_field(paddr, 12, 0xf_ffff_ffff);
    let ns = attrs.security.is_non_secure();
    set_bit(set_field(0x3, 12, 0xf_ffff_ffff, addr), 63, ns)
}

/// Builds [`leaf_bits`].
fn make_leaf(base: u64, sh: u64, ap: u64, ns: bool, attr_idx: u64) -> (raw: u64)
    ensures
        raw == leaf_bits(base, sh, ap, ns, attr_idx),
{
    set_field(
        set_bit(set_field(set_field(set_bit(base, 10, true), 8, 0x3, sh), 6, 0x3, ap), 5, ns),
        2,
        0x7,
        attr_idx,
    )
}

/// Builds [`block_entry`].
fn make_block(shift: u32, mask: u64, paddr: u64, attrs: BlockAttrs) -> (raw: u64)
    requires
        2 <= shift < 64,
    ensures
        raw == block_entry(shift, mask, paddr, attrs),
        raw & 0x3 == 0x1,
        bit(raw, 10),
{
    proof {
        lemma_block_tag(shift, mask, paddr, attrs);
        lemma_leaf_bits(
            with_field(0x1, shift, mask, field(paddr, shift, mask)),
            attrs.shareability.code(),
            attrs.access.code(),
            attrs.security.non_secure(),
            attrs.mem_typ.index(),
        );
    }
    let addr = get_field(paddr, shift, mask);
    make_leaf(
        set_field(0x1, shift, mask, addr),
        attrs.shareability.encoding(),
        attrs.access.encoding(),
        attrs.security.is_non_secure(),
        attrs.mem_typ.attr_index(),
    )
}

/// Builds [`page_entry`].
fn make_page(paddr: u64, attrs: PageAttrs) -> (raw: u64)
    ensures
        raw == page_entry(paddr, attrs),
        raw & 0x3 == 0x3,
        bit(raw, 10),
{
    proof {
        lemma_page_tag(paddr, attrs);
        lemma_leaf_bits(
            with_field(0x3, 12, 0xf_ffff_ffff, field(paddr, 12, 0xf_ffff_ffff)),
            attrs.shareability.code(),
            attrs.access.code(),
            attrs.security.non_secure(),
            attrs.mem_typ.index(),
        );
    }
    let addr = get_field(paddr, 12, 0xf_ffff_ffff);
    make_leaf(
        set_field(0x3, 12, 0xf_ffff_ffff, addr),
        attrs.shareability.encoding(),
        attrs.access.encoding(),
        attrs.security.is_non_secure(),
        attrs.mem_typ.attr_index(),
    )
}

impl TranslationTableEntry<Level0> {
    /// The entry that points to the level 1 table at `paddr`.
    pub fn table(paddr: u64, attrs: TableAttrs) -> (entry: Self)
        ensures
            entry.raw == table_entry(paddr, attrs),
            kind_of(entry.raw, 0) == EntryKind::Table,
    {
        TranslationTableEntry { raw: make_table(paddr, attrs), level: PhantomData }
    }
}

impl TranslationTableEntry<Level1> {
    /// The entry that points to the level 2 table at `paddr`.
    pub fn table(paddr: u64, attrs: TableAttrs) -> (entry: Self)
        ensures
            entry.raw == table_entry(paddr, attrs),
            kind_of(entry.raw, 1) == EntryKind::Table,
    {
        TranslationTableEntry { raw: make_table(paddr, attrs), level: PhantomData }
    }

    /// The entry that maps the block of 1 GiB at `paddr`.
    pub fn block(paddr: u64, attrs: BlockAttrs) -> (entry: Self)
        ensures
            entry.raw == block_entry(30, 0x3_ffff, paddr, attrs),
            kind_of(entry.raw, 1) == EntryKind::Block,
            bit(entry.raw, 10),
    {
        TranslationTableEntry { raw: make_block(30, 0x3_ffff, paddr, attrs), level: PhantomData }
    }
}

impl TranslationTableEntry<Level2> {
    /// The entry that points to the level 3 table at `paddr`.
    pub fn table(paddr: u64, attrs: TableAttrs) -> (entry: Self)
        ensures
            entry.raw == table_entry(paddr, attrs),
            kind_of(entry.raw, 2) == EntryKind::Table,
    {
        TranslationTableEntry { raw: make_table(paddr, attrs), level: PhantomData }
    }

    /// The entry that maps the block of 2 MiB at `paddr`.
    pub fn block(paddr: u64, attrs: BlockAttrs) -> (entry: Self)
        ensures
            entry.raw == block_entry(21, 0x7ff_ffff, paddr, attrs),
            kind_of(entry.raw, 2) == EntryKind::Block,
            bit(entry.raw, 10),
    {
        TranslationTableEntry { raw: make_block(21, 0x7ff_ffff, paddr, attrs), level: PhantomData }
    }
}

impl TranslationTableEntry<Level3> {
    /// The entry that maps the page at `paddr`.
    pub fn page(paddr: u64, attrs: PageAttrs) -> (entry: Self)
        ensures
            entry.raw == page_entry(paddr, attrs),
            kind_of(entry.raw, 3) == EntryKind::Page,
            bit(entry.raw, 10),
    {
        TranslationTableEntry { raw: make_page(paddr, attrs), level: PhantomData }
    }
}

/// A translation table of level `L`: 512 entries.
pub struct TranslationTable<L: TranslationLevel> {
    entries: [u64; 512],
    level: PhantomData<L>,
}

impl<L: TranslationLevel> View for TranslationTable<L> {
    type V = Seq<u64>;

    closed spec fn view(&self) -> Seq<u64> {
        self.entries@
    }
}

impl<L: TranslationLevel> TranslationTable<L> {
    /// The table in which every entry is invalid.
    pub fn DEFAULT() -> (table: Self)
        ensures
            table@ == Seq::new(512, |i: int| 0u64),
    {
        let table = TranslationTable { entries: [0u64;512], level: PhantomData };
        assert(table@ =~= Seq::new(512, |i: int| 0u64));
        table
    }

    /// The table has 512 entries.
    pub proof fn lemma_len(&self)
        ensures
            self@.len() == 512,
    {
    }

    /// The bits of the entry at `index`.
    pub fn entry(&self, index: usize) -> (entry: TranslationTableEntry<L>)
        requires
            index < 512,
        ensures
            entry.raw == self@[index as int],
    {
        TranslationTableEntry { raw: self.entries[index], level: PhantomData }
    }

    /// The entries as they lie in memory.
    pub fn entries(&self) -> (entries: &[u64; 512])
        ensures
            entries@ == self@,
    {
        &self.entries
    }

    /// Puts `raw` at the index of `vaddr` for a table whose index starts at
    /// bit `shift` of the address.
    fn put(&mut self, vaddr: u64, shift: u32, raw: u64)
        requires
            shift < 64,
        ensures
            field(vaddr, shift, 0x1ff) < 512,
            final(self)@ == old(self)@.update(field(vaddr, shift, 0x1ff) as int, raw),
    {
        let index = get_field(vaddr, shift, 0x1ff) as usize;
        self.entries[index] = raw;
    }
}

impl TranslationTable<Level0> {
    /// Makes the entry for `vaddr` invalid.
    pub fn unmap(&mut self, vaddr: u64)
        ensures
            final(self)@ == old(self)@.update(index_of(vaddr, 0) as int, 0),
    {
        self.put(vaddr, 39, 0);
    }

    /// Lets the entry for `vaddr` point to the level 1 table at
    /// `table_paddr`.
    pub fn map_table(&mut self, vaddr: u64, table_paddr: u64, attrs: TableAttrs)
        ensures
            final(self)@ == old(self)@.update(
                index_of(vaddr, 0) as int,
                table_entry(table_paddr, attrs),
            ),
            kind_of(final(self)@[index_of(vaddr, 0) as int], 0) == EntryKind::Table,
    {
        let entry = TranslationTableEntry::<Level0>::table(table_paddr, attrs);
        self.put(vaddr, 39, entry.raw);
    }
}

impl TranslationTable<Level1> {
    /// Makes the entry for `vaddr` invalid.
    pub fn unmap(&mut self, vaddr: u64)
        ensures
            final(self)@ == old(self)@.update(index_of(vaddr, 1) as int, 0),
    {
        self.put(vaddr, 30, 0);
    }

    /// Lets the entry for `vaddr` point to the level 2 table at
    /// `table_paddr`.
    pub fn map_table(&mut self, vaddr: u64, table_paddr: u64, attrs: TableAttrs)
        ensures
            final(self)@ == old(self)@.update(
                index_of(vaddr, 1) as int,
                table_entry(table_paddr, attrs),
            ),
            kind_of(final(self)@[index_of(vaddr, 1) as int], 1) == EntryKind::Table,
    {
        let entry = TranslationTableEntry::<Level1>::table(table_paddr, attrs);
        self.put(vaddr, 30, entry.raw);
    }

    /// Lets the entry for `vaddr` map the block of 1 GiB at `paddr`.
    pub fn map_block(&mut self, vaddr: u64, paddr: u64, attrs: BlockAttrs)
        ensures
            final(self)@ == old(self)@.update(
                index_of(vaddr, 1) as int,
                block_entry(30, 0x3_ffff, paddr, attrs),
            ),
            kind_of(final(self)@[index_of(vaddr, 1) as int], 1) == EntryKind::Block,
    {
        let entry = TranslationTableEntry::<Level1>::block(paddr, attrs);
        self.put(vaddr, 30, entry.raw);
    }
}

impl TranslationTable<Level2> {
    /// Makes the entry for `vaddr` invalid.
    pub fn unmap(&mut self, vaddr: u64)
        ensures
            final(self)@ == old(self)@.update(index_of(vaddr, 2) as int, 0),
    {
        self.put(vaddr, 21, 0);
    }

    /// Lets the entry for `vaddr` point to the level 3 table at
    /// `table_paddr`.
    pub fn map_table(&mut self, vaddr: u64, table_paddr: u64, attrs: TableAttrs)
        ensures
            final(self)@ == old(self)@.update(
                index_of(vaddr, 2) as int,
                table_entry(table_paddr, attrs),
            ),
            kind_of(final(self)@[index_of(vaddr, 2) as int], 2) == EntryKind::Table,
    {
        let entry = TranslationTableEntry::<Level2>::table(table_paddr, attrs);
        self.put(vaddr, 21, entry.raw);
    }

    /// Lets the entry for `vaddr` map the block of 2 MiB at `paddr`.
    pub fn map_block(&mut self, vaddr: u64, paddr: u64, attrs: BlockAttrs)
        ensures
            final(self)@ == old(self)@.update(
                index_of(vaddr, 2) as int,
                block_entry(21, 0x7ff_ffff, paddr, attrs),
            ),
            kind_of(final(self)@[index_of(vaddr, 2) as int], 2) == EntryKind::Block,
    {
        let entry = TranslationTableEntry::<Level2>::block(paddr, attrs);
        self.put(vaddr, 21, entry.raw);
    }
}

impl TranslationTable<Level3> {
    /// Makes the entry for `vaddr` invalid.
    pub fn unmap(&mut self, vaddr: u64)
        ensures
            final(self)@ == old(self)@.update(index_of(vaddr, 3) as int, 0),
    {
        self.put(vaddr, 12, 0);
    }

    /// Lets the entry for `vaddr` map the page at `paddr`.
    pub fn map_page(&mut self, vaddr: u64, paddr: u64, attrs: PageAttrs)
        ensures
            final(self)@ == old(self)@.update(
                index_of(vaddr, 3) as int,
                page_entry(paddr, attrs),
            ),
            kind_of(final(self)@[index_of(vaddr, 3) as int], 3) == EntryKind::Page,
    {
        let entry = TranslationTableEntry::<Level3>::page(paddr, attrs);
        self.put(vaddr, 12, entry.raw);
    }
}

} // verus!
