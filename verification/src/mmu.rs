//! The memory management unit: translation tables and the registers that
//! switch address translation on and off.
use crate::bits::{bit, field, normalized, with_bit, with_field};
use crate::instr::Instr;
use crate::regs::{Cpu, CpuView, SysReg};
use crate::sys_regs::{
    ID_AA64MMFR0_EL1, MAIR_EL1, MAIR_EL2, MAIR_EL3, SCTLR_EL1, SCTLR_EL2, SCTLR_EL3, TCR_EL1,
    TCR_EL2, TCR_EL3, TTBR0_EL1, TTBR0_EL2, TTBR0_EL3,
};
use vstd::prelude::*;

pub mod translation_table;

pub use translation_table::{EntryKind, TranslationTable, TranslationTableEntry};

verus! {

/// The memory management unit of the core.
pub struct MMU;

/// Size offset of the translated region: the tables cover 48 bits of
/// address, from address 0 up.
pub const T0SZ_48_BITS: u8 = 0x10;

/// Granule size field for granules of 4 KiB.
pub const TG0_4K: u8 = 0x00;

/// Attribute encoding at index 0: device memory, not cacheable.
pub const MAIR_DEVICE: u8 = 0x00;

/// Attribute encoding at index 1: normal memory, not cacheable.
pub const MAIR_NORMAL_NON_CACHEABLE: u8 = 0x44;

/// Attribute encoding at index 2: normal memory, write-through cacheable in
/// both domains, allocating on reads and on writes.
pub const MAIR_NORMAL_WRITE_THROUGH: u8 = 0xbb;

/// Attribute encoding at index 3: normal memory, write-back cacheable in
/// both domains, allocating on reads and on writes.
pub const MAIR_NORMAL_CACHEABLE: u8 = 0xff;

/// Bit of the system control registers that enables address translation.
pub const SCTLR_M: u32 = 0;

/// The system control register of exception level `el`.
pub open spec fn sctlr_of(el: u8) -> SysReg {
    if el == 3 {
        SysReg::SCTLR_EL3
    } else if el == 2 {
        SysReg::SCTLR_EL2
    } else {
        SysReg::SCTLR_EL1
    }
}

/// The translation control register of exception level `el`.
pub open spec fn tcr_of(el: u8) -> SysReg {
    if el == 3 {
        SysReg::TCR_EL3
    } else if el == 2 {
        SysReg::TCR_EL2
    } else {
        SysReg::TCR_EL1
    }
}

/// The memory attribute indirection register of exception level `el`.
pub open spec fn mair_of(el: u8) -> SysReg {
    if el == 3 {
        SysReg::MAIR_EL3
    } else if el == 2 {
        SysReg::MAIR_EL2
    } else {
        SysReg::MAIR_EL1
    }
}

/// The translation table base register of exception level `el`.
pub open spec fn ttbr0_of(el: u8) -> SysReg {
    if el == 3 {
        SysReg::TTBR0_EL3
    } else if el == 2 {
        SysReg::TTBR0_EL2
    } else {
        SysReg::TTBR0_EL1
    }
}

/// The state after the translations of exception level `el` were
/// invalidated on all cores of the inner shareable domain.
pub open spec fn tlb_invalidated(cpu: CpuView, el: u8) -> CpuView {
    cpu.issue(Instr::TlbiAll { el }).issue(Instr::Isb)
}

/// The state after translation was switched off at exception level `el`:
/// the enable bit cleared, then an instruction barrier. The tables stay.
pub open spec fn disabled(cpu: CpuView, el: u8) -> CpuView {
    cpu.written(sctlr_of(el), with_bit(cpu.read(sctlr_of(el)), SCTLR_M, false)).issue(Instr::Isb)
}

/// The value of the translation control register: 48 bits of address,
/// granules of 4 KiB, and the physical address size `parange` that the
/// core reports.
/// At EL1 the size field lies at bit 32, at EL2 and EL3 at bit 16.
pub open spec fn tcr_value(el: u8, parange: u64) -> u64 {
    with_field(
        with_field(with_field(tcr_of(el).res1(), 0, 0x3f, 0x10), 14, 0x3, 0),
        if el == 1 {
            32
        } else {
            16
        },
        0x7,
        parange,
    )
}

/// The value of the memory attribute indirection register: the four
/// attribute encodings at the indices 0 to 3.
pub open spec fn mair_value() -> u64 {
    with_field(with_field(with_field(with_field(0, 0, 0xff, 0x00), 8, 0xff, 0x44), 16, 0xff, 0xbb),
        24,
        0xff,
        0xff,
    )
}

/// The value of the translation table base register for the table at
/// `table_paddr`: bits 1 to 47 of the address in the base address field.
pub open spec fn ttbr0_value(table_paddr: u64) -> u64 {
    with_field(0, 1, 0x7fff_ffff_ffff, field(table_paddr, 1, 0x7fff_ffff_ffff))
}

/// The state after translation was switched on at exception level `el`
/// with the table at `table_paddr`: the translations invalidated, the
/// translation control, the memory attributes and the table base
/// programmed, the enable bit set, an instruction barrier.
pub open spec fn enabled(cpu: CpuView, el: u8, table_paddr: u64) -> CpuView {
    let parange = field(cpu.read(SysReg::ID_AA64MMFR0_EL1), 0, 0xf);
    let programmed = tlb_invalidated(cpu, el).written(tcr_of(el), tcr_value(el, parange)).written(
        mair_of(el),
        mair_value(),
    ).written(ttbr0_of(el), ttbr0_value(table_paddr));
    programmed.written(
        sctlr_of(el),
        with_bit(programmed.read(sctlr_of(el)), SCTLR_M, true),
    ).issue(Instr::Isb)
}

/// After translation was switched on at an exception level, the enable bit
/// is set in the system control register of that level, and the registers
/// of that level hold the values that were programmed.
pub proof fn lemma_enabled(cpu: CpuView, el: u8, table_paddr: u64)
    requires
        cpu.wf(),
        1 <= el <= 3,
    ensures
        bit(enabled(cpu, el, table_paddr).raw(sctlr_of(el)), SCTLR_M),
        enabled(cpu, el, table_paddr).raw(mair_of(el)) == mair_value(),
        enabled(cpu, el, table_paddr).raw(ttbr0_of(el)) == ttbr0_value(table_paddr),
        enabled(cpu, el, table_paddr).issued.last() == Instr::Isb,
        enabled(cpu, el, table_paddr).issued[cpu.issued.len() as int] == (Instr::TlbiAll { el }),
{
    crate::regs::lemma_control_bit_survives(
        cpu.raw(sctlr_of(el)),
        sctlr_of(el).res1(),
        SCTLR_M,
        true,
    );
    assert(normalized(mair_value(), 0, 0) == mair_value()) by (bit_vector);
    let base = ttbr0_value(table_paddr);
    assert(normalized(base, 0, 0) == base) by (bit_vector);
}

/// After translation was switched off at an exception level, the enable
/// bit is clear in the system control register of that level.
pub proof fn lemma_disabled(cpu: CpuView, el: u8)
    requires
        cpu.wf(),
        1 <= el <= 3,
    ensures
        !bit(disabled(cpu, el).raw(sctlr_of(el)), SCTLR_M),
        disabled(cpu, el).issued.last() == Instr::Isb,
{
    crate::regs::lemma_control_bit_survives(
        cpu.raw(sctlr_of(el)),
        sctlr_of(el).res1(),
        SCTLR_M,
        false,
    );
}

impl MMU {
    /// Switches address translation off at EL3.
    pub fn disable_el3(cpu: &mut Cpu)
        ensures
            final(cpu)@ == disabled(old(cpu)@, 3),
    {
        let sctlr_el3 = SCTLR_EL3::read(cpu);
        SCTLR_EL3::write(cpu, sctlr_el3.with_M(false));

        cpu.isb();
    }

    /// Switches address translation off at EL2.
    pub fn disable_el2(cpu: &mut Cpu)
        ensures
            final(cpu)@ == disabled(old(cpu)@, 2),
    {
        let sctlr_el2 = SCTLR_EL2::read(cpu);
        SCTLR_EL2::write(cpu, sctlr_el2.with_M(false));

        cpu.isb();
    }

    /// Switches address translation off at EL1.
    pub fn disable_el1(cpu: &mut Cpu)
        ensures
            final(cpu)@ == disabled(old(cpu)@, 1),
    {
        let sctlr_el1 = SCTLR_EL1::read(cpu);
        SCTLR_EL1::write(cpu, sctlr_el1.with_M(false));

        cpu.isb();
    }

    /// Switches address translation on at EL3, with the level 0 table at
    /// the physical address `table_paddr`.
    ///
    /// The physical address range that the core reports must be one of the
    /// encodings 0 to 7, which fit the size field of the translation
    /// control register.
    pub fn enable_el3(cpu: &mut Cpu, table_paddr: u64)
        requires
            field(old(cpu)@.read(SysReg::ID_AA64MMFR0_EL1), 0, 0xf) < 8,
        ensures
            final(cpu)@ == enabled(old(cpu)@, 3, table_paddr),
    {
        let id_aa64mmfr0_el1 = ID_AA64MMFR0_EL1::read(cpu);
        Self::invalidate_tlb_el3_all(cpu);

        TCR_EL3::write(
            cpu,
            TCR_EL3::DEFAULT().with_T0SZ(T0SZ_48_BITS).with_TG0(TG0_4K).with_PS(
                id_aa64mmfr0_el1.PARANGE(),
            ),
        );

        MAIR_EL3::write(
            cpu,
            MAIR_EL3::DEFAULT().with_ATTR0(MAIR_DEVICE).with_ATTR1(
                MAIR_NORMAL_NON_CACHEABLE,
            ).with_ATTR2(MAIR_NORMAL_WRITE_THROUGH).with_ATTR3(MAIR_NORMAL_CACHEABLE),
        );

        let base = crate::bits::get_field(table_paddr, 1, 0x7fff_ffff_ffff);
        TTBR0_EL3::write(cpu, TTBR0_EL3::DEFAULT().with_BADDR(base));

        let sctlr_el3 = SCTLR_EL3::read(cpu);
        SCTLR_EL3::write(cpu, sctlr_el3.with_M(true));

        cpu.isb();
    }

    /// Switches address translation on at EL2, with the level 0 table at
    /// the physical address `table_paddr`.
    ///
    /// The physical address range that the core reports must be one of the
    /// encodings 0 to 7, which fit the size field of the translation
    /// control register.
    pub fn enable_el2(cpu: &mut Cpu, table_paddr: u64)
        requires
            field(old(cpu)@.read(SysReg::ID_AA64MMFR0_EL1), 0, 0xf) < 8,
        ensures
            final(cpu)@ == enabled(old(cpu)@, 2, table_paddr),
    {
        let id_aa64mmfr0_el1 = ID_AA64MMFR0_EL1::read(cpu);
        Self::invalidate_tlb_el2_all(cpu);

        TCR_EL2::write(
            cpu,
            TCR_EL2::DEFAULT().with_T0SZ(T0SZ_48_BITS).with_TG0(TG0_4K).with_PS(
                id_aa64mmfr0_el1.PARANGE(),
            ),
        );

        MAIR_EL2::write(
            cpu,
            MAIR_EL2::DEFAULT().with_ATTR0(MAIR_DEVICE).with_ATTR1(
                MAIR_NORMAL_NON_CACHEABLE,
            ).with_ATTR2(MAIR_NORMAL_WRITE_THROUGH).with_ATTR3(MAIR_NORMAL_CACHEABLE),
        );

        let base = crate::bits::get_field(table_paddr, 1, 0x7fff_ffff_ffff);
        TTBR0_EL2::write(cpu, TTBR0_EL2::DEFAULT().with_BADDR(base));

        let sctlr_el2 = SCTLR_EL2::read(cpu);
        SCTLR_EL2::write(cpu, sctlr_el2.with_M(true));

        cpu.isb();
    }

    /// Switches address translation on at EL1, with the level 0 table at
    /// the physical address `table_paddr`.
    ///
    /// The physical address range that the core reports must be one of the
    /// encodings 0 to 7, which fit the size field of the translation
    /// control register.
    pub fn enable_el1(cpu: &mut Cpu, table_paddr: u64)
        requires
            field(old(cpu)@.read(SysReg::ID_AA64MMFR0_EL1), 0, 0xf) < 8,
        ensures
            final(cpu)@ == enabled(old(cpu)@, 1, table_paddr),
    {
        let id_aa64mmfr0_el1 = ID_AA64MMFR0_EL1::read(cpu);
        Self::invalidate_tlb_el1_all(cpu);

        TCR_EL1::write(
            cpu,
            TCR_EL1::DEFAULT().with_T0SZ(T0SZ_48_BITS).with_TG0(TG0_4K).with_IPS(
                id_aa64mmfr0_el1.PARANGE(),
            ),
        );

        MAIR_EL1::write(
            cpu,
            MAIR_EL1::DEFAULT().with_ATTR0(MAIR_DEVICE).with_ATTR1(
                MAIR_NORMAL_NON_CACHEABLE,
            ).with_ATTR2(MAIR_NORMAL_WRITE_THROUGH).with_ATTR3(MAIR_NORMAL_CACHEABLE),
        );

        let base = crate::bits::get_field(table_paddr, 1, 0x7fff_ffff_ffff);
        TTBR0_EL1::write(cpu, TTBR0_EL1::DEFAULT().with_BADDR(base));

        let sctlr_el1 = SCTLR_EL1::read(cpu);
        SCTLR_EL1::write(cpu, sctlr_el1.with_M(true));

        cpu.isb();
    }

    /// Invalidates every translation of EL3.
    pub fn invalidate_tlb_el3_all(cpu: &mut Cpu)
        ensures
            final(cpu)@ == tlb_invalidated(old(cpu)@, 3),
    {
        cpu.issue(Instr::TlbiAll { el: 3 });
        cpu.isb();
    }

    /// Invalidates every translation of EL2.
    pub fn invalidate_tlb_el2_all(cpu: &mut Cpu)
        ensures
            final(cpu)@ == tlb_invalidated(old(cpu)@, 2),
    {
        cpu.issue(Instr::TlbiAll { el: 2 });
        cpu.isb();
    }

    /// Invalidates every translation of EL1.
    pub fn invalidate_tlb_el1_all(cpu: &mut Cpu)
        ensures
            final(cpu)@ == tlb_invalidated(old(cpu)@, 1),
    {
        cpu.issue(Instr::TlbiAll { el: 1 });
        cpu.isb();
    }
}

/// A level of the translation tables.
pub trait TranslationLevel {
    /// The number of the level, 0 to 3.
    const NUM: usize;
}

/// Level 0: each entry covers 512 GiB.
#[derive(Clone, Copy)]
pub struct Level0;

impl TranslationLevel for Level0 {
    const NUM: usize = 0;
}

/// Level 1: each entry covers 1 GiB.
#[derive(Clone, Copy)]
pub struct Level1;

impl TranslationLevel for Level1 {
    const NUM: usize = 1;
}

/// Level 2: each entry covers 2 MiB.
#[derive(Clone, Copy)]
pub struct Level2;

impl TranslationLevel for Level2 {
    const NUM: usize = 2;
}

/// Level 3: each entry covers 4 KiB.
#[derive(Clone, Copy)]
pub struct Level3;

impl TranslationLevel for Level3 {
    const NUM: usize = 3;
}

/// The four levels have the numbers 0 to 3.
pub proof fn lemma_level_numbers()
    ensures
        Level0::NUM == 0,
        Level1::NUM == 1,
        Level2::NUM == 2,
        Level3::NUM == 3,
{
}

/// The kind of memory behind a mapping. The position in this list is the
/// index of its encoding in the memory attribute indirection register.
#[derive(Debug, Clone, Copy, PartialEq, Eq, Structural)]
pub enum MemoryTyp {
    /// Device memory: no gathering, no reordering, no early write
    /// acknowledgement.
    Device_nGnRnE,
    /// Normal memory that is not cached.
    Normal_NonCacheable,
    /// Normal memory, write-through cacheable.
    Normal_WriteThrough,
    /// Normal memory, write-back cacheable.
    Normal_Cacheable,
}

/// The shareability domain of a mapping.
#[derive(Debug, Clone, Copy, PartialEq, Eq, Structural)]
pub enum Shareability {
    Non,
    Outer,
    Inner,
}

/// Who may read and write through a mapping.
#[derive(Debug, Clone, Copy, PartialEq, Eq, Structural)]
pub enum Access {
    PrivRead,
    PrivReadWrite,
    PrivReadUnprivRead,
    PrivReadWriteUnprivReadWrite,
}

/// The security state that a mapping leads to.
#[derive(Debug, Clone, Copy, PartialEq, Eq, Structural)]
pub enum SecurityDomain {
    NonSecure,
    Secure,
}

impl MemoryTyp {
    /// The attribute index of the memory type.
    pub open spec fn index(self) -> u64 {
        match self {
            MemoryTyp::Device_nGnRnE => 0,
            MemoryTyp::Normal_NonCacheable => 1,
            MemoryTyp::Normal_WriteThrough => 2,
            MemoryTyp::Normal_Cacheable => 3,
        }
    }

    /// Computes [`MemoryTyp::index`].
    pub fn attr_index(self) -> (r: u64)
        ensures
            r == self.index(),
    {
        match self {
            MemoryTyp::Device_nGnRnE => 0,
            MemoryTyp::Normal_NonCacheable => 1,
            MemoryTyp::Normal_WriteThrough => 2,
            MemoryTyp::Normal_Cacheable => 3,
        }
    }
}

impl Shareability {
    /// The two-bit encoding of the domain.
    pub open spec fn code(self) -> u64 {
        match self {
            Shareability::Non => 0,
            Shareability::Outer => 2,
            Shareability::Inner => 3,
        }
    }

    /// Computes [`Shareability::code`].
    pub fn encoding(self) -> (r: u64)
        ensures
            r == self.code(),
    {
        match self {
            Shareability::Non => 0,
            Shareability::Outer => 2,
            Shareability::Inner => 3,
        }
    }
}

impl Access {
    /// The two-bit encoding of the permission.
    pub open spec fn code(self) -> u64 {
        match self {
            Access::PrivReadWrite => 0,
            Access::PrivReadWriteUnprivReadWrite => 1,
            Access::PrivRead => 2,
            Access::PrivReadUnprivRead => 3,
        }
    }

    /// Computes [`Access::code`].
    pub fn encoding(self) -> (r: u64)
        ensures
            r == self.code(),
    {
        match self {
            Access::PrivReadWrite => 0,
            Access::PrivReadWriteUnprivReadWrite => 1,
            Access::PrivRead => 2,
            Access::PrivReadUnprivRead => 3,
        }
    }
}

impl SecurityDomain {
    /// Whether the non-secure bit is set for the domain.
    pub open spec fn non_secure(self) -> bool {
        self is NonSecure
    }

    /// Computes [`SecurityDomain::non_secure`].
    pub fn is_non_secure(self) -> (r: bool)
        ensures
            r == self.non_secure(),
    {
        match self {
            SecurityDomain::NonSecure => true,
            SecurityDomain::Secure => false,
        }
    }
}

/// The attributes of an entry that points to a table.
#[derive(Debug, Clone, Copy, PartialEq, Eq, Structural)]
pub struct TableAttrs {
    pub security: SecurityDomain,
}

impl TableAttrs {
    /// A table that is walked in the secure state.
    pub fn DEFAULT() -> (r: Self)
        ensures
            r == (TableAttrs { security: SecurityDomain::Secure }),
    {
        TableAttrs { security: SecurityDomain::Secure }
    }

    /// A table that is walked in the non-secure state.
    pub fn NON_SECURE() -> (r: Self)
        ensures
            r == (TableAttrs { security: SecurityDomain::NonSecure }),
    {
        TableAttrs { security: SecurityDomain::NonSecure }
    }
}

/// The attributes of an entry that maps a block.
#[derive(Debug, Clone, Copy, PartialEq, Eq, Structural)]
pub struct BlockAttrs {
    pub mem_typ: MemoryTyp,
    pub shareability: Shareability,
    pub access: Access,
    pub security: SecurityDomain,
}

impl BlockAttrs {
    /// Device memory, not shareable, readable and writable at every
    /// privilege, non-secure.
    pub fn DEFAULT() -> (r: Self)
        ensures
            r == (BlockAttrs {
                mem_typ: MemoryTyp::Device_nGnRnE,
                shareability: Shareability::Non,
                access: Access::PrivReadWriteUnprivReadWrite,
                security: SecurityDomain::NonSecure,
            }),
    {
        BlockAttrs {
            mem_typ: MemoryTyp::Device_nGnRnE,
            shareability: Shareability::Non,
            access: Access::PrivReadWriteUnprivReadWrite,
            security: SecurityDomain::NonSecure,
        }
    }

    /// These attributes with the memory type `mem_typ`.
    pub fn with_mem_type(self, mem_typ: MemoryTyp) -> (r: Self)
        ensures
            r == (BlockAttrs { mem_typ, ..self }),
    {
        BlockAttrs { mem_typ, ..self }
    }

    /// These attributes with the shareability `shareability`.
    pub fn with_shareability(self, shareability: Shareability) -> (r: Self)
        ensures
            r == (BlockAttrs { shareability, ..self }),
    {
        BlockAttrs { shareability, ..self }
    }

    /// These attributes with the permission `access`.
    pub fn with_access(self, access: Access) -> (r: Self)
        ensures
            r == (BlockAttrs { access, ..self }),
    {
        BlockAttrs { access, ..self }
    }

    /// These attributes with the security domain `security`.
    pub fn with_security(self, security: SecurityDomain) -> (r: Self)
        ensures
            r == (BlockAttrs { security, ..self }),
    {
        BlockAttrs { security, ..self }
    }
}

/// The attributes of an entry that maps a page.
#[derive(Debug, Clone, Copy, PartialEq, Eq, Structural)]
pub struct PageAttrs {
    pub mem_typ: MemoryTyp,
    pub shareability: Shareability,
    pub access: Access,
    pub security: SecurityDomain,
}

impl PageAttrs {
    /// Device memory, not shareable, readable and writable at every
    /// privilege, non-secure.
    pub fn DEFAULT() -> (r: Self)
        ensures
            r == (PageAttrs {
                mem_typ: MemoryTyp::Device_nGnRnE,
                shareability: Shareability::Non,
                access: Access::PrivReadWriteUnprivReadWrite,
                security: SecurityDomain::NonSecure,
            }),
    {
        PageAttrs {
            mem_typ: MemoryTyp::Device_nGnRnE,
            shareability: Shareability::Non,
            access: Access::PrivReadWriteUnprivReadWrite,
            security: SecurityDomain::NonSecure,
        }
    }

    /// These attributes with the memory type `mem_typ`.
    pub fn with_mem_type(self, mem_typ: MemoryTyp) -> (r: Self)
        ensures
            r == (PageAttrs { mem_typ, ..self }),
    {
        PageAttrs { mem_typ, ..self }
    }

    /// These attributes with the shareability `shareability`.
    pub fn with_shareability(self, shareability: Shareability) -> (r: Self)
        ensures
            r == (PageAttrs { shareability, ..self }),
    {
        PageAttrs { shareability, ..self }
    }

    /// These attributes with the permission `access`.
    pub fn with_access(self, access: Access) -> (r: Self)
        ensures
            r == (PageAttrs { access, ..self }),
    {
        PageAttrs { access, ..self }
    }

    /// These attributes with the security domain `security`.
    pub fn with_security(self, security: SecurityDomain) -> (r: Self)
        ensures
            r == (PageAttrs { security, ..self }),
    {
        PageAttrs { security, ..self }
    }
}

} // verus!
