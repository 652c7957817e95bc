use arm64::instr::Instr;
use arm64::mmu::{
    Access, BlockAttrs, EntryKind, Level0, Level1, Level2, Level3, MemoryTyp, PageAttrs,
    SecurityDomain, Shareability, TableAttrs, TranslationTable, TranslationTableEntry, MMU,
};
use arm64::regs::{Cpu, SysReg};

fn normal_attrs() -> BlockAttrs {
    BlockAttrs::DEFAULT()
        .with_mem_type(MemoryTyp::Normal_Cacheable)
        .with_shareability(Shareability::Inner)
        .with_access(Access::PrivReadWrite)
        .with_security(SecurityDomain::NonSecure)
}

fn device_attrs() -> BlockAttrs {
    BlockAttrs::DEFAULT()
        .with_mem_type(MemoryTyp::Device_nGnRnE)
        .with_shareability(Shareability::Non)
        .with_access(Access::PrivReadWrite)
        .with_security(SecurityDomain::NonSecure)
}

#[test]
fn table_entry_holds_tag_address_and_security() {
    let entry = TranslationTableEntry::<Level0>::table(0x8000_0000, TableAttrs::NON_SECURE());
    assert_eq!(entry.raw, 0x8000_0000_8000_0003);
    let entry = TranslationTableEntry::<Level1>::table(0x8000_0fff, TableAttrs::DEFAULT());
    assert_eq!(entry.raw, 0x8000_0003);
    let entry = TranslationTableEntry::<Level2>::table(u64::MAX, TableAttrs::DEFAULT());
    assert_eq!(entry.raw, 0x0000_ffff_ffff_f003);
}

#[test]
fn block_entries_keep_the_address_bits_of_their_level() {
    let entry = TranslationTableEntry::<Level1>::block(0x4000_0000, normal_attrs());
    assert_eq!(entry.raw, 0x4000_072d);
    let entry = TranslationTableEntry::<Level1>::block(0, device_attrs());
    assert_eq!(entry.raw, 0x421);
    let entry = TranslationTableEntry::<Level1>::block(u64::MAX, BlockAttrs::DEFAULT());
    assert_eq!(entry.raw, 0x0000_ffff_c000_0461);
    let entry = TranslationTableEntry::<Level2>::block(u64::MAX, BlockAttrs::DEFAULT());
    assert_eq!(entry.raw, 0x0000_ffff_ffe0_0461);
    let entry = TranslationTableEntry::<Level2>::block(0x4020_0000, BlockAttrs::DEFAULT());
    assert_eq!(entry.raw, 0x4020_0461);
}

#[test]
fn page_entry_holds_tag_address_and_attributes() {
    let entry = TranslationTableEntry::<Level3>::page(u64::MAX, PageAttrs::DEFAULT());
    assert_eq!(entry.raw, 0x0000_ffff_ffff_f463);
    let attrs = PageAttrs::DEFAULT()
        .with_mem_type(MemoryTyp::Normal_NonCacheable)
        .with_shareability(Shareability::Outer)
        .with_access(Access::PrivReadUnprivRead)
        .with_security(SecurityDomain::Secure);
    let entry = TranslationTableEntry::<Level3>::page(0x1000, attrs);
    assert_eq!(entry.raw, 0x1000 | (1 << 10) | (2 << 8) | (3 << 6) | (1 << 2) | 3);
    let attrs = PageAttrs::DEFAULT()
        .with_mem_type(MemoryTyp::Normal_WriteThrough)
        .with_access(Access::PrivRead);
    let entry = TranslationTableEntry::<Level3>::page(0, attrs);
    assert_eq!(entry.raw, (1 << 10) | (2 << 6) | (1 << 5) | (2 << 2) | 3);
}

#[test]
fn access_flag_is_set_on_every_mapping() {
    for paddr in [0, 0x4000_0000, u64::MAX] {
        assert_ne!(TranslationTableEntry::<Level1>::block(paddr, device_attrs()).raw & 0x400, 0);
        assert_ne!(TranslationTableEntry::<Level2>::block(paddr, normal_attrs()).raw & 0x400, 0);
        assert_ne!(
            TranslationTableEntry::<Level3>::page(paddr, PageAttrs::DEFAULT()).raw & 0x400,
            0
        );
    }
}

#[test]
fn constructed_entries_decode_to_their_kind() {
    for paddr in [0, 0x1000, 0x4000_0000, 0xffff_ffff_ffff, u64::MAX] {
        for attrs in [TableAttrs::DEFAULT(), TableAttrs::NON_SECURE()] {
            assert_eq!(TranslationTableEntry::<Level0>::table(paddr, attrs).kind(), EntryKind::Table);
            assert_eq!(TranslationTableEntry::<Level1>::table(paddr, attrs).kind(), EntryKind::Table);
            assert_eq!(TranslationTableEntry::<Level2>::table(paddr, attrs).kind(), EntryKind::Table);
        }
        for attrs in [BlockAttrs::DEFAULT(), normal_attrs(), device_attrs()] {
            assert_eq!(TranslationTableEntry::<Level1>::block(paddr, attrs).kind(), EntryKind::Block);
            assert_eq!(TranslationTableEntry::<Level2>::block(paddr, attrs).kind(), EntryKind::Block);
        }
        let page = TranslationTableEntry::<Level3>::page(paddr, PageAttrs::DEFAULT());
        assert_eq!(page.kind(), EntryKind::Page);
        assert!(page.is_page() && !page.is_invalid() && !page.is_table() && !page.is_block());
    }
    let invalid = TranslationTableEntry::<Level2>::INVALID();
    assert_eq!(invalid.kind(), EntryKind::Invalid);
    assert!(invalid.is_invalid() && !invalid.is_table() && !invalid.is_block());
}

#[test]
fn tag_bits_are_read_by_level() {
    assert_eq!(TranslationTableEntry::<Level0>::from_raw(0b00).kind(), EntryKind::Invalid);
    assert_eq!(TranslationTableEntry::<Level0>::from_raw(0b10).kind(), EntryKind::Invalid);
    assert_eq!(TranslationTableEntry::<Level1>::from_raw(0b01).kind(), EntryKind::Block);
    assert_eq!(TranslationTableEntry::<Level2>::from_raw(0b11).kind(), EntryKind::Table);
    assert_eq!(TranslationTableEntry::<Level3>::from_raw(0b00).kind(), EntryKind::Invalid);
    assert_eq!(TranslationTableEntry::<Level3>::from_raw(0b01).kind(), EntryKind::Invalid);
    assert_eq!(TranslationTableEntry::<Level3>::from_raw(0b10).kind(), EntryKind::Invalid);
    assert_eq!(TranslationTableEntry::<Level3>::from_raw(0b11).kind(), EntryKind::Page);
}

#[test]
fn tables_map_and_unmap_at_the_index_of_the_address() {
    let mut l0 = TranslationTable::<Level0>::DEFAULT();
    assert!(l0.entries().iter().all(|entry| *entry == 0));
    l0.map_table(1 << 39, 0x9000_0000, TableAttrs::DEFAULT());
    assert_eq!(l0.entry(1).raw, 0x9000_0003);
    assert_eq!(l0.entry(0).raw, 0);
    l0.map_table(u64::MAX, 0xa000_0000, TableAttrs::DEFAULT());
    assert_eq!(l0.entry(511).raw, 0xa000_0003);
    l0.unmap(1 << 39);
    assert_eq!(l0.entry(1).kind(), EntryKind::Invalid);
    assert_eq!(l0.entry(511).kind(), EntryKind::Table);

    let mut l1 = TranslationTable::<Level1>::DEFAULT();
    l1.map_block(0x0000_0000, 0x0000_0000, device_attrs());
    l1.map_block(0x4000_0000, 0x4000_0000, normal_attrs());
    l1.map_table(0x8000_0000, 0x1_0000, TableAttrs::DEFAULT());
    assert_eq!(l1.entry(0).raw, 0x421);
    assert_eq!(l1.entry(1).raw, 0x4000_072d);
    assert_eq!(l1.entry(2).raw, 0x1_0003);
    l1.unmap(0x4000_0000);
    assert_eq!(l1.entry(1).raw, 0);

    let mut l2 = TranslationTable::<Level2>::DEFAULT();
    l2.map_block(0x20_0000 * 5, 0x4020_0000, BlockAttrs::DEFAULT());
    l2.map_table(0x20_0000 * 6, 0x3000, TableAttrs::NON_SECURE());
    assert_eq!(l2.entry(5).raw, 0x4020_0461);
    assert_eq!(l2.entry(6).kind(), EntryKind::Table);
    l2.unmap(0x20_0000 * 5);
    assert_eq!(l2.entry(5).raw, 0);

    let mut l3 = TranslationTable::<Level3>::DEFAULT();
    l3.map_page(0x7000, 0x1234_5000, PageAttrs::DEFAULT());
    assert_eq!(l3.entry(7).raw, 0x1234_5463);
    assert_eq!(l3.entries()[7], 0x1234_5463);
    l3.unmap(0x7fff);
    assert_eq!(l3.entry(7).raw, 0);
}

#[test]
fn enable_el2_programs_the_registers_in_order() {
    let mut cpu = Cpu::new();
    cpu.load(SysReg::ID_AA64MMFR0_EL1, 0x12);
    MMU::enable_el2(&mut cpu, 0x4000_1000);
    let write = |reg, value| [Instr::Dsb, Instr::Msr { reg, value }, Instr::Isb];
    let mut expected = vec![Instr::TlbiAll { el: 2 }, Instr::Isb];
    expected.extend(write(SysReg::TCR_EL2, 0x8002_0010));
    expected.extend(write(SysReg::MAIR_EL2, 0xffbb_4400));
    expected.extend(write(SysReg::TTBR0_EL2, 0x4000_1000));
    expected.extend(write(SysReg::SCTLR_EL2, 0x30c5_0831));
    expected.push(Instr::Isb);
    assert_eq!(cpu.issued, expected);
    assert_eq!(cpu.raw(SysReg::SCTLR_EL1), 0);
    assert_eq!(cpu.raw(SysReg::SCTLR_EL3), 0);
}

#[test]
fn enable_el3_and_el1_use_their_own_registers() {
    let mut cpu = Cpu::new();
    cpu.load(SysReg::ID_AA64MMFR0_EL1, 0x5);
    MMU::enable_el3(&mut cpu, 0xffff_ffff_ffff_ffff);
    assert_eq!(cpu.raw(SysReg::TCR_EL3), 0x8005_0010);
    assert_eq!(cpu.raw(SysReg::MAIR_EL3), 0xffbb_4400);
    assert_eq!(cpu.raw(SysReg::TTBR0_EL3), 0x0000_ffff_ffff_fffe);
    assert_eq!(cpu.raw(SysReg::SCTLR_EL3), 0x30c5_0831);
    assert_eq!(cpu.issued[0], Instr::TlbiAll { el: 3 });

    let mut cpu = Cpu::new();
    cpu.load(SysReg::ID_AA64MMFR0_EL1, 0x2);
    cpu.load(SysReg::SCTLR_EL1, 0x1004);
    MMU::enable_el1(&mut cpu, 0x8_0000);
    assert_eq!(cpu.raw(SysReg::TCR_EL1), 0x2_0000_0010);
    assert_eq!(cpu.raw(SysReg::MAIR_EL1), 0xffbb_4400);
    assert_eq!(cpu.raw(SysReg::TTBR0_EL1), 0x8_0000);
    assert_eq!(cpu.raw(SysReg::SCTLR_EL1), 0x30d0_1805);
    assert_eq!(cpu.issued[0], Instr::TlbiAll { el: 1 });
    assert_eq!(cpu.issued.len(), 15);
}

#[test]
fn disable_clears_the_enable_bit_and_keeps_the_tables() {
    let mut cpu = Cpu::new();
    MMU::enable_el1(&mut cpu, 0x8_0000);
    cpu.issued.clear();
    MMU::disable_el1(&mut cpu);
    assert_eq!(cpu.raw(SysReg::SCTLR_EL1), 0x30d0_0800);
    assert_eq!(cpu.raw(SysReg::TTBR0_EL1), 0x8_0000);
    assert_eq!(
        cpu.issued,
        vec![
            Instr::Dsb,
            Instr::Msr { reg: SysReg::SCTLR_EL1, value: 0x30d0_0800 },
            Instr::Isb,
            Instr::Isb
        ]
    );
    let mut cpu = Cpu::new();
    cpu.load(SysReg::SCTLR_EL2, 0x5);
    MMU::disable_el2(&mut cpu);
    assert_eq!(cpu.raw(SysReg::SCTLR_EL2), 0x30c5_0834);
    cpu.load(SysReg::SCTLR_EL3, 0x1);
    MMU::disable_el3(&mut cpu);
    assert_eq!(cpu.raw(SysReg::SCTLR_EL3), 0x30c5_0830);
}

#[test]
fn memory_attributes_stand_at_their_indices() {
    let mut cpu = Cpu::new();
    MMU::enable_el2(&mut cpu, 0);
    let mair = cpu.raw(SysReg::MAIR_EL2);
    assert_eq!(mair & 0xff, 0x00);
    assert_eq!((mair >> 8) & 0xff, 0x44);
    assert_eq!((mair >> 16) & 0xff, 0xbb);
    assert_eq!((mair >> 24) & 0xff, 0xff);
    assert_eq!(mair >> 32, 0);
    assert_eq!(MemoryTyp::Device_nGnRnE.attr_index(), 0);
    assert_eq!(MemoryTyp::Normal_NonCacheable.attr_index(), 1);
    assert_eq!(MemoryTyp::Normal_WriteThrough.attr_index(), 2);
    assert_eq!(MemoryTyp::Normal_Cacheable.attr_index(), 3);
}

#[test]
fn tlb_invalidation_is_followed_by_a_barrier() {
    let mut cpu = Cpu::new();
    MMU::invalidate_tlb_el1_all(&mut cpu);
    MMU::invalidate_tlb_el2_all(&mut cpu);
    MMU::invalidate_tlb_el3_all(&mut cpu);
    assert_eq!(
        cpu.issued,
        vec![
            Instr::TlbiAll { el: 1 },
            Instr::Isb,
            Instr::TlbiAll { el: 2 },
            Instr::Isb,
            Instr::TlbiAll { el: 3 },
            Instr::Isb
        ]
    );
}

#[test]
fn physical_address_size_comes_from_the_core() {
    for parange in 0..8u64 {
        let mut cpu = Cpu::new();
        cpu.load(SysReg::ID_AA64MMFR0_EL1, 0xf0 | parange);
        MMU::enable_el2(&mut cpu, 0);
        assert_eq!((cpu.raw(SysReg::TCR_EL2) >> 16) & 0x7, parange);
        let mut cpu = Cpu::new();
        cpu.load(SysReg::ID_AA64MMFR0_EL1, parange);
        MMU::enable_el1(&mut cpu, 0);
        assert_eq!((cpu.raw(SysReg::TCR_EL1) >> 32) & 0x7, parange);
        MMU::enable_el3(&mut cpu, 0);
        assert_eq!((cpu.raw(SysReg::TCR_EL3) >> 16) & 0x7, parange);
    }
}
