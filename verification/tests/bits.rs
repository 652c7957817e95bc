use arm64::bits::{get_bit, get_field, normalize, set_bit, set_field};
use arm64::instr::Instr;
use arm64::regs::{Cpu, SysReg, SCTLR_EL1_RES1, SCTLR_EL3_RES1};
use arm64::sys_regs::{CLIDR_EL1, CSSELR_EL1, SCTLR_EL2, TCR_EL1};

#[test]
fn fields_are_read_and_written_in_place() {
    assert_eq!(get_field(0x0700_0000, 24, 0x7), 7);
    assert_eq!(get_field(0xffff_ffff_ffff_ffff, 12, 0xf_ffff_ffff), 0xf_ffff_ffff);
    assert_eq!(set_field(0xffff, 4, 0xf, 0x0), 0xff0f);
    assert_eq!(set_field(0, 62, 0x3, 0x7), 0xc000_0000_0000_0000);
    assert!(get_bit(0x8000_0000_0000_0000, 63));
    assert!(!get_bit(0x7fff_ffff_ffff_ffff, 63));
    assert_eq!(set_bit(0, 10, true), 0x400);
    assert_eq!(set_bit(0xfff, 10, false), 0xbff);
}

#[test]
fn written_field_reads_back_and_leaves_the_rest() {
    let raw = 0x1234_5678_9abc_def0u64;
    let written = set_field(raw, 16, 0xff, 0xa5);
    assert_eq!(get_field(written, 16, 0xff), 0xa5);
    assert_eq!(written & !0xff_0000, raw & !0xff_0000);
    assert_eq!(set_field(raw, 16, 0xff, get_field(raw, 16, 0xff)), raw);
}

#[test]
fn normalize_clears_res0_and_sets_res1() {
    assert_eq!(normalize(0xff, 0x0f, 0x100), 0x1f0);
    assert_eq!(normalize(0, 0, SCTLR_EL3_RES1), 0x30c5_0830);
    assert_eq!(normalize(0, 0, SCTLR_EL1_RES1), 0x30d0_0800);
    for raw in [0u64, 1, 0xdead_beef, u64::MAX] {
        let once = normalize(raw, 0xf0, 0x3);
        assert_eq!(normalize(once, 0xf0, 0x3), once);
    }
}

#[test]
fn register_read_masks_the_raw_content() {
    let mut cpu = Cpu::new();
    cpu.load(SysReg::SCTLR_EL2, 0x1005);
    assert_eq!(cpu.raw(SysReg::SCTLR_EL2), 0x1005);
    assert_eq!(cpu.read(SysReg::SCTLR_EL2), 0x30c5_1835);
    assert!(cpu.issued.is_empty());
    let value = SCTLR_EL2::read(&cpu);
    assert!(value.M() && value.C() && value.I());
}

#[test]
fn register_write_masks_and_brackets_with_barriers() {
    let mut cpu = Cpu::new();
    cpu.write(SysReg::SCTLR_EL2, 0x4);
    assert_eq!(cpu.raw(SysReg::SCTLR_EL2), 0x30c5_0834);
    assert_eq!(
        cpu.issued,
        vec![
            Instr::Dsb,
            Instr::Msr { reg: SysReg::SCTLR_EL2, value: 0x30c5_0834 },
            Instr::Isb
        ]
    );
}

#[test]
fn writing_back_what_was_read_keeps_the_register() {
    let mut cpu = Cpu::new();
    cpu.load(SysReg::SCTLR_EL1, 0xffff_0000_0000_1005);
    let read = cpu.read(SysReg::SCTLR_EL1);
    cpu.write(SysReg::SCTLR_EL1, read);
    assert_eq!(cpu.read(SysReg::SCTLR_EL1), read);
    assert_eq!(cpu.raw(SysReg::SCTLR_EL1), (0xffff_0000_0000_1005 & !0) | SCTLR_EL1_RES1);
}

#[test]
fn raw_write_stores_the_value_as_it_is() {
    let mut cpu = Cpu::new();
    cpu.write_raw(SysReg::SCTLR_EL2, 0x4);
    assert_eq!(cpu.raw(SysReg::SCTLR_EL2), 0x4);
    assert_eq!(cpu.issued, vec![Instr::Msr { reg: SysReg::SCTLR_EL2, value: 0x4 }]);
}

#[test]
fn modify_applies_the_function_to_the_read_value() {
    let mut cpu = Cpu::new();
    cpu.load(SysReg::HCR_EL2, 0x10);
    cpu.modify(SysReg::HCR_EL2, |value| value | 0x8);
    assert_eq!(cpu.raw(SysReg::HCR_EL2), 0x18);
    assert_eq!(cpu.issued.len(), 3);
}

#[test]
fn geometry_register_follows_the_selection() {
    let mut cpu = Cpu::new();
    cpu.load_geometry(0, 0x11);
    cpu.load_geometry(1, 0x22);
    cpu.load_geometry(2, 0x33);
    assert_eq!(cpu.raw(SysReg::CCSIDR_EL1), 0x11);
    CSSELR_EL1::write(&mut cpu, CSSELR_EL1::DEFAULT().with_InD(true));
    assert_eq!(cpu.raw(SysReg::CCSIDR_EL1), 0x22);
    CSSELR_EL1::write(&mut cpu, CSSELR_EL1::DEFAULT().with_LEVEL(1));
    assert_eq!(cpu.raw(SysReg::CCSIDR_EL1), 0x33);
}

#[test]
fn indexed_registers_have_their_own_slots() {
    let mut cpu = Cpu::new();
    cpu.load(SysReg::PMEVCNTR_EL0(0), 1);
    cpu.load(SysReg::PMEVCNTR_EL0(30), 2);
    cpu.load(SysReg::PMEVTYPER_EL0(0), 3);
    cpu.load(SysReg::PMEVTYPER_EL0(30), 4);
    assert_eq!(cpu.raw(SysReg::PMEVCNTR_EL0(0)), 1);
    assert_eq!(cpu.raw(SysReg::PMEVCNTR_EL0(30)), 2);
    assert_eq!(cpu.raw(SysReg::PMEVTYPER_EL0(0)), 3);
    assert_eq!(cpu.raw(SysReg::PMEVTYPER_EL0(30)), 4);
    assert_eq!(SysReg::CurrentEL.slot(), 0);
    assert!(!SysReg::CLIDR_EL1.is_writable());
    assert!(SysReg::TCR_EL1.is_writable());
}

#[test]
fn typed_values_reach_their_fields() {
    let clidr = CLIDR_EL1::new_with_raw_value((2 << 30) | (1 << 27) | (3 << 24) | (1 << 21) | 0o43);
    assert_eq!(clidr.ICB(), 2);
    assert_eq!(clidr.LOUU(), 1);
    assert_eq!(clidr.LOC(), 3);
    assert_eq!(clidr.LOUIS(), 1);
    assert_eq!(clidr.CTYPE(0), 3);
    assert_eq!(clidr.CTYPE(1), 4);
    assert_eq!(clidr.CTYPE(2), 0);
    let tcr = TCR_EL1::DEFAULT().with_T0SZ(0x10).with_IPS(5).with_TG1(2);
    assert_eq!(tcr.raw_value(), 0x10 | (5 << 32) | (2 << 30));
    assert_eq!(tcr.T0SZ(), 0x10);
    assert_eq!(tcr.IPS(), 5);
    assert_eq!(tcr.with_T0SZ(0).raw_value(), (5 << 32) | (2 << 30));
}

#[test]
fn registers_belong_to_their_exception_level() {
    assert_eq!(SysReg::SCTLR_EL1.min_el(), 1);
    assert_eq!(SysReg::PMCR_EL0.min_el(), 1);
    assert_eq!(SysReg::HCR_EL2.min_el(), 2);
    assert_eq!(SysReg::VMPIDR_EL2.min_el(), 2);
    assert_eq!(SysReg::SCR_EL3.min_el(), 3);
    assert_eq!(SysReg::CPUECTLR_EL1.min_el(), 3);
    assert_eq!(SysReg::PMEVCNTR_EL0(5).min_el(), 1);
    assert_eq!(SysReg::SCTLR_EL2.reserved_one(), 0x30c5_0830);
    assert_eq!(SysReg::TCR_EL3.reserved_one(), 0x8000_0000);
    assert_eq!(SysReg::SCR_EL3.reserved_one(), 0x30);
    assert_eq!(SysReg::HCR_EL2.reserved_one(), 0);
    assert_eq!(SysReg::SCTLR_EL2.reserved_zero(), 0);
}
