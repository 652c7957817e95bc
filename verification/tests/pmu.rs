use arm64::instr::Instr;
use arm64::perf::PerfMonitor;
use arm64::pmu::{CounterValue, Event, PMU};
use arm64::regs::{Cpu, SysReg};

fn writes(cpu: &Cpu) -> Vec<(SysReg, u64)> {
    let mut writes = Vec::new();
    for instr in &cpu.issued {
        if let Instr::Msr { reg, value } = instr {
            writes.push((*reg, *value));
        }
    }
    writes
}

#[test]
fn cycle_counter_is_set_up_then_enabled() {
    let mut cpu = Cpu::new();
    PerfMonitor::enable_cycle_counter(&mut cpu);
    assert_eq!(
        writes(&cpu),
        vec![
            (SysReg::PMCNTENCLR_EL0, 0x8000_0000),
            (SysReg::PMCCFILTR_EL0, 0xfd00_0000),
            (SysReg::PMCR_EL0, 0x5)
        ]
    );
    assert_eq!(cpu.issued.len(), 9);
}

#[test]
fn cycle_counter_controls() {
    let mut cpu = Cpu::new();
    cpu.load(SysReg::PMCR_EL0, 0x41);
    PerfMonitor::disable_cycle_counter(&mut cpu);
    assert_eq!(writes(&cpu), vec![(SysReg::PMCNTENCLR_EL0, 0x8000_0000), (SysReg::PMCR_EL0, 0x40)]);

    let mut cpu = Cpu::new();
    cpu.load(SysReg::PMCNTENSET_EL0, 0x3);
    PerfMonitor::start_cycle_counter(&mut cpu);
    PerfMonitor::stop_cycle_counter(&mut cpu);
    PerfMonitor::reset_cycle_counter(&mut cpu);
    assert_eq!(
        writes(&cpu),
        vec![
            (SysReg::PMCNTENSET_EL0, 0x8000_0003),
            (SysReg::PMCNTENCLR_EL0, 0x8000_0000),
            (SysReg::PMCR_EL0, 0x4)
        ]
    );
    cpu.load(SysReg::PMCCNTR_EL0, 0x1234_5678_9abc);
    assert_eq!(PerfMonitor::get_cycle_counter(&cpu), 0x1234_5678_9abc);
}

#[test]
fn monitor_enable_counts_at_el2_and_resets() {
    let mut cpu = Cpu::new();
    cpu.load(SysReg::PMCCFILTR_EL0, 0xffff_ffff);
    cpu.load(SysReg::PMCR_EL0, 0x8);
    PMU::enable(&mut cpu);
    assert_eq!(
        writes(&cpu),
        vec![
            (SysReg::PMCCFILTR_EL0, 0x0aff_ffff),
            (SysReg::PMCNTENSET_EL0, 0),
            (SysReg::PMOVSCLR_EL0, 0),
            (SysReg::PMCR_EL0, 0x47)
        ]
    );
    PMU::disable(&mut cpu);
    assert_eq!(cpu.raw(SysReg::PMCR_EL0), 0x46);
    assert_eq!(cpu.raw(SysReg::PMCNTENSET_EL0), 0);
}

#[test]
fn counters_are_set_up_by_index() {
    let mut cpu = Cpu::new();
    PMU::setup_counter(&mut cpu, 0, Event::CPU_CYCLES);
    PMU::setup_counter(&mut cpu, 30, Event::FOO);
    PMU::setup_counter(&mut cpu, 31, Event::INST_RETIRED);
    PMU::setup_counter(&mut cpu, usize::MAX, Event::INST_RETIRED);
    assert_eq!(
        writes(&cpu),
        vec![
            (SysReg::PMEVTYPER_EL0(0), 0x0800_0011),
            (SysReg::PMEVTYPER_EL0(30), 0x0800_0060)
        ]
    );
    let mut cpu = Cpu::new();
    cpu.load(SysReg::PMEVTYPER_EL0(3), 0xffff_ffff);
    PMU::setup_counter(&mut cpu, 3, Event::SW_INCR);
    assert_eq!(cpu.raw(SysReg::PMEVTYPER_EL0(3)), 0x0aff_fc00);
}

#[test]
fn events_have_their_numbers() {
    assert_eq!(Event::SW_INCR.code(), 0x00);
    assert_eq!(Event::L1I_CACHE_REFILL.code(), 0x01);
    assert_eq!(Event::INST_RETIRED.code(), 0x08);
    assert_eq!(Event::CPU_CYCLES.code(), 0x11);
    assert_eq!(Event::L1D_CACHE.code(), 0x04);
    assert_eq!(Event::L2D_CACHE.code(), 0x16);
    assert_eq!(Event::L1D_CACHE_ALLOCATE.code(), 0x1f);
    assert_eq!(Event::FOO.code(), 0x60);
}

#[test]
fn monitor_start_stop_and_reset() {
    let mut cpu = Cpu::new();
    PMU::start(&mut cpu);
    assert_eq!(cpu.raw(SysReg::PMCNTENSET_EL0), 0xffff_ffff);
    PMU::stop(&mut cpu);
    assert_eq!(cpu.raw(SysReg::PMCNTENSET_EL0), 0);
    cpu.issued.clear();
    cpu.load(SysReg::PMCR_EL0, 0x1);
    cpu.load(SysReg::PMOVSCLR_EL0, 0x5);
    PMU::reset(&mut cpu);
    assert_eq!(writes(&cpu), vec![(SysReg::PMCR_EL0, 0x7), (SysReg::PMOVSCLR_EL0, 0)]);
}

#[test]
fn counters_report_their_overflow() {
    let mut cpu = Cpu::new();
    cpu.load(SysReg::PMCCNTR_EL0, 77);
    cpu.load(SysReg::PMEVCNTR_EL0(0), 0x1_0000_0005);
    cpu.load(SysReg::PMEVCNTR_EL0(30), 9);
    assert_eq!(PMU::get_cycle_counter(&cpu), CounterValue::Counted(77));
    assert_eq!(PMU::get_counter(&cpu, 0), CounterValue::Counted(5));
    assert_eq!(PMU::get_counter(&cpu, 30), CounterValue::Counted(9));
    assert_eq!(PMU::get_counter(&cpu, 31), CounterValue::Counted(0));
    cpu.load(SysReg::PMOVSCLR_EL0, 0xc000_0001);
    assert_eq!(PMU::get_cycle_counter(&cpu), CounterValue::Overflowed(77));
    assert_eq!(PMU::get_counter(&cpu, 0), CounterValue::Overflowed(5));
    assert_eq!(PMU::get_counter(&cpu, 30), CounterValue::Overflowed(9));
    assert_eq!(PMU::get_counter(&cpu, 1), CounterValue::Counted(0));
    assert_eq!(PMU::get_counter(&cpu, 31), CounterValue::Counted(0));
}
