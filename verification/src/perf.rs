//! The cycle counter of the performance monitor.
use crate::bits::with_bit;
use crate::regs::{Cpu, CpuView, SysReg};
use crate::sys_regs::{PMCCFILTR_EL0, PMCCNTR_EL0, PMCNTENCLR_EL0, PMCNTENSET_EL0, PMCR_EL0};
use vstd::prelude::*;

verus! {

/// The cycle counter.
pub struct PerfMonitor;

/// The state after `reg` was read, bit `pos` of the value set to `value`,
/// and the value written back.
pub open spec fn bit_written(cpu: CpuView, reg: SysReg, pos: u32, value: bool) -> CpuView {
    cpu.written(reg, with_bit(cpu.read(reg), pos, value))
}

/// A value of the cycle counter filter with counting enabled in every mode
/// that the filter knows.
pub open spec fn counting_everywhere(raw: u64) -> u64 {
    with_bit(
        with_bit(
            with_bit(
                with_bit(
                    with_bit(
                        with_bit(with_bit(with_bit(raw, 26, true), 24, true), 26, true),
                        27,
                        true,
                    ),
                    28,
                    true,
                ),
                29,
                true,
            ),
            30,
            true,
        ),
        31,
        true,
    )
}

/// The state after the cycle counter was switched on: the counter disabled
/// while it is set up, the filter opened, then the monitor enabled and the
/// counter reset.
pub open spec fn cycle_counter_enabled(cpu: CpuView) -> CpuView {
    let stopped = bit_written(cpu, SysReg::PMCNTENCLR_EL0, 31, true);
    let filtered = stopped.written(
        SysReg::PMCCFILTR_EL0,
        counting_everywhere(stopped.read(SysReg::PMCCFILTR_EL0)),
    );
    filtered.written(
        SysReg::PMCR_EL0,
        with_bit(with_bit(filtered.read(SysReg::PMCR_EL0), 0, true), 2, true),
    )
}

impl PerfMonitor {
    /// Switches the cycle counter on and resets it.
    pub fn enable_cycle_counter(cpu: &mut Cpu)
        ensures
            final(cpu)@ == cycle_counter_enabled(old(cpu)@),
    {
        let x = PMCNTENCLR_EL0::read(cpu);
        PMCNTENCLR_EL0::write(cpu, x.with_C(true));
        let x = PMCCFILTR_EL0::read(cpu);
        PMCCFILTR_EL0::write(
            cpu,
            x.with_M(true).with_SH(true).with_M(true).with_NSH(true).with_NSU(true).with_NSK(
                true,
            ).with_U(true).with_P(true),
        );
        let x = PMCR_EL0::read(cpu);
        PMCR_EL0::write(cpu, x.with_E(true).with_C(true));
    }

    /// Stops the cycle counter and disables the monitor.
    pub fn disable_cycle_counter(cpu: &mut Cpu)
        ensures
            final(cpu)@ == bit_written(
                bit_written(old(cpu)@, SysReg::PMCNTENCLR_EL0, 31, true),
                SysReg::PMCR_EL0,
                0,
                false,
            ),
    {
        let x = PMCNTENCLR_EL0::read(cpu);
        PMCNTENCLR_EL0::write(cpu, x.with_C(true));
        let x = PMCR_EL0::read(cpu);
        PMCR_EL0::write(cpu, x.with_E(false));
    }

    /// Lets the cycle counter count.
    pub fn start_cycle_counter(cpu: &mut Cpu)
        ensures
            final(cpu)@ == bit_written(old(cpu)@, SysReg::PMCNTENSET_EL0, 31, true),
    {
        let x = PMCNTENSET_EL0::read(cpu);
        PMCNTENSET_EL0::write(cpu, x.with_C(true));
    }

    /// Stops the cycle counter.
    pub fn stop_cycle_counter(cpu: &mut Cpu)
        ensures
            final(cpu)@ == bit_written(old(cpu)@, SysReg::PMCNTENCLR_EL0, 31, true),
    {
        let x = PMCNTENCLR_EL0::read(cpu);
        PMCNTENCLR_EL0::write(cpu, x.with_C(true));
    }

    /// Sets the cycle counter back to zero.
    pub fn reset_cycle_counter(cpu: &mut Cpu)
        ensures
            final(cpu)@ == bit_written(old(cpu)@, SysReg::PMCR_EL0, 2, true),
    {
        let x = PMCR_EL0::read(cpu);
        PMCR_EL0::write(cpu, x.with_C(true));
    }

    /// The count of the cycle counter.
    pub fn get_cycle_counter(cpu: &Cpu) -> (count: u64)
        ensures
            count == cpu@.read(SysReg::PMCCNTR_EL0),
    {
        PMCCNTR_EL0::read(cpu).CCNT()
    }
}

} // verus!
