//! The performance monitor with its event counters.
use crate::bits::{bit, field, with_bit, with_field};
use crate::perf::bit_written;
use crate::regs::{Cpu, CpuView, SysReg};
use crate::sys_regs::{
    PMCCFILTR_EL0, PMCCNTR_EL0, PMCNTENSET_EL0, PMCR_EL0, PMEVCNTR_EL0, PMEVTYPER_EL0,
    PMOVSCLR_EL0,
};
use vstd::prelude::*;

verus! {

/// The performance monitor.
pub struct PMU;

/// An event that a counter of the Cortex-A53 can count.
#[derive(Debug, Clone, Copy, PartialEq, Eq, Structural)]
pub enum Event {
    L1D_CACHE_ALLOCATE,
    CHAIN,
    BUS_CYCLES,
    TTBR_WRITE_RETIRED,
    INST_SPEC,
    MEMORY_ERROR,
    BUS_ACCESS,
    L2D_CACHE_WB,
    L2D_CACHE_REFILL,
    L2D_CACHE,
    L1D_CACHE_WB,
    L1I_CACHE,
    MEM_ACCESS,
    BR_PRED,
    CPU_CYCLES,
    BR_MIS_PRED,
    UNALIGNED_LDST_RETIRED,
    BR_RETURN_RETIRED,
    BR_IMMED_RETIRED,
    PC_WRITE_RETIRED,
    CID_WRITE_RETIRED,
    EXC_RETURN,
    EXC_TAKEN,
    INST_RETIRED,
    ST_RETIRED,
    LD_RETIRED,
    L1D_TLB_REFILL,
    L1D_CACHE,
    L1D_CACHE_REFILL,
    L1I_TLB_REFILL,
    L1I_CACHE_REFILL,
    SW_INCR,
    FOO,
}

impl Event {
    /// The number of the event.
    pub open spec fn number(self) -> u16 {
        match self {
            Event::L1D_CACHE_ALLOCATE => 0x1F,
            Event::CHAIN => 0x1E,
            Event::BUS_CYCLES => 0x1D,
            Event::TTBR_WRITE_RETIRED => 0x1C,
            Event::INST_SPEC => 0x1B,
            Event::MEMORY_ERROR => 0x1A,
            Event::BUS_ACCESS => 0x19,
            Event::L2D_CACHE_WB => 0x18,
            Event::L2D_CACHE_REFILL => 0x17,
            Event::L2D_CACHE => 0x16,
            Event::L1D_CACHE_WB => 0x15,
            Event::L1I_CACHE => 0x14,
            Event::MEM_ACCESS => 0x13,
            Event::BR_PRED => 0x12,
            Event::CPU_CYCLES => 0x11,
            Event::BR_MIS_PRED => 0x10,
            Event::UNALIGNED_LDST_RETIRED => 0x0F,
            Event::BR_RETURN_RETIRED => 0x0E,
            Event::BR_IMMED_RETIRED => 0x0D,
            Event::PC_WRITE_RETIRED => 0x0C,
            Event::CID_WRITE_RETIRED => 0x0B,
            Event::EXC_RETURN => 0x0A,
            Event::EXC_TAKEN => 0x09,
            Event::INST_RETIRED => 0x08,
            Event::ST_RETIRED => 0x07,
            Event::LD_RETIRED => 0x06,
            Event::L1D_TLB_REFILL => 0x05,
            Event::L1D_CACHE => 0x04,
            Event::L1D_CACHE_REFILL => 0x03,
            Event::L1I_TLB_REFILL => 0x02,
            Event::L1I_CACHE_REFILL => 0x01,
            Event::SW_INCR => 0x00,
            Event::FOO => 0x60,
        }
    }

    /// Computes [`Event::number`].
    pub fn code(self) -> (r: u16)
        ensures
            r == self.number(),
            r <= 0x3ff,
    {
        match self {
            Event::L1D_CACHE_ALLOCATE => 0x1F,
            Event::CHAIN => 0x1E,
            Event::BUS_CYCLES => 0x1D,
            Event::TTBR_WRITE_RETIRED => 0x1C,
            Event::INST_SPEC => 0x1B,
            Event::MEMORY_ERROR => 0x1A,
            Event::BUS_ACCESS => 0x19,
            Event::L2D_CACHE_WB => 0x18,
            Event::L2D_CACHE_REFILL => 0x17,
            Event::L2D_CACHE => 0x16,
            Event::L1D_CACHE_WB => 0x15,
            Event::L1I_CACHE => 0x14,
            Event::MEM_ACCESS => 0x13,
            Event::BR_PRED => 0x12,
            Event::CPU_CYCLES => 0x11,
            Event::BR_MIS_PRED => 0x10,
            Event::UNALIGNED_LDST_RETIRED => 0x0F,
            Event::BR_RETURN_RETIRED => 0x0E,
            Event::BR_IMMED_RETIRED => 0x0D,
            Event::PC_WRITE_RETIRED => 0x0C,
            Event::CID_WRITE_RETIRED => 0x0B,
            Event::EXC_RETURN => 0x0A,
            Event::EXC_TAKEN => 0x09,
            Event::INST_RETIRED => 0x08,
            Event::ST_RETIRED => 0x07,
            Event::LD_RETIRED => 0x06,
            Event::L1D_TLB_REFILL => 0x05,
            Event::L1D_CACHE => 0x04,
            Event::L1D_CACHE_REFILL => 0x03,
            Event::L1I_TLB_REFILL => 0x02,
            Event::L1I_CACHE_REFILL => 0x01,
            Event::SW_INCR => 0x00,
            Event::FOO => 0x60,
        }
    }
}

/// The count of a counter, and whether the counter has overflowed.
#[derive(Debug, PartialEq, Eq, Structural)]
pub enum CounterValue<T> {
    Counted(T),
    Overflowed(T),
}

impl<T: Copy> Clone for CounterValue<T> {
    fn clone(&self) -> (r: Self)
        ensures
            r == *self,
    {
        *self
    }
}

impl<T: Copy> Copy for CounterValue<T> {

}

/// A filter value that counts at non-secure EL2 only: the bits for the
/// other modes cleared, the bit for non-secure EL2 set.
pub open spec fn counting_at_el2(raw: u64) -> u64 {
    with_bit(
        with_bit(
            with_bit(
                with_bit(
                    with_bit(with_bit(with_bit(raw, 31, false), 30, false), 29, false),
                    28,
                    false,
                ),
                27,
                true,
            ),
            26,
            false,
        ),
        24,
        false,
    )
}

/// The value of the control register that switches the monitor on: enabled,
/// event counters and cycle counter reset, no clock divider, long cycle
/// counter.
pub open spec fn monitor_on(raw: u64) -> u64 {
    with_bit(
        with_bit(with_bit(with_bit(with_bit(raw, 0, true), 1, true), 2, true), 3, false),
        6,
        true,
    )
}

/// The state after the monitor was switched on: the filter of the cycle
/// counter set, all counters stopped, the overflow flags written, the
/// monitor enabled and reset.
pub open spec fn enabled(cpu: CpuView) -> CpuView {
    let filtered = cpu.written(
        SysReg::PMCCFILTR_EL0,
        counting_at_el2(cpu.read(SysReg::PMCCFILTR_EL0)),
    ).written(SysReg::PMCNTENSET_EL0, 0).written(SysReg::PMOVSCLR_EL0, 0);
    filtered.written(SysReg::PMCR_EL0, monitor_on(filtered.read(SysReg::PMCR_EL0)))
}

/// The state after counter `n` was set up to count `event` at non-secure
/// EL2. There are counters 0 to 30; for any other `n` nothing is done.
pub open spec fn counter_set_up(cpu: CpuView, n: usize, event: Event) -> CpuView {
    if n <= 30 {
        cpu.written(
            SysReg::PMEVTYPER_EL0(n as u8),
            counting_at_el2(
                with_field(
                    cpu.read(SysReg::PMEVTYPER_EL0(n as u8)),
                    0,
                    0x3ff,
                    event.number() as u64,
                ),
            ),
        )
    } else {
        cpu
    }
}

/// What a read of counter `n` gives: the low 32 bits of the counter, marked
/// as overflowed where the overflow flag of the counter is set. For an `n`
/// above 30 it is a count of zero.
pub open spec fn counter_value(cpu: CpuView, n: usize) -> CounterValue<u32> {
    if n <= 30 {
        let count = field(cpu.read(SysReg::PMEVCNTR_EL0(n as u8)), 0, 0xffff_ffff) as u32;
        if bit(cpu.read(SysReg::PMOVSCLR_EL0), n as u32) {
            CounterValue::Overflowed(count)
        } else {
            CounterValue::Counted(count)
        }
    } else {
        CounterValue::Counted(0)
    }
}

impl PMU {
    /// Switches the monitor on, with every counter reset and stopped.
    pub fn enable(cpu: &mut Cpu)
        ensures
            final(cpu)@ == enabled(old(cpu)@),
    {
        let pmccfiltr_el0 = PMCCFILTR_EL0::read(cpu);
        PMCCFILTR_EL0::write(
            cpu,
            pmccfiltr_el0.with_P(false).with_U(false).with_NSK(false).with_NSU(false).with_NSH(
                true,
            ).with_M(false).with_SH(false),
        );

        PMCNTENSET_EL0::write(cpu, PMCNTENSET_EL0::new_with_raw_value(0));
        PMOVSCLR_EL0::write(cpu, PMOVSCLR_EL0::new_with_raw_value(0));

        let pmcr_el0 = PMCR_EL0::read(cpu);
        PMCR_EL0::write(
            cpu,
            pmcr_el0.with_E(true).with_P(true).with_C(true).with_D(false).with_LC(true),
        );
    }

    /// Switches the monitor off and stops every counter.
    pub fn disable(cpu: &mut Cpu)
        ensures
            final(cpu)@ == bit_written(old(cpu)@, SysReg::PMCR_EL0, 0, false).written(
                SysReg::PMCNTENSET_EL0,
                0,
            ),
    {
        let pmcr_el0 = PMCR_EL0::read(cpu);
        PMCR_EL0::write(cpu, pmcr_el0.with_E(false));
        PMCNTENSET_EL0::write(cpu, PMCNTENSET_EL0::new_with_raw_value(0));
    }

    /// Sets counter `n` up to count `event`.
    pub fn setup_counter(cpu: &mut Cpu, n: usize, event: Event)
        ensures
            final(cpu)@ == counter_set_up(old(cpu)@, n, event),
    {
        if n <= 30 {
            let x = PMEVTYPER_EL0::read(cpu, n as u8);
            PMEVTYPER_EL0::write(
                cpu,
                n as u8,
                x.with_EVT_COUNT(event.code()).with_P(false).with_U(false).with_NSK(
                    false,
                ).with_NSU(false).with_NSH(true).with_M(false).with_SH(false),
            );
        }
    }

    /// Lets every counter count.
    pub fn start(cpu: &mut Cpu)
        ensures
            final(cpu)@ == old(cpu)@.written(SysReg::PMCNTENSET_EL0, 0xffff_ffff),
    {
        PMCNTENSET_EL0::write(cpu, PMCNTENSET_EL0::new_with_raw_value(0xffff_ffff));
    }

    /// Stops every counter.
    pub fn stop(cpu: &mut Cpu)
        ensures
            final(cpu)@ == old(cpu)@.written(SysReg::PMCNTENSET_EL0, 0),
    {
        PMCNTENSET_EL0::write(cpu, PMCNTENSET_EL0::new_with_raw_value(0));
    }

    /// Sets every counter back to zero and writes the overflow flags.
    pub fn reset(cpu: &mut Cpu)
        ensures
            final(cpu)@ == old(cpu)@.written(
                SysReg::PMCR_EL0,
                with_bit(with_bit(old(cpu)@.read(SysReg::PMCR_EL0), 2, true), 1, true),
            ).written(SysReg::PMOVSCLR_EL0, 0),
    {
        let pmcr_el0 = PMCR_EL0::read(cpu);
        PMCR_EL0::write(cpu, pmcr_el0.with_C(true).with_P(true));
        PMOVSCLR_EL0::write(cpu, PMOVSCLR_EL0::new_with_raw_value(0));
    }

    /// The count of the cycle counter, marked as overflowed where its
    /// overflow flag is set.
    pub fn get_cycle_counter(cpu: &Cpu) -> (value: CounterValue<u64>)
        ensures
            value == if bit(cpu@.read(SysReg::PMOVSCLR_EL0), 31) {
                CounterValue::Overflowed(cpu@.read(SysReg::PMCCNTR_EL0))
            } else {
                CounterValue::Counted(cpu@.read(SysReg::PMCCNTR_EL0))
            },
    {
        if !PMOVSCLR_EL0::read(cpu).C() {
            CounterValue::Counted(PMCCNTR_EL0::read(cpu).CCNT())
        } else {
            CounterValue::Overflowed(PMCCNTR_EL0::read(cpu).CCNT())
        }
    }

    /// The count of counter `n`, marked as overflowed where its overflow
    /// flag is set.
    pub fn get_counter(cpu: &Cpu, n: usize) -> (value: CounterValue<u32>)
        ensures
            value == counter_value(cpu@, n),
    {
        if n <= 30 {
            if !PMOVSCLR_EL0::read(cpu).P(n as u32) {
                CounterValue::Counted(PMEVCNTR_EL0::read(cpu, n as u8).EVCNT())
            } else {
                CounterValue::Overflowed(PMEVCNTR_EL0::read(cpu, n as u8).EVCNT())
            }
        } else {
            CounterValue::Counted(0)
        }
    }
}

} // verus!
