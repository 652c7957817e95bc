//! Registers of the generic timer.
use crate::bits::{bit, get_bit, set_bit, with_bit};
use crate::regs::{Cpu, SysReg};
use vstd::prelude::*;

verus! {

/// Physical timer control.
///
/// A value of the register `CNTP_CTL_EL0`.
#[derive(Debug, Clone, Copy, PartialEq, Eq, Structural)]
pub struct CNTP_CTL_EL0 {
    pub raw: u64,
}

impl CNTP_CTL_EL0 {
    /// The value with the raw content `raw`.
    pub fn new_with_raw_value(raw: u64) -> (r: Self)
        ensures
            r.raw == raw,
    {
        Self { raw }
    }

    /// The raw content.
    pub fn raw_value(self) -> (raw: u64)
        ensures
            raw == self.raw,
    {
        self.raw
    }

    /// The value with only the reserved-as-one bits set.
    pub fn DEFAULT() -> (r: Self)
        ensures
            r.raw == SysReg::CNTP_CTL_EL0.res1(),
    {
        Self { raw: SysReg::CNTP_CTL_EL0.reserved_one() }
    }

    /// Reads the register.
    pub fn read(cpu: &Cpu) -> (r: Self)
        ensures
            r.raw == cpu@.read(SysReg::CNTP_CTL_EL0),
    {
        Self { raw: cpu.read(SysReg::CNTP_CTL_EL0) }
    }

    /// Writes the register.
    pub fn write(cpu: &mut Cpu, value: Self)
        ensures
            final(cpu)@ == old(cpu)@.written(SysReg::CNTP_CTL_EL0, value.raw),
    {
        cpu.write(SysReg::CNTP_CTL_EL0, value.raw);
    }

    /// The timer condition is met: bit 2.
    pub fn ISTATUS(self) -> (r: bool)
        ensures
            r == bit(self.raw, 2),
    {
        get_bit(self.raw, 2)
    }

    /// The timer interrupt is masked: bit 1.
    pub fn IMASK(self) -> (r: bool)
        ensures
            r == bit(self.raw, 1),
    {
        get_bit(self.raw, 1)
    }

    /// This value with `IMASK`, bit 1, set to `value`.
    pub fn with_IMASK(self, value: bool) -> (r: Self)
        ensures
            r.raw == with_bit(self.raw, 1, value),
    {
        Self { raw: set_bit(self.raw, 1, value) }
    }

    /// The timer is enabled: bit 0.
    pub fn ENABLE(self) -> (r: bool)
        ensures
            r == bit(self.raw, 0),
    {
        get_bit(self.raw, 0)
    }

    /// This value with `ENABLE`, bit 0, set to `value`.
    pub fn with_ENABLE(self, value: bool) -> (r: Self)
        ensures
            r.raw == with_bit(self.raw, 0, value),
    {
        Self { raw: set_bit(self.raw, 0, value) }
    }
}

/// Physical count.
///
/// A value of the register `CNTPCT_EL0`.
#[derive(Debug, Clone, Copy, PartialEq, Eq, Structural)]
pub struct CNTPCT_EL0 {
    pub raw: u64,
}

impl CNTPCT_EL0 {
    /// The value with the raw content `raw`.
    pub fn new_with_raw_value(raw: u64) -> (r: Self)
        ensures
            r.raw == raw,
    {
        Self { raw }
    }

    /// The raw content.
    pub fn raw_value(self) -> (raw: u64)
        ensures
            raw == self.raw,
    {
        self.raw
    }

    /// The value with only the reserved-as-one bits set.
    pub fn DEFAULT() -> (r: Self)
        ensures
            r.raw == SysReg::CNTPCT_EL0.res1(),
    {
        Self { raw: SysReg::CNTPCT_EL0.reserved_one() }
    }

    /// Reads the register.
    pub fn read(cpu: &Cpu) -> (r: Self)
        ensures
            r.raw == cpu@.read(SysReg::CNTPCT_EL0),
    {
        Self { raw: cpu.read(SysReg::CNTPCT_EL0) }
    }

    /// The count: all 64 bits.
    pub fn CNT(self) -> (r: u64)
        ensures
            r == self.raw,
    {
        self.raw
    }
}

/// Virtual count.
///
/// A value of the register `CNTVCT_EL0`.
#[derive(Debug, Clone, Copy, PartialEq, Eq, Structural)]
pub struct CNTVCT_EL0 {
    pub raw: u64,
}

impl CNTVCT_EL0 {
    /// The value with the raw content `raw`.
    pub fn new_with_raw_value(raw: u64) -> (r: Self)
        ensures
            r.raw == raw,
    {
        Self { raw }
    }

    /// The raw content.
    pub fn raw_value(self) -> (raw: u64)
        ensures
            raw == self.raw,
    {
        self.raw
    }

    /// The value with only the reserved-as-one bits set.
    pub fn DEFAULT() -> (r: Self)
        ensures
            r.raw == SysReg::CNTVCT_EL0.res1(),
    {
        Self { raw: SysReg::CNTVCT_EL0.reserved_one() }
    }

    /// Reads the register.
    pub fn read(cpu: &Cpu) -> (r: Self)
        ensures
            r.raw == cpu@.read(SysReg::CNTVCT_EL0),
    {
        Self { raw: cpu.read(SysReg::CNTVCT_EL0) }
    }

    /// The count: all 64 bits.
    pub fn CNT(self) -> (r: u64)
        ensures
            r == self.raw,
    {
        self.raw
    }
}

/// Virtual count offset.
///
/// A value of the register `CNTVOFF_EL2`.
#[derive(Debug, Clone, Copy, PartialEq, Eq, Structural)]
pub struct CNTVOFF_EL2 {
    pub raw: u64,
}

impl CNTVOFF_EL2 {
    /// The value with the raw content `raw`.
    pub fn new_with_raw_value(raw: u64) -> (r: Self)
        ensures
            r.raw == raw,
    {
        Self { raw }
    }

    /// The raw content.
    pub fn raw_value(self) -> (raw: u64)
        ensures
            raw == self.raw,
    {
        self.raw
    }

    /// The value with only the reserved-as-one bits set.
    pub fn DEFAULT() -> (r: Self)
        ensures
            r.raw == SysReg::CNTVOFF_EL2.res1(),
    {
        Self { raw: SysReg::CNTVOFF_EL2.reserved_one() }
    }

    /// Reads the register.
    pub fn read(cpu: &Cpu) -> (r: Self)
        ensures
            r.raw == cpu@.read(SysReg::CNTVOFF_EL2),
    {
        Self { raw: cpu.read(SysReg::CNTVOFF_EL2) }
    }

    /// Writes the register.
    pub fn write(cpu: &mut Cpu, value: Self)
        ensures
            final(cpu)@ == old(cpu)@.written(SysReg::CNTVOFF_EL2, value.raw),
    {
        cpu.write(SysReg::CNTVOFF_EL2, value.raw);
    }

    /// The count: all 64 bits.
    pub fn CNT(self) -> (r: u64)
        ensures
            r == self.raw,
    {
        self.raw
    }

    /// This value with `CNT`, all 64 bits, set to `value`.
    pub fn with_CNT(self, value: u64) -> (r: Self)
        ensures
            r.raw == value,
    {
        Self { raw: value }
    }
}

/// Counter frequency.
///
/// A value of the register `CNTFRQ_EL0`.
#[derive(Debug, Clone, Copy, PartialEq, Eq, Structural)]
pub struct CNTFRQ_EL0 {
    pub raw: u64,
}

impl CNTFRQ_EL0 {
    /// The value with the raw content `raw`.
    pub fn new_with_raw_value(raw: u64) -> (r: Self)
        ensures
            r.raw == raw,
    {
        Self { raw }
    }

    /// The raw content.
    pub fn raw_value(self) -> (raw: u64)
        ensures
            raw == self.raw,
    {
        self.raw
    }

    /// The value with only the reserved-as-one bits set.
    pub fn DEFAULT() -> (r: Self)
        ensures
            r.raw == SysReg::CNTFRQ_EL0.res1(),
    {
        Self { raw: SysReg::CNTFRQ_EL0.reserved_one() }
    }

    /// Reads the register.
    pub fn read(cpu: &Cpu) -> (r: Self)
        ensures
            r.raw == cpu@.read(SysReg::CNTFRQ_EL0),
    {
        Self { raw: cpu.read(SysReg::CNTFRQ_EL0) }
    }

    /// Writes the register.
    pub fn write(cpu: &mut Cpu, value: Self)
        ensures
            final(cpu)@ == old(cpu)@.written(SysReg::CNTFRQ_EL0, value.raw),
    {
        cpu.write(SysReg::CNTFRQ_EL0, value.raw);
    }

    /// The frequency of the counter in Hz: all 64 bits.
    pub fn FREQ(self) -> (r: u64)
        ensures
            r == self.raw,
    {
        self.raw
    }

    /// This value with `FREQ`, all 64 bits, set to `value`.
    pub fn with_FREQ(self, value: u64) -> (r: Self)
        ensures
            r.raw == value,
    {
        Self { raw: value }
    }
}

} // verus!
