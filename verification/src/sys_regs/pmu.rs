//! Registers of the performance monitor.
use crate::bits::{bit, field, get_bit, get_field, set_bit, set_field, with_bit, with_field};
use crate::regs::{Cpu, SysReg};
use vstd::prelude::*;

verus! {

/// Cycle counter filter.
///
/// A value of the register `PMCCFILTR_EL0`.
#[derive(Debug, Clone, Copy, PartialEq, Eq, Structural)]
pub struct PMCCFILTR_EL0 {
    pub raw: u64,
}

impl PMCCFILTR_EL0 {
    /// The value with the raw content `raw`.
    pub fn new_with_raw_value(raw: u64) -> (r: Self)
        ensures
            r.raw == raw,
    {
        Self { raw }
    }

    /// The raw content.
    pub fn raw_value(self) -> (raw: u64)
        ensures
            raw == self.raw,
    {
        self.raw
    }

    /// The value with only the reserved-as-one bits set.
    pub fn DEFAULT() -> (r: Self)
        ensures
            r.raw == SysReg::PMCCFILTR_EL0.res1(),
    {
        Self { raw: SysReg::PMCCFILTR_EL0.reserved_one() }
    }

    /// Reads the register.
    pub fn read(cpu: &Cpu) -> (r: Self)
        ensures
            r.raw == cpu@.read(SysReg::PMCCFILTR_EL0),
    {
        Self { raw: cpu.read(SysReg::PMCCFILTR_EL0) }
    }

    /// Writes the register.
    pub fn write(cpu: &mut Cpu, value: Self)
        ensures
            final(cpu)@ == old(cpu)@.written(SysReg::PMCCFILTR_EL0, value.raw),
    {
        cpu.write(SysReg::PMCCFILTR_EL0, value.raw);
    }

    /// Do not count at EL1: bit 31.
    pub fn P(self) -> (r: bool)
        ensures
            r == bit(self.raw, 31),
    {
        get_bit(self.raw, 31)
    }

    /// This value with `P`, bit 31, set to `value`.
    pub fn with_P(self, value: bool) -> (r: Self)
        ensures
            r.raw == with_bit(self.raw, 31, value),
    {
        Self { raw: set_bit(self.raw, 31, value) }
    }

    /// Do not count at EL0: bit 30.
    pub fn U(self) -> (r: bool)
        ensures
            r == bit(self.raw, 30),
    {
        get_bit(self.raw, 30)
    }

    /// This value with `U`, bit 30, set to `value`.
    pub fn with_U(self, value: bool) -> (r: Self)
        ensures
            r.raw == with_bit(self.raw, 30, value),
    {
        Self { raw: set_bit(self.raw, 30, value) }
    }

    /// Count at non-secure EL1 as at secure EL1: bit 29.
    pub fn NSK(self) -> (r: bool)
        ensures
            r == bit(self.raw, 29),
    {
        get_bit(self.raw, 29)
    }

    /// This value with `NSK`, bit 29, set to `value`.
    pub fn with_NSK(self, value: bool) -> (r: Self)
        ensures
            r.raw == with_bit(self.raw, 29, value),
    {
        Self { raw: set_bit(self.raw, 29, value) }
    }

    /// Count at non-secure EL0 as at secure EL0: bit 28.
    pub fn NSU(self) -> (r: bool)
        ensures
            r == bit(self.raw, 28),
    {
        get_bit(self.raw, 28)
    }

    /// This value with `NSU`, bit 28, set to `value`.
    pub fn with_NSU(self, value: bool) -> (r: Self)
        ensures
            r.raw == with_bit(self.raw, 28, value),
    {
        Self { raw: set_bit(self.raw, 28, value) }
    }

    /// Count at non-secure EL2: bit 27.
    pub fn NSH(self) -> (r: bool)
        ensures
            r == bit(self.raw, 27),
    {
        get_bit(self.raw, 27)
    }

    /// This value with `NSH`, bit 27, set to `value`.
    pub fn with_NSH(self, value: bool) -> (r: Self)
        ensures
            r.raw == with_bit(self.raw, 27, value),
    {
        Self { raw: set_bit(self.raw, 27, value) }
    }

    /// Count at EL3 as at secure EL1: bit 26.
    pub fn M(self) -> (r: bool)
        ensures
            r == bit(self.raw, 26),
    {
        get_bit(self.raw, 26)
    }

    /// This value with `M`, bit 26, set to `value`.
    pub fn with_M(self, value: bool) -> (r: Self)
        ensures
            r.raw == with_bit(self.raw, 26, value),
    {
        Self { raw: set_bit(self.raw, 26, value) }
    }

    /// Count at secure EL2: bit 24.
    pub fn SH(self) -> (r: bool)
        ensures
            r == bit(self.raw, 24),
    {
        get_bit(self.raw, 24)
    }

    /// This value with `SH`, bit 24, set to `value`.
    pub fn with_SH(self, value: bool) -> (r: Self)
        ensures
            r.raw == with_bit(self.raw, 24, value),
    {
        Self { raw: set_bit(self.raw, 24, value) }
    }
}

/// Cycle counter.
///
/// A value of the register `PMCCNTR_EL0`.
#[derive(Debug, Clone, Copy, PartialEq, Eq, Structural)]
pub struct PMCCNTR_EL0 {
    pub raw: u64,
}

impl PMCCNTR_EL0 {
    /// The value with the raw content `raw`.
    pub fn new_with_raw_value(raw: u64) -> (r: Self)
        ensures
            r.raw == raw,
    {
        Self { raw }
    }

    /// The raw content.
    pub fn raw_value(self) -> (raw: u64)
        ensures
            raw == self.raw,
    {
        self.raw
    }

    /// The value with only the reserved-as-one bits set.
    pub fn DEFAULT() -> (r: Self)
        ensures
            r.raw == SysReg::PMCCNTR_EL0.res1(),
    {
        Self { raw: SysReg::PMCCNTR_EL0.reserved_one() }
    }

    /// Reads the register.
    pub fn read(cpu: &Cpu) -> (r: Self)
        ensures
            r.raw == cpu@.read(SysReg::PMCCNTR_EL0),
    {
        Self { raw: cpu.read(SysReg::PMCCNTR_EL0) }
    }

    /// Writes the register.
    pub fn write(cpu: &mut Cpu, value: Self)
        ensures
            final(cpu)@ == old(cpu)@.written(SysReg::PMCCNTR_EL0, value.raw),
    {
        cpu.write(SysReg::PMCCNTR_EL0, value.raw);
    }

    /// The cycle count: all 64 bits.
    pub fn CCNT(self) -> (r: u64)
        ensures
            r == self.raw,
    {
        self.raw
    }
}

/// Common events implemented, first register.
///
/// A value of the register `PMCEID0_EL0`.
#[derive(Debug, Clone, Copy, PartialEq, Eq, Structural)]
pub struct PMCEID0_EL0 {
    pub raw: u64,
}

impl PMCEID0_EL0 {
    /// The value with the raw content `raw`.
    pub fn new_with_raw_value(raw: u64) -> (r: Self)
        ensures
            r.raw == raw,
    {
        Self { raw }
    }

    /// The raw content.
    pub fn raw_value(self) -> (raw: u64)
        ensures
            raw == self.raw,
    {
        self.raw
    }

    /// The value with only the reserved-as-one bits set.
    pub fn DEFAULT() -> (r: Self)
        ensures
            r.raw == SysReg::PMCEID0_EL0.res1(),
    {
        Self { raw: SysReg::PMCEID0_EL0.reserved_one() }
    }

    /// Reads the register.
    pub fn read(cpu: &Cpu) -> (r: Self)
        ensures
            r.raw == cpu@.read(SysReg::PMCEID0_EL0),
    {
        Self { raw: cpu.read(SysReg::PMCEID0_EL0) }
    }

    /// Whether a common event is implemented: the flag with the number `index`, one bit each
    /// from bit 0 up.
    pub fn ID(self, index: u32) -> (r: bool)
        requires
            index < 32,
        ensures
            r == bit(self.raw, index),
    {
        get_bit(self.raw, index)
    }
}

/// Common events implemented, second register.
///
/// A value of the register `PMCEID1_EL0`.
#[derive(Debug, Clone, Copy, PartialEq, Eq, Structural)]
pub struct PMCEID1_EL0 {
    pub raw: u64,
}

impl PMCEID1_EL0 {
    /// The value with the raw content `raw`.
    pub fn new_with_raw_value(raw: u64) -> (r: Self)
        ensures
            r.raw == raw,
    {
        Self { raw }
    }

    /// The raw content.
    pub fn raw_value(self) -> (raw: u64)
        ensures
            raw == self.raw,
    {
        self.raw
    }

    /// The value with only the reserved-as-one bits set.
    pub fn DEFAULT() -> (r: Self)
        ensures
            r.raw == SysReg::PMCEID1_EL0.res1(),
    {
        Self { raw: SysReg::PMCEID1_EL0.reserved_one() }
    }

    /// Reads the register.
    pub fn read(cpu: &Cpu) -> (r: Self)
        ensures
            r.raw == cpu@.read(SysReg::PMCEID1_EL0),
    {
        Self { raw: cpu.read(SysReg::PMCEID1_EL0) }
    }

    /// Whether a common event is implemented: the flag with the number `index`, one bit each
    /// from bit 0 up.
    pub fn ID(self, index: u32) -> (r: bool)
        requires
            index < 32,
        ensures
            r == bit(self.raw, index),
    {
        get_bit(self.raw, index)
    }
}

/// Counter enable set.
///
/// A value of the register `PMCNTENSET_EL0`.
#[derive(Debug, Clone, Copy, PartialEq, Eq, Structural)]
pub struct PMCNTENSET_EL0 {
    pub raw: u64,
}

impl PMCNTENSET_EL0 {
    /// The value with the raw content `raw`.
    pub fn new_with_raw_value(raw: u64) -> (r: Self)
        ensures
            r.raw == raw,
    {
        Self { raw }
    }

    /// The raw content.
    pub fn raw_value(self) -> (raw: u64)
        ensures
            raw == self.raw,
    {
        self.raw
    }

    /// The value with only the reserved-as-one bits set.
    pub fn DEFAULT() -> (r: Self)
        ensures
            r.raw == SysReg::PMCNTENSET_EL0.res1(),
    {
        Self { raw: SysReg::PMCNTENSET_EL0.reserved_one() }
    }

    /// Reads the register.
    pub fn read(cpu: &Cpu) -> (r: Self)
        ensures
            r.raw == cpu@.read(SysReg::PMCNTENSET_EL0),
    {
        Self { raw: cpu.read(SysReg::PMCNTENSET_EL0) }
    }

    /// Writes the register.
    pub fn write(cpu: &mut Cpu, value: Self)
        ensures
            final(cpu)@ == old(cpu)@.written(SysReg::PMCNTENSET_EL0, value.raw),
    {
        cpu.write(SysReg::PMCNTENSET_EL0, value.raw);
    }

    /// The cycle counter: bit 31.
    pub fn C(self) -> (r: bool)
        ensures
            r == bit(self.raw, 31),
    {
        get_bit(self.raw, 31)
    }

    /// This value with `C`, bit 31, set to `value`.
    pub fn with_C(self, value: bool) -> (r: Self)
        ensures
            r.raw == with_bit(self.raw, 31, value),
    {
        Self { raw: set_bit(self.raw, 31, value) }
    }

    /// An event counter: the flag with the number `index`, one bit each
    /// from bit 0 up.
    pub fn P(self, index: u32) -> (r: bool)
        requires
            index < 31,
        ensures
            r == bit(self.raw, index),
    {
        get_bit(self.raw, index)
    }

    /// This value with the flag `P` with the number `index` set to
    /// `value`.
    pub fn with_P(self, index: u32, value: bool) -> (r: Self)
        requires
            index < 31,
        ensures
            r.raw == with_bit(self.raw, index, value),
    {
        Self { raw: set_bit(self.raw, index, value) }
    }
}

/// Counter enable clear.
///
/// A value of the register `PMCNTENCLR_EL0`.
#[derive(Debug, Clone, Copy, PartialEq, Eq, Structural)]
pub struct PMCNTENCLR_EL0 {
    pub raw: u64,
}

impl PMCNTENCLR_EL0 {
    /// The value with the raw content `raw`.
    pub fn new_with_raw_value(raw: u64) -> (r: Self)
        ensures
            r.raw == raw,
    {
        Self { raw }
    }

    /// The raw content.
    pub fn raw_value(self) -> (raw: u64)
        ensures
            raw == self.raw,
    {
        self.raw
    }

    /// The value with only the reserved-as-one bits set.
    pub fn DEFAULT() -> (r: Self)
        ensures
            r.raw == SysReg::PMCNTENCLR_EL0.res1(),
    {
        Self { raw: SysReg::PMCNTENCLR_EL0.reserved_one() }
    }

    /// Reads the register.
    pub fn read(cpu: &Cpu) -> (r: Self)
        ensures
            r.raw == cpu@.read(SysReg::PMCNTENCLR_EL0),
    {
        Self { raw: cpu.read(SysReg::PMCNTENCLR_EL0) }
    }

    /// Writes the register.
    pub fn write(cpu: &mut Cpu, value: Self)
        ensures
            final(cpu)@ == old(cpu)@.written(SysReg::PMCNTENCLR_EL0, value.raw),
    {
        cpu.write(SysReg::PMCNTENCLR_EL0, value.raw);
    }

    /// The cycle counter: bit 31.
    pub fn C(self) -> (r: bool)
        ensures
            r == bit(self.raw, 31),
    {
        get_bit(self.raw, 31)
    }

    /// This value with `C`, bit 31, set to `value`.
    pub fn with_C(self, value: bool) -> (r: Self)
        ensures
            r.raw == with_bit(self.raw, 31, value),
    {
        Self { raw: set_bit(self.raw, 31, value) }
    }

    /// An event counter: the flag with the number `index`, one bit each
    /// from bit 0 up.
    pub fn P(self, index: u32) -> (r: bool)
        requires
            index < 31,
        ensures
            r == bit(self.raw, index),
    {
        get_bit(self.raw, index)
    }

    /// This value with the flag `P` with the number `index` set to
    /// `value`.
    pub fn with_P(self, index: u32, value: bool) -> (r: Self)
        requires
            index < 31,
        ensures
            r.raw == with_bit(self.raw, index, value),
    {
        Self { raw: set_bit(self.raw, index, value) }
    }
}

/// Performance monitors control.
///
/// A value of the register `PMCR_EL0`.
#[derive(Debug, Clone, Copy, PartialEq, Eq, Structural)]
pub struct PMCR_EL0 {
    pub raw: u64,
}

impl PMCR_EL0 {
    /// The value with the raw content `raw`.
    pub fn new_with_raw_value(raw: u64) -> (r: Self)
        ensures
            r.raw == raw,
    {
        Self { raw }
    }

    /// The raw content.
    pub fn raw_value(self) -> (raw: u64)
        ensures
            raw == self.raw,
    {
        self.raw
    }

    /// The value with only the reserved-as-one bits set.
    pub fn DEFAULT() -> (r: Self)
        ensures
            r.raw == SysReg::PMCR_EL0.res1(),
    {
        Self { raw: SysReg::PMCR_EL0.reserved_one() }
    }

    /// Reads the register.
    pub fn read(cpu: &Cpu) -> (r: Self)
        ensures
            r.raw == cpu@.read(SysReg::PMCR_EL0),
    {
        Self { raw: cpu.read(SysReg::PMCR_EL0) }
    }

    /// Writes the register.
    pub fn write(cpu: &mut Cpu, value: Self)
        ensures
            final(cpu)@ == old(cpu)@.written(SysReg::PMCR_EL0, value.raw),
    {
        cpu.write(SysReg::PMCR_EL0, value.raw);
    }

    /// Event counters implemented: bits 11 to 15.
    pub fn N(self) -> (r: u8)
        ensures
            r as u64 == field(self.raw, 11, 0x1F),
            r <= 0x1F,
    {
        get_field(self.raw, 11, 0x1F) as u8
    }

    /// Long cycle counter: bit 6.
    pub fn LC(self) -> (r: bool)
        ensures
            r == bit(self.raw, 6),
    {
        get_bit(self.raw, 6)
    }

    /// This value with `LC`, bit 6, set to `value`.
    pub fn with_LC(self, value: bool) -> (r: Self)
        ensures
            r.raw == with_bit(self.raw, 6, value),
    {
        Self { raw: set_bit(self.raw, 6, value) }
    }

    /// Count every 64th cycle: bit 3.
    pub fn D(self) -> (r: bool)
        ensures
            r == bit(self.raw, 3),
    {
        get_bit(self.raw, 3)
    }

    /// This value with `D`, bit 3, set to `value`.
    pub fn with_D(self, value: bool) -> (r: Self)
        ensures
            r.raw == with_bit(self.raw, 3, value),
    {
        Self { raw: set_bit(self.raw, 3, value) }
    }

    /// Reset the cycle counter: bit 2.
    pub fn C(self) -> (r: bool)
        ensures
            r == bit(self.raw, 2),
    {
        get_bit(self.raw, 2)
    }

    /// This value with `C`, bit 2, set to `value`.
    pub fn with_C(self, value: bool) -> (r: Self)
        ensures
            r.raw == with_bit(self.raw, 2, value),
    {
        Self { raw: set_bit(self.raw, 2, value) }
    }

    /// Reset the event counters: bit 1.
    pub fn P(self) -> (r: bool)
        ensures
            r == bit(self.raw, 1),
    {
        get_bit(self.raw, 1)
    }

    /// This value with `P`, bit 1, set to `value`.
    pub fn with_P(self, value: bool) -> (r: Self)
        ensures
            r.raw == with_bit(self.raw, 1, value),
    {
        Self { raw: set_bit(self.raw, 1, value) }
    }

    /// Enable the counters: bit 0.
    pub fn E(self) -> (r: bool)
        ensures
            r == bit(self.raw, 0),
    {
        get_bit(self.raw, 0)
    }

    /// This value with `E`, bit 0, set to `value`.
    pub fn with_E(self, value: bool) -> (r: Self)
        ensures
            r.raw == with_bit(self.raw, 0, value),
    {
        Self { raw: set_bit(self.raw, 0, value) }
    }
}

/// Counter overflow flags.
///
/// A value of the register `PMOVSCLR_EL0`.
#[derive(Debug, Clone, Copy, PartialEq, Eq, Structural)]
pub struct PMOVSCLR_EL0 {
    pub raw: u64,
}

impl PMOVSCLR_EL0 {
    /// The value with the raw content `raw`.
    pub fn new_with_raw_value(raw: u64) -> (r: Self)
        ensures
            r.raw == raw,
    {
        Self { raw }
    }

    /// The raw content.
    pub fn raw_value(self) -> (raw: u64)
        ensures
            raw == self.raw,
    {
        self.raw
    }

    /// The value with only the reserved-as-one bits set.
    pub fn DEFAULT() -> (r: Self)
        ensures
            r.raw == SysReg::PMOVSCLR_EL0.res1(),
    {
        Self { raw: SysReg::PMOVSCLR_EL0.reserved_one() }
    }

    /// Reads the register.
    pub fn read(cpu: &Cpu) -> (r: Self)
        ensures
            r.raw == cpu@.read(SysReg::PMOVSCLR_EL0),
    {
        Self { raw: cpu.read(SysReg::PMOVSCLR_EL0) }
    }

    /// Writes the register.
    pub fn write(cpu: &mut Cpu, value: Self)
        ensures
            final(cpu)@ == old(cpu)@.written(SysReg::PMOVSCLR_EL0, value.raw),
    {
        cpu.write(SysReg::PMOVSCLR_EL0, value.raw);
    }

    /// Overflow of the cycle counter: bit 31.
    pub fn C(self) -> (r: bool)
        ensures
            r == bit(self.raw, 31),
    {
        get_bit(self.raw, 31)
    }

    /// This value with `C`, bit 31, set to `value`.
    pub fn with_C(self, value: bool) -> (r: Self)
        ensures
            r.raw == with_bit(self.raw, 31, value),
    {
        Self { raw: set_bit(self.raw, 31, value) }
    }

    /// Overflow of an event counter: the flag with the number `index`, one bit each
    /// from bit 0 up.
    pub fn P(self, index: u32) -> (r: bool)
        requires
            index < 31,
        ensures
            r == bit(self.raw, index),
    {
        get_bit(self.raw, index)
    }

    /// This value with the flag `P` with the number `index` set to
    /// `value`.
    pub fn with_P(self, index: u32, value: bool) -> (r: Self)
        requires
            index < 31,
        ensures
            r.raw == with_bit(self.raw, index, value),
    {
        Self { raw: set_bit(self.raw, index, value) }
    }
}

/// Event counter `n`.
///
/// A value of one of the registers `PMEVCNTR_EL0`.
#[derive(Debug, Clone, Copy, PartialEq, Eq, Structural)]
pub struct PMEVCNTR_EL0 {
    pub raw: u64,
}

impl PMEVCNTR_EL0 {
    /// The value with the raw content `raw`.
    pub fn new_with_raw_value(raw: u64) -> (r: Self)
        ensures
            r.raw == raw,
    {
        Self { raw }
    }

    /// The raw content.
    pub fn raw_value(self) -> (raw: u64)
        ensures
            raw == self.raw,
    {
        self.raw
    }

    /// Reads the register of counter `n`.
    pub fn read(cpu: &Cpu, n: u8) -> (r: Self)
        requires
            n < 31,
        ensures
            r.raw == cpu@.read(SysReg::PMEVCNTR_EL0(n)),
    {
        Self { raw: cpu.read(SysReg::PMEVCNTR_EL0(n)) }
    }

    /// Writes the register of counter `n`.
    pub fn write(cpu: &mut Cpu, n: u8, value: Self)
        requires
            n < 31,
        ensures
            final(cpu)@ == old(cpu)@.written(SysReg::PMEVCNTR_EL0(n), value.raw),
    {
        cpu.write(SysReg::PMEVCNTR_EL0(n), value.raw);
    }

    /// The event count: bits 0 to 31.
    pub fn EVCNT(self) -> (r: u32)
        ensures
            r as u64 == field(self.raw, 0, 0xFFFFFFFF),
    {
        get_field(self.raw, 0, 0xFFFFFFFF) as u32
    }
}

/// Event type of counter `n`.
///
/// A value of one of the registers `PMEVTYPER_EL0`.
#[derive(Debug, Clone, Copy, PartialEq, Eq, Structural)]
pub struct PMEVTYPER_EL0 {
    pub raw: u64,
}

impl PMEVTYPER_EL0 {
    /// The value with the raw content `raw`.
    pub fn new_with_raw_value(raw: u64) -> (r: Self)
        ensures
            r.raw == raw,
    {
        Self { raw }
    }

    /// The raw content.
    pub fn raw_value(self) -> (raw: u64)
        ensures
            raw == self.raw,
    {
        self.raw
    }

    /// Reads the register of counter `n`.
    pub fn read(cpu: &Cpu, n: u8) -> (r: Self)
        requires
            n < 31,
        ensures
            r.raw == cpu@.read(SysReg::PMEVTYPER_EL0(n)),
    {
        Self { raw: cpu.read(SysReg::PMEVTYPER_EL0(n)) }
    }

    /// Writes the register of counter `n`.
    pub fn write(cpu: &mut Cpu, n: u8, value: Self)
        requires
            n < 31,
        ensures
            final(cpu)@ == old(cpu)@.written(SysReg::PMEVTYPER_EL0(n), value.raw),
    {
        cpu.write(SysReg::PMEVTYPER_EL0(n), value.raw);
    }

    /// Do not count at EL1: bit 31.
    pub fn P(self) -> (r: bool)
        ensures
            r == bit(self.raw, 31),
    {
        get_bit(self.raw, 31)
    }

    /// This value with `P`, bit 31, set to `value`.
    pub fn with_P(self, value: bool) -> (r: Self)
        ensures
            r.raw == with_bit(self.raw, 31, value),
    {
        Self { raw: set_bit(self.raw, 31, value) }
    }

    /// Do not count at EL0: bit 30.
    pub fn U(self) -> (r: bool)
        ensures
            r == bit(self.raw, 30),
    {
        get_bit(self.raw, 30)
    }

    /// This value with `U`, bit 30, set to `value`.
    pub fn with_U(self, value: bool) -> (r: Self)
        ensures
            r.raw == with_bit(self.raw, 30, value),
    {
        Self { raw: set_bit(self.raw, 30, value) }
    }

    /// Count at non-secure EL1 as at secure EL1: bit 29.
    pub fn NSK(self) -> (r: bool)
        ensures
            r == bit(self.raw, 29),
    {
        get_bit(self.raw, 29)
    }

    /// This value with `NSK`, bit 29, set to `value`.
    pub fn with_NSK(self, value: bool) -> (r: Self)
        ensures
            r.raw == with_bit(self.raw, 29, value),
    {
        Self { raw: set_bit(self.raw, 29, value) }
    }

    /// Count at non-secure EL0 as at secure EL0: bit 28.
    pub fn NSU(self) -> (r: bool)
        ensures
            r == bit(self.raw, 28),
    {
        get_bit(self.raw, 28)
    }

    /// This value with `NSU`, bit 28, set to `value`.
    pub fn with_NSU(self, value: bool) -> (r: Self)
        ensures
            r.raw == with_bit(self.raw, 28, value),
    {
        Self { raw: set_bit(self.raw, 28, value) }
    }

    /// Count at non-secure EL2: bit 27.
    pub fn NSH(self) -> (r: bool)
        ensures
            r == bit(self.raw, 27),
    {
        get_bit(self.raw, 27)
    }

    /// This value with `NSH`, bit 27, set to `value`.
    pub fn with_NSH(self, value: bool) -> (r: Self)
        ensures
            r.raw == with_bit(self.raw, 27, value),
    {
        Self { raw: set_bit(self.raw, 27, value) }
    }

    /// Count at EL3 as at secure EL1: bit 26.
    pub fn M(self) -> (r: bool)
        ensures
            r == bit(self.raw, 26),
    {
        get_bit(self.raw, 26)
    }

    /// This value with `M`, bit 26, set to `value`.
    pub fn with_M(self, value: bool) -> (r: Self)
        ensures
            r.raw == with_bit(self.raw, 26, value),
    {
        Self { raw: set_bit(self.raw, 26, value) }
    }

    /// Count at secure EL2: bit 24.
    pub fn SH(self) -> (r: bool)
        ensures
            r == bit(self.raw, 24),
    {
        get_bit(self.raw, 24)
    }

    /// This value with `SH`, bit 24, set to `value`.
    pub fn with_SH(self, value: bool) -> (r: Self)
        ensures
            r.raw == with_bit(self.raw, 24, value),
    {
        Self { raw: set_bit(self.raw, 24, value) }
    }

    /// The event to count: bits 0 to 9.
    pub fn EVT_COUNT(self) -> (r: u16)
        ensures
            r as u64 == field(self.raw, 0, 0x3FF),
            r <= 0x3FF,
    {
        get_field(self.raw, 0, 0x3FF) as u16
    }

    /// This value with `EVT_COUNT`, bits 0 to 9, set to `value`.
    pub fn with_EVT_COUNT(self, value: u16) -> (r: Self)
        requires
            value <= 0x3FF,
        ensures
            r.raw == with_field(self.raw, 0, 0x3FF, value as u64),
    {
        Self { raw: set_field(self.raw, 0, 0x3FF, value as u64) }
    }
}

} // verus!
