//! System control and status registers.
use crate::bits::{bit, field, get_bit, get_field, set_bit, set_field, with_bit, with_field};
use crate::regs::{Cpu, SysReg};
use vstd::prelude::*;

verus! {

/// The exception level that the core runs at.
///
/// A value of the register `CurrentEL`.
#[derive(Debug, Clone, Copy, PartialEq, Eq, Structural)]
pub struct CURRENT_EL {
    pub raw: u64,
}

impl CURRENT_EL {
    /// The value with the raw content `raw`.
    pub fn new_with_raw_value(raw: u64) -> (r: Self)
        ensures
            r.raw == raw,
    {
        Self { raw }
    }

    /// The raw content.
    pub fn raw_value(self) -> (raw: u64)
        ensures
            raw == self.raw,
    {
        self.raw
    }

    /// The value with only the reserved-as-one bits set.
    pub fn DEFAULT() -> (r: Self)
        ensures
            r.raw == SysReg::CurrentEL.res1(),
    {
        Self { raw: SysReg::CurrentEL.reserved_one() }
    }

    /// Reads the register.
    pub fn read(cpu: &Cpu) -> (r: Self)
        ensures
            r.raw == cpu@.read(SysReg::CurrentEL),
    {
        Self { raw: cpu.read(SysReg::CurrentEL) }
    }

    /// The current exception level: bits 2 to 3.
    pub fn EL(self) -> (r: u8)
        ensures
            r as u64 == field(self.raw, 2, 0x3),
            r <= 0x3,
    {
        get_field(self.raw, 2, 0x3) as u8
    }
}

/// System control for EL3.
///
/// A value of the register `SCTLR_EL3`.
#[derive(Debug, Clone, Copy, PartialEq, Eq, Structural)]
pub struct SCTLR_EL3 {
    pub raw: u64,
}

impl SCTLR_EL3 {
    /// The value with the raw content `raw`.
    pub fn new_with_raw_value(raw: u64) -> (r: Self)
        ensures
            r.raw == raw,
    {
        Self { raw }
    }

    /// The raw content.
    pub fn raw_value(self) -> (raw: u64)
        ensures
            raw == self.raw,
    {
        self.raw
    }

    /// The value with only the reserved-as-one bits set.
    pub fn DEFAULT() -> (r: Self)
        ensures
            r.raw == SysReg::SCTLR_EL3.res1(),
    {
        Self { raw: SysReg::SCTLR_EL3.reserved_one() }
    }

    /// Reads the register.
    pub fn read(cpu: &Cpu) -> (r: Self)
        ensures
            r.raw == cpu@.read(SysReg::SCTLR_EL3),
    {
        Self { raw: cpu.read(SysReg::SCTLR_EL3) }
    }

    /// Writes the register.
    pub fn write(cpu: &mut Cpu, value: Self)
        ensures
            final(cpu)@ == old(cpu)@.written(SysReg::SCTLR_EL3, value.raw),
    {
        cpu.write(SysReg::SCTLR_EL3, value.raw);
    }

    /// Instruction cache enable: bit 12.
    pub fn I(self) -> (r: bool)
        ensures
            r == bit(self.raw, 12),
    {
        get_bit(self.raw, 12)
    }

    /// This value with `I`, bit 12, set to `value`.
    pub fn with_I(self, value: bool) -> (r: Self)
        ensures
            r.raw == with_bit(self.raw, 12, value),
    {
        Self { raw: set_bit(self.raw, 12, value) }
    }

    /// Data cache enable: bit 2.
    pub fn C(self) -> (r: bool)
        ensures
            r == bit(self.raw, 2),
    {
        get_bit(self.raw, 2)
    }

    /// This value with `C`, bit 2, set to `value`.
    pub fn with_C(self, value: bool) -> (r: Self)
        ensures
            r.raw == with_bit(self.raw, 2, value),
    {
        Self { raw: set_bit(self.raw, 2, value) }
    }

    /// Address translation enable: bit 0.
    pub fn M(self) -> (r: bool)
        ensures
            r == bit(self.raw, 0),
    {
        get_bit(self.raw, 0)
    }

    /// This value with `M`, bit 0, set to `value`.
    pub fn with_M(self, value: bool) -> (r: Self)
        ensures
            r.raw == with_bit(self.raw, 0, value),
    {
        Self { raw: set_bit(self.raw, 0, value) }
    }
}

/// System control for EL2.
///
/// A value of the register `SCTLR_EL2`.
#[derive(Debug, Clone, Copy, PartialEq, Eq, Structural)]
pub struct SCTLR_EL2 {
    pub raw: u64,
}

impl SCTLR_EL2 {
    /// The value with the raw content `raw`.
    pub fn new_with_raw_value(raw: u64) -> (r: Self)
        ensures
            r.raw == raw,
    {
        Self { raw }
    }

    /// The raw content.
    pub fn raw_value(self) -> (raw: u64)
        ensures
            raw == self.raw,
    {
        self.raw
    }

    /// The value with only the reserved-as-one bits set.
    pub fn DEFAULT() -> (r: Self)
        ensures
            r.raw == SysReg::SCTLR_EL2.res1(),
    {
        Self { raw: SysReg::SCTLR_EL2.reserved_one() }
    }

    /// Reads the register.
    pub fn read(cpu: &Cpu) -> (r: Self)
        ensures
            r.raw == cpu@.read(SysReg::SCTLR_EL2),
    {
        Self { raw: cpu.read(SysReg::SCTLR_EL2) }
    }

    /// Writes the register.
    pub fn write(cpu: &mut Cpu, value: Self)
        ensures
            final(cpu)@ == old(cpu)@.written(SysReg::SCTLR_EL2, value.raw),
    {
        cpu.write(SysReg::SCTLR_EL2, value.raw);
    }

    /// Instruction cache enable: bit 12.
    pub fn I(self) -> (r: bool)
        ensures
            r == bit(self.raw, 12),
    {
        get_bit(self.raw, 12)
    }

    /// This value with `I`, bit 12, set to `value`.
    pub fn with_I(self, value: bool) -> (r: Self)
        ensures
            r.raw == with_bit(self.raw, 12, value),
    {
        Self { raw: set_bit(self.raw, 12, value) }
    }

    /// Data cache enable: bit 2.
    pub fn C(self) -> (r: bool)
        ensures
            r == bit(self.raw, 2),
    {
        get_bit(self.raw, 2)
    }

    /// This value with `C`, bit 2, set to `value`.
    pub fn with_C(self, value: bool) -> (r: Self)
        ensures
            r.raw == with_bit(self.raw, 2, value),
    {
        Self { raw: set_bit(self.raw, 2, value) }
    }

    /// Address translation enable: bit 0.
    pub fn M(self) -> (r: bool)
        ensures
            r == bit(self.raw, 0),
    {
        get_bit(self.raw, 0)
    }

    /// This value with `M`, bit 0, set to `value`.
    pub fn with_M(self, value: bool) -> (r: Self)
        ensures
            r.raw == with_bit(self.raw, 0, value),
    {
        Self { raw: set_bit(self.raw, 0, value) }
    }
}

/// System control for EL1.
///
/// A value of the register `SCTLR_EL1`.
#[derive(Debug, Clone, Copy, PartialEq, Eq, Structural)]
pub struct SCTLR_EL1 {
    pub raw: u64,
}

impl SCTLR_EL1 {
    /// The value with the raw content `raw`.
    pub fn new_with_raw_value(raw: u64) -> (r: Self)
        ensures
            r.raw == raw,
    {
        Self { raw }
    }

    /// The raw content.
    pub fn raw_value(self) -> (raw: u64)
        ensures
            raw == self.raw,
    {
        self.raw
    }

    /// The value with only the reserved-as-one bits set.
    pub fn DEFAULT() -> (r: Self)
        ensures
            r.raw == SysReg::SCTLR_EL1.res1(),
    {
        Self { raw: SysReg::SCTLR_EL1.reserved_one() }
    }

    /// Reads the register.
    pub fn read(cpu: &Cpu) -> (r: Self)
        ensures
            r.raw == cpu@.read(SysReg::SCTLR_EL1),
    {
        Self { raw: cpu.read(SysReg::SCTLR_EL1) }
    }

    /// Writes the register.
    pub fn write(cpu: &mut Cpu, value: Self)
        ensures
            final(cpu)@ == old(cpu)@.written(SysReg::SCTLR_EL1, value.raw),
    {
        cpu.write(SysReg::SCTLR_EL1, value.raw);
    }

    /// Instruction cache enable: bit 12.
    pub fn I(self) -> (r: bool)
        ensures
            r == bit(self.raw, 12),
    {
        get_bit(self.raw, 12)
    }

    /// This value with `I`, bit 12, set to `value`.
    pub fn with_I(self, value: bool) -> (r: Self)
        ensures
            r.raw == with_bit(self.raw, 12, value),
    {
        Self { raw: set_bit(self.raw, 12, value) }
    }

    /// Data cache enable: bit 2.
    pub fn C(self) -> (r: bool)
        ensures
            r == bit(self.raw, 2),
    {
        get_bit(self.raw, 2)
    }

    /// This value with `C`, bit 2, set to `value`.
    pub fn with_C(self, value: bool) -> (r: Self)
        ensures
            r.raw == with_bit(self.raw, 2, value),
    {
        Self { raw: set_bit(self.raw, 2, value) }
    }

    /// Address translation enable: bit 0.
    pub fn M(self) -> (r: bool)
        ensures
            r == bit(self.raw, 0),
    {
        get_bit(self.raw, 0)
    }

    /// This value with `M`, bit 0, set to `value`.
    pub fn with_M(self, value: bool) -> (r: Self)
        ensures
            r.raw == with_bit(self.raw, 0, value),
    {
        Self { raw: set_bit(self.raw, 0, value) }
    }
}

/// Secure configuration.
///
/// A value of the register `SCR_EL3`.
#[derive(Debug, Clone, Copy, PartialEq, Eq, Structural)]
pub struct SCR_EL3 {
    pub raw: u64,
}

impl SCR_EL3 {
    /// The value with the raw content `raw`.
    pub fn new_with_raw_value(raw: u64) -> (r: Self)
        ensures
            r.raw == raw,
    {
        Self { raw }
    }

    /// The raw content.
    pub fn raw_value(self) -> (raw: u64)
        ensures
            raw == self.raw,
    {
        self.raw
    }

    /// The value with only the reserved-as-one bits set.
    pub fn DEFAULT() -> (r: Self)
        ensures
            r.raw == SysReg::SCR_EL3.res1(),
    {
        Self { raw: SysReg::SCR_EL3.reserved_one() }
    }

    /// Reads the register.
    pub fn read(cpu: &Cpu) -> (r: Self)
        ensures
            r.raw == cpu@.read(SysReg::SCR_EL3),
    {
        Self { raw: cpu.read(SysReg::SCR_EL3) }
    }

    /// Writes the register.
    pub fn write(cpu: &mut Cpu, value: Self)
        ensures
            final(cpu)@ == old(cpu)@.written(SysReg::SCR_EL3, value.raw),
    {
        cpu.write(SysReg::SCR_EL3, value.raw);
    }

    /// Lower levels are non-secure: bit 0.
    pub fn NS(self) -> (r: bool)
        ensures
            r == bit(self.raw, 0),
    {
        get_bit(self.raw, 0)
    }

    /// This value with `NS`, bit 0, set to `value`.
    pub fn with_NS(self, value: bool) -> (r: Self)
        ensures
            r.raw == with_bit(self.raw, 0, value),
    {
        Self { raw: set_bit(self.raw, 0, value) }
    }

    /// Interrupts are routed to EL3: bit 1.
    pub fn IRQ(self) -> (r: bool)
        ensures
            r == bit(self.raw, 1),
    {
        get_bit(self.raw, 1)
    }

    /// This value with `IRQ`, bit 1, set to `value`.
    pub fn with_IRQ(self, value: bool) -> (r: Self)
        ensures
            r.raw == with_bit(self.raw, 1, value),
    {
        Self { raw: set_bit(self.raw, 1, value) }
    }

    /// Fast interrupts are routed to EL3: bit 2.
    pub fn FIQ(self) -> (r: bool)
        ensures
            r == bit(self.raw, 2),
    {
        get_bit(self.raw, 2)
    }

    /// This value with `FIQ`, bit 2, set to `value`.
    pub fn with_FIQ(self, value: bool) -> (r: Self)
        ensures
            r.raw == with_bit(self.raw, 2, value),
    {
        Self { raw: set_bit(self.raw, 2, value) }
    }

    /// External aborts and system errors are routed to EL3: bit 3.
    pub fn EA(self) -> (r: bool)
        ensures
            r == bit(self.raw, 3),
    {
        get_bit(self.raw, 3)
    }

    /// This value with `EA`, bit 3, set to `value`.
    pub fn with_EA(self, value: bool) -> (r: Self)
        ensures
            r.raw == with_bit(self.raw, 3, value),
    {
        Self { raw: set_bit(self.raw, 3, value) }
    }
}

/// Hypervisor configuration.
///
/// A value of the register `HCR_EL2`.
#[derive(Debug, Clone, Copy, PartialEq, Eq, Structural)]
pub struct HCR_EL2 {
    pub raw: u64,
}

impl HCR_EL2 {
    /// The value with the raw content `raw`.
    pub fn new_with_raw_value(raw: u64) -> (r: Self)
        ensures
            r.raw == raw,
    {
        Self { raw }
    }

    /// The raw content.
    pub fn raw_value(self) -> (raw: u64)
        ensures
            raw == self.raw,
    {
        self.raw
    }

    /// The value with only the reserved-as-one bits set.
    pub fn DEFAULT() -> (r: Self)
        ensures
            r.raw == SysReg::HCR_EL2.res1(),
    {
        Self { raw: SysReg::HCR_EL2.reserved_one() }
    }

    /// Reads the register.
    pub fn read(cpu: &Cpu) -> (r: Self)
        ensures
            r.raw == cpu@.read(SysReg::HCR_EL2),
    {
        Self { raw: cpu.read(SysReg::HCR_EL2) }
    }

    /// Writes the register.
    pub fn write(cpu: &mut Cpu, value: Self)
        ensures
            final(cpu)@ == old(cpu)@.written(SysReg::HCR_EL2, value.raw),
    {
        cpu.write(SysReg::HCR_EL2, value.raw);
    }

    /// Fast interrupts are routed to EL2: bit 3.
    pub fn FMO(self) -> (r: bool)
        ensures
            r == bit(self.raw, 3),
    {
        get_bit(self.raw, 3)
    }

    /// This value with `FMO`, bit 3, set to `value`.
    pub fn with_FMO(self, value: bool) -> (r: Self)
        ensures
            r.raw == with_bit(self.raw, 3, value),
    {
        Self { raw: set_bit(self.raw, 3, value) }
    }

    /// Interrupts are routed to EL2: bit 4.
    pub fn IMO(self) -> (r: bool)
        ensures
            r == bit(self.raw, 4),
    {
        get_bit(self.raw, 4)
    }

    /// This value with `IMO`, bit 4, set to `value`.
    pub fn with_IMO(self, value: bool) -> (r: Self)
        ensures
            r.raw == with_bit(self.raw, 4, value),
    {
        Self { raw: set_bit(self.raw, 4, value) }
    }

    /// System errors are routed to EL2: bit 5.
    pub fn AMO(self) -> (r: bool)
        ensures
            r == bit(self.raw, 5),
    {
        get_bit(self.raw, 5)
    }

    /// This value with `AMO`, bit 5, set to `value`.
    pub fn with_AMO(self, value: bool) -> (r: Self)
        ensures
            r.raw == with_bit(self.raw, 5, value),
    {
        Self { raw: set_bit(self.raw, 5, value) }
    }
}

/// Saved program status for EL3.
///
/// A value of the register `SPSR_EL3`.
#[derive(Debug, Clone, Copy, PartialEq, Eq, Structural)]
pub struct SPSR_EL3 {
    pub raw: u64,
}

impl SPSR_EL3 {
    /// The value with the raw content `raw`.
    pub fn new_with_raw_value(raw: u64) -> (r: Self)
        ensures
            r.raw == raw,
    {
        Self { raw }
    }

    /// The raw content.
    pub fn raw_value(self) -> (raw: u64)
        ensures
            raw == self.raw,
    {
        self.raw
    }

    /// The value with only the reserved-as-one bits set.
    pub fn DEFAULT() -> (r: Self)
        ensures
            r.raw == SysReg::SPSR_EL3.res1(),
    {
        Self { raw: SysReg::SPSR_EL3.reserved_one() }
    }

    /// Reads the register.
    pub fn read(cpu: &Cpu) -> (r: Self)
        ensures
            r.raw == cpu@.read(SysReg::SPSR_EL3),
    {
        Self { raw: cpu.read(SysReg::SPSR_EL3) }
    }

    /// Writes the register.
    pub fn write(cpu: &mut Cpu, value: Self)
        ensures
            final(cpu)@ == old(cpu)@.written(SysReg::SPSR_EL3, value.raw),
    {
        cpu.write(SysReg::SPSR_EL3, value.raw);
    }

    /// The mode to return to: bits 0 to 4.
    pub fn M(self) -> (r: u8)
        ensures
            r as u64 == field(self.raw, 0, 0x1F),
            r <= 0x1F,
    {
        get_field(self.raw, 0, 0x1F) as u8
    }

    /// This value with `M`, bits 0 to 4, set to `value`.
    pub fn with_M(self, value: u8) -> (r: Self)
        requires
            value <= 0x1F,
        ensures
            r.raw == with_field(self.raw, 0, 0x1F, value as u64),
    {
        Self { raw: set_field(self.raw, 0, 0x1F, value as u64) }
    }

    /// Fast interrupts masked: bit 6.
    pub fn F(self) -> (r: bool)
        ensures
            r == bit(self.raw, 6),
    {
        get_bit(self.raw, 6)
    }

    /// This value with `F`, bit 6, set to `value`.
    pub fn with_F(self, value: bool) -> (r: Self)
        ensures
            r.raw == with_bit(self.raw, 6, value),
    {
        Self { raw: set_bit(self.raw, 6, value) }
    }

    /// Interrupts masked: bit 7.
    pub fn I(self) -> (r: bool)
        ensures
            r == bit(self.raw, 7),
    {
        get_bit(self.raw, 7)
    }

    /// This value with `I`, bit 7, set to `value`.
    pub fn with_I(self, value: bool) -> (r: Self)
        ensures
            r.raw == with_bit(self.raw, 7, value),
    {
        Self { raw: set_bit(self.raw, 7, value) }
    }

    /// System errors masked: bit 8.
    pub fn A(self) -> (r: bool)
        ensures
            r == bit(self.raw, 8),
    {
        get_bit(self.raw, 8)
    }

    /// This value with `A`, bit 8, set to `value`.
    pub fn with_A(self, value: bool) -> (r: Self)
        ensures
            r.raw == with_bit(self.raw, 8, value),
    {
        Self { raw: set_bit(self.raw, 8, value) }
    }

    /// Debug exceptions masked: bit 9.
    pub fn D(self) -> (r: bool)
        ensures
            r == bit(self.raw, 9),
    {
        get_bit(self.raw, 9)
    }

    /// This value with `D`, bit 9, set to `value`.
    pub fn with_D(self, value: bool) -> (r: Self)
        ensures
            r.raw == with_bit(self.raw, 9, value),
    {
        Self { raw: set_bit(self.raw, 9, value) }
    }
}

/// Saved program status for EL2.
///
/// A value of the register `SPSR_EL2`.
#[derive(Debug, Clone, Copy, PartialEq, Eq, Structural)]
pub struct SPSR_EL2 {
    pub raw: u64,
}

impl SPSR_EL2 {
    /// The value with the raw content `raw`.
    pub fn new_with_raw_value(raw: u64) -> (r: Self)
        ensures
            r.raw == raw,
    {
        Self { raw }
    }

    /// The raw content.
    pub fn raw_value(self) -> (raw: u64)
        ensures
            raw == self.raw,
    {
        self.raw
    }

    /// The value with only the reserved-as-one bits set.
    pub fn DEFAULT() -> (r: Self)
        ensures
            r.raw == SysReg::SPSR_EL2.res1(),
    {
        Self { raw: SysReg::SPSR_EL2.reserved_one() }
    }

    /// Reads the register.
    pub fn read(cpu: &Cpu) -> (r: Self)
        ensures
            r.raw == cpu@.read(SysReg::SPSR_EL2),
    {
        Self { raw: cpu.read(SysReg::SPSR_EL2) }
    }

    /// Writes the register.
    pub fn write(cpu: &mut Cpu, value: Self)
        ensures
            final(cpu)@ == old(cpu)@.written(SysReg::SPSR_EL2, value.raw),
    {
        cpu.write(SysReg::SPSR_EL2, value.raw);
    }

    /// The mode to return to: bits 0 to 4.
    pub fn M(self) -> (r: u8)
        ensures
            r as u64 == field(self.raw, 0, 0x1F),
            r <= 0x1F,
    {
        get_field(self.raw, 0, 0x1F) as u8
    }

    /// This value with `M`, bits 0 to 4, set to `value`.
    pub fn with_M(self, value: u8) -> (r: Self)
        requires
            value <= 0x1F,
        ensures
            r.raw == with_field(self.raw, 0, 0x1F, value as u64),
    {
        Self { raw: set_field(self.raw, 0, 0x1F, value as u64) }
    }

    /// Fast interrupts masked: bit 6.
    pub fn F(self) -> (r: bool)
        ensures
            r == bit(self.raw, 6),
    {
        get_bit(self.raw, 6)
    }

    /// This value with `F`, bit 6, set to `value`.
    pub fn with_F(self, value: bool) -> (r: Self)
        ensures
            r.raw == with_bit(self.raw, 6, value),
    {
        Self { raw: set_bit(self.raw, 6, value) }
    }

    /// Interrupts masked: bit 7.
    pub fn I(self) -> (r: bool)
        ensures
            r == bit(self.raw, 7),
    {
        get_bit(self.raw, 7)
    }

    /// This value with `I`, bit 7, set to `value`.
    pub fn with_I(self, value: bool) -> (r: Self)
        ensures
            r.raw == with_bit(self.raw, 7, value),
    {
        Self { raw: set_bit(self.raw, 7, value) }
    }

    /// System errors masked: bit 8.
    pub fn A(self) -> (r: bool)
        ensures
            r == bit(self.raw, 8),
    {
        get_bit(self.raw, 8)
    }

    /// This value with `A`, bit 8, set to `value`.
    pub fn with_A(self, value: bool) -> (r: Self)
        ensures
            r.raw == with_bit(self.raw, 8, value),
    {
        Self { raw: set_bit(self.raw, 8, value) }
    }

    /// Debug exceptions masked: bit 9.
    pub fn D(self) -> (r: bool)
        ensures
            r == bit(self.raw, 9),
    {
        get_bit(self.raw, 9)
    }

    /// This value with `D`, bit 9, set to `value`.
    pub fn with_D(self, value: bool) -> (r: Self)
        ensures
            r.raw == with_bit(self.raw, 9, value),
    {
        Self { raw: set_bit(self.raw, 9, value) }
    }
}

/// Saved program status for EL1.
///
/// A value of the register `SPSR_EL1`.
#[derive(Debug, Clone, Copy, PartialEq, Eq, Structural)]
pub struct SPSR_EL1 {
    pub raw: u64,
}

impl SPSR_EL1 {
    /// The value with the raw content `raw`.
    pub fn new_with_raw_value(raw: u64) -> (r: Self)
        ensures
            r.raw == raw,
    {
        Self { raw }
    }

    /// The raw content.
    pub fn raw_value(self) -> (raw: u64)
        ensures
            raw == self.raw,
    {
        self.raw
    }

    /// The value with only the reserved-as-one bits set.
    pub fn DEFAULT() -> (r: Self)
        ensures
            r.raw == SysReg::SPSR_EL1.res1(),
    {
        Self { raw: SysReg::SPSR_EL1.reserved_one() }
    }

    /// Reads the register.
    pub fn read(cpu: &Cpu) -> (r: Self)
        ensures
            r.raw == cpu@.read(SysReg::SPSR_EL1),
    {
        Self { raw: cpu.read(SysReg::SPSR_EL1) }
    }

    /// Writes the register.
    pub fn write(cpu: &mut Cpu, value: Self)
        ensures
            final(cpu)@ == old(cpu)@.written(SysReg::SPSR_EL1, value.raw),
    {
        cpu.write(SysReg::SPSR_EL1, value.raw);
    }

    /// The mode to return to: bits 0 to 4.
    pub fn M(self) -> (r: u8)
        ensures
            r as u64 == field(self.raw, 0, 0x1F),
            r <= 0x1F,
    {
        get_field(self.raw, 0, 0x1F) as u8
    }

    /// This value with `M`, bits 0 to 4, set to `value`.
    pub fn with_M(self, value: u8) -> (r: Self)
        requires
            value <= 0x1F,
        ensures
            r.raw == with_field(self.raw, 0, 0x1F, value as u64),
    {
        Self { raw: set_field(self.raw, 0, 0x1F, value as u64) }
    }

    /// Fast interrupts masked: bit 6.
    pub fn F(self) -> (r: bool)
        ensures
            r == bit(self.raw, 6),
    {
        get_bit(self.raw, 6)
    }

    /// This value with `F`, bit 6, set to `value`.
    pub fn with_F(self, value: bool) -> (r: Self)
        ensures
            r.raw == with_bit(self.raw, 6, value),
    {
        Self { raw: set_bit(self.raw, 6, value) }
    }

    /// Interrupts masked: bit 7.
    pub fn I(self) -> (r: bool)
        ensures
            r == bit(self.raw, 7),
    {
        get_bit(self.raw, 7)
    }

    /// This value with `I`, bit 7, set to `value`.
    pub fn with_I(self, value: bool) -> (r: Self)
        ensures
            r.raw == with_bit(self.raw, 7, value),
    {
        Self { raw: set_bit(self.raw, 7, value) }
    }

    /// System errors masked: bit 8.
    pub fn A(self) -> (r: bool)
        ensures
            r == bit(self.raw, 8),
    {
        get_bit(self.raw, 8)
    }

    /// This value with `A`, bit 8, set to `value`.
    pub fn with_A(self, value: bool) -> (r: Self)
        ensures
            r.raw == with_bit(self.raw, 8, value),
    {
        Self { raw: set_bit(self.raw, 8, value) }
    }

    /// Debug exceptions masked: bit 9.
    pub fn D(self) -> (r: bool)
        ensures
            r == bit(self.raw, 9),
    {
        get_bit(self.raw, 9)
    }

    /// This value with `D`, bit 9, set to `value`.
    pub fn with_D(self, value: bool) -> (r: Self)
        ensures
            r.raw == with_bit(self.raw, 9, value),
    {
        Self { raw: set_bit(self.raw, 9, value) }
    }
}

} // verus!
