//! Feature identification registers.
use crate::bits::{field, get_field};
use crate::regs::{Cpu, SysReg};
use vstd::prelude::*;

verus! {

/// Memory model features, first register.
///
/// A value of the register `ID_AA64MMFR0_EL1`.
#[derive(Debug, Clone, Copy, PartialEq, Eq, Structural)]
pub struct ID_AA64MMFR0_EL1 {
    pub raw: u64,
}

impl ID_AA64MMFR0_EL1 {
    /// The value with the raw content `raw`.
    pub fn new_with_raw_value(raw: u64) -> (r: Self)
        ensures
            r.raw == raw,
    {
        Self { raw }
    }

    /// The raw content.
    pub fn raw_value(self) -> (raw: u64)
        ensures
            raw == self.raw,
    {
        self.raw
    }

    /// The value with only the reserved-as-one bits set.
    pub fn DEFAULT() -> (r: Self)
        ensures
            r.raw == SysReg::ID_AA64MMFR0_EL1.res1(),
    {
        Self { raw: SysReg::ID_AA64MMFR0_EL1.reserved_one() }
    }

    /// Reads the register.
    pub fn read(cpu: &Cpu) -> (r: Self)
        ensures
            r.raw == cpu@.read(SysReg::ID_AA64MMFR0_EL1),
    {
        Self { raw: cpu.read(SysReg::ID_AA64MMFR0_EL1) }
    }

    /// Bits in an address space identifier: bits 4 to 7.
    pub fn ASIDBITS(self) -> (r: u8)
        ensures
            r as u64 == field(self.raw, 4, 0xF),
            r <= 0xF,
    {
        get_field(self.raw, 4, 0xF) as u8
    }

    /// Physical address range: bits 0 to 3.
    pub fn PARANGE(self) -> (r: u8)
        ensures
            r as u64 == field(self.raw, 0, 0xF),
            r <= 0xF,
    {
        get_field(self.raw, 0, 0xF) as u8
    }
}

/// Memory model features, third register.
///
/// A value of the register `ID_AA64MMFR2_EL1`.
#[derive(Debug, Clone, Copy, PartialEq, Eq, Structural)]
pub struct ID_AA64MMFR2_EL1 {
    pub raw: u64,
}

impl ID_AA64MMFR2_EL1 {
    /// The value with the raw content `raw`.
    pub fn new_with_raw_value(raw: u64) -> (r: Self)
        ensures
            r.raw == raw,
    {
        Self { raw }
    }

    /// The raw content.
    pub fn raw_value(self) -> (raw: u64)
        ensures
            raw == self.raw,
    {
        self.raw
    }

    /// The value with only the reserved-as-one bits set.
    pub fn DEFAULT() -> (r: Self)
        ensures
            r.raw == SysReg::ID_AA64MMFR2_EL1.res1(),
    {
        Self { raw: SysReg::ID_AA64MMFR2_EL1.reserved_one() }
    }

    /// Reads the register.
    pub fn read(cpu: &Cpu) -> (r: Self)
        ensures
            r.raw == cpu@.read(SysReg::ID_AA64MMFR2_EL1),
    {
        Self { raw: cpu.read(SysReg::ID_AA64MMFR2_EL1) }
    }

    /// Extended associativity in the cache geometry register: bits 20 to 23.
    pub fn CCIDX(self) -> (r: u8)
        ensures
            r as u64 == field(self.raw, 20, 0xF),
            r <= 0xF,
    {
        get_field(self.raw, 20, 0xF) as u8
    }
}

/// Debug features, first register.
///
/// A value of the register `ID_AA64DFR0_EL1`.
#[derive(Debug, Clone, Copy, PartialEq, Eq, Structural)]
pub struct ID_AA64DFR0_EL1 {
    pub raw: u64,
}

impl ID_AA64DFR0_EL1 {
    /// The value with the raw content `raw`.
    pub fn new_with_raw_value(raw: u64) -> (r: Self)
        ensures
            r.raw == raw,
    {
        Self { raw }
    }

    /// The raw content.
    pub fn raw_value(self) -> (raw: u64)
        ensures
            raw == self.raw,
    {
        self.raw
    }

    /// The value with only the reserved-as-one bits set.
    pub fn DEFAULT() -> (r: Self)
        ensures
            r.raw == SysReg::ID_AA64DFR0_EL1.res1(),
    {
        Self { raw: SysReg::ID_AA64DFR0_EL1.reserved_one() }
    }

    /// Reads the register.
    pub fn read(cpu: &Cpu) -> (r: Self)
        ensures
            r.raw == cpu@.read(SysReg::ID_AA64DFR0_EL1),
    {
        Self { raw: cpu.read(SysReg::ID_AA64DFR0_EL1) }
    }

    /// Performance monitor snapshot extension: bits 16 to 19.
    pub fn PMSS(self) -> (r: u8)
        ensures
            r as u64 == field(self.raw, 16, 0xF),
            r <= 0xF,
    {
        get_field(self.raw, 16, 0xF) as u8
    }

    /// Version of the performance monitor: bits 8 to 11.
    pub fn PMU_VER(self) -> (r: u8)
        ensures
            r as u64 == field(self.raw, 8, 0xF),
            r <= 0xF,
    {
        get_field(self.raw, 8, 0xF) as u8
    }

    /// Version of the trace unit: bits 4 to 7.
    pub fn TRACE_VER(self) -> (r: u8)
        ensures
            r as u64 == field(self.raw, 4, 0xF),
            r <= 0xF,
    {
        get_field(self.raw, 4, 0xF) as u8
    }

    /// Version of the debug architecture: bits 0 to 3.
    pub fn DEBUG_VER(self) -> (r: u8)
        ensures
            r as u64 == field(self.raw, 0, 0xF),
            r <= 0xF,
    {
        get_field(self.raw, 0, 0xF) as u8
    }
}

/// Debug features, second register.
///
/// A value of the register `ID_AA64DFR1_EL1`.
#[derive(Debug, Clone, Copy, PartialEq, Eq, Structural)]
pub struct ID_AA64DFR1_EL1 {
    pub raw: u64,
}

impl ID_AA64DFR1_EL1 {
    /// The value with the raw content `raw`.
    pub fn new_with_raw_value(raw: u64) -> (r: Self)
        ensures
            r.raw == raw,
    {
        Self { raw }
    }

    /// The raw content.
    pub fn raw_value(self) -> (raw: u64)
        ensures
            raw == self.raw,
    {
        self.raw
    }

    /// The value with only the reserved-as-one bits set.
    pub fn DEFAULT() -> (r: Self)
        ensures
            r.raw == SysReg::ID_AA64DFR1_EL1.res1(),
    {
        Self { raw: SysReg::ID_AA64DFR1_EL1.reserved_one() }
    }

    /// Reads the register.
    pub fn read(cpu: &Cpu) -> (r: Self)
        ensures
            r.raw == cpu@.read(SysReg::ID_AA64DFR1_EL1),
    {
        Self { raw: cpu.read(SysReg::ID_AA64DFR1_EL1) }
    }

    /// Instruction counter of the performance monitor: bits 36 to 39.
    pub fn PMICNTR(self) -> (r: u8)
        ensures
            r as u64 == field(self.raw, 36, 0xF),
            r <= 0xF,
    {
        get_field(self.raw, 36, 0xF) as u8
    }
}

} // verus!
