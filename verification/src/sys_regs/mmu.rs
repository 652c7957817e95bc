//! Registers of the memory management unit.
use crate::bits::{bit, field, get_bit, get_field, set_bit, set_field, with_bit, with_field};
use crate::regs::{Cpu, SysReg};
use vstd::prelude::*;

verus! {

/// Translation table base for EL3.
///
/// A value of the register `TTBR0_EL3`.
#[derive(Debug, Clone, Copy, PartialEq, Eq, Structural)]
pub struct TTBR0_EL3 {
    pub raw: u64,
}

impl TTBR0_EL3 {
    /// The value with the raw content `raw`.
    pub fn new_with_raw_value(raw: u64) -> (r: Self)
        ensures
            r.raw == raw,
    {
        Self { raw }
    }

    /// The raw content.
    pub fn raw_value(self) -> (raw: u64)
        ensures
            raw == self.raw,
    {
        self.raw
    }

    /// The value with only the reserved-as-one bits set.
    pub fn DEFAULT() -> (r: Self)
        ensures
            r.raw == SysReg::TTBR0_EL3.res1(),
    {
        Self { raw: SysReg::TTBR0_EL3.reserved_one() }
    }

    /// Reads the register.
    pub fn read(cpu: &Cpu) -> (r: Self)
        ensures
            r.raw == cpu@.read(SysReg::TTBR0_EL3),
    {
        Self { raw: cpu.read(SysReg::TTBR0_EL3) }
    }

    /// Writes the register.
    pub fn write(cpu: &mut Cpu, value: Self)
        ensures
            final(cpu)@ == old(cpu)@.written(SysReg::TTBR0_EL3, value.raw),
    {
        cpu.write(SysReg::TTBR0_EL3, value.raw);
    }

    /// Address space identifier of 16 bits: bits 48 to 63.
    pub fn ASID16(self) -> (r: u16)
        ensures
            r as u64 == field(self.raw, 48, 0xFFFF),
    {
        get_field(self.raw, 48, 0xFFFF) as u16
    }

    /// This value with `ASID16`, bits 48 to 63, set to `value`.
    pub fn with_ASID16(self, value: u16) -> (r: Self)
        ensures
            r.raw == with_field(self.raw, 48, 0xFFFF, value as u64),
    {
        Self { raw: set_field(self.raw, 48, 0xFFFF, value as u64) }
    }

    /// Address space identifier of 8 bits: bits 48 to 55.
    pub fn ASID8(self) -> (r: u8)
        ensures
            r as u64 == field(self.raw, 48, 0xFF),
    {
        get_field(self.raw, 48, 0xFF) as u8
    }

    /// This value with `ASID8`, bits 48 to 55, set to `value`.
    pub fn with_ASID8(self, value: u8) -> (r: Self)
        ensures
            r.raw == with_field(self.raw, 48, 0xFF, value as u64),
    {
        Self { raw: set_field(self.raw, 48, 0xFF, value as u64) }
    }

    /// Base address of the translation table, bits 1 to 47: bits 1 to 47.
    pub fn BADDR(self) -> (r: u64)
        ensures
            r as u64 == field(self.raw, 1, 0x7FFFFFFFFFFF),
            r <= 0x7FFFFFFFFFFF,
    {
        get_field(self.raw, 1, 0x7FFFFFFFFFFF)
    }

    /// This value with `BADDR`, bits 1 to 47, set to `value`.
    pub fn with_BADDR(self, value: u64) -> (r: Self)
        requires
            value <= 0x7FFFFFFFFFFF,
        ensures
            r.raw == with_field(self.raw, 1, 0x7FFFFFFFFFFF, value),
    {
        Self { raw: set_field(self.raw, 1, 0x7FFFFFFFFFFF, value) }
    }
}

/// Translation table base for EL2.
///
/// A value of the register `TTBR0_EL2`.
#[derive(Debug, Clone, Copy, PartialEq, Eq, Structural)]
pub struct TTBR0_EL2 {
    pub raw: u64,
}

impl TTBR0_EL2 {
    /// The value with the raw content `raw`.
    pub fn new_with_raw_value(raw: u64) -> (r: Self)
        ensures
            r.raw == raw,
    {
        Self { raw }
    }

    /// The raw content.
    pub fn raw_value(self) -> (raw: u64)
        ensures
            raw == self.raw,
    {
        self.raw
    }

    /// The value with only the reserved-as-one bits set.
    pub fn DEFAULT() -> (r: Self)
        ensures
            r.raw == SysReg::TTBR0_EL2.res1(),
    {
        Self { raw: SysReg::TTBR0_EL2.reserved_one() }
    }

    /// Reads the register.
    pub fn read(cpu: &Cpu) -> (r: Self)
        ensures
            r.raw == cpu@.read(SysReg::TTBR0_EL2),
    {
        Self { raw: cpu.read(SysReg::TTBR0_EL2) }
    }

    /// Writes the register.
    pub fn write(cpu: &mut Cpu, value: Self)
        ensures
            final(cpu)@ == old(cpu)@.written(SysReg::TTBR0_EL2, value.raw),
    {
        cpu.write(SysReg::TTBR0_EL2, value.raw);
    }

    /// Address space identifier of 16 bits: bits 48 to 63.
    pub fn ASID16(self) -> (r: u16)
        ensures
            r as u64 == field(self.raw, 48, 0xFFFF),
    {
        get_field(self.raw, 48, 0xFFFF) as u16
    }

    /// This value with `ASID16`, bits 48 to 63, set to `value`.
    pub fn with_ASID16(self, value: u16) -> (r: Self)
        ensures
            r.raw == with_field(self.raw, 48, 0xFFFF, value as u64),
    {
        Self { raw: set_field(self.raw, 48, 0xFFFF, value as u64) }
    }

    /// Address space identifier of 8 bits: bits 48 to 55.
    pub fn ASID8(self) -> (r: u8)
        ensures
            r as u64 == field(self.raw, 48, 0xFF),
    {
        get_field(self.raw, 48, 0xFF) as u8
    }

    /// This value with `ASID8`, bits 48 to 55, set to `value`.
    pub fn with_ASID8(self, value: u8) -> (r: Self)
        ensures
            r.raw == with_field(self.raw, 48, 0xFF, value as u64),
    {
        Self { raw: set_field(self.raw, 48, 0xFF, value as u64) }
    }

    /// Base address of the translation table, bits 1 to 47: bits 1 to 47.
    pub fn BADDR(self) -> (r: u64)
        ensures
            r as u64 == field(self.raw, 1, 0x7FFFFFFFFFFF),
            r <= 0x7FFFFFFFFFFF,
    {
        get_field(self.raw, 1, 0x7FFFFFFFFFFF)
    }

    /// This value with `BADDR`, bits 1 to 47, set to `value`.
    pub fn with_BADDR(self, value: u64) -> (r: Self)
        requires
            value <= 0x7FFFFFFFFFFF,
        ensures
            r.raw == with_field(self.raw, 1, 0x7FFFFFFFFFFF, value),
    {
        Self { raw: set_field(self.raw, 1, 0x7FFFFFFFFFFF, value) }
    }
}

/// Translation table base for EL1.
///
/// A value of the register `TTBR0_EL1`.
#[derive(Debug, Clone, Copy, PartialEq, Eq, Structural)]
pub struct TTBR0_EL1 {
    pub raw: u64,
}

impl TTBR0_EL1 {
    /// The value with the raw content `raw`.
    pub fn new_with_raw_value(raw: u64) -> (r: Self)
        ensures
            r.raw == raw,
    {
        Self { raw }
    }

    /// The raw content.
    pub fn raw_value(self) -> (raw: u64)
        ensures
            raw == self.raw,
    {
        self.raw
    }

    /// The value with only the reserved-as-one bits set.
    pub fn DEFAULT() -> (r: Self)
        ensures
            r.raw == SysReg::TTBR0_EL1.res1(),
    {
        Self { raw: SysReg::TTBR0_EL1.reserved_one() }
    }

    /// Reads the register.
    pub fn read(cpu: &Cpu) -> (r: Self)
        ensures
            r.raw == cpu@.read(SysReg::TTBR0_EL1),
    {
        Self { raw: cpu.read(SysReg::TTBR0_EL1) }
    }

    /// Writes the register.
    pub fn write(cpu: &mut Cpu, value: Self)
        ensures
            final(cpu)@ == old(cpu)@.written(SysReg::TTBR0_EL1, value.raw),
    {
        cpu.write(SysReg::TTBR0_EL1, value.raw);
    }

    /// Address space identifier of 16 bits: bits 48 to 63.
    pub fn ASID16(self) -> (r: u16)
        ensures
            r as u64 == field(self.raw, 48, 0xFFFF),
    {
        get_field(self.raw, 48, 0xFFFF) as u16
    }

    /// This value with `ASID16`, bits 48 to 63, set to `value`.
    pub fn with_ASID16(self, value: u16) -> (r: Self)
        ensures
            r.raw == with_field(self.raw, 48, 0xFFFF, value as u64),
    {
        Self { raw: set_field(self.raw, 48, 0xFFFF, value as u64) }
    }

    /// Address space identifier of 8 bits: bits 48 to 55.
    pub fn ASID8(self) -> (r: u8)
        ensures
            r as u64 == field(self.raw, 48, 0xFF),
    {
        get_field(self.raw, 48, 0xFF) as u8
    }

    /// This value with `ASID8`, bits 48 to 55, set to `value`.
    pub fn with_ASID8(self, value: u8) -> (r: Self)
        ensures
            r.raw == with_field(self.raw, 48, 0xFF, value as u64),
    {
        Self { raw: set_field(self.raw, 48, 0xFF, value as u64) }
    }

    /// Base address of the translation table, bits 1 to 47: bits 1 to 47.
    pub fn BADDR(self) -> (r: u64)
        ensures
            r as u64 == field(self.raw, 1, 0x7FFFFFFFFFFF),
            r <= 0x7FFFFFFFFFFF,
    {
        get_field(self.raw, 1, 0x7FFFFFFFFFFF)
    }

    /// This value with `BADDR`, bits 1 to 47, set to `value`.
    pub fn with_BADDR(self, value: u64) -> (r: Self)
        requires
            value <= 0x7FFFFFFFFFFF,
        ensures
            r.raw == with_field(self.raw, 1, 0x7FFFFFFFFFFF, value),
    {
        Self { raw: set_field(self.raw, 1, 0x7FFFFFFFFFFF, value) }
    }
}

/// Translation control for EL3.
///
/// A value of the register `TCR_EL3`.
#[derive(Debug, Clone, Copy, PartialEq, Eq, Structural)]
pub struct TCR_EL3 {
    pub raw: u64,
}

impl TCR_EL3 {
    /// The value with the raw content `raw`.
    pub fn new_with_raw_value(raw: u64) -> (r: Self)
        ensures
            r.raw == raw,
    {
        Self { raw }
    }

    /// The raw content.
    pub fn raw_value(self) -> (raw: u64)
        ensures
            raw == self.raw,
    {
        self.raw
    }

    /// The value with only the reserved-as-one bits set.
    pub fn DEFAULT() -> (r: Self)
        ensures
            r.raw == SysReg::TCR_EL3.res1(),
    {
        Self { raw: SysReg::TCR_EL3.reserved_one() }
    }

    /// Reads the register.
    pub fn read(cpu: &Cpu) -> (r: Self)
        ensures
            r.raw == cpu@.read(SysReg::TCR_EL3),
    {
        Self { raw: cpu.read(SysReg::TCR_EL3) }
    }

    /// Writes the register.
    pub fn write(cpu: &mut Cpu, value: Self)
        ensures
            final(cpu)@ == old(cpu)@.written(SysReg::TCR_EL3, value.raw),
    {
        cpu.write(SysReg::TCR_EL3, value.raw);
    }

    /// Top byte ignored: bit 20.
    pub fn TBI(self) -> (r: bool)
        ensures
            r == bit(self.raw, 20),
    {
        get_bit(self.raw, 20)
    }

    /// This value with `TBI`, bit 20, set to `value`.
    pub fn with_TBI(self, value: bool) -> (r: Self)
        ensures
            r.raw == with_bit(self.raw, 20, value),
    {
        Self { raw: set_bit(self.raw, 20, value) }
    }

    /// Physical address size: bits 16 to 18.
    pub fn PS(self) -> (r: u8)
        ensures
            r as u64 == field(self.raw, 16, 0x7),
            r <= 0x7,
    {
        get_field(self.raw, 16, 0x7) as u8
    }

    /// This value with `PS`, bits 16 to 18, set to `value`.
    pub fn with_PS(self, value: u8) -> (r: Self)
        requires
            value <= 0x7,
        ensures
            r.raw == with_field(self.raw, 16, 0x7, value as u64),
    {
        Self { raw: set_field(self.raw, 16, 0x7, value as u64) }
    }

    /// Granule size of the lower region: bits 14 to 15.
    pub fn TG0(self) -> (r: u8)
        ensures
            r as u64 == field(self.raw, 14, 0x3),
            r <= 0x3,
    {
        get_field(self.raw, 14, 0x3) as u8
    }

    /// This value with `TG0`, bits 14 to 15, set to `value`.
    pub fn with_TG0(self, value: u8) -> (r: Self)
        requires
            value <= 0x3,
        ensures
            r.raw == with_field(self.raw, 14, 0x3, value as u64),
    {
        Self { raw: set_field(self.raw, 14, 0x3, value as u64) }
    }

    /// Shareability of walks in the lower region: bits 12 to 13.
    pub fn SH0(self) -> (r: u8)
        ensures
            r as u64 == field(self.raw, 12, 0x3),
            r <= 0x3,
    {
        get_field(self.raw, 12, 0x3) as u8
    }

    /// This value with `SH0`, bits 12 to 13, set to `value`.
    pub fn with_SH0(self, value: u8) -> (r: Self)
        requires
            value <= 0x3,
        ensures
            r.raw == with_field(self.raw, 12, 0x3, value as u64),
    {
        Self { raw: set_field(self.raw, 12, 0x3, value as u64) }
    }

    /// Outer cacheability of walks in the lower region: bits 10 to 11.
    pub fn ORGN0(self) -> (r: u8)
        ensures
            r as u64 == field(self.raw, 10, 0x3),
            r <= 0x3,
    {
        get_field(self.raw, 10, 0x3) as u8
    }

    /// This value with `ORGN0`, bits 10 to 11, set to `value`.
    pub fn with_ORGN0(self, value: u8) -> (r: Self)
        requires
            value <= 0x3,
        ensures
            r.raw == with_field(self.raw, 10, 0x3, value as u64),
    {
        Self { raw: set_field(self.raw, 10, 0x3, value as u64) }
    }

    /// Inner cacheability of walks in the lower region: bits 8 to 9.
    pub fn IRGN0(self) -> (r: u8)
        ensures
            r as u64 == field(self.raw, 8, 0x3),
            r <= 0x3,
    {
        get_field(self.raw, 8, 0x3) as u8
    }

    /// This value with `IRGN0`, bits 8 to 9, set to `value`.
    pub fn with_IRGN0(self, value: u8) -> (r: Self)
        requires
            value <= 0x3,
        ensures
            r.raw == with_field(self.raw, 8, 0x3, value as u64),
    {
        Self { raw: set_field(self.raw, 8, 0x3, value as u64) }
    }

    /// Size offset of the lower region: bits 0 to 5.
    pub fn T0SZ(self) -> (r: u8)
        ensures
            r as u64 == field(self.raw, 0, 0x3F),
            r <= 0x3F,
    {
        get_field(self.raw, 0, 0x3F) as u8
    }

    /// This value with `T0SZ`, bits 0 to 5, set to `value`.
    pub fn with_T0SZ(self, value: u8) -> (r: Self)
        requires
            value <= 0x3F,
        ensures
            r.raw == with_field(self.raw, 0, 0x3F, value as u64),
    {
        Self { raw: set_field(self.raw, 0, 0x3F, value as u64) }
    }
}

/// Translation control for EL2.
///
/// A value of the register `TCR_EL2`.
#[derive(Debug, Clone, Copy, PartialEq, Eq, Structural)]
pub struct TCR_EL2 {
    pub raw: u64,
}

impl TCR_EL2 {
    /// The value with the raw content `raw`.
    pub fn new_with_raw_value(raw: u64) -> (r: Self)
        ensures
            r.raw == raw,
    {
        Self { raw }
    }

    /// The raw content.
    pub fn raw_value(self) -> (raw: u64)
        ensures
            raw == self.raw,
    {
        self.raw
    }

    /// The value with only the reserved-as-one bits set.
    pub fn DEFAULT() -> (r: Self)
        ensures
            r.raw == SysReg::TCR_EL2.res1(),
    {
        Self { raw: SysReg::TCR_EL2.reserved_one() }
    }

    /// Reads the register.
    pub fn read(cpu: &Cpu) -> (r: Self)
        ensures
            r.raw == cpu@.read(SysReg::TCR_EL2),
    {
        Self { raw: cpu.read(SysReg::TCR_EL2) }
    }

    /// Writes the register.
    pub fn write(cpu: &mut Cpu, value: Self)
        ensures
            final(cpu)@ == old(cpu)@.written(SysReg::TCR_EL2, value.raw),
    {
        cpu.write(SysReg::TCR_EL2, value.raw);
    }

    /// Top byte ignored: bit 20.
    pub fn TBI(self) -> (r: bool)
        ensures
            r == bit(self.raw, 20),
    {
        get_bit(self.raw, 20)
    }

    /// This value with `TBI`, bit 20, set to `value`.
    pub fn with_TBI(self, value: bool) -> (r: Self)
        ensures
            r.raw == with_bit(self.raw, 20, value),
    {
        Self { raw: set_bit(self.raw, 20, value) }
    }

    /// Physical address size: bits 16 to 18.
    pub fn PS(self) -> (r: u8)
        ensures
            r as u64 == field(self.raw, 16, 0x7),
            r <= 0x7,
    {
        get_field(self.raw, 16, 0x7) as u8
    }

    /// This value with `PS`, bits 16 to 18, set to `value`.
    pub fn with_PS(self, value: u8) -> (r: Self)
        requires
            value <= 0x7,
        ensures
            r.raw == with_field(self.raw, 16, 0x7, value as u64),
    {
        Self { raw: set_field(self.raw, 16, 0x7, value as u64) }
    }

    /// Granule size of the lower region: bits 14 to 15.
    pub fn TG0(self) -> (r: u8)
        ensures
            r as u64 == field(self.raw, 14, 0x3),
            r <= 0x3,
    {
        get_field(self.raw, 14, 0x3) as u8
    }

    /// This value with `TG0`, bits 14 to 15, set to `value`.
    pub fn with_TG0(self, value: u8) -> (r: Self)
        requires
            value <= 0x3,
        ensures
            r.raw == with_field(self.raw, 14, 0x3, value as u64),
    {
        Self { raw: set_field(self.raw, 14, 0x3, value as u64) }
    }

    /// Shareability of walks in the lower region: bits 12 to 13.
    pub fn SH0(self) -> (r: u8)
        ensures
            r as u64 == field(self.raw, 12, 0x3),
            r <= 0x3,
    {
        get_field(self.raw, 12, 0x3) as u8
    }

    /// This value with `SH0`, bits 12 to 13, set to `value`.
    pub fn with_SH0(self, value: u8) -> (r: Self)
        requires
            value <= 0x3,
        ensures
            r.raw == with_field(self.raw, 12, 0x3, value as u64),
    {
        Self { raw: set_field(self.raw, 12, 0x3, value as u64) }
    }

    /// Outer cacheability of walks in the lower region: bits 10 to 11.
    pub fn ORGN0(self) -> (r: u8)
        ensures
            r as u64 == field(self.raw, 10, 0x3),
            r <= 0x3,
    {
        get_field(self.raw, 10, 0x3) as u8
    }

    /// This value with `ORGN0`, bits 10 to 11, set to `value`.
    pub fn with_ORGN0(self, value: u8) -> (r: Self)
        requires
            value <= 0x3,
        ensures
            r.raw == with_field(self.raw, 10, 0x3, value as u64),
    {
        Self { raw: set_field(self.raw, 10, 0x3, value as u64) }
    }

    /// Inner cacheability of walks in the lower region: bits 8 to 9.
    pub fn IRGN0(self) -> (r: u8)
        ensures
            r as u64 == field(self.raw, 8, 0x3),
            r <= 0x3,
    {
        get_field(self.raw, 8, 0x3) as u8
    }

    /// This value with `IRGN0`, bits 8 to 9, set to `value`.
    pub fn with_IRGN0(self, value: u8) -> (r: Self)
        requires
            value <= 0x3,
        ensures
            r.raw == with_field(self.raw, 8, 0x3, value as u64),
    {
        Self { raw: set_field(self.raw, 8, 0x3, value as u64) }
    }

    /// Size offset of the lower region: bits 0 to 5.
    pub fn T0SZ(self) -> (r: u8)
        ensures
            r as u64 == field(self.raw, 0, 0x3F),
            r <= 0x3F,
    {
        get_field(self.raw, 0, 0x3F) as u8
    }

    /// This value with `T0SZ`, bits 0 to 5, set to `value`.
    pub fn with_T0SZ(self, value: u8) -> (r: Self)
        requires
            value <= 0x3F,
        ensures
            r.raw == with_field(self.raw, 0, 0x3F, value as u64),
    {
        Self { raw: set_field(self.raw, 0, 0x3F, value as u64) }
    }
}

/// Translation control for EL1.
///
/// A value of the register `TCR_EL1`.
#[derive(Debug, Clone, Copy, PartialEq, Eq, Structural)]
pub struct TCR_EL1 {
    pub raw: u64,
}

impl TCR_EL1 {
    /// The value with the raw content `raw`.
    pub fn new_with_raw_value(raw: u64) -> (r: Self)
        ensures
            r.raw == raw,
    {
        Self { raw }
    }

    /// The raw content.
    pub fn raw_value(self) -> (raw: u64)
        ensures
            raw == self.raw,
    {
        self.raw
    }

    /// The value with only the reserved-as-one bits set.
    pub fn DEFAULT() -> (r: Self)
        ensures
            r.raw == SysReg::TCR_EL1.res1(),
    {
        Self { raw: SysReg::TCR_EL1.reserved_one() }
    }

    /// Reads the register.
    pub fn read(cpu: &Cpu) -> (r: Self)
        ensures
            r.raw == cpu@.read(SysReg::TCR_EL1),
    {
        Self { raw: cpu.read(SysReg::TCR_EL1) }
    }

    /// Writes the register.
    pub fn write(cpu: &mut Cpu, value: Self)
        ensures
            final(cpu)@ == old(cpu)@.written(SysReg::TCR_EL1, value.raw),
    {
        cpu.write(SysReg::TCR_EL1, value.raw);
    }

    /// Top byte ignored in the upper region: bit 38.
    pub fn TBI1(self) -> (r: bool)
        ensures
            r == bit(self.raw, 38),
    {
        get_bit(self.raw, 38)
    }

    /// This value with `TBI1`, bit 38, set to `value`.
    pub fn with_TBI1(self, value: bool) -> (r: Self)
        ensures
            r.raw == with_bit(self.raw, 38, value),
    {
        Self { raw: set_bit(self.raw, 38, value) }
    }

    /// Top byte ignored in the lower region: bit 37.
    pub fn TBI0(self) -> (r: bool)
        ensures
            r == bit(self.raw, 37),
    {
        get_bit(self.raw, 37)
    }

    /// This value with `TBI0`, bit 37, set to `value`.
    pub fn with_TBI0(self, value: bool) -> (r: Self)
        ensures
            r.raw == with_bit(self.raw, 37, value),
    {
        Self { raw: set_bit(self.raw, 37, value) }
    }

    /// Address space identifiers have 16 bits: bit 36.
    pub fn AS(self) -> (r: bool)
        ensures
            r == bit(self.raw, 36),
    {
        get_bit(self.raw, 36)
    }

    /// This value with `AS`, bit 36, set to `value`.
    pub fn with_AS(self, value: bool) -> (r: Self)
        ensures
            r.raw == with_bit(self.raw, 36, value),
    {
        Self { raw: set_bit(self.raw, 36, value) }
    }

    /// Intermediate physical address size: bits 32 to 34.
    pub fn IPS(self) -> (r: u8)
        ensures
            r as u64 == field(self.raw, 32, 0x7),
            r <= 0x7,
    {
        get_field(self.raw, 32, 0x7) as u8
    }

    /// This value with `IPS`, bits 32 to 34, set to `value`.
    pub fn with_IPS(self, value: u8) -> (r: Self)
        requires
            value <= 0x7,
        ensures
            r.raw == with_field(self.raw, 32, 0x7, value as u64),
    {
        Self { raw: set_field(self.raw, 32, 0x7, value as u64) }
    }

    /// Granule size of the upper region: bits 30 to 31.
    pub fn TG1(self) -> (r: u8)
        ensures
            r as u64 == field(self.raw, 30, 0x3),
            r <= 0x3,
    {
        get_field(self.raw, 30, 0x3) as u8
    }

    /// This value with `TG1`, bits 30 to 31, set to `value`.
    pub fn with_TG1(self, value: u8) -> (r: Self)
        requires
            value <= 0x3,
        ensures
            r.raw == with_field(self.raw, 30, 0x3, value as u64),
    {
        Self { raw: set_field(self.raw, 30, 0x3, value as u64) }
    }

    /// Shareability of walks in the upper region: bits 28 to 29.
    pub fn SH1(self) -> (r: u8)
        ensures
            r as u64 == field(self.raw, 28, 0x3),
            r <= 0x3,
    {
        get_field(self.raw, 28, 0x3) as u8
    }

    /// This value with `SH1`, bits 28 to 29, set to `value`.
    pub fn with_SH1(self, value: u8) -> (r: Self)
        requires
            value <= 0x3,
        ensures
            r.raw == with_field(self.raw, 28, 0x3, value as u64),
    {
        Self { raw: set_field(self.raw, 28, 0x3, value as u64) }
    }

    /// Outer cacheability of walks in the upper region: bits 26 to 27.
    pub fn ORGN1(self) -> (r: u8)
        ensures
            r as u64 == field(self.raw, 26, 0x3),
            r <= 0x3,
    {
        get_field(self.raw, 26, 0x3) as u8
    }

    /// This value with `ORGN1`, bits 26 to 27, set to `value`.
    pub fn with_ORGN1(self, value: u8) -> (r: Self)
        requires
            value <= 0x3,
        ensures
            r.raw == with_field(self.raw, 26, 0x3, value as u64),
    {
        Self { raw: set_field(self.raw, 26, 0x3, value as u64) }
    }

    /// Inner cacheability of walks in the upper region: bits 24 to 25.
    pub fn IRGN1(self) -> (r: u8)
        ensures
            r as u64 == field(self.raw, 24, 0x3),
            r <= 0x3,
    {
        get_field(self.raw, 24, 0x3) as u8
    }

    /// This value with `IRGN1`, bits 24 to 25, set to `value`.
    pub fn with_IRGN1(self, value: u8) -> (r: Self)
        requires
            value <= 0x3,
        ensures
            r.raw == with_field(self.raw, 24, 0x3, value as u64),
    {
        Self { raw: set_field(self.raw, 24, 0x3, value as u64) }
    }

    /// Walks in the upper region disabled: bit 23.
    pub fn EPD1(self) -> (r: bool)
        ensures
            r == bit(self.raw, 23),
    {
        get_bit(self.raw, 23)
    }

    /// This value with `EPD1`, bit 23, set to `value`.
    pub fn with_EPD1(self, value: bool) -> (r: Self)
        ensures
            r.raw == with_bit(self.raw, 23, value),
    {
        Self { raw: set_bit(self.raw, 23, value) }
    }

    /// The upper table base defines the address space identifier: bit 22.
    pub fn A1(self) -> (r: bool)
        ensures
            r == bit(self.raw, 22),
    {
        get_bit(self.raw, 22)
    }

    /// This value with `A1`, bit 22, set to `value`.
    pub fn with_A1(self, value: bool) -> (r: Self)
        ensures
            r.raw == with_bit(self.raw, 22, value),
    {
        Self { raw: set_bit(self.raw, 22, value) }
    }

    /// Size offset of the upper region: bits 16 to 21.
    pub fn T1SZ(self) -> (r: u8)
        ensures
            r as u64 == field(self.raw, 16, 0x3F),
            r <= 0x3F,
    {
        get_field(self.raw, 16, 0x3F) as u8
    }

    /// This value with `T1SZ`, bits 16 to 21, set to `value`.
    pub fn with_T1SZ(self, value: u8) -> (r: Self)
        requires
            value <= 0x3F,
        ensures
            r.raw == with_field(self.raw, 16, 0x3F, value as u64),
    {
        Self { raw: set_field(self.raw, 16, 0x3F, value as u64) }
    }

    /// Granule size of the lower region: bits 14 to 15.
    pub fn TG0(self) -> (r: u8)
        ensures
            r as u64 == field(self.raw, 14, 0x3),
            r <= 0x3,
    {
        get_field(self.raw, 14, 0x3) as u8
    }

    /// This value with `TG0`, bits 14 to 15, set to `value`.
    pub fn with_TG0(self, value: u8) -> (r: Self)
        requires
            value <= 0x3,
        ensures
            r.raw == with_field(self.raw, 14, 0x3, value as u64),
    {
        Self { raw: set_field(self.raw, 14, 0x3, value as u64) }
    }

    /// Shareability of walks in the lower region: bits 12 to 13.
    pub fn SH0(self) -> (r: u8)
        ensures
            r as u64 == field(self.raw, 12, 0x3),
            r <= 0x3,
    {
        get_field(self.raw, 12, 0x3) as u8
    }

    /// This value with `SH0`, bits 12 to 13, set to `value`.
    pub fn with_SH0(self, value: u8) -> (r: Self)
        requires
            value <= 0x3,
        ensures
            r.raw == with_field(self.raw, 12, 0x3, value as u64),
    {
        Self { raw: set_field(self.raw, 12, 0x3, value as u64) }
    }

    /// Outer cacheability of walks in the lower region: bits 10 to 11.
    pub fn ORGN0(self) -> (r: u8)
        ensures
            r as u64 == field(self.raw, 10, 0x3),
            r <= 0x3,
    {
        get_field(self.raw, 10, 0x3) as u8
    }

    /// This value with `ORGN0`, bits 10 to 11, set to `value`.
    pub fn with_ORGN0(self, value: u8) -> (r: Self)
        requires
            value <= 0x3,
        ensures
            r.raw == with_field(self.raw, 10, 0x3, value as u64),
    {
        Self { raw: set_field(self.raw, 10, 0x3, value as u64) }
    }

    /// Inner cacheability of walks in the lower region: bits 8 to 9.
    pub fn IRGN0(self) -> (r: u8)
        ensures
            r as u64 == field(self.raw, 8, 0x3),
            r <= 0x3,
    {
        get_field(self.raw, 8, 0x3) as u8
    }

    /// This value with `IRGN0`, bits 8 to 9, set to `value`.
    pub fn with_IRGN0(self, value: u8) -> (r: Self)
        requires
            value <= 0x3,
        ensures
            r.raw == with_field(self.raw, 8, 0x3, value as u64),
    {
        Self { raw: set_field(self.raw, 8, 0x3, value as u64) }
    }

    /// Walks in the lower region disabled: bit 7.
    pub fn EPD0(self) -> (r: bool)
        ensures
            r == bit(self.raw, 7),
    {
        get_bit(self.raw, 7)
    }

    /// This value with `EPD0`, bit 7, set to `value`.
    pub fn with_EPD0(self, value: bool) -> (r: Self)
        ensures
            r.raw == with_bit(self.raw, 7, value),
    {
        Self { raw: set_bit(self.raw, 7, value) }
    }

    /// Size offset of the lower region: bits 0 to 5.
    pub fn T0SZ(self) -> (r: u8)
        ensures
            r as u64 == field(self.raw, 0, 0x3F),
            r <= 0x3F,
    {
        get_field(self.raw, 0, 0x3F) as u8
    }

    /// This value with `T0SZ`, bits 0 to 5, set to `value`.
    pub fn with_T0SZ(self, value: u8) -> (r: Self)
        requires
            value <= 0x3F,
        ensures
            r.raw == with_field(self.raw, 0, 0x3F, value as u64),
    {
        Self { raw: set_field(self.raw, 0, 0x3F, value as u64) }
    }
}

/// Memory attribute indirection for EL3.
///
/// A value of the register `MAIR_EL3`.
#[derive(Debug, Clone, Copy, PartialEq, Eq, Structural)]
pub struct MAIR_EL3 {
    pub raw: u64,
}

impl MAIR_EL3 {
    /// The value with the raw content `raw`.
    pub fn new_with_raw_value(raw: u64) -> (r: Self)
        ensures
            r.raw == raw,
    {
        Self { raw }
    }

    /// The raw content.
    pub fn raw_value(self) -> (raw: u64)
        ensures
            raw == self.raw,
    {
        self.raw
    }

    /// The value with only the reserved-as-one bits set.
    pub fn DEFAULT() -> (r: Self)
        ensures
            r.raw == SysReg::MAIR_EL3.res1(),
    {
        Self { raw: SysReg::MAIR_EL3.reserved_one() }
    }

    /// Reads the register.
    pub fn read(cpu: &Cpu) -> (r: Self)
        ensures
            r.raw == cpu@.read(SysReg::MAIR_EL3),
    {
        Self { raw: cpu.read(SysReg::MAIR_EL3) }
    }

    /// Writes the register.
    pub fn write(cpu: &mut Cpu, value: Self)
        ensures
            final(cpu)@ == old(cpu)@.written(SysReg::MAIR_EL3, value.raw),
    {
        cpu.write(SysReg::MAIR_EL3, value.raw);
    }

    /// The attribute encoding at index 7: bits 56 to 63.
    pub fn ATTR7(self) -> (r: u8)
        ensures
            r as u64 == field(self.raw, 56, 0xFF),
    {
        get_field(self.raw, 56, 0xFF) as u8
    }

    /// This value with `ATTR7`, bits 56 to 63, set to `value`.
    pub fn with_ATTR7(self, value: u8) -> (r: Self)
        ensures
            r.raw == with_field(self.raw, 56, 0xFF, value as u64),
    {
        Self { raw: set_field(self.raw, 56, 0xFF, value as u64) }
    }

    /// The attribute encoding at index 6: bits 48 to 55.
    pub fn ATTR6(self) -> (r: u8)
        ensures
            r as u64 == field(self.raw, 48, 0xFF),
    {
        get_field(self.raw, 48, 0xFF) as u8
    }

    /// This value with `ATTR6`, bits 48 to 55, set to `value`.
    pub fn with_ATTR6(self, value: u8) -> (r: Self)
        ensures
            r.raw == with_field(self.raw, 48, 0xFF, value as u64),
    {
        Self { raw: set_field(self.raw, 48, 0xFF, value as u64) }
    }

    /// The attribute encoding at index 5: bits 40 to 47.
    pub fn ATTR5(self) -> (r: u8)
        ensures
            r as u64 == field(self.raw, 40, 0xFF),
    {
        get_field(self.raw, 40, 0xFF) as u8
    }

    /// This value with `ATTR5`, bits 40 to 47, set to `value`.
    pub fn with_ATTR5(self, value: u8) -> (r: Self)
        ensures
            r.raw == with_field(self.raw, 40, 0xFF, value as u64),
    {
        Self { raw: set_field(self.raw, 40, 0xFF, value as u64) }
    }

    /// The attribute encoding at index 4: bits 32 to 39.
    pub fn ATTR4(self) -> (r: u8)
        ensures
            r as u64 == field(self.raw, 32, 0xFF),
    {
        get_field(self.raw, 32, 0xFF) as u8
    }

    /// This value with `ATTR4`, bits 32 to 39, set to `value`.
    pub fn with_ATTR4(self, value: u8) -> (r: Self)
        ensures
            r.raw == with_field(self.raw, 32, 0xFF, value as u64),
    {
        Self { raw: set_field(self.raw, 32, 0xFF, value as u64) }
    }

    /// The attribute encoding at index 3: bits 24 to 31.
    pub fn ATTR3(self) -> (r: u8)
        ensures
            r as u64 == field(self.raw, 24, 0xFF),
    {
        get_field(self.raw, 24, 0xFF) as u8
    }

    /// This value with `ATTR3`, bits 24 to 31, set to `value`.
    pub fn with_ATTR3(self, value: u8) -> (r: Self)
        ensures
            r.raw == with_field(self.raw, 24, 0xFF, value as u64),
    {
        Self { raw: set_field(self.raw, 24, 0xFF, value as u64) }
    }

    /// The attribute encoding at index 2: bits 16 to 23.
    pub fn ATTR2(self) -> (r: u8)
        ensures
            r as u64 == field(self.raw, 16, 0xFF),
    {
        get_field(self.raw, 16, 0xFF) as u8
    }

    /// This value with `ATTR2`, bits 16 to 23, set to `value`.
    pub fn with_ATTR2(self, value: u8) -> (r: Self)
        ensures
            r.raw == with_field(self.raw, 16, 0xFF, value as u64),
    {
        Self { raw: set_field(self.raw, 16, 0xFF, value as u64) }
    }

    /// The attribute encoding at index 1: bits 8 to 15.
    pub fn ATTR1(self) -> (r: u8)
        ensures
            r as u64 == field(self.raw, 8, 0xFF),
    {
        get_field(self.raw, 8, 0xFF) as u8
    }

    /// This value with `ATTR1`, bits 8 to 15, set to `value`.
    pub fn with_ATTR1(self, value: u8) -> (r: Self)
        ensures
            r.raw == with_field(self.raw, 8, 0xFF, value as u64),
    {
        Self { raw: set_field(self.raw, 8, 0xFF, value as u64) }
    }

    /// The attribute encoding at index 0: bits 0 to 7.
    pub fn ATTR0(self) -> (r: u8)
        ensures
            r as u64 == field(self.raw, 0, 0xFF),
    {
        get_field(self.raw, 0, 0xFF) as u8
    }

    /// This value with `ATTR0`, bits 0 to 7, set to `value`.
    pub fn with_ATTR0(self, value: u8) -> (r: Self)
        ensures
            r.raw == with_field(self.raw, 0, 0xFF, value as u64),
    {
        Self { raw: set_field(self.raw, 0, 0xFF, value as u64) }
    }
}

/// Memory attribute indirection for EL2.
///
/// A value of the register `MAIR_EL2`.
#[derive(Debug, Clone, Copy, PartialEq, Eq, Structural)]
pub struct MAIR_EL2 {
    pub raw: u64,
}

impl MAIR_EL2 {
    /// The value with the raw content `raw`.
    pub fn new_with_raw_value(raw: u64) -> (r: Self)
        ensures
            r.raw == raw,
    {
        Self { raw }
    }

    /// The raw content.
    pub fn raw_value(self) -> (raw: u64)
        ensures
            raw == self.raw,
    {
        self.raw
    }

    /// The value with only the reserved-as-one bits set.
    pub fn DEFAULT() -> (r: Self)
        ensures
            r.raw == SysReg::MAIR_EL2.res1(),
    {
        Self { raw: SysReg::MAIR_EL2.reserved_one() }
    }

    /// Reads the register.
    pub fn read(cpu: &Cpu) -> (r: Self)
        ensures
            r.raw == cpu@.read(SysReg::MAIR_EL2),
    {
        Self { raw: cpu.read(SysReg::MAIR_EL2) }
    }

    /// Writes the register.
    pub fn write(cpu: &mut Cpu, value: Self)
        ensures
            final(cpu)@ == old(cpu)@.written(SysReg::MAIR_EL2, value.raw),
    {
        cpu.write(SysReg::MAIR_EL2, value.raw);
    }

    /// The attribute encoding at index 7: bits 56 to 63.
    pub fn ATTR7(self) -> (r: u8)
        ensures
            r as u64 == field(self.raw, 56, 0xFF),
    {
        get_field(self.raw, 56, 0xFF) as u8
    }

    /// This value with `ATTR7`, bits 56 to 63, set to `value`.
    pub fn with_ATTR7(self, value: u8) -> (r: Self)
        ensures
            r.raw == with_field(self.raw, 56, 0xFF, value as u64),
    {
        Self { raw: set_field(self.raw, 56, 0xFF, value as u64) }
    }

    /// The attribute encoding at index 6: bits 48 to 55.
    pub fn ATTR6(self) -> (r: u8)
        ensures
            r as u64 == field(self.raw, 48, 0xFF),
    {
        get_field(self.raw, 48, 0xFF) as u8
    }

    /// This value with `ATTR6`, bits 48 to 55, set to `value`.
    pub fn with_ATTR6(self, value: u8) -> (r: Self)
        ensures
            r.raw == with_field(self.raw, 48, 0xFF, value as u64),
    {
        Self { raw: set_field(self.raw, 48, 0xFF, value as u64) }
    }

    /// The attribute encoding at index 5: bits 40 to 47.
    pub fn ATTR5(self) -> (r: u8)
        ensures
            r as u64 == field(self.raw, 40, 0xFF),
    {
        get_field(self.raw, 40, 0xFF) as u8
    }

    /// This value with `ATTR5`, bits 40 to 47, set to `value`.
    pub fn with_ATTR5(self, value: u8) -> (r: Self)
        ensures
            r.raw == with_field(self.raw, 40, 0xFF, value as u64),
    {
        Self { raw: set_field(self.raw, 40, 0xFF, value as u64) }
    }

    /// The attribute encoding at index 4: bits 32 to 39.
    pub fn ATTR4(self) -> (r: u8)
        ensures
            r as u64 == field(self.raw, 32, 0xFF),
    {
        get_field(self.raw, 32, 0xFF) as u8
    }

    /// This value with `ATTR4`, bits 32 to 39, set to `value`.
    pub fn with_ATTR4(self, value: u8) -> (r: Self)
        ensures
            r.raw == with_field(self.raw, 32, 0xFF, value as u64),
    {
        Self { raw: set_field(self.raw, 32, 0xFF, value as u64) }
    }

    /// The attribute encoding at index 3: bits 24 to 31.
    pub fn ATTR3(self) -> (r: u8)
        ensures
            r as u64 == field(self.raw, 24, 0xFF),
    {
        get_field(self.raw, 24, 0xFF) as u8
    }

    /// This value with `ATTR3`, bits 24 to 31, set to `value`.
    pub fn with_ATTR3(self, value: u8) -> (r: Self)
        ensures
            r.raw == with_field(self.raw, 24, 0xFF, value as u64),
    {
        Self { raw: set_field(self.raw, 24, 0xFF, value as u64) }
    }

    /// The attribute encoding at index 2: bits 16 to 23.
    pub fn ATTR2(self) -> (r: u8)
        ensures
            r as u64 == field(self.raw, 16, 0xFF),
    {
        get_field(self.raw, 16, 0xFF) as u8
    }

    /// This value with `ATTR2`, bits 16 to 23, set to `value`.
    pub fn with_ATTR2(self, value: u8) -> (r: Self)
        ensures
            r.raw == with_field(self.raw, 16, 0xFF, value as u64),
    {
        Self { raw: set_field(self.raw, 16, 0xFF, value as u64) }
    }

    /// The attribute encoding at index 1: bits 8 to 15.
    pub fn ATTR1(self) -> (r: u8)
        ensures
            r as u64 == field(self.raw, 8, 0xFF),
    {
        get_field(self.raw, 8, 0xFF) as u8
    }

    /// This value with `ATTR1`, bits 8 to 15, set to `value`.
    pub fn with_ATTR1(self, value: u8) -> (r: Self)
        ensures
            r.raw == with_field(self.raw, 8, 0xFF, value as u64),
    {
        Self { raw: set_field(self.raw, 8, 0xFF, value as u64) }
    }

    /// The attribute encoding at index 0: bits 0 to 7.
    pub fn ATTR0(self) -> (r: u8)
        ensures
            r as u64 == field(self.raw, 0, 0xFF),
    {
        get_field(self.raw, 0, 0xFF) as u8
    }

    /// This value with `ATTR0`, bits 0 to 7, set to `value`.
    pub fn with_ATTR0(self, value: u8) -> (r: Self)
        ensures
            r.raw == with_field(self.raw, 0, 0xFF, value as u64),
    {
        Self { raw: set_field(self.raw, 0, 0xFF, value as u64) }
    }
}

/// Memory attribute indirection for EL1.
///
/// A value of the register `MAIR_EL1`.
#[derive(Debug, Clone, Copy, PartialEq, Eq, Structural)]
pub struct MAIR_EL1 {
    pub raw: u64,
}

impl MAIR_EL1 {
    /// The value with the raw content `raw`.
    pub fn new_with_raw_value(raw: u64) -> (r: Self)
        ensures
            r.raw == raw,
    {
        Self { raw }
    }

    /// The raw content.
    pub fn raw_value(self) -> (raw: u64)
        ensures
            raw == self.raw,
    {
        self.raw
    }

    /// The value with only the reserved-as-one bits set.
    pub fn DEFAULT() -> (r: Self)
        ensures
            r.raw == SysReg::MAIR_EL1.res1(),
    {
        Self { raw: SysReg::MAIR_EL1.reserved_one() }
    }

    /// Reads the register.
    pub fn read(cpu: &Cpu) -> (r: Self)
        ensures
            r.raw == cpu@.read(SysReg::MAIR_EL1),
    {
        Self { raw: cpu.read(SysReg::MAIR_EL1) }
    }

    /// Writes the register.
    pub fn write(cpu: &mut Cpu, value: Self)
        ensures
            final(cpu)@ == old(cpu)@.written(SysReg::MAIR_EL1, value.raw),
    {
        cpu.write(SysReg::MAIR_EL1, value.raw);
    }

    /// The attribute encoding at index 7: bits 56 to 63.
    pub fn ATTR7(self) -> (r: u8)
        ensures
            r as u64 == field(self.raw, 56, 0xFF),
    {
        get_field(self.raw, 56, 0xFF) as u8
    }

    /// This value with `ATTR7`, bits 56 to 63, set to `value`.
    pub fn with_ATTR7(self, value: u8) -> (r: Self)
        ensures
            r.raw == with_field(self.raw, 56, 0xFF, value as u64),
    {
        Self { raw: set_field(self.raw, 56, 0xFF, value as u64) }
    }

    /// The attribute encoding at index 6: bits 48 to 55.
    pub fn ATTR6(self) -> (r: u8)
        ensures
            r as u64 == field(self.raw, 48, 0xFF),
    {
        get_field(self.raw, 48, 0xFF) as u8
    }

    /// This value with `ATTR6`, bits 48 to 55, set to `value`.
    pub fn with_ATTR6(self, value: u8) -> (r: Self)
        ensures
            r.raw == with_field(self.raw, 48, 0xFF, value as u64),
    {
        Self { raw: set_field(self.raw, 48, 0xFF, value as u64) }
    }

    /// The attribute encoding at index 5: bits 40 to 47.
    pub fn ATTR5(self) -> (r: u8)
        ensures
            r as u64 == field(self.raw, 40, 0xFF),
    {
        get_field(self.raw, 40, 0xFF) as u8
    }

    /// This value with `ATTR5`, bits 40 to 47, set to `value`.
    pub fn with_ATTR5(self, value: u8) -> (r: Self)
        ensures
            r.raw == with_field(self.raw, 40, 0xFF, value as u64),
    {
        Self { raw: set_field(self.raw, 40, 0xFF, value as u64) }
    }

    /// The attribute encoding at index 4: bits 32 to 39.
    pub fn ATTR4(self) -> (r: u8)
        ensures
            r as u64 == field(self.raw, 32, 0xFF),
    {
        get_field(self.raw, 32, 0xFF) as u8
    }

    /// This value with `ATTR4`, bits 32 to 39, set to `value`.
    pub fn with_ATTR4(self, value: u8) -> (r: Self)
        ensures
            r.raw == with_field(self.raw, 32, 0xFF, value as u64),
    {
        Self { raw: set_field(self.raw, 32, 0xFF, value as u64) }
    }

    /// The attribute encoding at index 3: bits 24 to 31.
    pub fn ATTR3(self) -> (r: u8)
        ensures
            r as u64 == field(self.raw, 24, 0xFF),
    {
        get_field(self.raw, 24, 0xFF) as u8
    }

    /// This value with `ATTR3`, bits 24 to 31, set to `value`.
    pub fn with_ATTR3(self, value: u8) -> (r: Self)
        ensures
            r.raw == with_field(self.raw, 24, 0xFF, value as u64),
    {
        Self { raw: set_field(self.raw, 24, 0xFF, value as u64) }
    }

    /// The attribute encoding at index 2: bits 16 to 23.
    pub fn ATTR2(self) -> (r: u8)
        ensures
            r as u64 == field(self.raw, 16, 0xFF),
    {
        get_field(self.raw, 16, 0xFF) as u8
    }

    /// This value with `ATTR2`, bits 16 to 23, set to `value`.
    pub fn with_ATTR2(self, value: u8) -> (r: Self)
        ensures
            r.raw == with_field(self.raw, 16, 0xFF, value as u64),
    {
        Self { raw: set_field(self.raw, 16, 0xFF, value as u64) }
    }

    /// The attribute encoding at index 1: bits 8 to 15.
    pub fn ATTR1(self) -> (r: u8)
        ensures
            r as u64 == field(self.raw, 8, 0xFF),
    {
        get_field(self.raw, 8, 0xFF) as u8
    }

    /// This value with `ATTR1`, bits 8 to 15, set to `value`.
    pub fn with_ATTR1(self, value: u8) -> (r: Self)
        ensures
            r.raw == with_field(self.raw, 8, 0xFF, value as u64),
    {
        Self { raw: set_field(self.raw, 8, 0xFF, value as u64) }
    }

    /// The attribute encoding at index 0: bits 0 to 7.
    pub fn ATTR0(self) -> (r: u8)
        ensures
            r as u64 == field(self.raw, 0, 0xFF),
    {
        get_field(self.raw, 0, 0xFF) as u8
    }

    /// This value with `ATTR0`, bits 0 to 7, set to `value`.
    pub fn with_ATTR0(self, value: u8) -> (r: Self)
        ensures
            r.raw == with_field(self.raw, 0, 0xFF, value as u64),
    {
        Self { raw: set_field(self.raw, 0, 0xFF, value as u64) }
    }
}

} // verus!
