//! Cache identification and selection registers.
use crate::bits::{bit, field, get_bit, get_field, set_bit, set_field, with_bit, with_field};
use crate::regs::{Cpu, SysReg};
use vstd::prelude::*;

verus! {

/// Cache size selection.
///
/// A value of the register `CSSELR_EL1`.
#[derive(Debug, Clone, Copy, PartialEq, Eq, Structural)]
pub struct CSSELR_EL1 {
    pub raw: u64,
}

impl CSSELR_EL1 {
    /// The value with the raw content `raw`.
    pub fn new_with_raw_value(raw: u64) -> (r: Self)
        ensures
            r.raw == raw,
    {
        Self { raw }
    }

    /// The raw content.
    pub fn raw_value(self) -> (raw: u64)
        ensures
            raw == self.raw,
    {
        self.raw
    }

    /// The value with only the reserved-as-one bits set.
    pub fn DEFAULT() -> (r: Self)
        ensures
            r.raw == SysReg::CSSELR_EL1.res1(),
    {
        Self { raw: SysReg::CSSELR_EL1.reserved_one() }
    }

    /// Reads the register.
    pub fn read(cpu: &Cpu) -> (r: Self)
        ensures
            r.raw == cpu@.read(SysReg::CSSELR_EL1),
    {
        Self { raw: cpu.read(SysReg::CSSELR_EL1) }
    }

    /// Writes the register.
    pub fn write(cpu: &mut Cpu, value: Self)
        ensures
            final(cpu)@ == old(cpu)@.written(SysReg::CSSELR_EL1, value.raw),
    {
        cpu.write(SysReg::CSSELR_EL1, value.raw);
    }

    /// Index of the selected cache level: bits 1 to 3.
    pub fn LEVEL(self) -> (r: u8)
        ensures
            r as u64 == field(self.raw, 1, 0x7),
            r <= 0x7,
    {
        get_field(self.raw, 1, 0x7) as u8
    }

    /// This value with `LEVEL`, bits 1 to 3, set to `value`.
    pub fn with_LEVEL(self, value: u8) -> (r: Self)
        requires
            value <= 0x7,
        ensures
            r.raw == with_field(self.raw, 1, 0x7, value as u64),
    {
        Self { raw: set_field(self.raw, 1, 0x7, value as u64) }
    }

    /// The instruction cache is selected: bit 0.
    pub fn InD(self) -> (r: bool)
        ensures
            r == bit(self.raw, 0),
    {
        get_bit(self.raw, 0)
    }

    /// This value with `InD`, bit 0, set to `value`.
    pub fn with_InD(self, value: bool) -> (r: Self)
        ensures
            r.raw == with_bit(self.raw, 0, value),
    {
        Self { raw: set_bit(self.raw, 0, value) }
    }
}

/// Cache geometry, in the layout with extended associativity.
///
/// A value of the register `CCSIDR_EL1`.
#[derive(Debug, Clone, Copy, PartialEq, Eq, Structural)]
pub struct CCSIDR_EL1_CCIDX {
    pub raw: u64,
}

impl CCSIDR_EL1_CCIDX {
    /// The value with the raw content `raw`.
    pub fn new_with_raw_value(raw: u64) -> (r: Self)
        ensures
            r.raw == raw,
    {
        Self { raw }
    }

    /// The raw content.
    pub fn raw_value(self) -> (raw: u64)
        ensures
            raw == self.raw,
    {
        self.raw
    }

    /// The value with only the reserved-as-one bits set.
    pub fn DEFAULT() -> (r: Self)
        ensures
            r.raw == SysReg::CCSIDR_EL1.res1(),
    {
        Self { raw: SysReg::CCSIDR_EL1.reserved_one() }
    }

    /// Reads the register.
    pub fn read(cpu: &Cpu) -> (r: Self)
        ensures
            r.raw == cpu@.read(SysReg::CCSIDR_EL1),
    {
        Self { raw: cpu.read(SysReg::CCSIDR_EL1) }
    }

    /// Sets in the cache, less one: bits 32 to 55.
    pub fn NUM_SETS(self) -> (r: u32)
        ensures
            r as u64 == field(self.raw, 32, 0xFFFFFF),
            r <= 0xFFFFFF,
    {
        get_field(self.raw, 32, 0xFFFFFF) as u32
    }

    /// Ways of the cache, less one: bits 3 to 23.
    pub fn ASSOCIATIVITY(self) -> (r: u32)
        ensures
            r as u64 == field(self.raw, 3, 0x1FFFFF),
            r <= 0x1FFFFF,
    {
        get_field(self.raw, 3, 0x1FFFFF) as u32
    }

    /// Logarithm of the words in a line, less two: bits 0 to 2.
    pub fn LINE_SIZE(self) -> (r: u8)
        ensures
            r as u64 == field(self.raw, 0, 0x7),
            r <= 0x7,
    {
        get_field(self.raw, 0, 0x7) as u8
    }
}

/// Cache geometry, in the layout without extended associativity.
///
/// A value of the register `CCSIDR_EL1`.
#[derive(Debug, Clone, Copy, PartialEq, Eq, Structural)]
pub struct CCSIDR_EL1_NO_CCIDX {
    pub raw: u64,
}

impl CCSIDR_EL1_NO_CCIDX {
    /// The value with the raw content `raw`.
    pub fn new_with_raw_value(raw: u64) -> (r: Self)
        ensures
            r.raw == raw,
    {
        Self { raw }
    }

    /// The raw content.
    pub fn raw_value(self) -> (raw: u64)
        ensures
            raw == self.raw,
    {
        self.raw
    }

    /// The value with only the reserved-as-one bits set.
    pub fn DEFAULT() -> (r: Self)
        ensures
            r.raw == SysReg::CCSIDR_EL1.res1(),
    {
        Self { raw: SysReg::CCSIDR_EL1.reserved_one() }
    }

    /// Reads the register.
    pub fn read(cpu: &Cpu) -> (r: Self)
        ensures
            r.raw == cpu@.read(SysReg::CCSIDR_EL1),
    {
        Self { raw: cpu.read(SysReg::CCSIDR_EL1) }
    }

    /// Sets in the cache, less one: bits 13 to 27.
    pub fn NUM_SETS(self) -> (r: u16)
        ensures
            r as u64 == field(self.raw, 13, 0x7FFF),
            r <= 0x7FFF,
    {
        get_field(self.raw, 13, 0x7FFF) as u16
    }

    /// Ways of the cache, less one: bits 3 to 12.
    pub fn ASSOCIATIVITY(self) -> (r: u16)
        ensures
            r as u64 == field(self.raw, 3, 0x3FF),
            r <= 0x3FF,
    {
        get_field(self.raw, 3, 0x3FF) as u16
    }

    /// Logarithm of the words in a line, less two: bits 0 to 2.
    pub fn LINE_SIZE(self) -> (r: u8)
        ensures
            r as u64 == field(self.raw, 0, 0x7),
            r <= 0x7,
    {
        get_field(self.raw, 0, 0x7) as u8
    }
}

/// Cache level identification.
///
/// A value of the register `CLIDR_EL1`.
#[derive(Debug, Clone, Copy, PartialEq, Eq, Structural)]
pub struct CLIDR_EL1 {
    pub raw: u64,
}

impl CLIDR_EL1 {
    /// The value with the raw content `raw`.
    pub fn new_with_raw_value(raw: u64) -> (r: Self)
        ensures
            r.raw == raw,
    {
        Self { raw }
    }

    /// The raw content.
    pub fn raw_value(self) -> (raw: u64)
        ensures
            raw == self.raw,
    {
        self.raw
    }

    /// The value with only the reserved-as-one bits set.
    pub fn DEFAULT() -> (r: Self)
        ensures
            r.raw == SysReg::CLIDR_EL1.res1(),
    {
        Self { raw: SysReg::CLIDR_EL1.reserved_one() }
    }

    /// Reads the register.
    pub fn read(cpu: &Cpu) -> (r: Self)
        ensures
            r.raw == cpu@.read(SysReg::CLIDR_EL1),
    {
        Self { raw: cpu.read(SysReg::CLIDR_EL1) }
    }

    /// Inner cache boundary: bits 30 to 32.
    pub fn ICB(self) -> (r: u8)
        ensures
            r as u64 == field(self.raw, 30, 0x7),
            r <= 0x7,
    {
        get_field(self.raw, 30, 0x7) as u8
    }

    /// Level of unification, uniprocessor: bits 27 to 29.
    pub fn LOUU(self) -> (r: u8)
        ensures
            r as u64 == field(self.raw, 27, 0x7),
            r <= 0x7,
    {
        get_field(self.raw, 27, 0x7) as u8
    }

    /// Level of coherence: bits 24 to 26.
    pub fn LOC(self) -> (r: u8)
        ensures
            r as u64 == field(self.raw, 24, 0x7),
            r <= 0x7,
    {
        get_field(self.raw, 24, 0x7) as u8
    }

    /// Level of unification, inner shareable: bits 21 to 23.
    pub fn LOUIS(self) -> (r: u8)
        ensures
            r as u64 == field(self.raw, 21, 0x7),
            r <= 0x7,
    {
        get_field(self.raw, 21, 0x7) as u8
    }

    /// The cache type of a level: the field with the number `index`, 3 bits each
    /// from bit 0 up.
    pub fn CTYPE(self, index: u32) -> (r: u8)
        requires
            index < 7,
        ensures
            r as u64 == field(self.raw, (3 * index) as u32, 0x7),
            r <= 0x7,
    {
        get_field(self.raw, 3 * index, 0x7) as u8
    }
}

} // verus!
