//! Implementation-defined registers of the Cortex-A53.
use crate::bits::{bit, field, get_bit, get_field, set_bit, set_field, with_bit, with_field};
use crate::regs::{Cpu, SysReg};
use vstd::prelude::*;

verus! {

/// Auxiliary control of the Cortex-A53.
///
/// A value of the register `CPUACTLR_EL1`.
#[derive(Debug, Clone, Copy, PartialEq, Eq, Structural)]
pub struct CPUACTLR_EL1 {
    pub raw: u64,
}

impl CPUACTLR_EL1 {
    /// The value with the raw content `raw`.
    pub fn new_with_raw_value(raw: u64) -> (r: Self)
        ensures
            r.raw == raw,
    {
        Self { raw }
    }

    /// The raw content.
    pub fn raw_value(self) -> (raw: u64)
        ensures
            raw == self.raw,
    {
        self.raw
    }

    /// The value with only the reserved-as-one bits set.
    pub fn DEFAULT() -> (r: Self)
        ensures
            r.raw == SysReg::CPUACTLR_EL1.res1(),
    {
        Self { raw: SysReg::CPUACTLR_EL1.reserved_one() }
    }

    /// Reads the register.
    pub fn read(cpu: &Cpu) -> (r: Self)
        ensures
            r.raw == cpu@.read(SysReg::CPUACTLR_EL1),
    {
        Self { raw: cpu.read(SysReg::CPUACTLR_EL1) }
    }

    /// Writes the register.
    pub fn write(cpu: &mut Cpu, value: Self)
        ensures
            final(cpu)@ == old(cpu)@.written(SysReg::CPUACTLR_EL1, value.raw),
    {
        cpu.write(SysReg::CPUACTLR_EL1, value.raw);
    }

    /// Enable data cache clean as data cache clean and invalidate: bit 44.
    pub fn ENDCCASCI(self) -> (r: bool)
        ensures
            r == bit(self.raw, 44),
    {
        get_bit(self.raw, 44)
    }

    /// This value with `ENDCCASCI`, bit 44, set to `value`.
    pub fn with_ENDCCASCI(self, value: bool) -> (r: Self)
        ensures
            r.raw == with_bit(self.raw, 44, value),
    {
        Self { raw: set_bit(self.raw, 44, value) }
    }

    /// Disable dual issue of floating point and vector instructions: bit 30.
    pub fn FPDIDIS(self) -> (r: bool)
        ensures
            r == bit(self.raw, 30),
    {
        get_bit(self.raw, 30)
    }

    /// This value with `FPDIDIS`, bit 30, set to `value`.
    pub fn with_FPDIDIS(self, value: bool) -> (r: Self)
        ensures
            r.raw == with_bit(self.raw, 30, value),
    {
        Self { raw: set_bit(self.raw, 30, value) }
    }

    /// Disable dual issue: bit 29.
    pub fn DIDIS(self) -> (r: bool)
        ensures
            r == bit(self.raw, 29),
    {
        get_bit(self.raw, 29)
    }

    /// This value with `DIDIS`, bit 29, set to `value`.
    pub fn with_DIDIS(self, value: bool) -> (r: Self)
        ensures
            r.raw == with_bit(self.raw, 29, value),
    {
        Self { raw: set_bit(self.raw, 29, value) }
    }

    /// Read-allocate mode threshold of the level 2 cache: bits 27 to 28.
    pub fn RADIS(self) -> (r: u8)
        ensures
            r as u64 == field(self.raw, 27, 0x3),
            r <= 0x3,
    {
        get_field(self.raw, 27, 0x3) as u8
    }

    /// This value with `RADIS`, bits 27 to 28, set to `value`.
    pub fn with_RADIS(self, value: u8) -> (r: Self)
        requires
            value <= 0x3,
        ensures
            r.raw == with_field(self.raw, 27, 0x3, value as u64),
    {
        Self { raw: set_field(self.raw, 27, 0x3, value as u64) }
    }

    /// Read-allocate mode threshold of the level 1 cache: bits 25 to 26.
    pub fn L1RADIS(self) -> (r: u8)
        ensures
            r as u64 == field(self.raw, 25, 0x3),
            r <= 0x3,
    {
        get_field(self.raw, 25, 0x3) as u8
    }

    /// This value with `L1RADIS`, bits 25 to 26, set to `value`.
    pub fn with_L1RADIS(self, value: u8) -> (r: Self)
        requires
            value <= 0x3,
        ensures
            r.raw == with_field(self.raw, 25, 0x3, value as u64),
    {
        Self { raw: set_field(self.raw, 25, 0x3, value as u64) }
    }

    /// Disable transient and no-read-allocate hints: bit 24.
    pub fn DTAH(self) -> (r: bool)
        ensures
            r == bit(self.raw, 24),
    {
        get_bit(self.raw, 24)
    }

    /// This value with `DTAH`, bit 24, set to `value`.
    pub fn with_DTAH(self, value: bool) -> (r: Self)
        ensures
            r.raw == with_bit(self.raw, 24, value),
    {
        Self { raw: set_bit(self.raw, 24, value) }
    }

    /// Prefetch of store streams reads for shared: bit 23.
    pub fn STBPFRS(self) -> (r: bool)
        ensures
            r == bit(self.raw, 23),
    {
        get_bit(self.raw, 23)
    }

    /// This value with `STBPFRS`, bit 23, set to `value`.
    pub fn with_STBPFRS(self, value: bool) -> (r: Self)
        ensures
            r.raw == with_bit(self.raw, 23, value),
    {
        Self { raw: set_bit(self.raw, 23, value) }
    }

    /// Disable prefetch of store streams: bit 22.
    pub fn STBPFDIS(self) -> (r: bool)
        ensures
            r == bit(self.raw, 22),
    {
        get_bit(self.raw, 22)
    }

    /// This value with `STBPFDIS`, bit 22, set to `value`.
    pub fn with_STBPFDIS(self, value: bool) -> (r: Self)
        ensures
            r.raw == with_bit(self.raw, 22, value),
    {
        Self { raw: set_bit(self.raw, 22, value) }
    }

    /// Disable throttling of instruction fetches: bit 21.
    pub fn IFUTHDIS(self) -> (r: bool)
        ensures
            r == bit(self.raw, 21),
    {
        get_bit(self.raw, 21)
    }

    /// This value with `IFUTHDIS`, bit 21, set to `value`.
    pub fn with_IFUTHDIS(self, value: bool) -> (r: Self)
        ensures
            r.raw == with_bit(self.raw, 21, value),
    {
        Self { raw: set_bit(self.raw, 21, value) }
    }

    /// Independent prefetch streams: bits 19 to 20.
    pub fn NPFSTRM(self) -> (r: u8)
        ensures
            r as u64 == field(self.raw, 19, 0x3),
            r <= 0x3,
    {
        get_field(self.raw, 19, 0x3) as u8
    }

    /// This value with `NPFSTRM`, bits 19 to 20, set to `value`.
    pub fn with_NPFSTRM(self, value: u8) -> (r: Self)
        requires
            value <= 0x3,
        ensures
            r.raw == with_field(self.raw, 19, 0x3, value as u64),
    {
        Self { raw: set_field(self.raw, 19, 0x3, value as u64) }
    }

    /// Disable prefetch of device store streams: bit 18.
    pub fn DSTDIS(self) -> (r: bool)
        ensures
            r == bit(self.raw, 18),
    {
        get_bit(self.raw, 18)
    }

    /// This value with `DSTDIS`, bit 18, set to `value`.
    pub fn with_DSTDIS(self, value: bool) -> (r: Self)
        ensures
            r.raw == with_bit(self.raw, 18, value),
    {
        Self { raw: set_bit(self.raw, 18, value) }
    }

    /// Stride detection over three linefills: bit 17.
    pub fn STRIDE(self) -> (r: bool)
        ensures
            r == bit(self.raw, 17),
    {
        get_bit(self.raw, 17)
    }

    /// This value with `STRIDE`, bit 17, set to `value`.
    pub fn with_STRIDE(self, value: bool) -> (r: Self)
        ensures
            r.raw == with_bit(self.raw, 17, value),
    {
        Self { raw: set_bit(self.raw, 17, value) }
    }

    /// Outstanding prefetches of the level 1 data cache: bits 13 to 15.
    pub fn L1PCTL(self) -> (r: u8)
        ensures
            r as u64 == field(self.raw, 13, 0x7),
            r <= 0x7,
    {
        get_field(self.raw, 13, 0x7) as u8
    }

    /// This value with `L1PCTL`, bits 13 to 15, set to `value`.
    pub fn with_L1PCTL(self, value: u8) -> (r: Self)
        requires
            value <= 0x7,
        ensures
            r.raw == with_field(self.raw, 13, 0x7, value as u64),
    {
        Self { raw: set_field(self.raw, 13, 0x7, value as u64) }
    }

    /// Disable optimized data memory barriers: bit 10.
    pub fn DODMBS(self) -> (r: bool)
        ensures
            r == bit(self.raw, 10),
    {
        get_bit(self.raw, 10)
    }

    /// This value with `DODMBS`, bit 10, set to `value`.
    pub fn with_DODMBS(self, value: bool) -> (r: Self)
        ensures
            r.raw == with_bit(self.raw, 10, value),
    {
        Self { raw: set_bit(self.raw, 10, value) }
    }

    /// Inject errors into the level 1 data cache: bit 6.
    pub fn L1DEIEN(self) -> (r: bool)
        ensures
            r == bit(self.raw, 6),
    {
        get_bit(self.raw, 6)
    }

    /// This value with `L1DEIEN`, bit 6, set to `value`.
    pub fn with_L1DEIEN(self, value: bool) -> (r: Self)
        ensures
            r.raw == with_bit(self.raw, 6, value),
    {
        Self { raw: set_bit(self.raw, 6, value) }
    }
}

} // verus!
