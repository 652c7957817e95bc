//! The privileged instructions that the crate issues.
//!
//! The library does not execute them: it records them, in order, in the
//! [`Cpu`] that it works on.
use crate::cache::CacheOp;
use crate::regs::{Cpu, SysReg};
use vstd::prelude::*;

verus! {

/// One privileged instruction with its operand.
#[derive(Debug, Clone, Copy, PartialEq, Eq, Structural)]
pub enum Instr {
    /// `dmb sy`: data memory barrier.
    Dmb,
    /// `dsb sy`: data synchronization barrier.
    Dsb,
    /// `isb sy`: instruction synchronization barrier.
    Isb,
    /// `msr`: write `value` to the system register `reg`.
    Msr { reg: SysReg, value: u64 },
    /// `dc csw`, `dc isw` or `dc cisw`: maintain one data cache line, named
    /// by way, set and level.
    DcSetWay { op: CacheOp, way_set_level: u64 },
    /// `dc cvac`, `dc ivac` or `dc civac`: maintain the data cache line that
    /// holds the address.
    DcAddr { op: CacheOp, addr: u64 },
    /// `ic iallu`: invalidate the whole instruction cache.
    IcAll,
    /// `ic ivau`: invalidate the instruction cache line that holds the
    /// address.
    IcAddr { addr: u64 },
    /// `tlbi alle1is`, `alle2is` or `alle3is`: invalidate every translation
    /// of exception level `el`, on all cores of the inner shareable domain.
    TlbiAll { el: u8 },
    /// `sev`: send an event to all cores.
    Sev,
}

impl Cpu {
    /// Issues a data memory barrier.
    pub fn dmb(&mut self)
        ensures
            final(self)@ == old(self)@.issue(Instr::Dmb),
    {
        self.issue(Instr::Dmb);
    }

    /// Issues a data synchronization barrier.
    pub fn dsb(&mut self)
        ensures
            final(self)@ == old(self)@.issue(Instr::Dsb),
    {
        self.issue(Instr::Dsb);
    }

    /// Issues an instruction synchronization barrier.
    pub fn isb(&mut self)
        ensures
            final(self)@ == old(self)@.issue(Instr::Isb),
    {
        self.issue(Instr::Isb);
    }
}

} // verus!
