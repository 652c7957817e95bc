//! The system registers of one core, as plain values.
//!
//! A [`Cpu`] holds the raw content of every register that the crate
//! touches, the cache geometry behind each cache selection, and the
//! privileged instructions issued so far. Reading a register masks the
//! reserved bits of the raw content; writing one masks the value, stores it
//! and records the write between its two barriers.
use crate::instr::Instr;
use crate::bits::{normalize, normalized};
use vstd::prelude::*;

verus! {

/// Names a system register.
#[derive(Debug, Clone, Copy, PartialEq, Eq, Structural)]
pub enum SysReg {
    CurrentEL,
    SCTLR_EL3,
    SCTLR_EL2,
    SCTLR_EL1,
    SCR_EL3,
    HCR_EL2,
    SPSR_EL3,
    SPSR_EL2,
    SPSR_EL1,
    TTBR0_EL3,
    TTBR0_EL2,
    TTBR0_EL1,
    TCR_EL3,
    TCR_EL2,
    TCR_EL1,
    MAIR_EL3,
    MAIR_EL2,
    MAIR_EL1,
    CSSELR_EL1,
    CCSIDR_EL1,
    CLIDR_EL1,
    ID_AA64MMFR0_EL1,
    ID_AA64MMFR2_EL1,
    ID_AA64DFR0_EL1,
    ID_AA64DFR1_EL1,
    PMCCFILTR_EL0,
    PMCCNTR_EL0,
    PMCEID0_EL0,
    PMCEID1_EL0,
    PMCNTENSET_EL0,
    PMCNTENCLR_EL0,
    PMCR_EL0,
    PMOVSCLR_EL0,
    CNTP_CTL_EL0,
    CNTPCT_EL0,
    CNTVCT_EL0,
    CNTVOFF_EL2,
    CNTFRQ_EL0,
    CPUACTLR_EL1,
    MPIDR_EL1,
    DAIF,
    SPSEL,
    VBAR_EL1,
    VBAR_EL2,
    VBAR_EL3,
    CPTR_EL2,
    CPTR_EL3,
    CPACR_EL1,
    VMPIDR_EL2,
    CPUECTLR_EL1,
    /// Event counter `n`, with `n` below 31.
    PMEVCNTR_EL0(u8),
    /// Event type of counter `n`, with `n` below 31.
    PMEVTYPER_EL0(u8),
}

/// Slots of the register file.
pub const NUM_SYSREGS: usize = 128;

/// Bits of `SCTLR_EL3` that always read as one.
pub const SCTLR_EL3_RES1: u64 = 0x30C50830;

/// Bits of `SCTLR_EL2` that always read as one.
pub const SCTLR_EL2_RES1: u64 = 0x30C50830;

/// Bits of `SCTLR_EL1` that always read as one.
pub const SCTLR_EL1_RES1: u64 = 0x30D00800;

/// Bits of `SCR_EL3` that always read as one.
pub const SCR_EL3_RES1: u64 = 0x30;

/// Bits of `TCR_EL3` that always read as one.
pub const TCR_EL3_RES1: u64 = 0x80000000;

/// Bits of `TCR_EL2` that always read as one.
pub const TCR_EL2_RES1: u64 = 0x80000000;

impl SysReg {
    /// Whether the name stands for a register: an indexed one has its index
    /// below 31.
    pub open spec fn valid(self) -> bool {
        match self {
            SysReg::PMEVCNTR_EL0(n) => n < 31,
            SysReg::PMEVTYPER_EL0(n) => n < 31,
            _ => true,
        }
    }

    /// The slot of the register in the register file.
    pub open spec fn index(self) -> int {
        match self {
            SysReg::CurrentEL => 0,
            SysReg::SCTLR_EL3 => 1,
            SysReg::SCTLR_EL2 => 2,
            SysReg::SCTLR_EL1 => 3,
            SysReg::SCR_EL3 => 4,
            SysReg::HCR_EL2 => 5,
            SysReg::SPSR_EL3 => 6,
            SysReg::SPSR_EL2 => 7,
            SysReg::SPSR_EL1 => 8,
            SysReg::TTBR0_EL3 => 9,
            SysReg::TTBR0_EL2 => 10,
            SysReg::TTBR0_EL1 => 11,
            SysReg::TCR_EL3 => 12,
            SysReg::TCR_EL2 => 13,
            SysReg::TCR_EL1 => 14,
            SysReg::MAIR_EL3 => 15,
            SysReg::MAIR_EL2 => 16,
            SysReg::MAIR_EL1 => 17,
            SysReg::CSSELR_EL1 => 18,
            SysReg::CCSIDR_EL1 => 19,
            SysReg::CLIDR_EL1 => 20,
            SysReg::ID_AA64MMFR0_EL1 => 21,
            SysReg::ID_AA64MMFR2_EL1 => 22,
            SysReg::ID_AA64DFR0_EL1 => 23,
            SysReg::ID_AA64DFR1_EL1 => 24,
            SysReg::PMCCFILTR_EL0 => 25,
            SysReg::PMCCNTR_EL0 => 26,
            SysReg::PMCEID0_EL0 => 27,
            SysReg::PMCEID1_EL0 => 28,
            SysReg::PMCNTENSET_EL0 => 29,
            SysReg::PMCNTENCLR_EL0 => 30,
            SysReg::PMCR_EL0 => 31,
            SysReg::PMOVSCLR_EL0 => 32,
            SysReg::CNTP_CTL_EL0 => 33,
            SysReg::CNTPCT_EL0 => 34,
            SysReg::CNTVCT_EL0 => 35,
            SysReg::CNTVOFF_EL2 => 36,
            SysReg::CNTFRQ_EL0 => 37,
            SysReg::CPUACTLR_EL1 => 38,
            SysReg::MPIDR_EL1 => 39,
            SysReg::DAIF => 40,
            SysReg::SPSEL => 41,
            SysReg::VBAR_EL1 => 42,
            SysReg::VBAR_EL2 => 43,
            SysReg::VBAR_EL3 => 44,
            SysReg::CPTR_EL2 => 45,
            SysReg::CPTR_EL3 => 46,
            SysReg::CPACR_EL1 => 47,
            SysReg::VMPIDR_EL2 => 48,
            SysReg::CPUECTLR_EL1 => 49,
            SysReg::PMEVCNTR_EL0(n) => 64 + n,
            SysReg::PMEVTYPER_EL0(n) => 96 + n,
        }
    }

    /// The bits that are reserved as zero: cleared whenever the register is
    /// read or written through [`Cpu::read`] and [`Cpu::write`].
    pub open spec fn res0(self) -> u64 {
        0
    }

    /// The bits that are reserved as one: forced whenever the register is
    /// read or written through [`Cpu::read`] and [`Cpu::write`].
    pub open spec fn res1(self) -> u64 {
        match self {
            SysReg::SCTLR_EL3 => SCTLR_EL3_RES1,
            SysReg::SCTLR_EL2 => SCTLR_EL2_RES1,
            SysReg::SCTLR_EL1 => SCTLR_EL1_RES1,
            SysReg::SCR_EL3 => SCR_EL3_RES1,
            SysReg::TCR_EL3 => TCR_EL3_RES1,
            SysReg::TCR_EL2 => TCR_EL2_RES1,
            _ => 0,
        }
    }

    /// Whether software may write the register.
    pub open spec fn writable(self) -> bool {
        match self {
            SysReg::CurrentEL => false,
            SysReg::CCSIDR_EL1 => false,
            SysReg::CLIDR_EL1 => false,
            SysReg::ID_AA64MMFR0_EL1 => false,
            SysReg::ID_AA64MMFR2_EL1 => false,
            SysReg::ID_AA64DFR0_EL1 => false,
            SysReg::ID_AA64DFR1_EL1 => false,
            SysReg::PMCEID0_EL0 => false,
            SysReg::PMCEID1_EL0 => false,
            SysReg::CNTPCT_EL0 => false,
            SysReg::CNTVCT_EL0 => false,
            SysReg::MPIDR_EL1 => false,
            _ => true,
        }
    }

    /// The lowest exception level that may access the register. The
    /// implementation-defined registers of the core are left to EL3.
    pub open spec fn lowest_el(self) -> u64 {
        match self {
            SysReg::SCTLR_EL3 => 3,
            SysReg::SCTLR_EL2 => 2,
            SysReg::SCR_EL3 => 3,
            SysReg::HCR_EL2 => 2,
            SysReg::SPSR_EL3 => 3,
            SysReg::SPSR_EL2 => 2,
            SysReg::TTBR0_EL3 => 3,
            SysReg::TTBR0_EL2 => 2,
            SysReg::TCR_EL3 => 3,
            SysReg::TCR_EL2 => 2,
            SysReg::MAIR_EL3 => 3,
            SysReg::MAIR_EL2 => 2,
            SysReg::CNTVOFF_EL2 => 2,
            SysReg::CPUACTLR_EL1 => 3,
            SysReg::VBAR_EL2 => 2,
            SysReg::VBAR_EL3 => 3,
            SysReg::CPTR_EL2 => 2,
            SysReg::CPTR_EL3 => 3,
            SysReg::VMPIDR_EL2 => 2,
            SysReg::CPUECTLR_EL1 => 3,
            _ => 1,
        }
    }

    /// Computes [`SysReg::index`].
    pub fn slot(self) -> (i: usize)
        requires
            self.valid(),
        ensures
            i == self.index(),
            i < NUM_SYSREGS,
    {
        match self {
            SysReg::CurrentEL => 0,
            SysReg::SCTLR_EL3 => 1,
            SysReg::SCTLR_EL2 => 2,
            SysReg::SCTLR_EL1 => 3,
            SysReg::SCR_EL3 => 4,
            SysReg::HCR_EL2 => 5,
            SysReg::SPSR_EL3 => 6,
            SysReg::SPSR_EL2 => 7,
            SysReg::SPSR_EL1 => 8,
            SysReg::TTBR0_EL3 => 9,
            SysReg::TTBR0_EL2 => 10,
            SysReg::TTBR0_EL1 => 11,
            SysReg::TCR_EL3 => 12,
            SysReg::TCR_EL2 => 13,
            SysReg::TCR_EL1 => 14,
            SysReg::MAIR_EL3 => 15,
            SysReg::MAIR_EL2 => 16,
            SysReg::MAIR_EL1 => 17,
            SysReg::CSSELR_EL1 => 18,
            SysReg::CCSIDR_EL1 => 19,
            SysReg::CLIDR_EL1 => 20,
            SysReg::ID_AA64MMFR0_EL1 => 21,
            SysReg::ID_AA64MMFR2_EL1 => 22,
            SysReg::ID_AA64DFR0_EL1 => 23,
            SysReg::ID_AA64DFR1_EL1 => 24,
            SysReg::PMCCFILTR_EL0 => 25,
            SysReg::PMCCNTR_EL0 => 26,
            SysReg::PMCEID0_EL0 => 27,
            SysReg::PMCEID1_EL0 => 28,
            SysReg::PMCNTENSET_EL0 => 29,
            SysReg::PMCNTENCLR_EL0 => 30,
            SysReg::PMCR_EL0 => 31,
            SysReg::PMOVSCLR_EL0 => 32,
            SysReg::CNTP_CTL_EL0 => 33,
            SysReg::CNTPCT_EL0 => 34,
            SysReg::CNTVCT_EL0 => 35,
            SysReg::CNTVOFF_EL2 => 36,
            SysReg::CNTFRQ_EL0 => 37,
            SysReg::CPUACTLR_EL1 => 38,
            SysReg::MPIDR_EL1 => 39,
            SysReg::DAIF => 40,
            SysReg::SPSEL => 41,
            SysReg::VBAR_EL1 => 42,
            SysReg::VBAR_EL2 => 43,
            SysReg::VBAR_EL3 => 44,
            SysReg::CPTR_EL2 => 45,
            SysReg::CPTR_EL3 => 46,
            SysReg::CPACR_EL1 => 47,
            SysReg::VMPIDR_EL2 => 48,
            SysReg::CPUECTLR_EL1 => 49,
            SysReg::PMEVCNTR_EL0(n) => 64 + n as usize,
            SysReg::PMEVTYPER_EL0(n) => 96 + n as usize,
        }
    }

    /// Computes [`SysReg::res0`].
    pub fn reserved_zero(self) -> (mask: u64)
        ensures
            mask == self.res0(),
    {
        0
    }

    /// Computes [`SysReg::res1`].
    pub fn reserved_one(self) -> (mask: u64)
        ensures
            mask == self.res1(),
    {
        match self {
            SysReg::SCTLR_EL3 => SCTLR_EL3_RES1,
            SysReg::SCTLR_EL2 => SCTLR_EL2_RES1,
            SysReg::SCTLR_EL1 => SCTLR_EL1_RES1,
            SysReg::SCR_EL3 => SCR_EL3_RES1,
            SysReg::TCR_EL3 => TCR_EL3_RES1,
            SysReg::TCR_EL2 => TCR_EL2_RES1,
            _ => 0,
        }
    }

    /// Computes [`SysReg::lowest_el`].
    pub fn min_el(self) -> (el: u64)
        ensures
            el == self.lowest_el(),
            1 <= el <= 3,
    {
        match self {
            SysReg::SCTLR_EL3 => 3,
            SysReg::SCTLR_EL2 => 2,
            SysReg::SCR_EL3 => 3,
            SysReg::HCR_EL2 => 2,
            SysReg::SPSR_EL3 => 3,
            SysReg::SPSR_EL2 => 2,
            SysReg::TTBR0_EL3 => 3,
            SysReg::TTBR0_EL2 => 2,
            SysReg::TCR_EL3 => 3,
            SysReg::TCR_EL2 => 2,
            SysReg::MAIR_EL3 => 3,
            SysReg::MAIR_EL2 => 2,
            SysReg::CNTVOFF_EL2 => 2,
            SysReg::CPUACTLR_EL1 => 3,
            SysReg::VBAR_EL2 => 2,
            SysReg::VBAR_EL3 => 3,
            SysReg::CPTR_EL2 => 2,
            SysReg::CPTR_EL3 => 3,
            SysReg::VMPIDR_EL2 => 2,
            SysReg::CPUECTLR_EL1 => 3,
            _ => 1,
        }
    }

    /// Computes [`SysReg::writable`].
    pub fn is_writable(self) -> (w: bool)
        ensures
            w == self.writable(),
    {
        match self {
            SysReg::CurrentEL => false,
            SysReg::CCSIDR_EL1 => false,
            SysReg::CLIDR_EL1 => false,
            SysReg::ID_AA64MMFR0_EL1 => false,
            SysReg::ID_AA64MMFR2_EL1 => false,
            SysReg::ID_AA64DFR0_EL1 => false,
            SysReg::ID_AA64DFR1_EL1 => false,
            SysReg::PMCEID0_EL0 => false,
            SysReg::PMCEID1_EL0 => false,
            SysReg::CNTPCT_EL0 => false,
            SysReg::CNTVCT_EL0 => false,
            SysReg::MPIDR_EL1 => false,
            _ => true,
        }
    }
}

/// Two valid names with the same slot are the same register.
pub proof fn lemma_slots_distinct(a: SysReg, b: SysReg)
    requires
        a.valid(),
        b.valid(),
        a.index() == b.index(),
    ensures
        a == b,
{
}

/// One core: its system registers and what it has been told to do.
pub struct Cpu {
    /// Raw content of the register file, by slot.
    pub regs: [u64; 128],
    /// Raw content of the cache geometry register for each cache selection.
    pub geometry: [u64; 16],
    /// The privileged instructions issued so far, oldest first.
    pub issued: Vec<Instr>,
}

/// The state of a [`Cpu`] as mathematical values.
pub struct CpuView {
    pub regs: Seq<u64>,
    pub geometry: Seq<u64>,
    pub issued: Seq<Instr>,
}

impl View for Cpu {
    type V = CpuView;

    open spec fn view(&self) -> CpuView {
        CpuView { regs: self.regs@, geometry: self.geometry@, issued: self.issued@ }
    }
}

impl CpuView {
    /// The cache selection that the selection register holds: its level and
    /// its instruction flag, the four low bits.
    pub open spec fn selection(self) -> int {
        self.regs[SysReg::CSSELR_EL1.index()] as int % 16
    }

    /// What the hardware holds in `reg`. The cache geometry register shows
    /// the geometry of the cache that is selected.
    pub open spec fn raw(self, reg: SysReg) -> u64 {
        if reg == SysReg::CCSIDR_EL1 {
            self.geometry[self.selection()]
        } else {
            self.regs[reg.index()]
        }
    }

    /// What a read of `reg` gives: the raw content after reserved-bit
    /// masking.
    pub open spec fn read(self, reg: SysReg) -> u64 {
        normalized(self.raw(reg), reg.res0(), reg.res1())
    }

    /// The state after the instruction `instr` was issued.
    pub open spec fn issue(self, instr: Instr) -> CpuView {
        CpuView { issued: self.issued.push(instr), ..self }
    }

    /// The state with `value` in the slot of `reg`, nothing issued.
    pub open spec fn loaded(self, reg: SysReg, value: u64) -> CpuView {
        CpuView { regs: self.regs.update(reg.index(), value), ..self }
    }

    /// The state after a bare register write: `value` is stored as it is
    /// and the write is recorded, without barriers.
    pub open spec fn written_raw(self, reg: SysReg, value: u64) -> CpuView {
        self.loaded(reg, value).issue(Instr::Msr { reg, value })
    }

    /// The state after a write of `value` to `reg`: the value is masked,
    /// stored, and the write is recorded between a data barrier and an
    /// instruction barrier.
    pub open spec fn written(self, reg: SysReg, value: u64) -> CpuView {
        let masked = normalized(value, reg.res0(), reg.res1());
        self.issue(Instr::Dsb).loaded(reg, masked).issue(Instr::Msr { reg, value: masked }).issue(
            Instr::Isb,
        )
    }

    /// Well-formed: the register file and the geometry table have their
    /// lengths.
    pub open spec fn wf(self) -> bool {
        self.regs.len() == 128 && self.geometry.len() == 16
    }
}

impl Cpu {
    /// A core with every register zero and nothing issued.
    pub fn new() -> (cpu: Self)
        ensures
            cpu@.regs == Seq::new(128, |i: int| 0u64),
            cpu@.geometry == Seq::new(16, |i: int| 0u64),
            cpu@.issued == Seq::<Instr>::empty(),
    {
        let cpu = Cpu { regs: [0u64; 128], geometry: [0u64; 16], issued: Vec::new() };
        assert(cpu@.regs =~= Seq::new(128, |i: int| 0u64));
        assert(cpu@.geometry =~= Seq::new(16, |i: int| 0u64));
        cpu
    }

    /// Puts the raw content `value` into `reg`, as the hardware holds it.
    /// Nothing is issued.
    pub fn load(&mut self, reg: SysReg, value: u64)
        requires
            reg.valid(),
        ensures
            final(self)@ == old(self)@.loaded(reg, value),
    {
        let i = reg.slot();
        self.regs[i] = value;
    }

    /// Puts the raw content `value` of the cache geometry register for the
    /// cache selection `selection`. Nothing is issued.
    pub fn load_geometry(&mut self, selection: usize, value: u64)
        requires
            selection < 16,
        ensures
            final(self)@ == (CpuView {
                geometry: old(self)@.geometry.update(selection as int, value),
                ..old(self)@
            }),
    {
        self.geometry[selection] = value;
    }

    /// The raw content of `reg`.
    pub fn raw(&self, reg: SysReg) -> (value: u64)
        requires
            reg.valid(),
        ensures
            value == self@.raw(reg),
    {
        match reg {
            SysReg::CCSIDR_EL1 => {
                let selection = (self.regs[SysReg::CSSELR_EL1.slot()] % 16) as usize;
                self.geometry[selection]
            },
            _ => self.regs[reg.slot()],
        }
    }

    /// Reads `reg`: the raw content with the reserved-as-zero bits cleared
    /// and the reserved-as-one bits set.
    pub fn read(&self, reg: SysReg) -> (value: u64)
        requires
            reg.valid(),
        ensures
            value == self@.read(reg),
    {
        normalize(self.raw(reg), reg.reserved_zero(), reg.reserved_one())
    }

    /// Records the instruction `instr` as issued.
    pub fn issue(&mut self, instr: Instr)
        ensures
            final(self)@ == old(self)@.issue(instr),
    {
        self.issued.push(instr);
    }

    /// Writes `value` to `reg` as it is, without masking and without
    /// barriers.
    pub fn write_raw(&mut self, reg: SysReg, value: u64)
        requires
            reg.valid(),
            reg.writable(),
        ensures
            final(self)@ == old(self)@.written_raw(reg, value),
    {
        self.load(reg, value);
        self.issue(Instr::Msr { reg, value });
    }

    /// Writes `value` to `reg`: masks the reserved bits, then issues the
    /// write between a data barrier and an instruction barrier.
    pub fn write(&mut self, reg: SysReg, value: u64)
        requires
            reg.valid(),
            reg.writable(),
        ensures
            final(self)@ == old(self)@.written(reg, value),
    {
        let masked = normalize(value, reg.reserved_zero(), reg.reserved_one());
        self.issue(Instr::Dsb);
        self.load(reg, masked);
        self.issue(Instr::Msr { reg, value: masked });
        self.issue(Instr::Isb);
    }

    /// Reads `reg`, applies `f` and writes the result back. The three steps
    /// are not atomic.
    pub fn modify<F: Fn(u64) -> u64>(&mut self, reg: SysReg, f: F)
        requires
            reg.valid(),
            reg.writable(),
            f.requires((old(self)@.read(reg),)),
        ensures
            exists|value: u64|
                f.ensures((old(self)@.read(reg),), value) && final(self)@ == old(self)@.written(
                    reg,
                    value,
                ),
    {
        let value = f(self.read(reg));
        self.write(reg, value);
    }
}

/// Writing back what was read changes nothing in the register but the
/// masking, and the masking is the one that the read applied: after the
/// write the register reads as before, and a raw content `x` is held as
/// `(x & !RES0) | RES1`.
pub proof fn lemma_write_of_read(cpu: CpuView, reg: SysReg)
    requires
        cpu.wf(),
        reg.valid(),
        reg != SysReg::CCSIDR_EL1,
    ensures
        cpu.written(reg, cpu.read(reg)).raw(reg) == normalized(
            cpu.raw(reg),
            reg.res0(),
            reg.res1(),
        ),
        cpu.written(reg, cpu.read(reg)).read(reg) == cpu.read(reg),
{
    crate::bits::lemma_normalized_idempotent(cpu.raw(reg), reg.res0(), reg.res1());
    crate::bits::lemma_normalized_idempotent(cpu.read(reg), reg.res0(), reg.res1());
}

/// A control bit written into a system control register reads back as
/// written: none of the three bits is reserved.
pub proof fn lemma_control_bit_survives(raw: u64, res1: u64, pos: u32, on: bool)
    by (bit_vector)
    requires
        res1 == 0x30c5_0830 || res1 == 0x30d0_0800,
        pos == 0 || pos == 2 || pos == 12,
    ensures
        crate::bits::bit(
            normalized(crate::bits::with_bit(normalized(raw, 0, res1), pos, on), 0, res1),
            pos,
        ) == on,
{
}

/// A write to one register leaves the raw content of every other register
/// as it was. The cache geometry register follows the selection register.
pub proof fn lemma_write_keeps_others(cpu: CpuView, reg: SysReg, value: u64, other: SysReg)
    requires
        cpu.wf(),
        reg.valid(),
        other.valid(),
        other != reg,
        other != SysReg::CCSIDR_EL1 || reg != SysReg::CSSELR_EL1,
    ensures
        cpu.written(reg, value).raw(other) == cpu.raw(other),
{
}

} // verus!
