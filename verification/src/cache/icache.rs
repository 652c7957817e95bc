//! Maintenance of the instruction caches.
use crate::cache::dcache::{
    control_bit_set, lemma_line_in_range, line_count, line_of, SCTLR_I,
};
use crate::cache::{has_cache, Cache, CacheInfo};
use crate::instr::Instr;
use crate::regs::{Cpu, CpuView, SysReg};
use crate::sys_regs::{CURRENT_EL, SCTLR_EL1, SCTLR_EL2, SCTLR_EL3};
use vstd::prelude::*;

verus! {

/// The instruction caches of the core.
pub struct ICache;

/// The state after the whole instruction cache was invalidated: the one
/// instruction between a data barrier and an instruction barrier.
pub open spec fn invalidated_all(cpu: CpuView) -> CpuView {
    cpu.issue(Instr::Dsb).issue(Instr::IcAll).issue(Instr::Isb)
}

/// The instructions that invalidate the lines from the line of `start` to
/// the line of `end`: one for each line, lowest address first.
pub open spec fn invalidate_ops(start: int, end: int, line: int) -> Seq<Instr> {
    Seq::new(
        line_count(start, end, line) as nat,
        |k: int| Instr::IcAddr { addr: (line_of(start, line) + k * line) as u64 },
    )
}

/// The state after the range was invalidated in the level 1 instruction
/// cache: the cache selected, a data barrier, the instructions of the
/// range, an instruction barrier. Where the core has no such cache, nothing
/// is done.
pub open spec fn invalidated_range(cpu: CpuView, start: u64, end: u64) -> CpuView {
    let cache = Cache::Instruction { idx: 0 };
    if !has_cache(cpu.read(SysReg::CLIDR_EL1), cache) {
        cpu
    } else {
        let selected = CacheInfo::selected(cpu, cache).issue(Instr::Dsb);
        let line = CacheInfo::found(cpu, cache).linesize as int;
        CpuView {
            issued: selected.issued + invalidate_ops(start as int, end as int, line),
            ..selected
        }.issue(Instr::Isb)
    }
}

impl ICache {
    /// Invalidates the instruction cache, then sets the instruction cache
    /// enable bit in the system control register of the current exception
    /// level.
    pub fn enable(cpu: &mut Cpu)
        ensures
            final(cpu)@ == control_bit_set(invalidated_all(old(cpu)@), SCTLR_I, true),
    {
        Self::invalidate_all(cpu);

        let current_el = CURRENT_EL::read(cpu).EL();

        cpu.dsb();

        match current_el {
            3 => {
                let sctlr_el3 = SCTLR_EL3::read(cpu);
                SCTLR_EL3::write(cpu, sctlr_el3.with_I(true));
            },
            2 => {
                let sctlr_el2 = SCTLR_EL2::read(cpu);
                SCTLR_EL2::write(cpu, sctlr_el2.with_I(true));
            },
            1 => {
                let sctlr_el1 = SCTLR_EL1::read(cpu);
                SCTLR_EL1::write(cpu, sctlr_el1.with_I(true));
            },
            _ => (),
        }

        cpu.isb();
    }

    /// Clears the instruction cache enable bit in the system control
    /// register of the current exception level.
    pub fn disable(cpu: &mut Cpu)
        ensures
            final(cpu)@ == control_bit_set(old(cpu)@, SCTLR_I, false),
    {
        let current_el = CURRENT_EL::read(cpu).EL();

        cpu.dsb();

        match current_el {
            3 => {
                let sctlr_el3 = SCTLR_EL3::read(cpu);
                SCTLR_EL3::write(cpu, sctlr_el3.with_I(false));
            },
            2 => {
                let sctlr_el2 = SCTLR_EL2::read(cpu);
                SCTLR_EL2::write(cpu, sctlr_el2.with_I(false));
            },
            1 => {
                let sctlr_el1 = SCTLR_EL1::read(cpu);
                SCTLR_EL1::write(cpu, sctlr_el1.with_I(false));
            },
            _ => (),
        }

        cpu.isb();
    }

    /// Invalidates the whole instruction cache.
    pub fn invalidate_all(cpu: &mut Cpu)
        ensures
            final(cpu)@ == invalidated_all(old(cpu)@),
    {
        cpu.dsb();

        cpu.issue(Instr::IcAll);

        cpu.isb();
    }

    /// Invalidates the lines of the level 1 instruction cache that hold the
    /// addresses from `start` to `end`, both included.
    pub fn invalidate(cpu: &mut Cpu, start: u64, end: u64)
        ensures
            final(cpu)@ == invalidated_range(old(cpu)@, start, end),
    {
        let info = match CacheInfo::get(cpu, Cache::I_L1()) {
            Some(info) => info,
            None => {
                return;
            },
        };
        let line = info.linesize as u64;
        assert(line >= 16);
        proof {
            vstd::arithmetic::div_mod::lemma_mod_decreases(start as nat, line as nat);
            vstd::arithmetic::div_mod::lemma_mod_decreases(end as nat, line as nat);
        }
        let first = start - start % line;
        let last = end - end % line;

        cpu.dsb();

        let ghost base = cpu@;
        let ghost s = start as int;
        let ghost e = end as int;
        let ghost l = line as int;
        assert(cpu@.issued =~= base.issued + invalidate_ops(s, e, l).subrange(0, 0));
        if first <= last {
            proof {
                if last > first {
                    vstd::arithmetic::div_mod::lemma_div_decreases(
                        (last - first) as int,
                        line as int,
                    );
                }
            }
            let count = (last - first) / line + 1;
            let mut k: u64 = 0;
            let mut addr = first;
            while k < count
                invariant
                    line > 0,
                    first == line_of(s, l),
                    last == line_of(e, l),
                    l == line,
                    first <= last,
                    count == line_count(s, e, l),
                    k <= count,
                    k < count ==> addr == first + k * line,
                    cpu@ == (CpuView {
                        issued: base.issued + invalidate_ops(s, e, l).subrange(0, k as int),
                        ..base
                    }),
                decreases count - k,
            {
                proof {
                    lemma_line_in_range(first as int, last as int, l, k as int);
                }
                cpu.issue(Instr::IcAddr { addr });
                assert(cpu@.issued =~= base.issued + invalidate_ops(s, e, l).subrange(
                    0,
                    k as int + 1,
                ));
                k = k + 1;
                if k < count {
                    proof {
                        lemma_line_in_range(first as int, last as int, l, k as int);
                    }
                    addr = addr + line;
                }
            }
        }
        assert(invalidate_ops(s, e, l).subrange(0, line_count(s, e, l)) =~= invalidate_ops(
            s,
            e,
            l,
        ));

        cpu.isb();
    }
}

} // verus!
