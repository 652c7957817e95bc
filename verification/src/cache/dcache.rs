//! Maintenance of the data and unified caches.
use crate::bits::{bit, field, with_bit};
use crate::cache::{has_cache, Cache, CacheInfo, CacheOp};
use crate::instr::Instr;
use crate::regs::{lemma_control_bit_survives, Cpu, CpuView, SysReg};
use crate::sys_regs::{CLIDR_EL1, CURRENT_EL, SCTLR_EL1, SCTLR_EL2, SCTLR_EL3};
use vstd::arithmetic::div_mod::lemma_fundamental_div_mod_converse;
use vstd::prelude::*;

verus! {

/// The data and unified caches of the core.
pub struct DCache;

/// Bit of the system control registers that enables the data caches.
pub const SCTLR_C: u32 = 2;

/// Bit of the system control registers that enables the instruction
/// caches.
pub const SCTLR_I: u32 = 12;

/// The state after bit `pos` of the system control register of the current
/// exception level was set to `on`: a data barrier, the write of that one
/// register, an instruction barrier. The control registers of the other
/// levels are not touched; at EL0 none is.
pub open spec fn control_bit_set(cpu: CpuView, pos: u32, on: bool) -> CpuView {
    let el = field(cpu.read(SysReg::CurrentEL), 2, 0x3);
    let before = cpu.issue(Instr::Dsb);
    let after = if el == 3 {
        before.written(SysReg::SCTLR_EL3, with_bit(before.read(SysReg::SCTLR_EL3), pos, on))
    } else if el == 2 {
        before.written(SysReg::SCTLR_EL2, with_bit(before.read(SysReg::SCTLR_EL2), pos, on))
    } else if el == 1 {
        before.written(SysReg::SCTLR_EL1, with_bit(before.read(SysReg::SCTLR_EL1), pos, on))
    } else {
        before
    };
    after.issue(Instr::Isb)
}

/// Setting the bit issues a data barrier first and an instruction barrier
/// last, and leaves the system control registers of the levels that the
/// core does not run at as they were.
pub proof fn lemma_control_bit_set(cpu: CpuView, pos: u32, on: bool, el: u64)
    requires
        cpu.wf(),
        el == field(cpu.read(SysReg::CurrentEL), 2, 0x3),
    ensures
        control_bit_set(cpu, pos, on).issued.len() >= cpu.issued.len() + 2,
        control_bit_set(cpu, pos, on).issued[cpu.issued.len() as int] == Instr::Dsb,
        control_bit_set(cpu, pos, on).issued.last() == Instr::Isb,
        el != 3 ==> control_bit_set(cpu, pos, on).raw(SysReg::SCTLR_EL3) == cpu.raw(
            SysReg::SCTLR_EL3,
        ),
        el != 2 ==> control_bit_set(cpu, pos, on).raw(SysReg::SCTLR_EL2) == cpu.raw(
            SysReg::SCTLR_EL2,
        ),
        el != 1 ==> control_bit_set(cpu, pos, on).raw(SysReg::SCTLR_EL1) == cpu.raw(
            SysReg::SCTLR_EL1,
        ),
{
}

/// After the bit was set, the system control register of the current
/// exception level holds it as it was set. This is said of the enable bits
/// for address translation, data caches and instruction caches.
pub proof fn lemma_control_bit_holds(cpu: CpuView, pos: u32, on: bool)
    requires
        cpu.wf(),
        pos == 0 || pos == 2 || pos == 12,
    ensures
        ({
            let el = field(cpu.read(SysReg::CurrentEL), 2, 0x3);
            let after = control_bit_set(cpu, pos, on);
            &&& el == 3 ==> bit(after.raw(SysReg::SCTLR_EL3), pos) == on
            &&& el == 2 ==> bit(after.raw(SysReg::SCTLR_EL2), pos) == on
            &&& el == 1 ==> bit(after.raw(SysReg::SCTLR_EL1), pos) == on
        }),
{
    lemma_control_bit_survives(cpu.raw(SysReg::SCTLR_EL3), SysReg::SCTLR_EL3.res1(), pos, on);
    lemma_control_bit_survives(cpu.raw(SysReg::SCTLR_EL2), SysReg::SCTLR_EL2.res1(), pos, on);
    lemma_control_bit_survives(cpu.raw(SysReg::SCTLR_EL1), SysReg::SCTLR_EL1.res1(), pos, on);
}

/// The smallest `a` such that two to the power `a` is at least `n`.
pub open spec fn ceil_log2(n: int) -> int
    decreases n,
{
    if n <= 1 {
        0
    } else {
        1 + ceil_log2((n + 1) / 2)
    }
}

/// The logarithm never exceeds the width of the number.
pub proof fn lemma_ceil_log2_bound(n: int, width: int)
    requires
        0 <= width,
        n <= vstd::arithmetic::power2::pow2(width as nat),
    ensures
        0 <= ceil_log2(n) <= width,
    decreases width,
{
    if n <= 1 {
    } else if width == 0 {
        assert(vstd::arithmetic::power2::pow2(0) == 1) by {
            vstd::arithmetic::power2::lemma2_to64();
        }
    } else {
        vstd::arithmetic::power2::lemma_pow2_unfold(width as nat);
        lemma_ceil_log2_bound((n + 1) / 2, width - 1);
    }
}

/// Computes [`ceil_log2`].
pub fn log2_ceil(n: u32) -> (a: u32)
    ensures
        a == ceil_log2(n as int),
        a <= 32,
{
    proof {
        vstd::arithmetic::power2::lemma2_to64();
        lemma_ceil_log2_bound(n as int, 32);
    }
    let mut rest = n;
    let mut a: u32 = 0;
    while rest > 1
        invariant
            a + ceil_log2(rest as int) == ceil_log2(n as int),
            0 <= ceil_log2(n as int) <= 32,
            a <= 32,
        decreases rest,
    {
        proof {
            lemma_ceil_log2_nonneg(((rest as int) + 1) / 2);
        }
        rest = rest / 2 + rest % 2;
        a = a + 1;
    }
    a
}

/// The logarithm is never negative.
pub proof fn lemma_ceil_log2_nonneg(n: int)
    ensures
        ceil_log2(n) >= 0,
    decreases n,
{
    if n > 1 {
        lemma_ceil_log2_nonneg((n + 1) / 2);
    }
}

/// The operand of a maintenance instruction by set and way: the way in the
/// bits from bit 31 down, as many as the logarithm of the ways; the set
/// above the bits of the offset in a line; the level in bits 1 to 3.
pub open spec fn way_set_level(way: u32, set: u32, level: u8, info: CacheInfo) -> u64 {
    ((way as u64) << ((32 - ceil_log2(info.num_ways as int)) as u32)) | ((set as u64) << (ceil_log2(
        info.linesize as int,
    ) as u32)) | ((level as u64) << 1u32)
}

/// The `k`-th instruction of the walk over a cache: all ways of set 0, then
/// all ways of set 1, and so on.
pub open spec fn set_way_op(op: CacheOp, info: CacheInfo, level: u8, k: int) -> Instr {
    Instr::DcSetWay {
        op,
        way_set_level: way_set_level(
            (k % (info.num_ways as int)) as u32,
            (k / (info.num_ways as int)) as u32,
            level,
            info,
        ),
    }
}

/// The walk over a cache: one instruction for every pair of set and way.
pub open spec fn set_way_ops(op: CacheOp, info: CacheInfo, level: u8) -> Seq<Instr> {
    Seq::new((info.num_sets * info.num_ways) as nat, |k: int| set_way_op(op, info, level, k))
}

/// The walk reaches every pair of set and way: the instruction for `way`
/// of `set` is the one at position `set * ways + way`.
pub proof fn lemma_walk_covers(op: CacheOp, info: CacheInfo, level: u8, way: u32, set: u32)
    requires
        way < info.num_ways,
        set < info.num_sets,
    ensures
        0 <= set * info.num_ways + way < set_way_ops(op, info, level).len(),
        set_way_ops(op, info, level)[set * info.num_ways + way] == (Instr::DcSetWay {
            op,
            way_set_level: way_set_level(way, set, level, info),
        }),
{
    let ways = info.num_ways as int;
    let k = set * ways + way;
    assert(k == ways * set + way) by (nonlinear_arith)
        requires
            k == set * ways + way,
    ;
    lemma_fundamental_div_mod_converse(k, ways, set as int, way as int);
    assert(0 <= k < info.num_sets * ways) by (nonlinear_arith)
        requires
            k == set * ways + way,
            0 <= way < ways,
            0 <= set < info.num_sets,
    ;
}

/// The state after the levels from `level` on, below `loc`, were
/// maintained: for each level its data or unified cache is selected, a data
/// barrier is issued and the cache is walked. The first level that has no
/// such cache ends the work.
pub open spec fn maintained_from(cpu: CpuView, op: CacheOp, level: int, loc: int) -> CpuView
    decreases loc - level,
{
    let cache = Cache::DataOrUnified { idx: level as u8 };
    if level < 0 || level >= loc || !has_cache(cpu.read(SysReg::CLIDR_EL1), cache) {
        cpu
    } else {
        let selected = CacheInfo::selected(cpu, cache).issue(Instr::Dsb);
        let walked = CpuView {
            issued: selected.issued + set_way_ops(op, CacheInfo::found(cpu, cache), level as u8),
            ..selected
        };
        maintained_from(walked, op, level + 1, loc)
    }
}

/// The state after every data or unified cache below the level of
/// coherence was maintained, with the closing instruction barrier.
pub open spec fn maintained_all(cpu: CpuView, op: CacheOp) -> CpuView {
    maintained_from(cpu, op, 0, field(cpu.read(SysReg::CLIDR_EL1), 24, 0x7) as int).issue(
        Instr::Isb,
    )
}

/// Maintenance by set and way writes no register but the cache size
/// selection register: every other register holds what it held, and the
/// geometry of the caches is as it was.
pub proof fn lemma_maintained_keeps_registers(
    cpu: CpuView,
    op: CacheOp,
    level: int,
    loc: int,
    reg: SysReg,
)
    requires
        cpu.wf(),
        reg.valid(),
        reg != SysReg::CSSELR_EL1,
        reg != SysReg::CCSIDR_EL1,
    ensures
        maintained_from(cpu, op, level, loc).wf(),
        maintained_from(cpu, op, level, loc).raw(reg) == cpu.raw(reg),
        maintained_from(cpu, op, level, loc).geometry == cpu.geometry,
        maintained_from(cpu, op, level, loc).issued.len() >= cpu.issued.len(),
    decreases loc - level,
{
    let cache = Cache::DataOrUnified { idx: level as u8 };
    if level < 0 || level >= loc || !has_cache(cpu.read(SysReg::CLIDR_EL1), cache) {
    } else {
        let selected = CacheInfo::selected(cpu, cache).issue(Instr::Dsb);
        let walked = CpuView {
            issued: selected.issued + set_way_ops(op, CacheInfo::found(cpu, cache), level as u8),
            ..selected
        };
        lemma_maintained_keeps_registers(walked, op, level + 1, loc, reg);
    }
}

/// The line that holds `addr`, for lines of `line` bytes.
pub open spec fn line_of(addr: int, line: int) -> int {
    addr - addr % line
}

/// The count of lines from the line of `start` to the line of `end`.
pub open spec fn line_count(start: int, end: int, line: int) -> int {
    if line_of(start, line) <= line_of(end, line) {
        (line_of(end, line) - line_of(start, line)) / line + 1
    } else {
        0
    }
}

/// The operation for the line at `addr`: an invalidate becomes a clean and
/// invalidate where the line reaches outside the range from `start` to
/// `end`, so that no byte outside the range loses its content.
pub open spec fn line_op(op: CacheOp, addr: int, start: int, end: int, line: int) -> CacheOp {
    if op == CacheOp::Invalidate && (addr < start || addr + line - 1 > end) {
        CacheOp::CleanInvalidate
    } else {
        op
    }
}

/// The instructions for the range from `start` to `end`, both included: one
/// for each line, lowest address first.
pub open spec fn range_ops(op: CacheOp, start: int, end: int, line: int) -> Seq<Instr> {
    Seq::new(
        line_count(start, end, line) as nat,
        |k: int|
            Instr::DcAddr {
                op: line_op(op, line_of(start, line) + k * line, start, end, line),
                addr: (line_of(start, line) + k * line) as u64,
            },
    )
}

/// The state after the range was maintained in the level 1 data cache: the
/// cache selected, a data barrier, the instructions of the range, an
/// instruction barrier. Where the core has no such cache, nothing is done.
pub open spec fn maintained_range(cpu: CpuView, op: CacheOp, start: u64, end: u64) -> CpuView {
    let cache = Cache::DataOrUnified { idx: 0 };
    if !has_cache(cpu.read(SysReg::CLIDR_EL1), cache) {
        cpu
    } else {
        let selected = CacheInfo::selected(cpu, cache).issue(Instr::Dsb);
        let line = CacheInfo::found(cpu, cache).linesize as int;
        CpuView {
            issued: selected.issued + range_ops(op, start as int, end as int, line),
            ..selected
        }.issue(Instr::Isb)
    }
}

/// The lines of a range cover it: every address from `start` to `end` lies
/// in one of the lines that are maintained.
pub proof fn lemma_range_covers(start: int, end: int, line: int, addr: int)
    requires
        0 < line,
        0 <= start <= addr <= end,
    ensures
        ({
            let k = (addr - line_of(start, line)) / line;
            &&& 0 <= k < line_count(start, end, line)
            &&& line_of(start, line) + k * line <= addr < line_of(start, line) + k * line + line
        }),
{
    let first = line_of(start, line);
    let last = line_of(end, line);
    let k = (addr - first) / line;
    vstd::arithmetic::div_mod::lemma_mod_bound(start, line);
    vstd::arithmetic::div_mod::lemma_mod_bound(end, line);
    vstd::arithmetic::div_mod::lemma_fundamental_div_mod(addr - first, line);
    vstd::arithmetic::div_mod::lemma_mod_bound(addr - first, line);
    vstd::arithmetic::div_mod::lemma_div_pos_is_pos(addr - first, line);
    assert(line * k == k * line) by (nonlinear_arith);
    vstd::arithmetic::div_mod::lemma_fundamental_div_mod(start, line);
    vstd::arithmetic::div_mod::lemma_fundamental_div_mod(end, line);
    assert(last - first == line * (end / line - start / line)) by (nonlinear_arith)
        requires
            first == line * (start / line),
            last == line * (end / line),
    ;
    vstd::arithmetic::div_mod::lemma_div_multiples_vanish(end / line - start / line, line);
    assert(first <= last) by {
        vstd::arithmetic::div_mod::lemma_div_is_ordered(start, end, line);
        assert(line * (start / line) <= line * (end / line)) by (nonlinear_arith)
            requires
                start / line <= end / line,
                line > 0,
        ;
    }
    assert(k <= (last - first) / line) by {
        assert(addr - first < last - first + line);
        if k > (last - first) / line {
            assert(k * line >= ((last - first) / line + 1) * line) by (nonlinear_arith)
                requires
                    k >= (last - first) / line + 1,
                    line > 0,
            ;
            assert(((last - first) / line + 1) * line == last - first + line) by (nonlinear_arith)
                requires
                    (last - first) / line == end / line - start / line,
                    last - first == line * (end / line - start / line),
            ;
        }
    }
}

/// Of an invalidate over a range, only the first and the last line can
/// become a clean and invalidate: the first where the range starts inside
/// it, the last where the range ends inside it. Every line between them is
/// invalidated, and a clean or a clean and invalidate is issued as it is.
pub proof fn lemma_range_upgrade(op: CacheOp, start: int, end: int, line: int, k: int)
    requires
        0 < line,
        0 <= start <= end,
        0 <= k < line_count(start, end, line),
    ensures
        range_ops(op, start, end, line)[k] matches Instr::DcAddr { op: issued, addr }
            && issued == if op == CacheOp::Invalidate && ((k == 0 && start % line != 0) || (k
            == line_count(start, end, line) - 1 && (end + 1) % line != 0)) {
            CacheOp::CleanInvalidate
        } else {
            op
        },
{
    let first = line_of(start, line);
    let last = line_of(end, line);
    let n = line_count(start, end, line);
    let addr = first + k * line;
    vstd::arithmetic::div_mod::lemma_fundamental_div_mod(start, line);
    vstd::arithmetic::div_mod::lemma_fundamental_div_mod(end, line);
    vstd::arithmetic::div_mod::lemma_fundamental_div_mod(end + 1, line);
    assert(first == line * (start / line));
    assert(last == line * (end / line));
    assert(last - first == line * (end / line - start / line)) by (nonlinear_arith)
        requires
            first == line * (start / line),
            last == line * (end / line),
    ;
    vstd::arithmetic::div_mod::lemma_div_multiples_vanish(end / line - start / line, line);
    assert(n == end / line - start / line + 1);
    assert(addr == line * (start / line + k)) by (nonlinear_arith)
        requires
            addr == first + k * line,
            first == line * (start / line),
    ;
    if k == 0 {
        assert(addr == first);
    } else {
        assert(addr >= first + line) by (nonlinear_arith)
            requires
                addr == first + k * line,
                k >= 1,
                line > 0,
        ;
    }
    if k == n - 1 {
        assert(addr == last) by (nonlinear_arith)
            requires
                addr == line * (start / line + k),
                last == line * (end / line),
                k == end / line - start / line,
        ;
        if (end + 1) % line == 0 {
            assert(end % line == line - 1) by {
                if end % line != line - 1 {
                    vstd::arithmetic::div_mod::lemma_mod_bound(end, line);
                    assert(end + 1 == (end / line) * line + (end % line + 1)) by (nonlinear_arith)
                        requires
                            end == line * (end / line) + end % line,
                    ;
                    lemma_fundamental_div_mod_converse(end + 1, line, end / line, end % line + 1);
                }
            }
        } else {
            assert(end % line != line - 1) by {
                if end % line == line - 1 {
                    assert(end + 1 == (end / line + 1) * line + 0) by (nonlinear_arith)
                        requires
                            end == line * (end / line) + (line - 1),
                    ;
                    lemma_fundamental_div_mod_converse(end + 1, line, end / line + 1, 0);
                }
            }
        }
    } else {
        assert(addr + line <= last) by (nonlinear_arith)
            requires
                addr == line * (start / line + k),
                last == line * (end / line),
                k < end / line - start / line,
                line > 0,
        ;
    }
}

impl DCache {
    /// Invalidates the data caches, then sets the data cache enable bit in
    /// the system control register of the current exception level.
    pub fn enable(cpu: &mut Cpu)
        ensures
            final(cpu)@ == control_bit_set(
                maintained_all(old(cpu)@, CacheOp::Invalidate),
                SCTLR_C,
                true,
            ),
    {
        Self::op_all(cpu, CacheOp::Invalidate);

        let current_el = CURRENT_EL::read(cpu).EL();

        cpu.dsb();

        match current_el {
            3 => {
                let sctlr_el3 = SCTLR_EL3::read(cpu);
                SCTLR_EL3::write(cpu, sctlr_el3.with_C(true));
            },
            2 => {
                let sctlr_el2 = SCTLR_EL2::read(cpu);
                SCTLR_EL2::write(cpu, sctlr_el2.with_C(true));
            },
            1 => {
                let sctlr_el1 = SCTLR_EL1::read(cpu);
                SCTLR_EL1::write(cpu, sctlr_el1.with_C(true));
            },
            _ => (),
        }

        cpu.isb();
    }

    /// Clears the data cache enable bit in the system control register of
    /// the current exception level.
    pub fn disable(cpu: &mut Cpu)
        ensures
            final(cpu)@ == control_bit_set(old(cpu)@, SCTLR_C, false),
    {
        let current_el = CURRENT_EL::read(cpu).EL();

        cpu.dsb();

        match current_el {
            3 => {
                let sctlr_el3 = SCTLR_EL3::read(cpu);
                SCTLR_EL3::write(cpu, sctlr_el3.with_C(false));
            },
            2 => {
                let sctlr_el2 = SCTLR_EL2::read(cpu);
                SCTLR_EL2::write(cpu, sctlr_el2.with_C(false));
            },
            1 => {
                let sctlr_el1 = SCTLR_EL1::read(cpu);
                SCTLR_EL1::write(cpu, sctlr_el1.with_C(false));
            },
            _ => (),
        }

        cpu.isb();
    }

    /// Computes [`way_set_level`].
    pub fn operand(way: u32, set: u32, level: u8, info: CacheInfo) -> (r: u64)
        ensures
            r == way_set_level(way, set, level, info),
    {
        let way_shift = 32 - log2_ceil(info.num_ways);
        let set_shift = log2_ceil(info.linesize as u32);
        ((way as u64) << way_shift) | ((set as u64) << set_shift) | ((level as u64) << 1u32)
    }

    /// Walks one cache: issues the maintenance instruction for every pair
    /// of set and way.
    pub fn op_level(cpu: &mut Cpu, op: CacheOp, info: CacheInfo, level: u8)
        ensures
            final(cpu)@ == (CpuView {
                issued: old(cpu)@.issued + set_way_ops(op, info, level),
                ..old(cpu)@
            }),
    {
        let ghost base = cpu@;
        let ghost ways = info.num_ways as int;
        let mut set: u32 = 0;
        assert(cpu@.issued =~= base.issued + Seq::new(0, |k: int| set_way_op(op, info, level, k)));
        while set < info.num_sets
            invariant
                set <= info.num_sets,
                ways == info.num_ways,
                cpu@ == (CpuView {
                    issued: base.issued + Seq::new(
                        (set * ways) as nat,
                        |k: int| set_way_op(op, info, level, k),
                    ),
                    ..base
                }),
            decreases info.num_sets - set,
        {
            let mut way: u32 = 0;
            assert(set * ways >= 0) by (nonlinear_arith)
                requires
                    set >= 0,
                    ways >= 0,
            ;
            while way < info.num_ways
                invariant
                    way <= info.num_ways,
                    set < info.num_sets,
                    ways == info.num_ways,
                    set * ways >= 0,
                    cpu@ == (CpuView {
                        issued: base.issued + Seq::new(
                            (set * ways + way) as nat,
                            |k: int| set_way_op(op, info, level, k),
                        ),
                        ..base
                    }),
                decreases info.num_ways - way,
            {
                let ghost k = set * ways + way;
                proof {
                    assert(k == ways * set + way) by (nonlinear_arith)
                        requires
                            k == set * ways + way,
                    ;
                    lemma_fundamental_div_mod_converse(k, ways, set as int, way as int);
                }
                cpu.issue(
                    Instr::DcSetWay { op, way_set_level: Self::operand(way, set, level, info) },
                );
                way = way + 1;
                assert(cpu@.issued =~= base.issued + Seq::new(
                    (set * ways + way) as nat,
                    |k: int| set_way_op(op, info, level, k),
                ));
            }
            assert(set * ways + way == (set + 1) * ways) by (nonlinear_arith)
                requires
                    way == ways,
            ;
            set = set + 1;
        }
        assert(set * ways == info.num_sets * info.num_ways);
    }

    /// Maintains every data or unified cache below the level of coherence,
    /// by set and way. Each cache is walked after a data barrier; an
    /// instruction barrier closes the work. The first level that has no
    /// data or unified cache ends it.
    pub fn op_all(cpu: &mut Cpu, op: CacheOp)
        ensures
            final(cpu)@ == maintained_all(old(cpu)@, op),
    {
        let level_of_coherence = CLIDR_EL1::read(cpu).LOC();
        let ghost loc = level_of_coherence as int;
        let ghost goal = maintained_from(cpu@, op, 0, loc);

        let mut level: u8 = 0;
        while level < level_of_coherence
            invariant
                level <= level_of_coherence <= 7,
                loc == level_of_coherence,
                maintained_from(cpu@, op, level as int, loc) == goal,
            ensures
                maintained_from(cpu@, op, level as int, loc) == goal,
                level >= level_of_coherence || !has_cache(
                    cpu@.read(SysReg::CLIDR_EL1),
                    Cache::DataOrUnified { idx: level },
                ),
            decreases level_of_coherence - level,
        {
            let found = CacheInfo::get(cpu, Cache::DataOrUnified { idx: level });
            let info = match found {
                Some(info) => info,
                None => {
                    break;
                },
            };

            cpu.dsb();
            Self::op_level(cpu, op, info, level);

            level = level + 1;
        }

        cpu.isb();
    }

    /// Maintains the lines of the level 1 data cache that hold the
    /// addresses from `start` to `end`, both included, by address.
    ///
    /// An invalidate of a line that reaches outside the range is issued as
    /// a clean and invalidate.
    pub fn op_range(cpu: &mut Cpu, op: CacheOp, start: u64, end: u64)
        ensures
            final(cpu)@ == maintained_range(old(cpu)@, op, start, end),
    {
        let info = match CacheInfo::get(cpu, Cache::D_L1()) {
            Some(info) => info,
            None => {
                return;
            },
        };
        let line = info.linesize as u64;
        assert(line >= 16);
        proof {
            vstd::arithmetic::div_mod::lemma_mod_decreases(start as nat, line as nat);
            vstd::arithmetic::div_mod::lemma_mod_decreases(end as nat, line as nat);
        }
        let first = start - start % line;
        let last = end - end % line;

        cpu.dsb();

        let ghost base = cpu@;
        let ghost s = start as int;
        let ghost e = end as int;
        let ghost l = line as int;
        assert(cpu@.issued =~= base.issued + range_ops(op, s, e, l).subrange(0, 0));
        if first <= last {
            proof {
                if last > first {
                    vstd::arithmetic::div_mod::lemma_div_decreases(
                        (last - first) as int,
                        line as int,
                    );
                }
            }
            let count = (last - first) / line + 1;
            let mut k: u64 = 0;
            let mut addr = first;
            while k < count
                invariant
                    line > 0,
                    first == line_of(s, l),
                    last == line_of(e, l),
                    s == start,
                    e == end,
                    l == line,
                    first <= last,
                    count == line_count(s, e, l),
                    k <= count,
                    k < count ==> addr == first + k * line,
                    cpu@ == (CpuView {
                        issued: base.issued + range_ops(op, s, e, l).subrange(0, k as int),
                        ..base
                    }),
                decreases count - k,
            {
                proof {
                    lemma_line_in_range(first as int, last as int, l, k as int);
                }
                let mut line_op = op;
                if addr < start && matches!(op, CacheOp::Invalidate) {
                    line_op = CacheOp::CleanInvalidate;
                }
                if (addr > end || line - 1 > end - addr) && matches!(op, CacheOp::Invalidate) {
                    line_op = CacheOp::CleanInvalidate;
                }
                cpu.issue(Instr::DcAddr { op: line_op, addr });
                assert(cpu@.issued =~= base.issued + range_ops(op, s, e, l).subrange(
                    0,
                    k as int + 1,
                ));
                k = k + 1;
                if k < count {
                    proof {
                        lemma_line_in_range(first as int, last as int, l, k as int);
                    }
                    addr = addr + line;
                }
            }
        }
        assert(range_ops(op, s, e, l).subrange(0, line_count(s, e, l)) =~= range_ops(op, s, e, l));

        cpu.isb();
    }
}

/// The `k`-th line of a range lies between its first and its last line.
pub proof fn lemma_line_in_range(first: int, last: int, line: int, k: int)
    requires
        0 < line,
        first <= last,
        0 <= k < (last - first) / line + 1,
    ensures
        first <= first + k * line <= last,
        first + (k + 1) * line == first + k * line + line,
{
    vstd::arithmetic::div_mod::lemma_fundamental_div_mod(last - first, line);
    assert(k * line <= ((last - first) / line) * line) by (nonlinear_arith)
        requires
            k <= (last - first) / line,
            line > 0,
    ;
    assert(k * line >= 0) by (nonlinear_arith)
        requires
            k >= 0,
            line > 0,
    ;
    assert(((last - first) / line) * line == line * ((last - first) / line)) by (nonlinear_arith);
    vstd::arithmetic::div_mod::lemma_mod_bound(last - first, line);
    assert((k + 1) * line == k * line + line) by (nonlinear_arith);
}

} // verus!
