use arm64::cache::dcache::log2_ceil;
use arm64::cache::{Cache, CacheImpl, CacheInfo, CacheOp, Caches, DCache, ICache};
use arm64::instr::Instr;
use arm64::regs::{Cpu, SysReg};
use arm64::sys_regs::CLIDR_EL1;

const SELECT_L1D: [Instr; 3] = [
    Instr::Dsb,
    Instr::Msr { reg: SysReg::CSSELR_EL1, value: 0 },
    Instr::Isb,
];

/// One level with separate caches of 2 ways, 2 sets and lines of 64 bytes,
/// level of coherence 1, running at EL2.
fn small_core() -> Cpu {
    let mut cpu = Cpu::new();
    cpu.load(SysReg::CLIDR_EL1, (1 << 24) | 3);
    cpu.load_geometry(0, (1 << 13) | (1 << 3) | 2);
    cpu.load_geometry(1, (1 << 13) | (1 << 3) | 2);
    cpu.load(SysReg::CurrentEL, 2 << 2);
    cpu
}

#[test]
fn geometry_without_extended_associativity() {
    let info = CacheInfo::decode(Cache::D_L1(), 0x7e01a, false);
    assert_eq!(
        info,
        CacheInfo { cache: Cache::DataOrUnified { idx: 0 }, linesize: 64, num_ways: 4, num_sets: 64 }
    );
}

#[test]
fn geometry_with_extended_associativity() {
    let info = CacheInfo::decode(Cache::I_L2(), 0x3f_0000_001a, true);
    assert_eq!(
        info,
        CacheInfo { cache: Cache::Instruction { idx: 1 }, linesize: 64, num_ways: 4, num_sets: 64 }
    );
}

#[test]
fn geometry_layouts_are_not_interchangeable() {
    let narrow_read_wide = CacheInfo::decode(Cache::D_L1(), 0x7e01a, true);
    assert_eq!(narrow_read_wide.num_sets, 1);
    assert_eq!(narrow_read_wide.num_ways, 0xfc03 + 1);
    let wide_read_narrow = CacheInfo::decode(Cache::D_L1(), 0x3f_0000_001a, false);
    assert_eq!(wide_read_narrow.num_sets, 1);
    assert_eq!(wide_read_narrow.num_ways, 4);
}

#[test]
fn geometry_extremes() {
    let smallest = CacheInfo::decode(Cache::D_L1(), 0, false);
    assert_eq!((smallest.linesize, smallest.num_ways, smallest.num_sets), (16, 1, 1));
    let largest = CacheInfo::decode(Cache::D_L1(), u64::MAX, false);
    assert_eq!((largest.linesize, largest.num_ways, largest.num_sets), (2048, 1024, 32768));
    let largest = CacheInfo::decode(Cache::D_L1(), u64::MAX, true);
    assert_eq!((largest.linesize, largest.num_ways, largest.num_sets), (2048, 1 << 21, 1 << 24));
}

#[test]
fn topology_stops_at_the_first_level_without_cache() {
    let clidr = (1 << 30) | (2 << 27) | (3 << 24) | (1 << 21) | (1 << 12) | (0 << 9) | (4 << 6)
        | (4 << 3)
        | 3;
    let caches = Caches::decode(CLIDR_EL1::new_with_raw_value(clidr));
    assert_eq!(caches.levels, 1..=3);
    assert_eq!(
        caches.impls,
        [
            CacheImpl::SeperateInstructionAndData,
            CacheImpl::Unified,
            CacheImpl::Unified,
            CacheImpl::NoCache,
            CacheImpl::NoCache,
            CacheImpl::NoCache,
            CacheImpl::NoCache
        ]
    );
    assert_eq!(caches.level_of_unification_inner_shareable, 1);
    assert_eq!(caches.level_of_coherence, 3);
    assert_eq!(caches.level_of_unification_uniprocessor, 2);
    assert_eq!(caches.inner_cache_boundary, Some(1));
}

#[test]
fn topology_stops_at_a_reserved_encoding() {
    let caches = Caches::decode(CLIDR_EL1::new_with_raw_value((1 << 6) | (5 << 3) | 2));
    assert_eq!(caches.levels, 1..=1);
    assert_eq!(caches.impls[0], CacheImpl::DataOnly);
    assert_eq!(caches.impls[1], CacheImpl::NoCache);
    assert_eq!(caches.impls[2], CacheImpl::NoCache);
    assert_eq!(caches.inner_cache_boundary, None);
}

#[test]
fn topology_of_seven_levels_and_of_none() {
    let caches = Caches::decode(CLIDR_EL1::new_with_raw_value(0o1111111));
    assert_eq!(caches.levels, 1..=7);
    assert_eq!(caches.impls, [CacheImpl::InstructionOnly; 7]);
    let caches = Caches::get(&Cpu::new());
    assert_eq!(caches.levels, 1..=0);
    assert_eq!(caches.impls, [CacheImpl::NoCache; 7]);
}

#[test]
fn levels_contain_their_caches() {
    let instruction = Cache::I_L1();
    let data = Cache::D_L3();
    assert!(!CacheImpl::NoCache.contains(instruction));
    assert!(!CacheImpl::NoCache.contains(data));
    assert!(CacheImpl::InstructionOnly.contains(instruction));
    assert!(!CacheImpl::InstructionOnly.contains(data));
    assert!(!CacheImpl::DataOnly.contains(instruction));
    assert!(CacheImpl::DataOnly.contains(data));
    assert!(CacheImpl::SeperateInstructionAndData.contains(instruction));
    assert!(CacheImpl::SeperateInstructionAndData.contains(data));
    assert!(!CacheImpl::Unified.contains(instruction));
    assert!(CacheImpl::Unified.contains(data));
    assert_eq!(Cache::I_L3(), Cache::Instruction { idx: 2 });
    assert_eq!(Cache::D_L2(), Cache::DataOrUnified { idx: 1 });
}

#[test]
fn cache_info_selects_the_cache_and_picks_the_layout() {
    let mut cpu = Cpu::new();
    cpu.load(SysReg::CLIDR_EL1, (4 << 3) | 3);
    cpu.load_geometry(2, 0x7e01a);
    cpu.load_geometry(1, 0x3f_0000_001a);
    let info = CacheInfo::get(&mut cpu, Cache::D_L2()).unwrap();
    assert_eq!((info.linesize, info.num_ways, info.num_sets), (64, 4, 64));
    assert_eq!(cpu.raw(SysReg::CSSELR_EL1), 2);
    assert_eq!(cpu.issued.len(), 3);

    cpu.load(SysReg::ID_AA64MMFR2_EL1, 1 << 20);
    let info = CacheInfo::get(&mut cpu, Cache::I_L1()).unwrap();
    assert_eq!((info.linesize, info.num_ways, info.num_sets), (64, 4, 64));
    assert_eq!(cpu.raw(SysReg::CSSELR_EL1), 1);
}

#[test]
fn cache_info_of_a_missing_cache_touches_nothing() {
    let mut cpu = Cpu::new();
    cpu.load(SysReg::CLIDR_EL1, (4 << 3) | 3);
    assert_eq!(CacheInfo::get(&mut cpu, Cache::I_L2()), None);
    assert_eq!(CacheInfo::get(&mut cpu, Cache::D_L3()), None);
    assert_eq!(CacheInfo::get(&mut cpu, Cache::DataOrUnified { idx: 200 }), None);
    assert!(cpu.issued.is_empty());
    assert_eq!(cpu.raw(SysReg::CSSELR_EL1), 0);
}

#[test]
fn logarithm_rounds_up() {
    let expected = [(0, 0), (1, 0), (2, 1), (3, 2), (4, 2), (5, 3), (8, 3), (9, 4), (1 << 21, 21)];
    for (n, log) in expected {
        assert_eq!(log2_ceil(n), log);
    }
    assert_eq!(log2_ceil(u32::MAX), 32);
}

#[test]
fn set_way_operand_packs_way_set_and_level() {
    let info = CacheInfo { cache: Cache::D_L1(), linesize: 64, num_ways: 4, num_sets: 128 };
    assert_eq!(DCache::operand(0, 0, 0, info), 0);
    assert_eq!(DCache::operand(3, 127, 1, info), (3 << 30) | (127 << 6) | (1 << 1));
    let direct = CacheInfo { cache: Cache::D_L1(), linesize: 16, num_ways: 1, num_sets: 2 };
    assert_eq!(DCache::operand(0, 1, 2, direct), (1 << 4) | (2 << 1));
    let three = CacheInfo { cache: Cache::D_L1(), linesize: 32, num_ways: 3, num_sets: 2 };
    assert_eq!(DCache::operand(2, 1, 0, three), (2 << 30) | (1 << 5));
}

#[test]
fn maintain_all_walks_every_set_and_way() {
    let mut cpu = small_core();
    DCache::op_all(&mut cpu, CacheOp::Clean);
    let mut expected = SELECT_L1D.to_vec();
    expected.push(Instr::Dsb);
    for operand in [0, 0x8000_0000, 0x40, 0x8000_0040] {
        expected.push(Instr::DcSetWay { op: CacheOp::Clean, way_set_level: operand });
    }
    expected.push(Instr::Isb);
    assert_eq!(cpu.issued, expected);
}

#[test]
fn maintain_all_stops_below_the_level_of_coherence() {
    let mut cpu = Cpu::new();
    cpu.load(SysReg::CLIDR_EL1, (2 << 24) | (4 << 3) | 3);
    DCache::op_all(&mut cpu, CacheOp::CleanInvalidate);
    let by_set_way =
        cpu.issued.iter().filter(|instr| matches!(instr, Instr::DcSetWay { .. })).count();
    assert_eq!(by_set_way, 2);
    assert_eq!(cpu.issued.last(), Some(&Instr::Isb));
    assert_eq!(cpu.raw(SysReg::CSSELR_EL1), 2);

    let mut cpu = Cpu::new();
    cpu.load(SysReg::CLIDR_EL1, (3 << 24) | 1);
    DCache::op_all(&mut cpu, CacheOp::Invalidate);
    assert_eq!(cpu.issued, vec![Instr::Isb]);
}

#[test]
fn invalidate_of_an_unaligned_range_cleans_the_edge_lines() {
    let mut cpu = small_core();
    DCache::op_range(&mut cpu, CacheOp::Invalidate, 0x1010, 0x10cf);
    let mut expected = SELECT_L1D.to_vec();
    expected.push(Instr::Dsb);
    expected.push(Instr::DcAddr { op: CacheOp::CleanInvalidate, addr: 0x1000 });
    expected.push(Instr::DcAddr { op: CacheOp::Invalidate, addr: 0x1040 });
    expected.push(Instr::DcAddr { op: CacheOp::Invalidate, addr: 0x1080 });
    expected.push(Instr::DcAddr { op: CacheOp::CleanInvalidate, addr: 0x10c0 });
    expected.push(Instr::Isb);
    assert_eq!(cpu.issued, expected);
}

#[test]
fn invalidate_of_an_aligned_range_stays_an_invalidate() {
    let mut cpu = small_core();
    DCache::op_range(&mut cpu, CacheOp::Invalidate, 0x1000, 0x107f);
    assert_eq!(
        cpu.issued[4..],
        [
            Instr::DcAddr { op: CacheOp::Invalidate, addr: 0x1000 },
            Instr::DcAddr { op: CacheOp::Invalidate, addr: 0x1040 },
            Instr::Isb
        ]
    );
}

#[test]
fn clean_of_a_range_is_never_changed() {
    let mut cpu = small_core();
    DCache::op_range(&mut cpu, CacheOp::Clean, 0x1001, 0x1041);
    assert_eq!(
        cpu.issued[4..],
        [
            Instr::DcAddr { op: CacheOp::Clean, addr: 0x1000 },
            Instr::DcAddr { op: CacheOp::Clean, addr: 0x1040 },
            Instr::Isb
        ]
    );
}

#[test]
fn range_inside_one_line_and_at_the_top_of_memory() {
    let mut cpu = small_core();
    DCache::op_range(&mut cpu, CacheOp::Invalidate, 0x1008, 0x1010);
    assert_eq!(
        cpu.issued[4..],
        [Instr::DcAddr { op: CacheOp::CleanInvalidate, addr: 0x1000 }, Instr::Isb]
    );
    let mut cpu = small_core();
    DCache::op_range(&mut cpu, CacheOp::Invalidate, u64::MAX - 0x7f, u64::MAX);
    assert_eq!(
        cpu.issued[4..],
        [
            Instr::DcAddr { op: CacheOp::Invalidate, addr: u64::MAX - 0x7f },
            Instr::DcAddr { op: CacheOp::Invalidate, addr: u64::MAX - 0x3f },
            Instr::Isb
        ]
    );
}

#[test]
fn range_without_a_data_cache_does_nothing() {
    let mut cpu = Cpu::new();
    cpu.load(SysReg::CLIDR_EL1, 1);
    DCache::op_range(&mut cpu, CacheOp::Clean, 0, 0x1000);
    assert!(cpu.issued.is_empty());
    ICache::invalidate(&mut Cpu::new(), 0, 0x1000);
}

#[test]
fn data_cache_enable_touches_only_the_current_level() {
    let mut cpu = small_core();
    DCache::enable(&mut cpu);
    assert_eq!(cpu.raw(SysReg::SCTLR_EL2), 0x30c5_0834);
    assert_eq!(cpu.raw(SysReg::SCTLR_EL1), 0);
    assert_eq!(cpu.raw(SysReg::SCTLR_EL3), 0);
    let tail = &cpu.issued[cpu.issued.len() - 5..];
    assert_eq!(
        tail,
        [
            Instr::Dsb,
            Instr::Dsb,
            Instr::Msr { reg: SysReg::SCTLR_EL2, value: 0x30c5_0834 },
            Instr::Isb,
            Instr::Isb
        ]
    );
    assert!(cpu.issued.contains(&Instr::DcSetWay { op: CacheOp::Invalidate, way_set_level: 0x40 }));

    DCache::disable(&mut cpu);
    assert_eq!(cpu.raw(SysReg::SCTLR_EL2), 0x30c5_0830);
}

#[test]
fn cache_enable_at_each_level() {
    for (el, reg, res1) in [
        (1u64, SysReg::SCTLR_EL1, 0x30d0_0800u64),
        (3, SysReg::SCTLR_EL3, 0x30c5_0830),
    ] {
        let mut cpu = Cpu::new();
        cpu.load(SysReg::CurrentEL, el << 2);
        ICache::enable(&mut cpu);
        assert_eq!(cpu.raw(reg), res1 | (1 << 12));
        DCache::enable(&mut cpu);
        assert_eq!(cpu.raw(reg), res1 | (1 << 12) | (1 << 2));
        ICache::disable(&mut cpu);
        assert_eq!(cpu.raw(reg), res1 | (1 << 2));
    }
    let mut cpu = Cpu::new();
    ICache::disable(&mut cpu);
    assert_eq!(cpu.issued, vec![Instr::Dsb, Instr::Isb]);
}

#[test]
fn instruction_cache_is_invalidated_between_barriers() {
    let mut cpu = Cpu::new();
    ICache::invalidate_all(&mut cpu);
    assert_eq!(cpu.issued, vec![Instr::Dsb, Instr::IcAll, Instr::Isb]);

    let mut cpu = small_core();
    ICache::invalidate(&mut cpu, 0x2030, 0x2080);
    assert_eq!(
        cpu.issued,
        vec![
            Instr::Dsb,
            Instr::Msr { reg: SysReg::CSSELR_EL1, value: 1 },
            Instr::Isb,
            Instr::Dsb,
            Instr::IcAddr { addr: 0x2000 },
            Instr::IcAddr { addr: 0x2040 },
            Instr::IcAddr { addr: 0x2080 },
            Instr::Isb
        ]
    );
}
