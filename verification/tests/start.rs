use arm64::instr::Instr;
use arm64::regs::{Cpu, SysReg};
use arm64::start::{
    core_a53_init, core_init, entry_info, hcr_el2_value, rust_entry, rust_init, scr_el3_value,
    spsr_el1_value, spsr_el2_value, spsr_el3_value, start, step, BootCore, BootEffect, BootLayout,
    BootShared, BootState, Entry, EntryInfo, StackSlice,
};

const LAYOUT: BootLayout = BootLayout {
    num_cpu: 4,
    stack_start: 0x1000,
    stack_end: 0x5000,
    bss_start: 0x8000,
    bss_end: 0x9000,
};

const VECTORS: u64 = 0x4_0800;

fn cpu_of(index: u64, el: u64) -> Cpu {
    let mut cpu = Cpu::new();
    cpu.load(SysReg::CurrentEL, el << 2);
    cpu.load(SysReg::MPIDR_EL1, 0x8000_0000 | index);
    cpu
}

#[test]
fn primary_core_at_el2_reaches_the_entry_and_zeroes_bss_once() {
    let mut shared = BootShared::new();
    let mut core = BootCore::reset(0xfdf0_0000);
    let mut cpu = cpu_of(0, 2);
    let info = start(&mut core, &mut shared, &LAYOUT, &mut cpu, VECTORS);
    assert_eq!(
        info,
        Some(EntryInfo { param: 0xfdf0_0000, current_el: 2, cpu_idx: 0, num_cores: 4 })
    );
    assert_eq!(core.state, BootState::UserEntryCalled);
    assert_eq!(shared, BootShared { lock: 0, bss_zeroed: 1 });
    assert_eq!((core.stack_base, core.sp), (0x4000, 0x5000));
}

#[test]
fn secondary_core_at_el1_enters_after_the_primary_and_leaves_bss_alone() {
    let mut shared = BootShared::new();
    let mut primary = BootCore::reset(7);
    start(&mut primary, &mut shared, &LAYOUT, &mut cpu_of(0, 2), VECTORS);
    assert_eq!(shared.bss_zeroed, 1);

    let mut core = BootCore::reset(7);
    let mut cpu = cpu_of(3, 1);
    let info = start(&mut core, &mut shared, &LAYOUT, &mut cpu, VECTORS);
    assert_eq!(info, Some(EntryInfo { param: 7, current_el: 1, cpu_idx: 3, num_cores: 4 }));
    assert_eq!(shared, BootShared { lock: 0, bss_zeroed: 1 });
    assert_eq!((core.stack_base, core.sp), (0x1000, 0x2000));
}

#[test]
fn secondary_core_waits_while_the_lock_is_set() {
    let mut shared = BootShared::new();
    let mut core = BootCore::reset(7);
    let mut cpu = cpu_of(1, 1);
    assert_eq!(start(&mut core, &mut shared, &LAYOUT, &mut cpu, VECTORS), None);
    assert_eq!(core.state, BootState::SecondaryWaiting);
    assert_eq!(shared, BootShared::new());
    assert_eq!(step(&mut core, &mut shared, &LAYOUT, &mut cpu, VECTORS), BootEffect::Wait);
    assert_eq!(core.state, BootState::SecondaryWaiting);
    assert_eq!(core.sp, 0);

    shared.lock = 0;
    shared.bss_zeroed = 1;
    assert_eq!(
        start(&mut core, &mut shared, &LAYOUT, &mut cpu, VECTORS),
        Some(EntryInfo { param: 7, current_el: 1, cpu_idx: 1, num_cores: 4 })
    );
    assert_eq!(start(&mut core, &mut shared, &LAYOUT, &mut cpu, VECTORS), None);
}

#[test]
fn cores_in_any_order_never_pass_the_wait_before_bss_is_zeroed() {
    let schedules: [[usize; 12]; 4] = [
        [3, 2, 1, 0, 3, 2, 1, 0, 3, 2, 1, 0],
        [1, 1, 1, 1, 1, 3, 2, 2, 2, 0, 0, 0],
        [0, 0, 0, 0, 0, 0, 1, 2, 3, 1, 2, 3],
        [2, 0, 2, 0, 2, 0, 3, 0, 1, 0, 3, 1],
    ];
    for schedule in schedules {
        let mut shared = BootShared::new();
        let mut cores = [BootCore::reset(1); 4];
        let mut cpus = [cpu_of(0, 2), cpu_of(1, 2), cpu_of(2, 1), cpu_of(3, 3)];
        let mut released = false;
        for round in 0..8 {
            for turn in schedule {
                let _ = round;
                step(&mut cores[turn], &mut shared, &LAYOUT, &mut cpus[turn], VECTORS);
                if shared.lock == 0 {
                    released = true;
                }
                assert_eq!(shared.lock == 0, released);
                for core in &cores {
                    let past = matches!(
                        core.state,
                        BootState::RegistersCleared | BootState::UserEntryCalled
                    );
                    if past {
                        assert_eq!(shared.bss_zeroed, 1);
                        assert_eq!(shared.lock, 0);
                    }
                }
                assert!(shared.bss_zeroed <= 1);
            }
        }
        for (index, core) in cores.iter().enumerate() {
            assert_eq!(core.state, BootState::UserEntryCalled);
            assert_eq!(core.cpu_idx, index as u64);
        }
        assert_eq!(shared, BootShared { lock: 0, bss_zeroed: 1 });
    }
}

#[test]
fn core_at_el0_halts_without_side_effects() {
    let mut shared = BootShared::new();
    let mut core = BootCore::reset(7);
    let mut cpu = cpu_of(0, 0);
    assert_eq!(start(&mut core, &mut shared, &LAYOUT, &mut cpu, VECTORS), None);
    assert_eq!(core.state, BootState::Halted);
    assert_eq!(shared, BootShared::new());
    assert!(cpu.issued.is_empty());
    assert_eq!(step(&mut core, &mut shared, &LAYOUT, &mut cpu, VECTORS), BootEffect::Wait);
    assert_eq!(core.state, BootState::Halted);
}

#[test]
fn core_beyond_the_core_count_halts_without_side_effects() {
    for index in [4, 5, 255] {
        let mut shared = BootShared::new();
        let mut core = BootCore::reset(7);
        let mut cpu = cpu_of(index, 3);
        assert_eq!(start(&mut core, &mut shared, &LAYOUT, &mut cpu, VECTORS), None);
        assert_eq!(core.state, BootState::Halted);
        assert_eq!(shared, BootShared::new());
        assert!(cpu.issued.is_empty());
    }
}

#[test]
fn transitions_follow_the_state_machine() {
    let mut shared = BootShared::new();
    let mut core = BootCore::reset(9);
    let mut cpu = cpu_of(0, 1);
    let mut seen = vec![core.state];
    let mut effects = Vec::new();
    for _ in 0..6 {
        effects.push(step(&mut core, &mut shared, &LAYOUT, &mut cpu, VECTORS));
        seen.push(core.state);
    }
    assert_eq!(
        seen,
        vec![
            BootState::Reset,
            BootState::ELDetected,
            BootState::PrivilegeInitialized,
            BootState::PrimaryRustInit,
            BootState::RegistersCleared,
            BootState::UserEntryCalled,
            BootState::UserEntryCalled
        ]
    );
    assert_eq!(
        effects,
        vec![
            BootEffect::Nothing,
            BootEffect::Nothing,
            BootEffect::Nothing,
            BootEffect::RustInit {
                stack: StackSlice { base: 0x4000, top: 0x5000 },
                zero_bss: true
            },
            BootEffect::Enter {
                info: EntryInfo { param: 9, current_el: 1, cpu_idx: 0, num_cores: 4 }
            },
            BootEffect::Nothing
        ]
    );
}

#[test]
fn privilege_initialization_descends_from_the_current_level() {
    let msr = |reg, value| Instr::Msr { reg, value };
    let el1 = vec![
        msr(SysReg::SCTLR_EL1, 0x30d0_0800),
        msr(SysReg::SPSR_EL1, 0x3c5),
        msr(SysReg::VBAR_EL1, VECTORS),
        msr(SysReg::CPACR_EL1, 0x30_0000),
    ];
    let el2 = vec![
        msr(SysReg::SCTLR_EL2, 0x30c5_0830),
        msr(SysReg::HCR_EL2, 0x38),
        msr(SysReg::SPSR_EL2, 0x3c9),
        msr(SysReg::VMPIDR_EL2, 0x8000_0002),
        msr(SysReg::VBAR_EL2, VECTORS),
        msr(SysReg::CPTR_EL2, 0),
    ];
    let el3 = vec![
        msr(SysReg::SCTLR_EL3, 0x30c5_0830),
        msr(SysReg::SCR_EL3, 0x3f),
        msr(SysReg::SPSR_EL3, 0x3cd),
        msr(SysReg::VBAR_EL3, VECTORS),
        msr(SysReg::CPTR_EL3, 0),
    ];
    let mask = vec![msr(SysReg::DAIF, 0x3c0)];

    let mut cpu = cpu_of(2, 1);
    assert!(core_init(&mut cpu, 1, VECTORS));
    assert_eq!(cpu.issued, [mask.clone(), el1.clone()].concat());

    let mut cpu = cpu_of(2, 2);
    assert!(core_init(&mut cpu, 2, VECTORS));
    assert_eq!(cpu.issued, [mask.clone(), el2.clone(), el1.clone()].concat());

    let mut cpu = cpu_of(2, 3);
    assert!(core_init(&mut cpu, 3, VECTORS));
    assert_eq!(cpu.issued, [mask.clone(), el3, el2, el1].concat());

    let mut cpu = cpu_of(2, 0);
    assert!(!core_init(&mut cpu, 0, VECTORS));
    assert_eq!(cpu.issued, mask);
    assert!(!core_init(&mut cpu, 4, VECTORS));
}

#[test]
fn initial_register_values() {
    assert_eq!(scr_el3_value(), 0x3f);
    assert_eq!(hcr_el2_value(), 0x38);
    assert_eq!(spsr_el3_value(), 0x3cd);
    assert_eq!(spsr_el2_value(), 0x3c9);
    assert_eq!(spsr_el1_value(), 0x3c5);
}

#[test]
fn cortex_a53_joins_coherency_at_el3_only() {
    let mut cpu = Cpu::new();
    cpu.load(SysReg::CPUECTLR_EL1, 0x1);
    core_a53_init(&mut cpu, 3);
    assert_eq!(cpu.issued, vec![Instr::Msr { reg: SysReg::CPUECTLR_EL1, value: 0x41 }]);
    for el in [0, 1, 2] {
        let mut cpu = Cpu::new();
        core_a53_init(&mut cpu, el);
        assert!(cpu.issued.is_empty());
    }
}

#[test]
fn boot_walk_issues_the_release_after_the_initialization() {
    let mut shared = BootShared::new();
    let mut core = BootCore::reset(0);
    let mut cpu = cpu_of(0, 3);
    start(&mut core, &mut shared, &LAYOUT, &mut cpu, VECTORS);
    assert_eq!(cpu.issued.len(), 1 + 5 + 6 + 4 + 1 + 3);
    assert_eq!(
        cpu.issued[cpu.issued.len() - 4..],
        [
            Instr::Msr { reg: SysReg::CPUECTLR_EL1, value: 0x40 },
            Instr::Msr { reg: SysReg::SPSEL, value: 1 },
            Instr::Dmb,
            Instr::Sev
        ]
    );
}

#[test]
fn stacks_divide_the_stack_area_from_the_top() {
    let mut shared = BootShared::new();
    let expected = [(0x4000, 0x5000), (0x3000, 0x4000), (0x2000, 0x3000), (0x1000, 0x2000)];
    for (index, (base, top)) in expected.into_iter().enumerate() {
        let stack = rust_init(&LAYOUT, index as u64, 4, &mut shared);
        assert_eq!(stack, StackSlice { base, top });
    }
    assert_eq!(shared, BootShared { lock: 1, bss_zeroed: 1 });

    let uneven = BootLayout { stack_start: 0x1000, stack_end: 0x1064, ..LAYOUT };
    assert_eq!(rust_init(&uneven, 0, 3, &mut shared), StackSlice { base: 0x1043, top: 0x1064 });
    assert_eq!(rust_init(&uneven, 2, 3, &mut shared), StackSlice { base: 0x1001, top: 0x1022 });

    let inverted = BootLayout { stack_start: 0x9000, stack_end: 0x5000, ..LAYOUT };
    assert_eq!(rust_init(&inverted, 1, 4, &mut shared), StackSlice { base: 0x5000, top: 0x5000 });
}

struct Recorder;

impl Entry for Recorder {
    fn entry(info: EntryInfo) {
        assert_eq!(info, EntryInfo { param: 1, current_el: 2, cpu_idx: 3, num_cores: 4 });
    }
}

#[test]
fn entry_function_gets_the_four_registers() {
    assert_eq!(
        entry_info(0xabcd, 3, 1, 8),
        EntryInfo { param: 0xabcd, current_el: 3, cpu_idx: 1, num_cores: 8 }
    );
    rust_entry::<Recorder>(1, 2, 3, 4);
}
