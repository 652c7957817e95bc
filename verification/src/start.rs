//! The boot sequencer: the way of every core from reset to the entry
//! function.
//!
//! The sequencer is a state machine. Each core has a [`BootCore`]; the one
//! datum that the cores share is the [`BootShared`] with the lock word that
//! holds the secondary cores back until the primary core has prepared the
//! memory. [`step`] takes one core through one transition, [`start`] takes
//! it as far as it can go. The register writes of the privilege
//! initialization are issued on the core's [`Cpu`].
use crate::bits::{field, with_bit, with_field};
use crate::instr::Instr;
use crate::regs::{
    Cpu, CpuView, SysReg, SCR_EL3_RES1, SCTLR_EL1_RES1, SCTLR_EL2_RES1, SCTLR_EL3_RES1,
};
use crate::sys_regs::{HCR_EL2, SCR_EL3, SPSR_EL1, SPSR_EL2, SPSR_EL3};
use vstd::prelude::*;

verus! {

/// What the boot sequencer hands to the entry function.
#[derive(Debug, Clone, Copy, PartialEq, Eq, Structural)]
pub struct EntryInfo {
    /// The value that the earlier boot stage passed in, kept as it came.
    pub param: u64,
    pub current_el: usize,
    pub cpu_idx: usize,
    pub num_cores: usize,
}

/// The code that the boot sequencer enters when a core is ready.
///
/// `entered` is defined by each implementation: it says for which entry
/// information the function has been entered. The entry function of a real
/// system does not come back.
pub trait Entry {
    /// Whether the entry function has been entered with `info`.
    open spec fn entered(info: EntryInfo) -> bool {
        true
    }

    /// The entry function.
    fn entry(info: EntryInfo)
        ensures
            Self::entered(info),
    ;
}

/// Where a core stands on its way through the boot sequencer.
#[derive(Debug, Clone, Copy, PartialEq, Eq, Structural)]
pub enum BootState {
    /// Out of reset, nothing done yet.
    Reset,
    /// The exception level is known and is not EL0.
    ELDetected,
    /// The core is one of the provisioned ones and its system registers are
    /// set up.
    PrivilegeInitialized,
    /// The primary core, about to prepare stack and memory.
    PrimaryRustInit,
    /// A secondary core, held back by the lock word.
    SecondaryWaiting,
    /// Stack set up, lock released, scratch registers cleared.
    RegistersCleared,
    /// The entry function was called. Terminal.
    UserEntryCalled,
    /// The core spins forever. Absorbing.
    Halted,
}

/// The memory layout and the core count that the linker supplies.
#[derive(Debug, Clone, Copy, PartialEq, Eq, Structural)]
pub struct BootLayout {
    pub num_cpu: u64,
    pub stack_start: u64,
    pub stack_end: u64,
    pub bss_start: u64,
    pub bss_end: u64,
}

/// What the cores share during boot.
#[derive(Debug, Clone, Copy, PartialEq, Eq, Structural)]
pub struct BootShared {
    /// The lock word: not zero while the secondary cores must wait.
    pub lock: u64,
    /// How often the zero-initialized data was cleared.
    pub bss_zeroed: u64,
}

/// One core in the boot sequencer.
#[derive(Debug, Clone, Copy, PartialEq, Eq, Structural)]
pub struct BootCore {
    pub state: BootState,
    /// The boot parameter, captured at reset.
    pub param: u64,
    pub current_el: u64,
    pub cpu_idx: u64,
    pub num_cores: u64,
    /// Lowest address of the core's stack, once set up.
    pub stack_base: u64,
    /// The stack pointer, once set up: the top of the core's stack.
    pub sp: u64,
}

/// The stack of one core: the addresses from `base` up to, and without,
/// `top`.
#[derive(Debug, Clone, Copy, PartialEq, Eq, Structural)]
pub struct StackSlice {
    pub base: u64,
    pub top: u64,
}

/// What a transition asks of the memory and of the core, beyond the
/// register writes.
#[derive(Debug, Clone, Copy, PartialEq, Eq, Structural)]
pub enum BootEffect {
    /// Nothing.
    Nothing,
    /// The core waits for an event and then looks again.
    Wait,
    /// The core's stack is filled with the pattern and the stack pointer is
    /// set to its top. With `zero_bss` the zero-initialized data is cleared
    /// as well. Then the scratch registers are cleared.
    RustInit { stack: StackSlice, zero_bss: bool },
    /// The entry function is called with this information.
    Enter { info: EntryInfo },
}

/// The pattern that fills a fresh stack.
pub const STACK_PATTERN: u64 = 0xfefe_fefe_dead_c0de;

/// The value of the interrupt mask register with all four kinds of
/// exception masked.
pub const DAIF_ALL_MASKED: u64 = 0x3c0;

/// Coprocessor access control with floating point and vector instructions
/// allowed at EL1 and EL0.
pub const CPACR_FP_ENABLED: u64 = 0x30_0000;

/// Bit of the extended control register of the Cortex-A53 that lets the
/// core take part in coherency.
pub const CPUECTLR_SMPEN: u64 = 0x40;

/// Mode field of a saved program status: EL3 with its own stack pointer.
pub const MODE_EL3H: u8 = 0b01101;

/// Mode field of a saved program status: EL2 with its own stack pointer.
pub const MODE_EL2H: u8 = 0b01001;

/// Mode field of a saved program status: EL1 with its own stack pointer.
pub const MODE_EL1H: u8 = 0b00101;

/// The initial secure configuration: the reserved bits, and external
/// aborts, fast interrupts and interrupts routed to EL3, lower levels
/// non-secure.
pub open spec fn scr_el3_init() -> u64 {
    with_bit(with_bit(with_bit(with_bit(SCR_EL3_RES1, 3, true), 2, true), 1, true), 0, true)
}

/// The initial hypervisor configuration: system errors, interrupts and fast
/// interrupts routed to EL2.
pub open spec fn hcr_el2_init() -> u64 {
    with_bit(with_bit(with_bit(0, 5, true), 4, true), 3, true)
}

/// The initial saved program status for an exception level: all four kinds
/// of exception masked, and the mode `mode`.
pub open spec fn spsr_init(mode: u8) -> u64 {
    with_field(
        with_bit(with_bit(with_bit(with_bit(0, 9, true), 8, true), 7, true), 6, true),
        0,
        0x1f,
        mode as u64,
    )
}

/// The exception level in the raw content `current_el` of the current
/// exception level register.
pub open spec fn el_of(current_el: u64) -> u64 {
    field(current_el, 2, 0x3)
}

/// The index of the core in the raw content `mpidr` of the affinity
/// register: the lowest affinity field.
pub open spec fn index_of_core(mpidr: u64) -> u64 {
    field(mpidr, 0, 0xff)
}

/// The state after the registers of EL1 were set up: system control, saved
/// program status, vector base, and floating point allowed.
pub open spec fn el1_initialized(cpu: CpuView, vectors: u64) -> CpuView {
    cpu.written_raw(SysReg::SCTLR_EL1, SCTLR_EL1_RES1).written_raw(
        SysReg::SPSR_EL1,
        spsr_init(MODE_EL1H),
    ).written_raw(SysReg::VBAR_EL1, vectors).written_raw(SysReg::CPACR_EL1, CPACR_FP_ENABLED)
}

/// The state after the registers of EL2 were set up, and then those of EL1:
/// system control, hypervisor configuration, saved program status, the
/// virtual affinity register as a copy of the affinity register, vector
/// base, and no trapping of floating point to EL2.
pub open spec fn el2_initialized(cpu: CpuView, vectors: u64) -> CpuView {
    el1_initialized(
        cpu.written_raw(SysReg::SCTLR_EL2, SCTLR_EL2_RES1).written_raw(
            SysReg::HCR_EL2,
            hcr_el2_init(),
        ).written_raw(SysReg::SPSR_EL2, spsr_init(MODE_EL2H)).written_raw(
            SysReg::VMPIDR_EL2,
            cpu.raw(SysReg::MPIDR_EL1),
        ).written_raw(SysReg::VBAR_EL2, vectors).written_raw(SysReg::CPTR_EL2, 0),
        vectors,
    )
}

/// The state after the registers of EL3 were set up, and then those of EL2
/// and EL1: system control, secure configuration, saved program status,
/// vector base, and no trapping of floating point to EL3.
pub open spec fn el3_initialized(cpu: CpuView, vectors: u64) -> CpuView {
    el2_initialized(
        cpu.written_raw(SysReg::SCTLR_EL3, SCTLR_EL3_RES1).written_raw(
            SysReg::SCR_EL3,
            scr_el3_init(),
        ).written_raw(SysReg::SPSR_EL3, spsr_init(MODE_EL3H)).written_raw(
            SysReg::VBAR_EL3,
            vectors,
        ).written_raw(SysReg::CPTR_EL3, 0),
        vectors,
    )
}

/// The state after the privilege initialization of a core that runs at
/// `el`: all exceptions masked, then the registers of `el` and of every
/// level below it, down to EL1. At any other level only the masking is
/// done.
pub open spec fn core_initialized(cpu: CpuView, el: u64, vectors: u64) -> CpuView {
    let masked = cpu.written_raw(SysReg::DAIF, DAIF_ALL_MASKED);
    if el == 3 {
        el3_initialized(masked, vectors)
    } else if el == 2 {
        el2_initialized(masked, vectors)
    } else if el == 1 {
        el1_initialized(masked, vectors)
    } else {
        masked
    }
}

/// The state after the initialization that the Cortex-A53 needs: at EL3 the
/// coherency bit is set in the extended control register.
pub open spec fn core_a53_initialized(cpu: CpuView, el: u64) -> CpuView {
    if el == 3 {
        cpu.written_raw(SysReg::CPUECTLR_EL1, cpu.raw(SysReg::CPUECTLR_EL1) | CPUECTLR_SMPEN)
    } else {
        cpu
    }
}

/// The bytes of stack that each core gets: the stack area divided evenly.
/// An area whose end lies below its start counts as empty.
pub open spec fn stack_size(layout: BootLayout, num_cores: u64) -> int {
    let start = if layout.stack_start < layout.stack_end {
        layout.stack_start
    } else {
        layout.stack_end
    };
    (layout.stack_end - start) / (num_cores as int)
}

/// The stack of the core with index `cpu_idx` among `num_cores`: the slices
/// are counted down from the end of the stack area, so that core 0 has the
/// highest one.
pub open spec fn stack_of(layout: BootLayout, cpu_idx: u64, num_cores: u64) -> StackSlice {
    StackSlice {
        base: (layout.stack_end - stack_size(layout, num_cores) * (cpu_idx + 1)) as u64,
        top: (layout.stack_end - stack_size(layout, num_cores) * cpu_idx) as u64,
    }
}

/// The stack of every core lies inside the stack area, and the stacks of two
/// different cores share no address.
pub proof fn lemma_stacks_disjoint(layout: BootLayout, a: u64, b: u64, num_cores: u64)
    requires
        a < b < num_cores,
    ensures
        layout.stack_start <= layout.stack_end ==> layout.stack_start <= stack_of(
            layout,
            b,
            num_cores,
        ).base,
        stack_of(layout, b, num_cores).base <= stack_of(layout, b, num_cores).top,
        stack_of(layout, b, num_cores).top <= stack_of(layout, a, num_cores).base,
        stack_of(layout, a, num_cores).base <= stack_of(layout, a, num_cores).top,
        stack_of(layout, a, num_cores).top <= layout.stack_end,
{
    lemma_stack_bounds(layout, a, num_cores);
    lemma_stack_bounds(layout, b, num_cores);
    let size = stack_size(layout, num_cores);
    assert(size * (a + 1) <= size * b) by (nonlinear_arith)
        requires
            size >= 0,
            a + 1 <= b,
    ;
}

/// The stack of a core lies inside the stack area.
pub proof fn lemma_stack_bounds(layout: BootLayout, cpu_idx: u64, num_cores: u64)
    requires
        cpu_idx < num_cores,
    ensures
        0 <= stack_size(layout, num_cores),
        0 <= stack_size(layout, num_cores) * cpu_idx,
        stack_size(layout, num_cores) * (cpu_idx + 1) == stack_size(layout, num_cores) * cpu_idx
            + stack_size(layout, num_cores),
        stack_size(layout, num_cores) * (cpu_idx + 1) <= layout.stack_end,
        layout.stack_start <= layout.stack_end ==> stack_size(layout, num_cores) * (cpu_idx + 1)
            <= layout.stack_end - layout.stack_start,
        stack_of(layout, cpu_idx, num_cores).base == layout.stack_end - stack_size(
            layout,
            num_cores,
        ) * (cpu_idx + 1),
        stack_of(layout, cpu_idx, num_cores).top == layout.stack_end - stack_size(
            layout,
            num_cores,
        ) * cpu_idx,
{
    let start = if layout.stack_start < layout.stack_end {
        layout.stack_start
    } else {
        layout.stack_end
    };
    let area = layout.stack_end - start;
    let n = num_cores as int;
    let size = area / n;
    vstd::arithmetic::div_mod::lemma_fundamental_div_mod(area, n);
    vstd::arithmetic::div_mod::lemma_mod_bound(area, n);
    vstd::arithmetic::div_mod::lemma_div_pos_is_pos(area, n);
    assert(size * (cpu_idx + 1) <= n * size) by (nonlinear_arith)
        requires
            size >= 0,
            cpu_idx + 1 <= n,
    ;
    assert(size * cpu_idx >= 0) by (nonlinear_arith)
        requires
            size >= 0,
            cpu_idx >= 0,
    ;
    assert(size * (cpu_idx + 1) == size * cpu_idx + size) by (nonlinear_arith);
}

/// Whether a core in `state` has left the boot sequencer's waiting and
/// preparing behind it.
pub open spec fn past_init(state: BootState) -> bool {
    state == BootState::RegistersCleared || state == BootState::UserEntryCalled
}

/// Whether a core can take no further transition that changes anything: it
/// has entered the entry function, or it has halted.
pub open spec fn finished(state: BootState) -> bool {
    state == BootState::UserEntryCalled || state == BootState::Halted
}

/// The core after one transition.
pub open spec fn next_core(
    core: BootCore,
    shared: BootShared,
    layout: BootLayout,
    cpu: CpuView,
) -> BootCore {
    match core.state {
        BootState::Reset => {
            let el = el_of(cpu.raw(SysReg::CurrentEL));
            BootCore {
                state: if el == 0 {
                    BootState::Halted
                } else {
                    BootState::ELDetected
                },
                current_el: el,
                ..core
            }
        },
        BootState::ELDetected => {
            let idx = index_of_core(cpu.raw(SysReg::MPIDR_EL1));
            BootCore {
                state: if idx < layout.num_cpu && 1 <= core.current_el <= 3 {
                    BootState::PrivilegeInitialized
                } else {
                    BootState::Halted
                },
                cpu_idx: idx,
                num_cores: layout.num_cpu,
                ..core
            }
        },
        BootState::PrivilegeInitialized => BootCore {
            state: if core.cpu_idx == 0 {
                BootState::PrimaryRustInit
            } else {
                BootState::SecondaryWaiting
            },
            ..core
        },
        BootState::PrimaryRustInit => initialized(core, layout),
        BootState::SecondaryWaiting => if shared.lock != 0 {
            core
        } else {
            initialized(core, layout)
        },
        BootState::RegistersCleared => BootCore { state: BootState::UserEntryCalled, ..core },
        BootState::UserEntryCalled => core,
        BootState::Halted => core,
    }
}

/// The core after it has set up its stack: a core whose index is not below
/// the core count has no stack and halts.
pub open spec fn initialized(core: BootCore, layout: BootLayout) -> BootCore {
    if core.cpu_idx < core.num_cores {
        BootCore {
            state: BootState::RegistersCleared,
            stack_base: stack_of(layout, core.cpu_idx, core.num_cores).base,
            sp: stack_of(layout, core.cpu_idx, core.num_cores).top,
            ..core
        }
    } else {
        BootCore { state: BootState::Halted, ..core }
    }
}

/// Whether the transition of `core` runs the preparation of stack and
/// memory.
pub open spec fn initializes(core: BootCore, shared: BootShared) -> bool {
    core.cpu_idx < core.num_cores && (core.state == BootState::PrimaryRustInit || (core.state
        == BootState::SecondaryWaiting && shared.lock == 0))
}

/// What the cores share, after one transition of `core`. Only the
/// preparation of stack and memory changes it: it clears the lock word, and
/// the primary core clears the zero-initialized data before that.
pub open spec fn next_shared(core: BootCore, shared: BootShared) -> BootShared {
    if initializes(core, shared) {
        BootShared {
            lock: 0,
            bss_zeroed: if core.cpu_idx == 0 && shared.bss_zeroed < u64::MAX {
                (shared.bss_zeroed + 1) as u64
            } else {
                shared.bss_zeroed
            },
        }
    } else {
        shared
    }
}

/// The registers and instructions of the core after one transition of
/// `core`.
pub open spec fn next_cpu(
    core: BootCore,
    shared: BootShared,
    layout: BootLayout,
    cpu: CpuView,
    vectors: u64,
) -> CpuView {
    if core.state == BootState::ELDetected {
        if index_of_core(cpu.raw(SysReg::MPIDR_EL1)) < layout.num_cpu {
            core_a53_initialized(
                core_initialized(cpu, core.current_el, vectors),
                if 1 <= core.current_el <= 3 {
                    core.current_el
                } else {
                    0
                },
            )
        } else {
            cpu
        }
    } else if initializes(core, shared) {
        released(cpu)
    } else {
        cpu
    }
}

/// The registers and instructions of a core after the preparation of stack
/// and memory: the stack pointer of the exception level selected, then the
/// memory barrier and the event that release the secondary cores.
pub open spec fn released(cpu: CpuView) -> CpuView {
    cpu.written_raw(SysReg::SPSEL, 1).issue(Instr::Dmb).issue(Instr::Sev)
}

/// What one transition of `core` asks of the memory and of the core.
pub open spec fn effect_of(core: BootCore, shared: BootShared, layout: BootLayout) -> BootEffect {
    match core.state {
        BootState::PrimaryRustInit | BootState::SecondaryWaiting => if initializes(core, shared) {
            BootEffect::RustInit {
                stack: stack_of(layout, core.cpu_idx, core.num_cores),
                zero_bss: core.cpu_idx == 0,
            }
        } else {
            BootEffect::Wait
        },
        BootState::RegistersCleared => BootEffect::Enter { info: entry_info_of(core) },
        BootState::Halted => BootEffect::Wait,
        _ => BootEffect::Nothing,
    }
}

/// The entry information of a core.
pub open spec fn entry_info_of(core: BootCore) -> EntryInfo {
    EntryInfo {
        param: core.param,
        current_el: core.current_el as usize,
        cpu_idx: core.cpu_idx as usize,
        num_cores: core.num_cores as usize,
    }
}

impl BootCore {
    /// A core out of reset, with the boot parameter `param` in its first
    /// argument register.
    pub fn reset(param: u64) -> (core: Self)
        ensures
            core == (BootCore {
                state: BootState::Reset,
                param,
                current_el: 0,
                cpu_idx: 0,
                num_cores: 0,
                stack_base: 0,
                sp: 0,
            }),
    {
        BootCore {
            state: BootState::Reset,
            param,
            current_el: 0,
            cpu_idx: 0,
            num_cores: 0,
            stack_base: 0,
            sp: 0,
        }
    }
}

impl BootShared {
    /// The shared state at power-on: the lock word set, nothing cleared
    /// yet.
    pub fn new() -> (shared: Self)
        ensures
            shared == power_on(),
    {
        BootShared { lock: 1, bss_zeroed: 0 }
    }
}

/// The initial value of the secure configuration register.
pub fn scr_el3_value() -> (value: u64)
    ensures
        value == scr_el3_init(),
{
    SCR_EL3::DEFAULT().with_EA(true).with_FIQ(true).with_IRQ(true).with_NS(true).raw_value()
}

/// The initial value of the hypervisor configuration register.
pub fn hcr_el2_value() -> (value: u64)
    ensures
        value == hcr_el2_init(),
{
    HCR_EL2::DEFAULT().with_AMO(true).with_IMO(true).with_FMO(true).raw_value()
}

/// The initial value of the saved program status register of EL3.
pub fn spsr_el3_value() -> (value: u64)
    ensures
        value == spsr_init(MODE_EL3H),
{
    SPSR_EL3::DEFAULT().with_D(true).with_A(true).with_I(true).with_F(true).with_M(
        MODE_EL3H,
    ).raw_value()
}

/// The initial value of the saved program status register of EL2.
pub fn spsr_el2_value() -> (value: u64)
    ensures
        value == spsr_init(MODE_EL2H),
{
    SPSR_EL2::DEFAULT().with_D(true).with_A(true).with_I(true).with_F(true).with_M(
        MODE_EL2H,
    ).raw_value()
}

/// The initial value of the saved program status register of EL1.
pub fn spsr_el1_value() -> (value: u64)
    ensures
        value == spsr_init(MODE_EL1H),
{
    SPSR_EL1::DEFAULT().with_D(true).with_A(true).with_I(true).with_F(true).with_M(
        MODE_EL1H,
    ).raw_value()
}

/// Sets up the registers of EL1.
fn init_el1(cpu: &mut Cpu, vectors: u64)
    ensures
        final(cpu)@ == el1_initialized(old(cpu)@, vectors),
{
    cpu.write_raw(SysReg::SCTLR_EL1, SCTLR_EL1_RES1);
    cpu.write_raw(SysReg::SPSR_EL1, spsr_el1_value());
    cpu.write_raw(SysReg::VBAR_EL1, vectors);
    cpu.write_raw(SysReg::CPACR_EL1, CPACR_FP_ENABLED);
}

/// Sets up the registers of EL2, then those of EL1.
fn init_el2(cpu: &mut Cpu, vectors: u64)
    ensures
        final(cpu)@ == el2_initialized(old(cpu)@, vectors),
{
    let mpidr = cpu.raw(SysReg::MPIDR_EL1);
    cpu.write_raw(SysReg::SCTLR_EL2, SCTLR_EL2_RES1);
    cpu.write_raw(SysReg::HCR_EL2, hcr_el2_value());
    cpu.write_raw(SysReg::SPSR_EL2, spsr_el2_value());
    cpu.write_raw(SysReg::VMPIDR_EL2, mpidr);
    cpu.write_raw(SysReg::VBAR_EL2, vectors);
    cpu.write_raw(SysReg::CPTR_EL2, 0);
    init_el1(cpu, vectors);
}

/// Sets up the registers of EL3, then those of EL2 and EL1.
fn init_el3(cpu: &mut Cpu, vectors: u64)
    ensures
        final(cpu)@ == el3_initialized(old(cpu)@, vectors),
{
    cpu.write_raw(SysReg::SCTLR_EL3, SCTLR_EL3_RES1);
    cpu.write_raw(SysReg::SCR_EL3, scr_el3_value());
    cpu.write_raw(SysReg::SPSR_EL3, spsr_el3_value());
    cpu.write_raw(SysReg::VBAR_EL3, vectors);
    cpu.write_raw(SysReg::CPTR_EL3, 0);
    init_el2(cpu, vectors);
}

/// The privilege initialization of a core that runs at exception level
/// `el`, with the vector table at `vectors`.
///
/// Masks all exceptions, then sets up the registers of `el` and of every
/// level below it. Returns whether `el` is one of EL1, EL2 and EL3; at any
/// other level the core must halt.
pub fn core_init(cpu: &mut Cpu, el: u64, vectors: u64) -> (known: bool)
    ensures
        final(cpu)@ == core_initialized(old(cpu)@, el, vectors),
        known == (1 <= el <= 3),
{
    cpu.write_raw(SysReg::DAIF, DAIF_ALL_MASKED);
    if el == 3 {
        init_el3(cpu, vectors);
        true
    } else if el == 2 {
        init_el2(cpu, vectors);
        true
    } else if el == 1 {
        init_el1(cpu, vectors);
        true
    } else {
        false
    }
}

/// The initialization that the Cortex-A53 needs on top, for a core that
/// runs at exception level `el`.
pub fn core_a53_init(cpu: &mut Cpu, el: u64)
    ensures
        final(cpu)@ == core_a53_initialized(old(cpu)@, el),
{
    if el == 3 {
        let value = cpu.raw(SysReg::CPUECTLR_EL1);
        cpu.write_raw(SysReg::CPUECTLR_EL1, value | CPUECTLR_SMPEN);
    }
}

/// Prepares stack and memory for the core with index `cpu_idx` among
/// `num_cores`: computes the stack of the core and, for the primary core,
/// counts the clearing of the zero-initialized data.
///
/// The filling of the stack and the clearing itself are left to the caller,
/// who gets the stack back.
pub fn rust_init(
    layout: &BootLayout,
    cpu_idx: u64,
    num_cores: u64,
    shared: &mut BootShared,
) -> (stack: StackSlice)
    requires
        cpu_idx < num_cores,
    ensures
        stack == stack_of(*layout, cpu_idx, num_cores),
        final(shared).lock == old(shared).lock,
        final(shared).bss_zeroed == if cpu_idx == 0 && old(shared).bss_zeroed < u64::MAX {
            (old(shared).bss_zeroed + 1) as u64
        } else {
            old(shared).bss_zeroed
        },
{
    proof {
        lemma_stack_bounds(*layout, cpu_idx, num_cores);
    }
    let start = if layout.stack_start < layout.stack_end {
        layout.stack_start
    } else {
        layout.stack_end
    };
    let size = (layout.stack_end - start) / num_cores;
    let top = layout.stack_end - size * cpu_idx;
    let base = top - size;
    if cpu_idx == 0 && shared.bss_zeroed < u64::MAX {
        shared.bss_zeroed = shared.bss_zeroed + 1;
    }
    StackSlice { base, top }
}

/// Builds the entry information from the four argument registers and calls
/// the entry function with it.
pub fn rust_entry<EntryImpl: Entry>(param: u64, current_el: u64, cpu_idx: u64, num_cores: u64)
    ensures
        EntryImpl::entered(
            EntryInfo {
                param,
                current_el: current_el as usize,
                cpu_idx: cpu_idx as usize,
                num_cores: num_cores as usize,
            },
        ),
{
    EntryImpl::entry(entry_info(param, current_el, cpu_idx, num_cores))
}

/// The entry information for the values of the four argument registers.
pub fn entry_info(param: u64, current_el: u64, cpu_idx: u64, num_cores: u64) -> (info: EntryInfo)
    ensures
        info == (EntryInfo {
            param,
            current_el: current_el as usize,
            cpu_idx: cpu_idx as usize,
            num_cores: num_cores as usize,
        }),
{
    EntryInfo {
        param,
        current_el: current_el as usize,
        cpu_idx: cpu_idx as usize,
        num_cores: num_cores as usize,
    }
}

/// Takes `core` through one transition of the boot sequencer.
///
/// `cpu` holds the registers of the core, `vectors` is the address of the
/// vector table. The result says what the transition asks of the memory.
pub fn step(
    core: &mut BootCore,
    shared: &mut BootShared,
    layout: &BootLayout,
    cpu: &mut Cpu,
    vectors: u64,
) -> (effect: BootEffect)
    ensures
        *final(core) == next_core(*old(core), *old(shared), *layout, old(cpu)@),
        *final(shared) == next_shared(*old(core), *old(shared)),
        final(cpu)@ == next_cpu(*old(core), *old(shared), *layout, old(cpu)@, vectors),
        effect == effect_of(*old(core), *old(shared), *layout),
{
    match core.state {
        BootState::Reset => {
            let el = crate::bits::get_field(cpu.raw(SysReg::CurrentEL), 2, 0x3);
            core.current_el = el;
            core.state = if el == 0 {
                BootState::Halted
            } else {
                BootState::ELDetected
            };
            BootEffect::Nothing
        },
        BootState::ELDetected => {
            let idx = crate::bits::get_field(cpu.raw(SysReg::MPIDR_EL1), 0, 0xff);
            core.cpu_idx = idx;
            core.num_cores = layout.num_cpu;
            if idx >= layout.num_cpu {
                core.state = BootState::Halted;
            } else {
                let known = core_init(cpu, core.current_el, vectors);
                if known {
                    core_a53_init(cpu, core.current_el);
                    core.state = BootState::PrivilegeInitialized;
                } else {
                    core.state = BootState::Halted;
                }
            }
            BootEffect::Nothing
        },
        BootState::PrivilegeInitialized => {
            core.state = if core.cpu_idx == 0 {
                BootState::PrimaryRustInit
            } else {
                BootState::SecondaryWaiting
            };
            BootEffect::Nothing
        },
        BootState::PrimaryRustInit => prepare(core, shared, layout, cpu),
        BootState::SecondaryWaiting => {
            if shared.lock != 0 {
                BootEffect::Wait
            } else {
                prepare(core, shared, layout, cpu)
            }
        },
        BootState::RegistersCleared => {
            core.state = BootState::UserEntryCalled;
            BootEffect::Enter {
                info: entry_info(core.param, core.current_el, core.cpu_idx, core.num_cores),
            }
        },
        BootState::UserEntryCalled => BootEffect::Nothing,
        BootState::Halted => BootEffect::Wait,
    }
}

/// The preparation of stack and memory, and the release of the secondary
/// cores: the stack of the core is chosen and the stack pointer of the
/// exception level selected, the lock word is cleared, a memory barrier
/// makes the prepared memory visible, and an event wakes the cores that
/// wait.
fn prepare(
    core: &mut BootCore,
    shared: &mut BootShared,
    layout: &BootLayout,
    cpu: &mut Cpu,
) -> (effect: BootEffect)
    requires
        old(core).state == BootState::PrimaryRustInit || (old(core).state
            == BootState::SecondaryWaiting && old(shared).lock == 0),
    ensures
        *final(core) == initialized(*old(core), *layout),
        *final(shared) == next_shared(*old(core), *old(shared)),
        final(cpu)@ == if initializes(*old(core), *old(shared)) {
            released(old(cpu)@)
        } else {
            old(cpu)@
        },
        effect == effect_of(*old(core), *old(shared), *layout),
{
    if core.cpu_idx >= core.num_cores {
        core.state = BootState::Halted;
        return BootEffect::Wait;
    }
    let stack = rust_init(layout, core.cpu_idx, core.num_cores, shared);
    cpu.write_raw(SysReg::SPSEL, 1);
    core.stack_base = stack.base;
    core.sp = stack.top;
    shared.lock = 0;
    cpu.dmb();
    cpu.issue(Instr::Sev);
    core.state = BootState::RegistersCleared;
    BootEffect::RustInit { stack, zero_bss: core.cpu_idx == 0 }
}

/// Whether `core` cannot move until another core has cleared the lock
/// word.
pub open spec fn blocked(core: BootCore, shared: BootShared) -> bool {
    core.state == BootState::SecondaryWaiting && shared.lock != 0
}

/// The transitions that a core in `state` has before it at most.
pub open spec fn steps_left(state: BootState) -> nat {
    match state {
        BootState::Reset => 5,
        BootState::ELDetected => 4,
        BootState::PrivilegeInitialized => 3,
        BootState::PrimaryRustInit => 2,
        BootState::SecondaryWaiting => 2,
        BootState::RegistersCleared => 1,
        BootState::UserEntryCalled => 0,
        BootState::Halted => 0,
    }
}

/// The core, the shared state and the registers after the core has gone as
/// far as it can: until it has entered the entry function, has halted, or
/// waits for the lock word.
pub open spec fn ran(
    core: BootCore,
    shared: BootShared,
    layout: BootLayout,
    cpu: CpuView,
    vectors: u64,
) -> (BootCore, BootShared, CpuView)
    decreases steps_left(core.state),
{
    if finished(core.state) || blocked(core, shared) {
        (core, shared, cpu)
    } else {
        ran(
            next_core(core, shared, layout, cpu),
            next_shared(core, shared),
            layout,
            next_cpu(core, shared, layout, cpu, vectors),
            vectors,
        )
    }
}

/// Takes `core` through the boot sequencer as far as it can go.
///
/// Returns the entry information when this call has brought the core to
/// the entry function, and `None` when the core has halted, waits for the
/// lock word, or had entered before.
pub fn start(
    core: &mut BootCore,
    shared: &mut BootShared,
    layout: &BootLayout,
    cpu: &mut Cpu,
    vectors: u64,
) -> (entered: Option<EntryInfo>)
    ensures
        (*final(core), *final(shared), final(cpu)@) == ran(
            *old(core),
            *old(shared),
            *layout,
            old(cpu)@,
            vectors,
        ),
        entered == if final(core).state == BootState::UserEntryCalled && old(core).state
            != BootState::UserEntryCalled {
            Some(entry_info_of(*final(core)))
        } else {
            None
        },
{
    let ghost goal = ran(*core, *shared, *layout, cpu@, vectors);
    let mut entered: Option<EntryInfo> = None;
    loop
        invariant
            ran(*core, *shared, *layout, cpu@, vectors) == goal,
            old(core).state == BootState::UserEntryCalled ==> core.state
                == BootState::UserEntryCalled,
            entered == if core.state == BootState::UserEntryCalled && old(core).state
                != BootState::UserEntryCalled {
                Some(entry_info_of(*core))
            } else {
                None
            },
        ensures
            finished(core.state) || blocked(*core, *shared),
            ran(*core, *shared, *layout, cpu@, vectors) == goal,
            entered == if core.state == BootState::UserEntryCalled && old(core).state
                != BootState::UserEntryCalled {
                Some(entry_info_of(*core))
            } else {
                None
            },
        decreases steps_left(core.state),
    {
        let waiting = matches!(core.state, BootState::SecondaryWaiting) && shared.lock != 0;
        let done = matches!(core.state, BootState::UserEntryCalled | BootState::Halted);
        if waiting || done {
            break;
        }
        let effect = step(core, shared, layout, cpu, vectors);
        match effect {
            BootEffect::Enter { info } => {
                entered = Some(info);
            },
            _ => {},
        }
    }
    entered
}

/// The cores that are past the preparation have seen the lock word
/// released, a released lock word means that the zero-initialized data has
/// been cleared, and only the core with index 0 prepares as the primary
/// core.
pub open spec fn protocol_holds(shared: BootShared, cores: Seq<BootCore>) -> bool {
    &&& shared.lock == 0 ==> shared.bss_zeroed >= 1
    &&& forall|i: int|
        0 <= i < cores.len() ==> (#[trigger] cores[i].state == BootState::PrimaryRustInit
            ==> cores[i].cpu_idx == 0)
    &&& forall|i: int|
        0 <= i < cores.len() ==> (past_init(#[trigger] cores[i].state) ==> shared.lock == 0)
}

/// What the cores share at power-on: the lock word set, nothing cleared.
pub open spec fn power_on() -> BootShared {
    BootShared { lock: 1, bss_zeroed: 0 }
}

/// At power-on the protocol holds: the lock word is set and every core is
/// in reset.
pub proof fn lemma_protocol_at_reset(cores: Seq<BootCore>)
    requires
        forall|i: int| 0 <= i < cores.len() ==> (#[trigger] cores[i]).state == BootState::Reset,
    ensures
        protocol_holds(power_on(), cores),
{
}

/// The lock word is cleared once and never set again: whatever core takes
/// a transition, a released lock word stays released.
pub proof fn lemma_lock_stays_released(core: BootCore, shared: BootShared)
    requires
        shared.lock == 0,
    ensures
        next_shared(core, shared).lock == 0,
{
}

/// A transition of any core keeps the protocol. So no secondary core gets
/// past its wait before the primary core has cleared the zero-initialized
/// data.
pub proof fn lemma_step_keeps_protocol(
    shared: BootShared,
    cores: Seq<BootCore>,
    i: int,
    layout: BootLayout,
    cpu: CpuView,
)
    requires
        protocol_holds(shared, cores),
        0 <= i < cores.len(),
    ensures
        protocol_holds(
            next_shared(cores[i], shared),
            cores.update(i, next_core(cores[i], shared, layout, cpu)),
        ),
{
    let after = next_shared(cores[i], shared);
    let moved = cores.update(i, next_core(cores[i], shared, layout, cpu));
    assert forall|j: int|
        0 <= j < moved.len() && #[trigger] moved[j].state
            == BootState::PrimaryRustInit implies moved[j].cpu_idx == 0 by {
        if j != i {
            assert(moved[j] == cores[j]);
        }
    }
    assert forall|j: int|
        0 <= j < moved.len() && past_init(#[trigger] moved[j].state) implies after.lock == 0 by {
        if j != i {
            assert(moved[j] == cores[j]);
        }
    }
}

/// The shared state, the cores and their registers after the cores have
/// taken their transitions in the order that `schedule` gives: each entry
/// names the core that moves next. An entry that names no core is passed
/// over.
pub open spec fn scheduled(
    shared: BootShared,
    cores: Seq<BootCore>,
    cpus: Seq<CpuView>,
    layout: BootLayout,
    vectors: u64,
    schedule: Seq<int>,
) -> (BootShared, Seq<BootCore>, Seq<CpuView>)
    decreases schedule.len(),
{
    if schedule.len() == 0 {
        (shared, cores, cpus)
    } else {
        let before = scheduled(shared, cores, cpus, layout, vectors, schedule.drop_last());
        let i = schedule.last();
        if 0 <= i < before.1.len() && i < before.2.len() {
            (
                next_shared(before.1[i], before.0),
                before.1.update(i, next_core(before.1[i], before.0, layout, before.2[i])),
                before.2.update(
                    i,
                    next_cpu(before.1[i], before.0, layout, before.2[i], vectors),
                ),
            )
        } else {
            before
        }
    }
}

/// Whatever the order in which the cores move after power-on, the protocol
/// holds: no core is past the preparation of stack and memory while the
/// lock word is set, and the lock word is not released before the
/// zero-initialized data has been cleared.
pub proof fn lemma_protocol_in_every_schedule(
    cores: Seq<BootCore>,
    cpus: Seq<CpuView>,
    layout: BootLayout,
    vectors: u64,
    schedule: Seq<int>,
)
    requires
        forall|i: int| 0 <= i < cores.len() ==> (#[trigger] cores[i]).state == BootState::Reset,
    ensures
        scheduled(power_on(), cores, cpus, layout, vectors, schedule).1.len() == cores.len(),
        protocol_holds(
            scheduled(power_on(), cores, cpus, layout, vectors, schedule).0,
            scheduled(power_on(), cores, cpus, layout, vectors, schedule).1,
        ),
    decreases schedule.len(),
{
    let power_on = power_on();
    if schedule.len() == 0 {
        lemma_protocol_at_reset(cores);
    } else {
        lemma_protocol_in_every_schedule(cores, cpus, layout, vectors, schedule.drop_last());
        let before = scheduled(power_on, cores, cpus, layout, vectors, schedule.drop_last());
        let i = schedule.last();
        if 0 <= i < before.1.len() && i < before.2.len() {
            lemma_step_keeps_protocol(before.0, before.1, i, layout, before.2[i]);
        }
    }
}

/// The lock word is cleared once and never set again: if it is released
/// after the first `k` transitions of a schedule, it is released after the
/// whole schedule.
pub proof fn lemma_released_in_every_schedule(
    shared: BootShared,
    cores: Seq<BootCore>,
    cpus: Seq<CpuView>,
    layout: BootLayout,
    vectors: u64,
    schedule: Seq<int>,
    k: int,
)
    requires
        0 <= k <= schedule.len(),
        scheduled(shared, cores, cpus, layout, vectors, schedule.subrange(0, k)).0.lock == 0,
    ensures
        scheduled(shared, cores, cpus, layout, vectors, schedule).0.lock == 0,
    decreases schedule.len() - k,
{
    if k == schedule.len() {
        assert(schedule.subrange(0, k) =~= schedule);
    } else {
        let longer = schedule.subrange(0, k + 1);
        assert(longer.drop_last() =~= schedule.subrange(0, k));
        let before = scheduled(shared, cores, cpus, layout, vectors, schedule.subrange(0, k));
        let i = longer.last();
        if 0 <= i < before.1.len() && i < before.2.len() {
            lemma_lock_stays_released(before.1[i], before.0);
        }
        lemma_released_in_every_schedule(shared, cores, cpus, layout, vectors, schedule, k + 1);
    }
}

/// The zero-initialized data is cleared once: by the core at position
/// `primary`, the only one that may have index 0, when it has prepared as
/// the primary core.
pub open spec fn cleared_once(shared: BootShared, cores: Seq<BootCore>, primary: int) -> bool {
    &&& 0 <= primary < cores.len()
    &&& forall|i: int|
        0 <= i < cores.len() && i != primary ==> (steps_left(#[trigger] cores[i].state) <= 3
            ==> cores[i].cpu_idx != 0 || cores[i].state == BootState::Halted)
    &&& shared.bss_zeroed == if past_init(cores[primary].state) && cores[primary].cpu_idx == 0 {
        1u64
    } else {
        0u64
    }
}

/// A transition of any core keeps [`cleared_once`], where every core but
/// the one at `primary` has an index other than 0 in its affinity
/// register.
pub proof fn lemma_step_keeps_cleared_once(
    shared: BootShared,
    cores: Seq<BootCore>,
    primary: int,
    i: int,
    layout: BootLayout,
    cpu: CpuView,
)
    requires
        cleared_once(shared, cores, primary),
        0 <= i < cores.len(),
        i != primary ==> index_of_core(cpu.raw(SysReg::MPIDR_EL1)) != 0,
    ensures
        cleared_once(
            next_shared(cores[i], shared),
            cores.update(i, next_core(cores[i], shared, layout, cpu)),
            primary,
        ),
{
    let after = next_shared(cores[i], shared);
    let moved = cores.update(i, next_core(cores[i], shared, layout, cpu));
    assert forall|j: int|
        0 <= j < moved.len() && j != primary && steps_left(
            #[trigger] moved[j].state,
        ) <= 3 implies moved[j].cpu_idx != 0 || moved[j].state == BootState::Halted by {
        if j != i {
            assert(moved[j] == cores[j]);
        }
    }
    if i != primary {
        assert(moved[primary] == cores[primary]);
    }
}

/// The walk of one core from reset. A core at EL1, EL2 or EL3 whose index
/// is below the core count, and which is the primary core or finds the lock
/// word released, reaches the entry function with its boot parameter, its
/// exception level, its index and the core count; the primary core clears
/// the zero-initialized data on the way, a secondary core does not. A
/// secondary core that finds the lock word set waits and changes nothing.
/// A core at EL0, or with an index that is not below the core count, halts
/// and changes nothing that is shared.
pub proof fn lemma_walk_from_reset(
    param: u64,
    shared: BootShared,
    layout: BootLayout,
    cpu: CpuView,
    vectors: u64,
)
    ensures
        ({
            let core = BootCore {
                state: BootState::Reset,
                param,
                current_el: 0,
                cpu_idx: 0,
                num_cores: 0,
                stack_base: 0,
                sp: 0,
            };
            let el = el_of(cpu.raw(SysReg::CurrentEL));
            let idx = index_of_core(cpu.raw(SysReg::MPIDR_EL1));
            let end = ran(core, shared, layout, cpu, vectors);
            if el == 0 || idx >= layout.num_cpu {
                end.0.state == BootState::Halted && end.1 == shared && end.2 == cpu
            } else if idx != 0 && shared.lock != 0 {
                end.0.state == BootState::SecondaryWaiting && end.1 == shared
            } else {
                &&& end.0.state == BootState::UserEntryCalled
                &&& entry_info_of(end.0) == (EntryInfo {
                    param,
                    current_el: el as usize,
                    cpu_idx: idx as usize,
                    num_cores: layout.num_cpu as usize,
                })
                &&& end.0.sp == stack_of(layout, idx, layout.num_cpu).top
                &&& end.1.lock == 0
                &&& end.1.bss_zeroed == if idx == 0 && shared.bss_zeroed < u64::MAX {
                    (shared.bss_zeroed + 1) as u64
                } else {
                    shared.bss_zeroed
                }
            }
        }),
{
    reveal_with_fuel(ran, 7);
    let core = BootCore {
        state: BootState::Reset,
        param,
        current_el: 0,
        cpu_idx: 0,
        num_cores: 0,
        stack_base: 0,
        sp: 0,
    };
    let el = el_of(cpu.raw(SysReg::CurrentEL));
    crate::bits::lemma_field_bound(cpu.raw(SysReg::CurrentEL), 2, 0x3);
    let c1 = next_core(core, shared, layout, cpu);
    let c2 = next_core(c1, shared, layout, cpu);
    assert(next_cpu(core, shared, layout, cpu, vectors) == cpu);
    assert(next_shared(core, shared) == shared);
    assert(next_shared(c1, shared) == shared);
}

} // verus!
