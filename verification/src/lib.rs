//! Verified model of an AArch64 boot and hardware-abstraction layer.
//!
//! The library computes on plain values: a [`regs::Cpu`] holds the system
//! registers of one core together with the ordered list of privileged
//! instructions that the operations issue. A platform layer loads the
//! registers, calls into the library and then executes the recorded
//! instructions on the hardware.
#![allow(non_camel_case_types)]
#![allow(non_snake_case)]

pub mod bits;
pub mod cache;
pub mod critical_section;
pub mod exceptions;
pub mod instr;
pub mod mmu;
pub mod perf;
pub mod pmu;
pub mod psci;
pub mod registers;
pub mod regs;
pub mod smccc;
pub mod start;
pub mod sys_regs;

pub use start::{
    start, step, BootCore, BootEffect, BootLayout, BootShared, BootState, Entry, EntryInfo,
};
