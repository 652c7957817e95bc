//! Typed values of the system registers.
//!
//! Every register has a value type with one accessor for each field. A
//! value is read from and written to a [`crate::regs::Cpu`], which applies
//! the reserved-bit masking of the register.
pub mod cache;
pub mod cpuactlr;
pub mod id;
pub mod mmu;
pub mod pmu;
pub mod system;
pub mod timer;

pub use cache::{CCSIDR_EL1_CCIDX, CCSIDR_EL1_NO_CCIDX, CLIDR_EL1, CSSELR_EL1};
pub use cpuactlr::CPUACTLR_EL1;
pub use id::{ID_AA64DFR0_EL1, ID_AA64DFR1_EL1, ID_AA64MMFR0_EL1, ID_AA64MMFR2_EL1};
pub use mmu::{
    MAIR_EL1, MAIR_EL2, MAIR_EL3, TCR_EL1, TCR_EL2, TCR_EL3, TTBR0_EL1, TTBR0_EL2, TTBR0_EL3,
};
pub use pmu::{
    PMCCFILTR_EL0, PMCCNTR_EL0, PMCEID0_EL0, PMCEID1_EL0, PMCNTENCLR_EL0, PMCNTENSET_EL0,
    PMCR_EL0, PMEVCNTR_EL0, PMEVTYPER_EL0, PMOVSCLR_EL0,
};
pub use system::{
    CURRENT_EL, HCR_EL2, SCR_EL3, SCTLR_EL1, SCTLR_EL2, SCTLR_EL3, SPSR_EL1, SPSR_EL2, SPSR_EL3,
};
pub use timer::{CNTFRQ_EL0, CNTPCT_EL0, CNTP_CTL_EL0, CNTVCT_EL0, CNTVOFF_EL2};
