//! Trap-mediation engine of an M-mode SBI firmware for the K210.
//!
//! The chip implements the RISC-V privileged specification v1.9.1, while the
//! supervisor payload above expects a modern (1.10+) SBI platform.  This
//! library holds the verified decision core of the firmware: per machine
//! trap it decides whether to emulate an instruction, forward an interrupt,
//! reconstruct a modern exception from a legacy one, or service an SBI call,
//! and it computes the exact register and CSR values that realise that
//! decision.  Hardware access itself (trampolines, CSR instructions,
//! MPRV-mediated loads, the SBI dispatch library) lives outside: the caller
//! hands machine state in as plain values and carries the returned action
//! out to the hardware.

pub mod context;
pub mod csr;
pub mod delegate_page_fault;
pub mod emulate_rdtime;
pub mod execute;
pub mod init;
pub mod sfence_vma;
pub mod supervisor_interrupt;
pub mod transfer_trap;
pub mod trap;

pub use context::SupervisorContext;
pub use csr::Csrs;
pub use csr::MIE_MEIE;
pub use csr::MIE_MSIE;
pub use csr::MIE_MTIE;
pub use csr::MIP_MTIP;
pub use csr::MIP_SSIP;
pub use csr::MIP_STIP;
pub use csr::MPP_MACHINE;
pub use csr::MPP_SUPERVISOR;
pub use csr::MSTATUS_MPP_MASK;
pub use csr::MSTATUS_MPP_S;
pub use csr::MSTATUS_MPRV;
pub use csr::MSTATUS_SIE;
pub use csr::MSTATUS_SPIE;
pub use csr::MSTATUS_SPP;
pub use csr::VM_MODE_SV39;
pub use delegate_page_fault::check_sext_sv39;
pub use delegate_page_fault::classify_fault;
pub use delegate_page_fault::is_page_fault;
pub use delegate_page_fault::is_s1p9_mstatus_sv39_mode;
pub use emulate_rdtime::emulate_rdtime;
pub use execute::emulate_illegal_instruction;
pub use execute::emulate_sbi_call;
pub use execute::fail_illegal_instruction;
pub use execute::finish_sbi_call;
pub use execute::handle_machine_trap;
pub use execute::instruction_from_halfwords;
pub use init::delegate_interrupt_exception;
pub use init::TrapDelegation;
pub use sfence_vma::emulate_sfence_vma;
pub use supervisor_interrupt::call_supervisor_interrupt;
pub use supervisor_interrupt::emulate_sbi_rustsbi_k210_sext;
pub use supervisor_interrupt::forward_supervisor_soft;
pub use supervisor_interrupt::forward_supervisor_timer;
pub use supervisor_interrupt::preprocess_supervisor_external;
pub use supervisor_interrupt::SEXT_EXTENSION_ID;
pub use supervisor_interrupt::SEXT_FUNCTION_ID;
pub use transfer_trap::do_transfer_trap;
pub use transfer_trap::should_transfer_trap;
pub use trap::classify_mcause;
pub use trap::Exception;
pub use trap::MachineAction;
pub use trap::MachineTrap;
