//! The vocabulary of the trap-mediation loop: the tags under which the
//! runtime classifies machine traps, the S-level exception kinds the
//! firmware can synthesize, and the actions a handler can ask the hardware
//! layer to perform before the next `mret`.

use vstd::prelude::*;
use crate::context::SupervisorContext;

verus! {

/// A machine trap as classified by the runtime on each resumption of the
/// trap-mediation loop.  The fault variants carry the offending address
/// read from `mtval`.
#[derive(Clone, Copy, Debug, PartialEq, Eq, Structural)]
pub enum MachineTrap {
    /// S-mode executed `ecall`.
    SbiCall(),
    /// A raw illegal-instruction exception took M-mode; the faulting PC is
    /// in `mepc` and the instruction bytes must be fetched from S-mode
    /// virtual memory.
    IllegalInstruction(),
    /// An M-level external interrupt is pending.
    ExternalInterrupt(),
    /// The M-level timer fired.
    MachineTimer(),
    /// An M-level software interrupt (IPI) fired.
    MachineSoft(),
    /// Instruction access fault at the given address.
    InstructionFault(u64),
    /// Load access fault at the given address.
    LoadFault(u64),
    /// Store access fault at the given address.
    StoreFault(u64),
}

/// An S-level exception kind the trap transferor can deliver.  The chip
/// itself only raises the three access faults; the three page faults exist
/// so the firmware can present a 1.10+ fault model to the supervisor.
#[derive(Clone, Copy, Debug, PartialEq, Eq, Structural)]
pub enum Exception {
    /// Illegal instruction.
    IllegalInstruction,
    /// Instruction access fault.
    InstructionFault,
    /// Load access fault.
    LoadFault,
    /// Store access fault.
    StoreFault,
    /// Instruction page fault.
    InstructionPageFault,
    /// Load page fault.
    LoadPageFault,
    /// Store page fault.
    StorePageFault,
}

/// The `scause` exception code of each deliverable exception kind.
pub open spec fn scause_of(e: Exception) -> u64 {
    match e {
        Exception::IllegalInstruction => 2,
        Exception::InstructionFault => 1,
        Exception::LoadFault => 5,
        Exception::StoreFault => 7,
        Exception::InstructionPageFault => 12,
        Exception::LoadPageFault => 13,
        Exception::StorePageFault => 15,
    }
}

/// The `scause` exception code of a deliverable exception kind.  The high
/// (interrupt) bit stays clear: the transferor only synthesizes exceptions.
pub fn cause_code(e: Exception) -> (code: u64)
    ensures
        code == scause_of(e),
{
    match e {
        Exception::IllegalInstruction => 2,
        Exception::InstructionFault => 1,
        Exception::LoadFault => 5,
        Exception::StoreFault => 7,
        Exception::InstructionPageFault => 12,
        Exception::LoadPageFault => 13,
        Exception::StorePageFault => 15,
    }
}

/// What the hardware layer must do after a handler returns, before the
/// trampoline restores the context and `mret`s back into the supervisor.
#[derive(Clone, Copy, Debug, PartialEq, Eq, Structural)]
pub enum MachineAction {
    /// Nothing beyond restoring the context and resuming.
    Resume,
    /// Execute `sfence.vma` at M-level on behalf of the supervisor, then
    /// resume.
    SfenceVma,
    /// Hand the call to the SBI dispatch library with the given extension
    /// id, function id and argument block, then store the returned pair
    /// through [`crate::execute::finish_sbi_call`] and resume.
    DispatchSbiCall {
        /// SBI extension id, from `a7`.
        extension: u64,
        /// SBI function id, from `a6`.
        function: u64,
        /// First SBI argument, from `a0`.
        arg0: u64,
        /// Second SBI argument, from `a1`.
        arg1: u64,
        /// Third SBI argument, from `a2`.
        arg2: u64,
        /// Fourth SBI argument, from `a3`.
        arg3: u64,
        /// Fifth SBI argument, from `a4`.
        arg4: u64,
        /// Sixth SBI argument, from `a5`.
        arg5: u64,
    },
    /// Write `mstatus_for_call` to `mstatus`, call the registered S-level
    /// interrupt entry as an ordinary function, then write the restored
    /// `mstatus` held in the context back and resume.  With `MPRV` set and
    /// `MPP` forced to supervisor, memory accesses inside the entry use
    /// S-mode translation.
    CallSupervisorEntry {
        /// The registered S-mode virtual address to call.
        entry: u64,
        /// The `mstatus` value to install for the duration of the call.
        mstatus_for_call: u64,
    },
    /// An illegal instruction trapped while `MPP` was machine mode: a bug
    /// in the firmware itself.  The hardware layer panics with the dumped
    /// context and requests a system reset.
    Fatal {
        /// The supervisor context at the time of the fault.
        ctx: SupervisorContext,
        /// The offending instruction bytes.
        ins: u32,
    },
}

/// `mcause` exception code of an environment call from S-mode.
pub const CAUSE_SUPERVISOR_ECALL: u64 = 9;

/// `mcause` exception code of an illegal instruction.
pub const CAUSE_ILLEGAL_INSTRUCTION: u64 = 2;

/// `mcause` exception code of an instruction access fault.
pub const CAUSE_INSTRUCTION_FAULT: u64 = 1;

/// `mcause` exception code of a load access fault.
pub const CAUSE_LOAD_FAULT: u64 = 5;

/// `mcause` exception code of a store access fault.
pub const CAUSE_STORE_FAULT: u64 = 7;

/// `mcause` interrupt code of the machine software interrupt.
pub const INTERRUPT_MACHINE_SOFT: u64 = 3;

/// `mcause` interrupt code of the machine timer interrupt.
pub const INTERRUPT_MACHINE_TIMER: u64 = 7;

/// `mcause` interrupt code of the machine external interrupt.
pub const INTERRUPT_MACHINE_EXTERNAL: u64 = 11;

/// Whether an `mcause` value records an interrupt (top bit set) rather
/// than an exception.
pub open spec fn mcause_is_interrupt(mcause: u64) -> bool {
    mcause >> 63 == 1
}

/// The cause code of an `mcause` value, without the interrupt bit.
pub open spec fn mcause_code(mcause: u64) -> u64 {
    mcause & 0x7FFF_FFFF_FFFF_FFFF
}

/// The tag the runtime gives a machine trap with the given `mcause` and
/// `mtval`, or `None` for a cause the trap-mediation loop does not serve
/// (those are delegated in hardware or impossible on this chip; meeting
/// one is fatal).
pub open spec fn classified_trap(mcause: u64, mtval: u64) -> Option<MachineTrap> {
    if mcause_is_interrupt(mcause) {
        if mcause_code(mcause) == INTERRUPT_MACHINE_SOFT {
            Some(MachineTrap::MachineSoft())
        } else if mcause_code(mcause) == INTERRUPT_MACHINE_TIMER {
            Some(MachineTrap::MachineTimer())
        } else if mcause_code(mcause) == INTERRUPT_MACHINE_EXTERNAL {
            Some(MachineTrap::ExternalInterrupt())
        } else {
            None
        }
    } else {
        if mcause_code(mcause) == CAUSE_SUPERVISOR_ECALL {
            Some(MachineTrap::SbiCall())
        } else if mcause_code(mcause) == CAUSE_ILLEGAL_INSTRUCTION {
            Some(MachineTrap::IllegalInstruction())
        } else if mcause_code(mcause) == CAUSE_INSTRUCTION_FAULT {
            Some(MachineTrap::InstructionFault(mtval))
        } else if mcause_code(mcause) == CAUSE_LOAD_FAULT {
            Some(MachineTrap::LoadFault(mtval))
        } else if mcause_code(mcause) == CAUSE_STORE_FAULT {
            Some(MachineTrap::StoreFault(mtval))
        } else {
            None
        }
    }
}

/// Classify a machine trap from its `mcause` and `mtval`, as the runtime
/// does on each resumption of the trap-mediation loop.  `None` means the
/// cause is not one the loop serves; the hardware layer treats it as
/// fatal.
pub fn classify_mcause(mcause: u64, mtval: u64) -> (tag: Option<MachineTrap>)
    ensures
        tag == classified_trap(mcause, mtval),
{
    let interrupt: bool = mcause >> 63 == 1;
    let code: u64 = mcause & 0x7FFF_FFFF_FFFF_FFFF;
    if interrupt {
        if code == INTERRUPT_MACHINE_SOFT {
            Some(MachineTrap::MachineSoft())
        } else if code == INTERRUPT_MACHINE_TIMER {
            Some(MachineTrap::MachineTimer())
        } else if code == INTERRUPT_MACHINE_EXTERNAL {
            Some(MachineTrap::ExternalInterrupt())
        } else {
            None
        }
    } else {
        if code == CAUSE_SUPERVISOR_ECALL {
            Some(MachineTrap::SbiCall())
        } else if code == CAUSE_ILLEGAL_INSTRUCTION {
            Some(MachineTrap::IllegalInstruction())
        } else if code == CAUSE_INSTRUCTION_FAULT {
            Some(MachineTrap::InstructionFault(mtval))
        } else if code == CAUSE_LOAD_FAULT {
            Some(MachineTrap::LoadFault(mtval))
        } else if code == CAUSE_STORE_FAULT {
            Some(MachineTrap::StoreFault(mtval))
        } else {
            None
        }
    }
}

/// The PC one 4-byte instruction past `pc`, with the wrap-around of the
/// 64-bit program counter.
pub open spec fn advance_pc(pc: u64) -> u64 {
    if pc + 4 > u64::MAX {
        (pc + 4 - 0x1_0000_0000_0000_0000) as u64
    } else {
        (pc + 4) as u64
    }
}

} // verus!
