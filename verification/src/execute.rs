//! The trap-mediation step: route one classified machine trap, mutate the
//! supervisor context and the CSRs in place, and say what the hardware
//! layer must do before resuming.
//!
//! The surrounding loop is the hardware's: it `mret`s into the supervisor,
//! wakes on the next machine trap, classifies it, fetches the trapped
//! instruction bytes (through an MPRV-enabled load) and the platform time
//! counter when the tag asks for them, calls [`handle_machine_trap`], and
//! performs the returned action.  An SBI call that the firmware does not
//! service itself is handed out as a
//! [`MachineAction::DispatchSbiCall`]; the dispatch library's answer comes
//! back through [`finish_sbi_call`].

use vstd::prelude::*;
use crate::context::SupervisorContext;
use crate::csr::{mpp, Csrs, MIE_MEIE, MPP_MACHINE, MPP_SUPERVISOR};
use crate::delegate_page_fault::{classified, classify_fault, page_fault_expected};
use crate::emulate_rdtime::{emulate_rdtime, rdtime_applied, rdtime_matches};
use crate::sfence_vma::{emulate_sfence_vma, sfence_vma_matches};
use crate::supervisor_interrupt::{
    call_supervisor_interrupt, emulate_sbi_rustsbi_k210_sext, forward_supervisor_soft,
    forward_supervisor_timer, mprv_call_mstatus, preprocess_supervisor_external, preprocessed_mie,
    sext_call_matches, sext_registered_ctx, soft_forwarded, timer_forwarded,
};
use crate::supervisor_interrupt::lemma_mprv_clear_preserves_mpp;
use crate::transfer_trap::{
    do_transfer_trap, lemma_transfer_mstatus_mpp, should_transfer_trap, transferred_csrs,
    transferred_ctx,
};
use crate::trap::{advance_pc, Exception, MachineAction, MachineTrap};

verus! {

/// Try to service a trapped `ecall` inside the firmware itself, without
/// the SBI dispatch library.  The vendor entry-registration call is the
/// one call handled this way.
pub fn emulate_sbi_call(
    ctx: &mut SupervisorContext,
    csrs: &mut Csrs,
    devintr_entry: &mut u64,
) -> (handled: bool)
    ensures
        handled == sext_call_matches(*old(ctx)),
        handled ==> {
            &&& *final(ctx) == sext_registered_ctx(*old(ctx))
            &&& *final(csrs) == (Csrs { mie: old(csrs).mie | MIE_MEIE, ..*old(csrs) })
            &&& *final(devintr_entry) == old(ctx).a0
        },
        !handled ==> {
            &&& *final(ctx) == *old(ctx)
            &&& *final(csrs) == *old(csrs)
            &&& *final(devintr_entry) == *old(devintr_entry)
        },
{
    if emulate_sbi_rustsbi_k210_sext(ctx, csrs, devintr_entry) {
        return true;
    }
    false
}

/// Try the instruction emulators on the trapped encoding `ins`, in order:
/// `rdtime` (completed with the counter value `mtime`), then
/// `sfence.vma`.  A match advances the PC past the instruction; any other
/// encoding leaves the context alone and the caller proceeds to trap
/// transfer or failure.
pub fn emulate_illegal_instruction(
    ctx: &mut SupervisorContext,
    ins: u32,
    mtime: u64,
) -> (handled: bool)
    ensures
        handled == (rdtime_matches(ins) || sfence_vma_matches(ins)),
        rdtime_matches(ins) ==> rdtime_applied(*old(ctx), *final(ctx), ins, mtime),
        !rdtime_matches(ins) && sfence_vma_matches(ins) ==> *final(ctx) == (SupervisorContext {
            mepc: advance_pc(old(ctx).mepc),
            ..*old(ctx)
        }),
        !handled ==> *final(ctx) == *old(ctx),
{
    if emulate_rdtime(ctx, ins, mtime) {
        return true;
    }
    if emulate_sfence_vma(ctx, ins) {
        return true;
    }
    false
}

/// An illegal instruction trapped while `MPP` was machine mode: the trap
/// came out of the firmware itself, not the supervisor, and nothing can
/// service it.  The returned fatal action carries the full context dump
/// for the panic report.
pub fn fail_illegal_instruction(ctx: &SupervisorContext, ins: u32) -> (act: MachineAction)
    ensures
        act == (MachineAction::Fatal { ctx: *ctx, ins }),
{
    MachineAction::Fatal { ctx: *ctx, ins }
}

/// The context after the SBI dispatch library answered `(error, value)`:
/// the pair lands in `(a0, a1)` and the PC skips the `ecall`.
pub open spec fn sbi_result_ctx(c: SupervisorContext, error: u64, value: u64) -> SupervisorContext {
    SupervisorContext { a0: error, a1: value, mepc: advance_pc(c.mepc), ..c }
}

/// Store the SBI dispatch library's answer to a
/// [`MachineAction::DispatchSbiCall`]: `(error, value)` into `(a0, a1)`,
/// and the PC one instruction forward.
pub fn finish_sbi_call(ctx: &mut SupervisorContext, error: u64, value: u64)
    ensures
        *final(ctx) == sbi_result_ctx(*old(ctx), error, value),
{
    ctx.a0 = error;
    ctx.a1 = value;
    ctx.mepc = ctx.mepc.wrapping_add(4);
}

/// The 32-bit instruction word assembled from the two halfwords at the
/// faulting PC and at PC+2.  The fetch itself reads S-mode virtual memory
/// halfword by halfword, tolerating compressed-instruction alignment;
/// this is the concatenation it feeds the emulators.
pub fn instruction_from_halfwords(low: u16, high: u16) -> (ins: u32)
    ensures
        ins == low + high * 0x1_0000,
{
    let ins: u32 = (low as u32) | ((high as u32) << 16);
    proof {
        assert((low as u32) | ((high as u32) << 16) == (low as u32) + (high as u32) * 0x1_0000u32)
            by (bit_vector);
    }
    ins
}

/// Route one classified machine trap: mutate the supervisor context, the
/// CSR copy and the registered interrupt entry in place, and return the
/// action the hardware layer must perform before resuming the supervisor.
///
/// `ins` and `mtime` are consulted only for an
/// [`MachineTrap::IllegalInstruction`] tag: the caller fetches the
/// trapped instruction bytes from S-mode virtual memory and samples the
/// platform time counter before calling.
///
/// The last clause of the contract is the context invariant the payload
/// depends on: a trap that came out of supervisor mode always resumes
/// with `MPP` still reading supervisor, so the next `mret` re-enters
/// S-mode.
pub fn handle_machine_trap(
    ctx: &mut SupervisorContext,
    csrs: &mut Csrs,
    devintr_entry: &mut u64,
    trap: MachineTrap,
    ins: u32,
    mtime: u64,
) -> (act: MachineAction)
    ensures
        match trap {
            MachineTrap::SbiCall() => if sext_call_matches(*old(ctx)) {
                &&& act == MachineAction::Resume
                &&& *final(ctx) == sext_registered_ctx(*old(ctx))
                &&& *final(csrs) == (Csrs { mie: old(csrs).mie | MIE_MEIE, ..*old(csrs) })
                &&& *final(devintr_entry) == old(ctx).a0
            } else {
                &&& act == (MachineAction::DispatchSbiCall {
                    extension: old(ctx).a7,
                    function: old(ctx).a6,
                    arg0: old(ctx).a0,
                    arg1: old(ctx).a1,
                    arg2: old(ctx).a2,
                    arg3: old(ctx).a3,
                    arg4: old(ctx).a4,
                    arg5: old(ctx).a5,
                })
                &&& *final(ctx) == *old(ctx)
                &&& *final(csrs) == (Csrs {
                    mie: preprocessed_mie(*old(ctx), *old(csrs), *old(devintr_entry)),
                    ..*old(csrs)
                })
                &&& *final(devintr_entry) == *old(devintr_entry)
            },
            MachineTrap::IllegalInstruction() => {
                &&& *final(devintr_entry) == *old(devintr_entry)
                &&& (rdtime_matches(ins) ==> {
                    &&& act == MachineAction::Resume
                    &&& rdtime_applied(*old(ctx), *final(ctx), ins, mtime)
                    &&& *final(csrs) == *old(csrs)
                })
                &&& (!rdtime_matches(ins) && sfence_vma_matches(ins) ==> {
                    &&& act == MachineAction::SfenceVma
                    &&& *final(ctx) == (SupervisorContext {
                        mepc: advance_pc(old(ctx).mepc),
                        ..*old(ctx)
                    })
                    &&& *final(csrs) == *old(csrs)
                })
                &&& (!rdtime_matches(ins) && !sfence_vma_matches(ins)
                    && mpp(old(ctx).mstatus) != MPP_MACHINE ==> {
                    &&& act == MachineAction::Resume
                    &&& *final(ctx) == transferred_ctx(*old(ctx), old(csrs).stvec)
                    &&& *final(csrs) == transferred_csrs(
                        *old(csrs),
                        Exception::IllegalInstruction,
                        old(ctx).mepc,
                    )
                })
                &&& (!rdtime_matches(ins) && !sfence_vma_matches(ins)
                    && mpp(old(ctx).mstatus) == MPP_MACHINE ==> {
                    &&& act == (MachineAction::Fatal { ctx: *old(ctx), ins })
                    &&& *final(ctx) == *old(ctx)
                    &&& *final(csrs) == *old(csrs)
                })
            },
            MachineTrap::ExternalInterrupt() => {
                &&& act == (MachineAction::CallSupervisorEntry {
                    entry: *old(devintr_entry),
                    mstatus_for_call: mprv_call_mstatus(old(ctx).mstatus),
                })
                &&& *final(ctx) == (SupervisorContext {
                    mstatus: old(ctx).mstatus & !crate::csr::MSTATUS_MPRV,
                    ..*old(ctx)
                })
                &&& *final(csrs) == *old(csrs)
                &&& *final(devintr_entry) == *old(devintr_entry)
            },
            MachineTrap::MachineTimer() => {
                &&& act == MachineAction::Resume
                &&& *final(ctx) == *old(ctx)
                &&& *final(csrs) == timer_forwarded(*old(csrs))
                &&& *final(devintr_entry) == *old(devintr_entry)
            },
            MachineTrap::MachineSoft() => {
                &&& act == MachineAction::Resume
                &&& *final(ctx) == *old(ctx)
                &&& *final(csrs) == soft_forwarded(*old(csrs))
                &&& *final(devintr_entry) == *old(devintr_entry)
            },
            MachineTrap::InstructionFault(addr) => {
                &&& act == MachineAction::Resume
                &&& *final(ctx) == transferred_ctx(*old(ctx), old(csrs).stvec)
                &&& *final(csrs) == transferred_csrs(
                    *old(csrs),
                    classified(
                        page_fault_expected(old(ctx).mstatus, addr),
                        Exception::InstructionFault,
                    ),
                    old(ctx).mepc,
                )
                &&& *final(devintr_entry) == *old(devintr_entry)
            },
            MachineTrap::LoadFault(addr) => {
                &&& act == MachineAction::Resume
                &&& *final(ctx) == transferred_ctx(*old(ctx), old(csrs).stvec)
                &&& *final(csrs) == transferred_csrs(
                    *old(csrs),
                    classified(
                        page_fault_expected(old(ctx).mstatus, addr),
                        Exception::LoadFault,
                    ),
                    old(ctx).mepc,
                )
                &&& *final(devintr_entry) == *old(devintr_entry)
            },
            MachineTrap::StoreFault(addr) => {
                &&& act == MachineAction::Resume
                &&& *final(ctx) == transferred_ctx(*old(ctx), old(csrs).stvec)
                &&& *final(csrs) == transferred_csrs(
                    *old(csrs),
                    classified(
                        page_fault_expected(old(ctx).mstatus, addr),
                        Exception::StoreFault,
                    ),
                    old(ctx).mepc,
                )
                &&& *final(devintr_entry) == *old(devintr_entry)
            },
        },
        mpp(old(ctx).mstatus) == MPP_SUPERVISOR ==> mpp(final(ctx).mstatus) == MPP_SUPERVISOR,
{
    match trap {
        MachineTrap::SbiCall() => {
            if emulate_sbi_call(ctx, csrs, devintr_entry) {
                MachineAction::Resume
            } else {
                preprocess_supervisor_external(ctx, csrs, *devintr_entry);
                MachineAction::DispatchSbiCall {
                    extension: ctx.a7,
                    function: ctx.a6,
                    arg0: ctx.a0,
                    arg1: ctx.a1,
                    arg2: ctx.a2,
                    arg3: ctx.a3,
                    arg4: ctx.a4,
                    arg5: ctx.a5,
                }
            }
        },
        MachineTrap::IllegalInstruction() => {
            if emulate_illegal_instruction(ctx, ins, mtime) {
                // Of the two emulated encodings, only the fence needs the
                // hardware layer to act; a completed rdtime just resumes.
                if ins & 0xFFFF_F07F == 0xC010_2073 {
                    MachineAction::Resume
                } else {
                    MachineAction::SfenceVma
                }
            } else if should_transfer_trap(ctx) {
                do_transfer_trap(ctx, csrs, Exception::IllegalInstruction);
                proof {
                    lemma_transfer_mstatus_mpp(old(ctx).mstatus);
                }
                MachineAction::Resume
            } else {
                fail_illegal_instruction(ctx, ins)
            }
        },
        MachineTrap::ExternalInterrupt() => {
            proof {
                lemma_mprv_clear_preserves_mpp(old(ctx).mstatus);
            }
            call_supervisor_interrupt(ctx, *devintr_entry)
        },
        MachineTrap::MachineTimer() => {
            forward_supervisor_timer(csrs);
            MachineAction::Resume
        },
        MachineTrap::MachineSoft() => {
            forward_supervisor_soft(csrs);
            MachineAction::Resume
        },
        MachineTrap::InstructionFault(addr) => {
            let cause: Exception = classify_fault(ctx.mstatus, addr, Exception::InstructionFault);
            do_transfer_trap(ctx, csrs, cause);
            proof {
                lemma_transfer_mstatus_mpp(old(ctx).mstatus);
            }
            MachineAction::Resume
        },
        MachineTrap::LoadFault(addr) => {
            let cause: Exception = classify_fault(ctx.mstatus, addr, Exception::LoadFault);
            do_transfer_trap(ctx, csrs, cause);
            proof {
                lemma_transfer_mstatus_mpp(old(ctx).mstatus);
            }
            MachineAction::Resume
        },
        MachineTrap::StoreFault(addr) => {
            let cause: Exception = classify_fault(ctx.mstatus, addr, Exception::StoreFault);
            do_transfer_trap(ctx, csrs, cause);
            proof {
                lemma_transfer_mstatus_mpp(old(ctx).mstatus);
            }
            MachineAction::Resume
        },
    }
}

/// Every serviced SBI call advances the supervisor PC by exactly one
/// instruction: the vendor registration path and the dispatch-and-store
/// path both leave `mepc` one 4-byte `ecall` past where it trapped.
pub proof fn lemma_sbi_call_advances_mepc(c: SupervisorContext, error: u64, value: u64)
    ensures
        sext_registered_ctx(c).mepc == advance_pc(c.mepc),
        sbi_result_ctx(c, error, value).mepc == advance_pc(c.mepc),
{
}

} // verus!
