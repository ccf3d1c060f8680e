//! The trap transferor: the sole mechanism by which the firmware delivers
//! a synthesized trap into the supervisor's trap vector.
//!
//! Given a chosen exception kind, it rewrites the supervisor CSRs and the
//! saved context so that the next `mret` enters the S-mode handler exactly
//! as a delegated trap would have: `scause` holds the kind, `stval` the
//! trap value, `sepc` the trapping PC, `mstatus` records the interrupted
//! privilege and interrupt state, and `mepc` points at `stvec`.

use vstd::prelude::*;
use crate::context::SupervisorContext;
use crate::csr::{
    mpp, spp_supervisor, spie, sie, stvec_base, Csrs,
    MPP_MACHINE, MPP_SUPERVISOR, MSTATUS_MPP_MASK, MSTATUS_MPP_S, MSTATUS_SIE, MSTATUS_SPIE,
    MSTATUS_SPP,
};
use crate::trap::{advance_pc, scause_of, cause_code, Exception};

verus! {

/// The `mstatus` the supervisor context resumes with after a trap
/// transfer: `MPP` set to supervisor (the next `mret` enters S-mode),
/// `SPP` set to supervisor (the handler's `sret` returns to S-mode),
/// `SPIE` holding the old `SIE`, and `SIE` cleared so the handler starts
/// with S-level interrupts off.
pub open spec fn transfer_mstatus(m: u64) -> u64 {
    let with_mpp = (m & !MSTATUS_MPP_MASK) | MSTATUS_MPP_S;
    let with_spp = with_mpp | MSTATUS_SPP;
    let with_spie = if m & MSTATUS_SIE != 0 {
        with_spp | MSTATUS_SPIE
    } else {
        with_spp & !MSTATUS_SPIE
    };
    with_spie & !MSTATUS_SIE
}

/// The context after a trap transfer: `mstatus` rewritten as
/// [`transfer_mstatus`] and `mepc` aimed at the supervisor trap vector.
/// Exceptions enter at offset 0 in both `stvec` modes, so the bare base
/// address is the entry point.  All registers keep their values: the
/// S-mode handler sees the interrupted world unchanged.
pub open spec fn transferred_ctx(c: SupervisorContext, stvec: u64) -> SupervisorContext {
    SupervisorContext { mstatus: transfer_mstatus(c.mstatus), mepc: stvec_base(stvec), ..c }
}

/// The CSRs after a trap of kind `e` at PC `epc` is transferred: `scause`
/// holds the exception code, `stval` the machine trap value (the offending
/// address or instruction bits), and `sepc` the trapping PC.
pub open spec fn transferred_csrs(s: Csrs, e: Exception, epc: u64) -> Csrs {
    Csrs { scause: scause_of(e), stval: s.mtval, sepc: epc, ..s }
}

/// Whether an unhandled trap may be transferred to the supervisor: only
/// when it interrupted privilege below machine mode.  A trap out of
/// machine mode itself is a firmware fault.
pub fn should_transfer_trap(ctx: &SupervisorContext) -> (transfer: bool)
    ensures
        transfer == (mpp(ctx.mstatus) != MPP_MACHINE),
{
    let field: u64 = (ctx.mstatus >> 11) & 3;
    field != MPP_MACHINE
}

/// Deliver a synthesized S-level trap of kind `cause`: rewrite the
/// supervisor CSRs and the saved context so that resuming the context
/// enters the supervisor trap vector.
pub fn do_transfer_trap(ctx: &mut SupervisorContext, csrs: &mut Csrs, cause: Exception)
    ensures
        *final(ctx) == transferred_ctx(*old(ctx), old(csrs).stvec),
        *final(csrs) == transferred_csrs(*old(csrs), cause, old(ctx).mepc),
{
    csrs.scause = cause_code(cause);
    csrs.stval = csrs.mtval;
    csrs.sepc = ctx.mepc;
    let m: u64 = ctx.mstatus;
    let with_mpp: u64 = (m & !MSTATUS_MPP_MASK) | MSTATUS_MPP_S;
    let with_spp: u64 = with_mpp | MSTATUS_SPP;
    let with_spie: u64 = if m & MSTATUS_SIE != 0 {
        with_spp | MSTATUS_SPIE
    } else {
        with_spp & !MSTATUS_SPIE
    };
    ctx.mstatus = with_spie & !MSTATUS_SIE;
    ctx.mepc = csrs.stvec & !3u64;
}

/// Whatever privilege a trap interrupted, the transferor rewrites `MPP`
/// to supervisor: the `mret` that resumes the context enters the S-mode
/// handler.
pub proof fn lemma_transfer_mstatus_mpp(m: u64)
    ensures
        mpp(transfer_mstatus(m)) == MPP_SUPERVISOR,
{
    assert({
        &&& (((((m & !0x1800u64) | 0x800) | 0x100) | 0x20) & !0x2) >> 11 & 3 == 1
        &&& (((((m & !0x1800u64) | 0x800) | 0x100) & !0x20) & !0x2) >> 11 & 3 == 1
    }) by (bit_vector);
}

/// Every transferred trap lands the supervisor in its own trap vector with
/// a consistent machine status: `MPP` is supervisor, the resume PC is the
/// `stvec` base, `sepc` is the trapping PC, `SPP` marks supervisor, `SPIE`
/// preserves the interrupted `SIE`, and `SIE` is off.
pub proof fn lemma_transfer_trap_shape(c: SupervisorContext, s: Csrs, e: Exception)
    ensures
        mpp(transferred_ctx(c, s.stvec).mstatus) == MPP_SUPERVISOR,
        transferred_ctx(c, s.stvec).mepc == stvec_base(s.stvec),
        transferred_csrs(s, e, c.mepc).sepc == c.mepc,
        transferred_csrs(s, e, c.mepc).scause == scause_of(e),
        spp_supervisor(transferred_ctx(c, s.stvec).mstatus),
        spie(transferred_ctx(c, s.stvec).mstatus) == sie(c.mstatus),
        !sie(transferred_ctx(c, s.stvec).mstatus),
{
    let m: u64 = c.mstatus;
    assert({
        &&& (((((m & !0x1800u64) | 0x800) | 0x100) | 0x20) & !0x2) >> 11 & 3 == 1
        &&& (((((m & !0x1800u64) | 0x800) | 0x100) & !0x20) & !0x2) >> 11 & 3 == 1
        &&& (((((m & !0x1800u64) | 0x800) | 0x100) | 0x20) & !0x2) & 0x100 != 0
        &&& (((((m & !0x1800u64) | 0x800) | 0x100) & !0x20) & !0x2) & 0x100 != 0
        &&& (((((m & !0x1800u64) | 0x800) | 0x100) | 0x20) & !0x2) & 0x20 != 0
        &&& (((((m & !0x1800u64) | 0x800) | 0x100) & !0x20) & !0x2) & 0x20 == 0
        &&& (((((m & !0x1800u64) | 0x800) | 0x100) | 0x20) & !0x2) & 0x2 == 0
        &&& (((((m & !0x1800u64) | 0x800) | 0x100) & !0x20) & !0x2) & 0x2 == 0
    }) by (bit_vector);
}

} // verus!
