//! The external-interrupt bridge and the interrupt forwarders.
//!
//! Privileged spec v1.9.1 declares no S-level external interrupt, so the
//! firmware offers a vendor SBI extension (extension id `0x0A00_0004`,
//! function id `0x210`) under which the supervisor registers the address
//! of an interrupt entry routine.  When an M-level external interrupt
//! later fires, the firmware calls that entry as an ordinary function,
//! with `mstatus.MPRV` set and `MPP` forced to supervisor so that memory
//! accesses inside it use S-mode translation.
//!
//! M-level timer and software interrupts are forwarded by bit discipline
//! alone: the pending bit of the corresponding S-level interrupt is set
//! and the M-level source is masked until the supervisor re-arms it
//! through the matching SBI call.

use vstd::prelude::*;
use crate::context::SupervisorContext;
use crate::csr::{
    meie, mpp, mprv, mtie, mtip, msie, ssip, stip, Csrs,
    MIE_MEIE, MIE_MSIE, MIE_MTIE, MIP_SSIP, MIP_STIP,
    MPP_SUPERVISOR, MSTATUS_MPP_MASK, MSTATUS_MPP_S, MSTATUS_MPRV,
};
use crate::trap::{advance_pc, MachineAction};

verus! {

/// The SBI extension id of the vendor extension that registers the
/// S-level external-interrupt entry.
pub const SEXT_EXTENSION_ID: u64 = 0x0A00_0004;

/// The SBI function id of the entry-registration call.
pub const SEXT_FUNCTION_ID: u64 = 0x210;

/// Whether the argument block of a trapped `ecall` addresses the vendor
/// entry-registration call.
pub open spec fn sext_call_matches(c: SupervisorContext) -> bool {
    c.a7 == SEXT_EXTENSION_ID && c.a6 == SEXT_FUNCTION_ID
}

/// The context after a successful entry registration: the call returns
/// `(error, value) = (0, 0)` in `(a0, a1)` and the PC skips the `ecall`.
pub open spec fn sext_registered_ctx(c: SupervisorContext) -> SupervisorContext {
    SupervisorContext { a0: 0, a1: 0, mepc: advance_pc(c.mepc), ..c }
}

/// The `mstatus` installed for the duration of a call into the registered
/// entry: `MPRV` set and `MPP` forced to supervisor, so that loads and
/// stores inside the entry go through S-mode translation whatever
/// privilege the interrupt hit.
pub open spec fn mprv_call_mstatus(m: u64) -> u64 {
    ((m | MSTATUS_MPRV) & !MSTATUS_MPP_MASK) | MSTATUS_MPP_S
}

/// Service the vendor registration call if the trapped `ecall` addresses
/// it: record the entry address from `a0`, enable the M-level external
/// interrupt, answer `(0, 0)` and step over the `ecall`.  Any other
/// argument block is left for the SBI dispatch library.
pub fn emulate_sbi_rustsbi_k210_sext(
    ctx: &mut SupervisorContext,
    csrs: &mut Csrs,
    devintr_entry: &mut u64,
) -> (handled: bool)
    ensures
        handled == sext_call_matches(*old(ctx)),
        handled ==> {
            &&& *final(ctx) == sext_registered_ctx(*old(ctx))
            &&& *final(csrs) == (Csrs { mie: old(csrs).mie | MIE_MEIE, ..*old(csrs) })
            &&& *final(devintr_entry) == old(ctx).a0
        },
        !handled ==> {
            &&& *final(ctx) == *old(ctx)
            &&& *final(csrs) == *old(csrs)
            &&& *final(devintr_entry) == *old(devintr_entry)
        },
{
    if ctx.a7 == SEXT_EXTENSION_ID && ctx.a6 == SEXT_FUNCTION_ID {
        *devintr_entry = ctx.a0;
        csrs.mie = csrs.mie | MIE_MEIE;
        ctx.a0 = 0;
        ctx.a1 = 0;
        ctx.mepc = ctx.mepc.wrapping_add(4);
        true
    } else {
        false
    }
}

/// The `mie` value after the pre-dispatch fix of the timer/external
/// deadlock: `MEIE` is re-enabled exactly when the call is the legacy
/// `set_timer` (`a7 == 0`), the M-level timer is already pending, and an
/// external-interrupt entry is registered.
pub open spec fn preprocessed_mie(c: SupervisorContext, s: Csrs, devintr_entry: u64) -> u64 {
    if c.a7 == 0 && mtip(s.mip) && devintr_entry != 0 {
        s.mie | MIE_MEIE
    } else {
        s.mie
    }
}

/// Before an `ecall` is handed to the SBI dispatch library: if it is the
/// legacy `set_timer`, the M-level timer interrupt is pending and an
/// external-interrupt entry is registered, re-enable `MEIE`.  Without
/// this, the timer path can leave `MEIE` masked while the S-level handler
/// blocks on data that only an M-level external interrupt delivers,
/// deadlocking both; the re-enable must be preserved verbatim.
pub fn preprocess_supervisor_external(
    ctx: &SupervisorContext,
    csrs: &mut Csrs,
    devintr_entry: u64,
)
    ensures
        *final(csrs) == (Csrs {
            mie: preprocessed_mie(*ctx, *old(csrs), devintr_entry),
            ..*old(csrs)
        }),
{
    if ctx.a7 == 0 {
        let timer_pending: bool = csrs.mip & crate::csr::MIP_MTIP != 0;
        if timer_pending {
            if devintr_entry != 0 {
                csrs.mie = csrs.mie | MIE_MEIE;
            }
        }
    }
}

/// The CSRs after a timer forward: `STIP` raised, `MEIE` and `MTIE`
/// masked.
pub open spec fn timer_forwarded(s: Csrs) -> Csrs {
    Csrs { mip: s.mip | MIP_STIP, mie: s.mie & !(MIE_MEIE | MIE_MTIE), ..s }
}

/// The CSRs after a software-interrupt forward: `SSIP` raised, `MSIE`
/// masked.
pub open spec fn soft_forwarded(s: Csrs) -> Csrs {
    Csrs { mip: s.mip | MIP_SSIP, mie: s.mie & !MIE_MSIE, ..s }
}

/// Forward an M-level timer interrupt to the supervisor: raise the
/// S-level timer pending bit, mask the M-level timer source, and also
/// mask the M-level external interrupt until the supervisor's timer
/// service is over (the same deadlock discipline as the pre-dispatch
/// fix).
pub fn forward_supervisor_timer(csrs: &mut Csrs)
    ensures
        *final(csrs) == timer_forwarded(*old(csrs)),
{
    csrs.mip = csrs.mip | MIP_STIP;
    csrs.mie = csrs.mie & !(MIE_MEIE | MIE_MTIE);
}

/// Forward an M-level software interrupt to the supervisor: raise the
/// S-level software pending bit and mask the M-level source.
pub fn forward_supervisor_soft(csrs: &mut Csrs)
    ensures
        *final(csrs) == soft_forwarded(*old(csrs)),
{
    csrs.mip = csrs.mip | MIP_SSIP;
    csrs.mie = csrs.mie & !MIE_MSIE;
}

/// Answer an M-level external interrupt: hand the caller the registered
/// entry with the MPRV call status, and leave the context's `mstatus`
/// as the call restores it afterwards — identical to before except that
/// `MPRV` is clear.
pub fn call_supervisor_interrupt(
    ctx: &mut SupervisorContext,
    devintr_entry: u64,
) -> (act: MachineAction)
    ensures
        *final(ctx) == (SupervisorContext {
            mstatus: old(ctx).mstatus & !MSTATUS_MPRV,
            ..*old(ctx)
        }),
        act == (MachineAction::CallSupervisorEntry {
            entry: devintr_entry,
            mstatus_for_call: mprv_call_mstatus(old(ctx).mstatus),
        }),
{
    let m: u64 = ctx.mstatus;
    let mstatus_for_call: u64 = ((m | MSTATUS_MPRV) & !MSTATUS_MPP_MASK) | MSTATUS_MPP_S;
    // The interrupt may have hit U or S mode: the interrupted privilege
    // comes back into MPP once the entry returns, and MPRV is dropped again.
    let saved_mpp: u64 = (m >> 11) & 3;
    let restored: u64 = (((mstatus_for_call & !MSTATUS_MPP_MASK) | (saved_mpp << 11))
        & !MSTATUS_MPRV);
    proof {
        assert(((((((m | 0x2_0000u64) & !0x1800) | 0x800) & !0x1800) | (((m >> 11) & 3) << 11))
            & !0x2_0000) == m & !0x2_0000) by (bit_vector);
    }
    ctx.mstatus = restored;
    MachineAction::CallSupervisorEntry { entry: devintr_entry, mstatus_for_call }
}

/// Immediately after a timer forward the S-level timer is pending and
/// both the M-level timer and the M-level external interrupt are masked.
pub proof fn lemma_timer_forward_bits(s: Csrs)
    ensures
        stip(timer_forwarded(s).mip),
        !mtie(timer_forwarded(s).mie),
        !meie(timer_forwarded(s).mie),
{
    let mip: u64 = s.mip;
    let mie: u64 = s.mie;
    assert({
        &&& (mip | 0x20u64) & 0x20 != 0
        &&& (mie & !(0x800u64 | 0x80u64)) & 0x80 == 0
        &&& (mie & !(0x800u64 | 0x80u64)) & 0x800 == 0
    }) by (bit_vector);
}

/// Immediately after a software forward the S-level software interrupt is
/// pending and the M-level source is masked.
pub proof fn lemma_soft_forward_bits(s: Csrs)
    ensures
        ssip(soft_forwarded(s).mip),
        !msie(soft_forwarded(s).mie),
{
    let mip: u64 = s.mip;
    let mie: u64 = s.mie;
    assert({
        &&& (mip | 0x2u64) & 0x2 != 0
        &&& (mie & !0x8u64) & 0x8 == 0
    }) by (bit_vector);
}

/// During a call into the registered entry, memory accesses translate as
/// supervisor accesses: `MPRV` is set and `MPP` reads supervisor.
pub proof fn lemma_supervisor_call_mstatus(m: u64)
    ensures
        mprv(mprv_call_mstatus(m)),
        mpp(mprv_call_mstatus(m)) == MPP_SUPERVISOR,
{
    assert({
        &&& (((m | 0x2_0000u64) & !0x1800) | 0x800) & 0x2_0000 != 0
        &&& ((((m | 0x2_0000u64) & !0x1800) | 0x800) >> 11) & 3 == 1
    }) by (bit_vector);
}

/// Dropping `MPRV` after the entry returns does not disturb the
/// privilege field: the context resumes into the same mode the interrupt
/// hit.
pub proof fn lemma_mprv_clear_preserves_mpp(m: u64)
    ensures
        mpp(m & !MSTATUS_MPRV) == mpp(m),
{
    assert((m & !0x2_0000u64) >> 11 & 3 == m >> 11 & 3) by (bit_vector);
}

/// The bridge restores the machine status it found: when the interrupted
/// `mstatus` had `MPRV` clear — as every trap out of S or U mode does —
/// the context resumes with exactly the `mstatus` it trapped with.
pub proof fn lemma_supervisor_call_round_trip(m: u64)
    requires
        !mprv(m),
    ensures
        m & !MSTATUS_MPRV == m,
{
    assert(m & 0x2_0000u64 == 0 ==> m & !0x2_0000u64 == m) by (bit_vector);
}

} // verus!
