//! Emulation of `sfence.vma`.
//!
//! Under the v1.9.1 semantics of this chip, the supervisor cannot execute
//! `sfence.vma` itself: it traps to M-mode as an illegal instruction.  The
//! chip does support the instruction at M-level, so the firmware answers a
//! matched encoding by asking the hardware layer to run the fence at
//! M-level (the [`crate::trap::MachineAction::SfenceVma`] action) and
//! skipping the trapped instruction.

use vstd::prelude::*;
use crate::context::SupervisorContext;
use crate::trap::advance_pc;

verus! {

/// Whether `ins` is an `sfence.vma rs1, rs2` encoding, for any choice of
/// address and ASID source registers.
pub open spec fn sfence_vma_matches(ins: u32) -> bool {
    ins & 0xFE00_7FFF == 0x1200_0073
}

/// Try to emulate the trapped instruction `ins` as an `sfence.vma`.  On a
/// match the PC is advanced past the instruction and the caller must run
/// the fence at M-level; any other encoding leaves the context alone.
pub fn emulate_sfence_vma(ctx: &mut SupervisorContext, ins: u32) -> (handled: bool)
    ensures
        handled == sfence_vma_matches(ins),
        handled ==> *final(ctx) == (SupervisorContext {
            mepc: advance_pc(old(ctx).mepc),
            ..*old(ctx)
        }),
        !handled ==> *final(ctx) == *old(ctx),
{
    if ins & 0xFE00_7FFF == 0x1200_0073 {
        ctx.mepc = ctx.mepc.wrapping_add(4);
        true
    } else {
        false
    }
}

} // verus!
