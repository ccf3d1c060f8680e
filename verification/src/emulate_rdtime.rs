//! Emulation of `rdtime`.
//!
//! The chip has no readable `time` CSR at S-level: the read traps to
//! M-mode as an illegal instruction.  The firmware decodes the trapped
//! encoding and completes the read with the platform's time counter, which
//! the caller samples and passes in.

use vstd::prelude::*;
use crate::context::{reg, set_register_xi, SupervisorContext};
use crate::trap::advance_pc;

verus! {

/// Whether `ins` is a read of the `time` CSR: `csrrs rd, time, x0` for any
/// destination `rd` (the canonical expansion of `rdtime rd`).
pub open spec fn rdtime_matches(ins: u32) -> bool {
    ins & 0xFFFF_F07F == 0xC010_2073
}

/// The destination register index encoded in a matched `rdtime`.
pub open spec fn rdtime_rd(ins: u32) -> u64 {
    ((ins >> 7) & 0x1F) as u64
}

/// How a context changes when a matched `rdtime` is emulated with counter
/// value `mtime`: the decoded destination register receives `mtime` (a
/// destination of `x0` discards it), the PC skips the 4-byte instruction,
/// and everything else is untouched.
pub open spec fn rdtime_applied(
    old_ctx: SupervisorContext,
    new_ctx: SupervisorContext,
    ins: u32,
    mtime: u64,
) -> bool {
    &&& new_ctx.mstatus == old_ctx.mstatus
    &&& new_ctx.mepc == advance_pc(old_ctx.mepc)
    &&& forall|r: int| 0 <= r < 32 && r != rdtime_rd(ins) ==> reg(new_ctx, r) == reg(old_ctx, r)
    &&& rdtime_rd(ins) != 0 ==> reg(new_ctx, rdtime_rd(ins) as int) == mtime
}

/// Try to emulate the trapped instruction `ins` as a `rdtime`.  On a match
/// the context receives the counter value `mtime` in the decoded
/// destination register and the PC is advanced past the instruction; any
/// other encoding leaves the context alone.
pub fn emulate_rdtime(ctx: &mut SupervisorContext, ins: u32, mtime: u64) -> (handled: bool)
    ensures
        handled == rdtime_matches(ins),
        handled ==> rdtime_applied(*old(ctx), *final(ctx), ins, mtime),
        !handled ==> *final(ctx) == *old(ctx),
{
    if ins & 0xFFFF_F07F == 0xC010_2073 {
        let rd: u32 = (ins >> 7) & 0x1F;
        proof {
            assert((ins >> 7) & 0x1F < 32) by (bit_vector);
        }
        set_register_xi(ctx, rd as u64, mtime);
        ctx.mepc = ctx.mepc.wrapping_add(4);
        true
    } else {
        false
    }
}

} // verus!
