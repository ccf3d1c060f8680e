//! The supervisor context: the complete register snapshot of the S-mode
//! world while M-mode is executing.
//!
//! One context exists per hart.  It is created once at firmware entry,
//! filled by the save trampoline on every machine trap, mutated by exactly
//! one handler, and restored by the exit trampoline before `mret`.  While
//! M-mode runs, the context is the single source of truth for the
//! supervisor's registers.

use vstd::prelude::*;
use crate::csr::MSTATUS_MPP_S;

verus! {

/// The integer register file `x1..x31` (index 0 is the hardwired zero
/// register), together with the saved `mstatus` and `mepc` of the
/// interrupted supervisor.
#[derive(Clone, Copy, Debug, PartialEq, Eq, Structural)]
pub struct SupervisorContext {
    /// `x1`, the return address register.
    pub ra: u64,
    /// `x2`, the stack pointer.
    pub sp: u64,
    /// `x3`, the global pointer.
    pub gp: u64,
    /// `x4`, the thread pointer.
    pub tp: u64,
    /// `x5`.
    pub t0: u64,
    /// `x6`.
    pub t1: u64,
    /// `x7`.
    pub t2: u64,
    /// `x8`.
    pub s0: u64,
    /// `x9`.
    pub s1: u64,
    /// `x10`, first argument and SBI error return.
    pub a0: u64,
    /// `x11`, second argument and SBI value return.
    pub a1: u64,
    /// `x12`.
    pub a2: u64,
    /// `x13`.
    pub a3: u64,
    /// `x14`.
    pub a4: u64,
    /// `x15`.
    pub a5: u64,
    /// `x16`, the SBI function id.
    pub a6: u64,
    /// `x17`, the SBI extension id.
    pub a7: u64,
    /// `x18`.
    pub s2: u64,
    /// `x19`.
    pub s3: u64,
    /// `x20`.
    pub s4: u64,
    /// `x21`.
    pub s5: u64,
    /// `x22`.
    pub s6: u64,
    /// `x23`.
    pub s7: u64,
    /// `x24`.
    pub s8: u64,
    /// `x25`.
    pub s9: u64,
    /// `x26`.
    pub s10: u64,
    /// `x27`.
    pub s11: u64,
    /// `x28`.
    pub t3: u64,
    /// `x29`.
    pub t4: u64,
    /// `x30`.
    pub t5: u64,
    /// `x31`.
    pub t6: u64,
    /// The saved `mstatus` of the interrupted supervisor.
    pub mstatus: u64,
    /// The machine exception PC: the supervisor PC at which the trap hit,
    /// and the address the next `mret` returns to.
    pub mepc: u64,
}

/// Register `x[i]` of a context, by architectural index.  Index 0 is the
/// hardwired zero register; indices outside `0..32` read as zero as well.
pub open spec fn reg(c: SupervisorContext, i: int) -> u64 {
    if i == 1 { c.ra }
    else if i == 2 { c.sp }
    else if i == 3 { c.gp }
    else if i == 4 { c.tp }
    else if i == 5 { c.t0 }
    else if i == 6 { c.t1 }
    else if i == 7 { c.t2 }
    else if i == 8 { c.s0 }
    else if i == 9 { c.s1 }
    else if i == 10 { c.a0 }
    else if i == 11 { c.a1 }
    else if i == 12 { c.a2 }
    else if i == 13 { c.a3 }
    else if i == 14 { c.a4 }
    else if i == 15 { c.a5 }
    else if i == 16 { c.a6 }
    else if i == 17 { c.a7 }
    else if i == 18 { c.s2 }
    else if i == 19 { c.s3 }
    else if i == 20 { c.s4 }
    else if i == 21 { c.s5 }
    else if i == 22 { c.s6 }
    else if i == 23 { c.s7 }
    else if i == 24 { c.s8 }
    else if i == 25 { c.s9 }
    else if i == 26 { c.s10 }
    else if i == 27 { c.s11 }
    else if i == 28 { c.t3 }
    else if i == 29 { c.t4 }
    else if i == 30 { c.t5 }
    else if i == 31 { c.t6 }
    else { 0 }
}

/// Write register `x[i]` of the context.  A write to `x0` is dropped, as
/// the architecture hardwires that register to zero.
pub fn set_register_xi(ctx: &mut SupervisorContext, i: u64, data: u64)
    requires
        i < 32,
    ensures
        forall|r: int| 0 <= r < 32 && r != i ==> reg(*final(ctx), r) == reg(*old(ctx), r),
        i != 0 ==> reg(*final(ctx), i as int) == data,
        i == 0 ==> *final(ctx) == *old(ctx),
        final(ctx).mstatus == old(ctx).mstatus,
        final(ctx).mepc == old(ctx).mepc,
{
    match i {
        1 => ctx.ra = data,
        2 => ctx.sp = data,
        3 => ctx.gp = data,
        4 => ctx.tp = data,
        5 => ctx.t0 = data,
        6 => ctx.t1 = data,
        7 => ctx.t2 = data,
        8 => ctx.s0 = data,
        9 => ctx.s1 = data,
        10 => ctx.a0 = data,
        11 => ctx.a1 = data,
        12 => ctx.a2 = data,
        13 => ctx.a3 = data,
        14 => ctx.a4 = data,
        15 => ctx.a5 = data,
        16 => ctx.a6 = data,
        17 => ctx.a7 = data,
        18 => ctx.s2 = data,
        19 => ctx.s3 = data,
        20 => ctx.s4 = data,
        21 => ctx.s5 = data,
        22 => ctx.s6 = data,
        23 => ctx.s7 = data,
        24 => ctx.s8 = data,
        25 => ctx.s9 = data,
        26 => ctx.s10 = data,
        27 => ctx.s11 = data,
        28 => ctx.t3 = data,
        29 => ctx.t4 = data,
        30 => ctx.t5 = data,
        31 => ctx.t6 = data,
        _ => {},
    }
}

impl SupervisorContext {
    /// The context a hart starts its supervisor payload with: every
    /// register cleared except `a0` (the hart id) and `a1` (the physical
    /// address of the device tree), `mepc` at the payload entry point, and
    /// `mstatus.MPP` set to supervisor so that the first `mret` enters
    /// S-mode.
    pub fn new_sbi_supervisor(supervisor_mepc: u64, a0: u64, a1: u64) -> (c: Self)
        ensures
            c.mepc == supervisor_mepc,
            c.mstatus == MSTATUS_MPP_S,
            reg(c, 10) == a0,
            reg(c, 11) == a1,
            forall|r: int| 0 <= r < 32 && r != 10 && r != 11 ==> reg(c, r) == 0,
    {
        SupervisorContext {
            ra: 0, sp: 0, gp: 0, tp: 0,
            t0: 0, t1: 0, t2: 0,
            s0: 0, s1: 0,
            a0, a1,
            a2: 0, a3: 0, a4: 0, a5: 0, a6: 0, a7: 0,
            s2: 0, s3: 0, s4: 0, s5: 0, s6: 0, s7: 0, s8: 0, s9: 0, s10: 0, s11: 0,
            t3: 0, t4: 0, t5: 0, t6: 0,
            mstatus: MSTATUS_MPP_S,
            mepc: supervisor_mepc,
        }
    }
}

} // verus!
