//! Bit-level model of the control and status registers the firmware works
//! with, under the privileged specification v1.9.1 that the chip implements.
//!
//! A CSR value is carried as a plain `u64`; the spec functions here give the
//! individual fields a name, and the contracts of the trap handlers are
//! stated over them.

use vstd::prelude::*;

verus! {

/// `mstatus.SIE`: supervisor interrupt enable.
pub const MSTATUS_SIE: u64 = 0x2;

/// `mstatus.SPIE`: supervisor interrupt enable before the last S-level trap.
pub const MSTATUS_SPIE: u64 = 0x20;

/// `mstatus.SPP`: privilege before the last S-level trap (set = supervisor).
pub const MSTATUS_SPP: u64 = 0x100;

/// `mstatus.MPP`: the two-bit privilege field an `mret` returns to.
pub const MSTATUS_MPP_MASK: u64 = 0x1800;

/// `mstatus.MPP` encoding of supervisor mode, in place.
pub const MSTATUS_MPP_S: u64 = 0x800;

/// `mstatus.MPRV`: when set, M-mode memory accesses use the translation of
/// the privilege level in `MPP`.
pub const MSTATUS_MPRV: u64 = 0x2_0000;

/// `MPP` field value for supervisor mode.
pub const MPP_SUPERVISOR: u64 = 1;

/// `MPP` field value for machine mode.
pub const MPP_MACHINE: u64 = 3;

/// The virtual-memory mode value denoting Sv39 paging in the v1.9.1
/// `mstatus.VM` field (five bits at offset 24).
pub const VM_MODE_SV39: u64 = 9;

/// `mip.SSIP`: supervisor software interrupt pending.
pub const MIP_SSIP: u64 = 0x2;

/// `mie.MSIE`: machine software interrupt enable.
pub const MIE_MSIE: u64 = 0x8;

/// `mip.STIP`: supervisor timer interrupt pending.
pub const MIP_STIP: u64 = 0x20;

/// `mie.MTIE`: machine timer interrupt enable.
pub const MIE_MTIE: u64 = 0x80;

/// `mip.MTIP`: machine timer interrupt pending.
pub const MIP_MTIP: u64 = 0x80;

/// `mie.MEIE`: machine external interrupt enable.
pub const MIE_MEIE: u64 = 0x800;

/// The `MPP` field of an `mstatus` value.
pub open spec fn mpp(mstatus: u64) -> u64 {
    (mstatus >> 11) & 3
}

/// Whether `mstatus.MPRV` is set.
pub open spec fn mprv(mstatus: u64) -> bool {
    mstatus & MSTATUS_MPRV != 0
}

/// Whether `mstatus.SIE` is set.
pub open spec fn sie(mstatus: u64) -> bool {
    mstatus & MSTATUS_SIE != 0
}

/// Whether `mstatus.SPIE` is set.
pub open spec fn spie(mstatus: u64) -> bool {
    mstatus & MSTATUS_SPIE != 0
}

/// Whether `mstatus.SPP` marks supervisor mode.
pub open spec fn spp_supervisor(mstatus: u64) -> bool {
    mstatus & MSTATUS_SPP != 0
}

/// The `VM` field of a v1.9.1 `mstatus` value: the active paging mode.
pub open spec fn vm_mode(mstatus: u64) -> u64 {
    (mstatus >> 24) & 0x1F
}

/// Whether `mip.STIP` is set.
pub open spec fn stip(mip: u64) -> bool {
    mip & MIP_STIP != 0
}

/// Whether `mip.SSIP` is set.
pub open spec fn ssip(mip: u64) -> bool {
    mip & MIP_SSIP != 0
}

/// Whether `mip.MTIP` is set.
pub open spec fn mtip(mip: u64) -> bool {
    mip & MIP_MTIP != 0
}

/// Whether `mie.MTIE` is set.
pub open spec fn mtie(mie: u64) -> bool {
    mie & MIE_MTIE != 0
}

/// Whether `mie.MSIE` is set.
pub open spec fn msie(mie: u64) -> bool {
    mie & MIE_MSIE != 0
}

/// Whether `mie.MEIE` is set.
pub open spec fn meie(mie: u64) -> bool {
    mie & MIE_MEIE != 0
}

/// The CSRs the trap handlers read and write besides the saved `mstatus`
/// and `mepc`, which live in the supervisor context.  While M-mode runs,
/// this in-memory copy is the single source of truth; the caller writes the
/// changed fields back to the hardware before resuming the supervisor.
#[derive(Clone, Copy, Debug, PartialEq, Eq, Structural)]
pub struct Csrs {
    /// Machine interrupt enable.
    pub mie: u64,
    /// Machine interrupt pending.
    pub mip: u64,
    /// Trap value of the current machine trap (faulting address or
    /// instruction bits).
    pub mtval: u64,
    /// Supervisor trap vector, as the payload programmed it.
    pub stvec: u64,
    /// Supervisor trap cause, written when a trap is transferred.
    pub scause: u64,
    /// Supervisor exception PC, written when a trap is transferred.
    pub sepc: u64,
    /// Supervisor trap value, written when a trap is transferred.
    pub stval: u64,
}

/// The handler address in an `stvec` value.  Exceptions enter at offset 0
/// for both the direct and the vectored mode, so the bare base is the entry
/// address for every trap the firmware synthesizes.
pub open spec fn stvec_base(stvec: u64) -> u64 {
    stvec & !3u64
}

} // verus!
