//! Init-time trap delegation.
//!
//! At bring-up the firmware decides which traps bypass M-mode entirely:
//! S-level timer and software interrupts go straight to the supervisor,
//! as do the misaligned-instruction, breakpoint and U-ecall exceptions.
//! Access faults and illegal instructions stay at M, where the
//! trap-mediation loop re-classifies or emulates them.  Page-fault codes
//! are reserved in v1.9.1 and cannot be delegated at all.

use vstd::prelude::*;
use crate::csr::{MIE_MSIE, MIP_SSIP, MIP_STIP};

verus! {

/// `medeleg` bit for the instruction-address-misaligned exception.
pub const MEDELEG_INSTRUCTION_MISALIGNED: u64 = 0x1;

/// `medeleg` bit for the breakpoint exception.
pub const MEDELEG_BREAKPOINT: u64 = 0x8;

/// `medeleg` bit for the environment call from U-mode.
pub const MEDELEG_USER_ENV_CALL: u64 = 0x100;

/// The delegation CSR values the hardware layer installs at bring-up.
#[derive(Clone, Copy, Debug, PartialEq, Eq, Structural)]
pub struct TrapDelegation {
    /// The exception delegation mask to write to `medeleg`.
    pub medeleg: u64,
    /// The interrupt delegation mask to write to `mideleg`.
    pub mideleg: u64,
    /// The interrupt enable bits to set in `mie`.
    pub mie: u64,
}

/// The delegation the firmware configures: S-level timer and software
/// interrupts and the three benign exceptions go to the supervisor, and
/// the M-level software interrupt (the wake-up IPI of the parked hart)
/// is enabled.  Neither the M-level timer nor the M-level external
/// interrupt is enabled here: the first is armed by `set_timer`, the
/// second by the vendor registration call.
pub fn delegate_interrupt_exception() -> (d: TrapDelegation)
    ensures
        d.medeleg == MEDELEG_INSTRUCTION_MISALIGNED | MEDELEG_BREAKPOINT | MEDELEG_USER_ENV_CALL,
        d.mideleg == MIP_SSIP | MIP_STIP,
        d.mie == MIE_MSIE,
{
    TrapDelegation {
        medeleg: MEDELEG_INSTRUCTION_MISALIGNED | MEDELEG_BREAKPOINT | MEDELEG_USER_ENV_CALL,
        mideleg: MIP_SSIP | MIP_STIP,
        mie: MIE_MSIE,
    }
}

} // verus!
