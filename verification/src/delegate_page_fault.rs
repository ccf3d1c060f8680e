//! Fault re-classification: deciding whether an access fault caught at
//! M-mode should be surfaced to the supervisor as a page fault.
//!
//! The chip raises only generic access faults: under privileged spec
//! v1.9.1 there are no page-fault exception codes.  A supervisor written
//! against the modern fault model expects page faults whenever paging is
//! on, so the firmware re-classifies.  Policy: with Sv39 active, every
//! access fault is surfaced as a page fault — both an address whose Sv39
//! sign extension is broken (which can only be a bad virtual address) and
//! a canonical address (whose fault a full page-table walk would be needed
//! to attribute to an invalid PTE rather than a physical access error).
//! With paging off, the fault is a real access fault and keeps its kind.

use vstd::prelude::*;
use crate::csr::{vm_mode, VM_MODE_SV39};
use crate::trap::Exception;

verus! {

/// Whether the re-classifier turns an access fault at `addr` into a page
/// fault, given the trapping supervisor's `mstatus`: exactly when the
/// v1.9.1 `mstatus.VM` field says Sv39 paging is active.
pub open spec fn page_fault_expected(mstatus: u64, addr: u64) -> bool {
    vm_mode(mstatus) == VM_MODE_SV39
}

/// Whether `addr` is a canonical Sv39 virtual address: bits 63..39 all
/// equal to bit 38.
pub open spec fn sext_valid_sv39(addr: u64) -> bool {
    if (addr >> 38) & 1 == 1 {
        addr >> 39 == 0x1FF_FFFF
    } else {
        addr >> 39 == 0
    }
}

/// Whether `mstatus` (as the supervisor left it when the trap hit) has the
/// v1.9.1 virtual-memory field set to Sv39, the one paged mode this
/// firmware recognises.
pub fn is_s1p9_mstatus_sv39_mode(mstatus: u64) -> (sv39: bool)
    ensures
        sv39 == (vm_mode(mstatus) == VM_MODE_SV39),
{
    let mode: u64 = (mstatus >> 24) & 0x1F;
    mode == VM_MODE_SV39
}

/// Whether the Sv39 sign extension of `addr` is canonical.  A supervisor
/// address violating it can never map: a fault on it is a page fault.
pub fn check_sext_sv39(addr: u64) -> (valid: bool)
    ensures
        valid == sext_valid_sv39(addr),
{
    let addr_b38: bool = (addr >> 38) & 1 == 1;
    let sext: u64 = addr >> 39;
    if addr_b38 && sext != 0x1FF_FFFF {
        return false;
    }
    if !addr_b38 && sext != 0 {
        return false;
    }
    true
}

/// Whether a memory access fault at `addr` should be surfaced to the
/// supervisor as a page fault rather than an access fault.  `mstatus` is
/// the saved machine status of the trapping supervisor.
pub fn is_page_fault(mstatus: u64, addr: u64) -> (page_fault: bool)
    ensures
        page_fault == page_fault_expected(mstatus, addr),
{
    if !is_s1p9_mstatus_sv39_mode(mstatus) {
        return false;
    }
    // An address with broken sign extension cannot have a mapping: only a
    // page fault can explain it.
    if !check_sext_sv39(addr) {
        return true;
    }
    // The address is canonical.  Attributing the fault to an invalid PTE
    // rather than a physical access error would take a three-level table
    // walk guarded against nested faults; the policy here surfaces every
    // access fault on a paged system as a page fault.
    true
}

/// The exception kind the supervisor sees for a fault of kind `e` at
/// `addr`: the matching page-fault kind when the re-classifier says page
/// fault, otherwise `e` itself.  Kinds that are not access faults pass
/// through unchanged.
pub open spec fn classified(page_fault: bool, e: Exception) -> Exception {
    if page_fault {
        match e {
            Exception::InstructionFault => Exception::InstructionPageFault,
            Exception::LoadFault => Exception::LoadPageFault,
            Exception::StoreFault => Exception::StorePageFault,
            _ => e,
        }
    } else {
        e
    }
}

/// Re-classify an access fault of kind `e` at `addr` under the trapping
/// supervisor's `mstatus`.
pub fn classify_fault(mstatus: u64, addr: u64, e: Exception) -> (cause: Exception)
    ensures
        cause == classified(page_fault_expected(mstatus, addr), e),
{
    if is_page_fault(mstatus, addr) {
        match e {
            Exception::InstructionFault => Exception::InstructionPageFault,
            Exception::LoadFault => Exception::LoadPageFault,
            Exception::StoreFault => Exception::StorePageFault,
            _ => e,
        }
    } else {
        e
    }
}

/// Re-classifying a fault twice yields the same synthesized cause as
/// re-classifying it once: the page-fault kinds are fixed points of the
/// re-classifier.
pub proof fn lemma_classify_fault_idempotent(mstatus: u64, addr: u64, e: Exception)
    ensures
        classified(page_fault_expected(mstatus, addr), classified(page_fault_expected(mstatus, addr), e))
            == classified(page_fault_expected(mstatus, addr), e),
{
}

} // verus!
