//! Scenario tests for the trap-mediation engine, driven the way the
//! hardware loop would drive it: build a context, feed one classified
//! trap, inspect the mutated state and the returned action.

use rustsbi_k210::{
    check_sext_sv39, classify_fault, classify_mcause, delegate_interrupt_exception,
    emulate_illegal_instruction, emulate_rdtime, emulate_sfence_vma, finish_sbi_call,
    handle_machine_trap, instruction_from_halfwords, is_page_fault, is_s1p9_mstatus_sv39_mode,
    Csrs, Exception, MachineAction, MachineTrap, SupervisorContext, MIE_MEIE, MSTATUS_MPRV,
    SEXT_EXTENSION_ID, SEXT_FUNCTION_ID,
};

/// `csrw mcycle, x0`: always illegal, 4 bytes.
const CSRW_MCYCLE_X0: u32 = 0xB000_1073;

/// `rdtime t0` (`csrrs t0, time, x0`).
const RDTIME_T0: u32 = 0xC010_2073 | (5 << 7);

/// `sfence.vma x0, x0`.
const SFENCE_VMA: u32 = 0x1200_0073;

/// An `mstatus` whose v1.9.1 `VM` field says Sv39, with `MPP` supervisor.
const MSTATUS_SV39_MPP_S: u64 = (9 << 24) | 0x800;

fn fresh_csrs() -> Csrs {
    Csrs {
        mie: 0,
        mip: 0,
        mtval: 0,
        stvec: 0x8002_1000,
        scause: 0,
        sepc: 0,
        stval: 0,
    }
}

fn fresh_ctx() -> SupervisorContext {
    SupervisorContext::new_sbi_supervisor(0x8002_0000, 0, 0x8001_0000)
}

#[test]
fn illegal_instruction_delegated_to_supervisor() {
    let mut ctx = fresh_ctx();
    let mut csrs = fresh_csrs();
    csrs.mtval = CSRW_MCYCLE_X0 as u64;
    let mut entry: u64 = 0;
    let act = handle_machine_trap(
        &mut ctx,
        &mut csrs,
        &mut entry,
        MachineTrap::IllegalInstruction(),
        CSRW_MCYCLE_X0,
        0,
    );
    assert_eq!(act, MachineAction::Resume);
    assert_eq!(csrs.scause, 2, "scause must read IllegalInstruction");
    assert_eq!(csrs.sepc, 0x8002_0000, "sepc must point at the csrw");
    assert_eq!(csrs.stval, CSRW_MCYCLE_X0 as u64);
    assert_eq!(ctx.mepc, 0x8002_1000, "resume at the stvec base");
    assert_eq!((ctx.mstatus >> 11) & 3, 1, "MPP must be supervisor");
    assert_eq!((ctx.mstatus >> 8) & 1, 1, "SPP must be supervisor");
    assert_eq!(ctx.mstatus & 0x2, 0, "SIE must be off in the handler");
}

#[test]
fn rdtime_emulation_delivers_counter() {
    let mut ctx = fresh_ctx();
    let mut csrs = fresh_csrs();
    let mut entry: u64 = 0;
    let act = handle_machine_trap(
        &mut ctx,
        &mut csrs,
        &mut entry,
        MachineTrap::IllegalInstruction(),
        RDTIME_T0,
        0x1234_5678_9ABC,
    );
    assert_eq!(act, MachineAction::Resume);
    assert_eq!(ctx.t0, 0x1234_5678_9ABC);
    assert_eq!(ctx.mepc, 0x8002_0004);

    // A later read with a larger counter value stays non-decreasing.
    let first = ctx.t0;
    let act = handle_machine_trap(
        &mut ctx,
        &mut csrs,
        &mut entry,
        MachineTrap::IllegalInstruction(),
        RDTIME_T0,
        0x1234_5678_9ABD,
    );
    assert_eq!(act, MachineAction::Resume);
    assert!(ctx.t0 >= first);
    assert_eq!(ctx.mepc, 0x8002_0008);
}

#[test]
fn rdtime_to_zero_register_is_discarded() {
    let mut ctx = fresh_ctx();
    let before = ctx;
    let handled = emulate_rdtime(&mut ctx, 0xC010_2073, 0xDEAD);
    assert!(handled);
    assert_eq!(ctx.mepc, 0x8002_0004);
    assert_eq!(ctx.ra, before.ra);
    assert_eq!(ctx.a0, before.a0);
    assert_eq!(ctx.a1, before.a1);
    assert_eq!(ctx.mstatus, before.mstatus);
}

#[test]
fn rdtime_decode_rejects_other_encodings() {
    let mut ctx = fresh_ctx();
    assert!(!emulate_rdtime(&mut ctx, CSRW_MCYCLE_X0, 1));
    assert_eq!(ctx, fresh_ctx());
}

#[test]
fn sfence_vma_emulated_at_machine_level() {
    let mut ctx = fresh_ctx();
    let mut csrs = fresh_csrs();
    let mut entry: u64 = 0;
    let act = handle_machine_trap(
        &mut ctx,
        &mut csrs,
        &mut entry,
        MachineTrap::IllegalInstruction(),
        SFENCE_VMA,
        0,
    );
    assert_eq!(act, MachineAction::SfenceVma);
    assert_eq!(ctx.mepc, 0x8002_0004);
    assert_eq!(csrs, fresh_csrs());
}

#[test]
fn sfence_vma_decode_accepts_register_operands() {
    // sfence.vma a0, a1
    let ins = SFENCE_VMA | (10 << 15) | (11 << 20);
    let mut ctx = fresh_ctx();
    assert!(emulate_sfence_vma(&mut ctx, ins));
    assert_eq!(ctx.mepc, 0x8002_0004);
    let mut ctx = fresh_ctx();
    assert!(!emulate_sfence_vma(&mut ctx, RDTIME_T0));
}

#[test]
fn emulators_tried_in_order() {
    let mut ctx = fresh_ctx();
    assert!(emulate_illegal_instruction(&mut ctx, RDTIME_T0, 7));
    assert_eq!(ctx.t0, 7);
    let mut ctx = fresh_ctx();
    assert!(emulate_illegal_instruction(&mut ctx, SFENCE_VMA, 7));
    let mut ctx = fresh_ctx();
    assert!(!emulate_illegal_instruction(&mut ctx, CSRW_MCYCLE_X0, 7));
    assert_eq!(ctx, fresh_ctx());
}

#[test]
fn noncanonical_load_becomes_page_fault() {
    let mut ctx = fresh_ctx();
    ctx.mstatus = MSTATUS_SV39_MPP_S;
    let mut csrs = fresh_csrs();
    let addr: u64 = 0xFEFF_FF80_0000_0000;
    csrs.mtval = addr;
    let mut entry: u64 = 0;
    let act = handle_machine_trap(
        &mut ctx,
        &mut csrs,
        &mut entry,
        MachineTrap::LoadFault(addr),
        0,
        0,
    );
    assert_eq!(act, MachineAction::Resume);
    assert_eq!(csrs.scause, 13, "scause must read LoadPageFault");
    assert_eq!(csrs.stval, addr);
    assert_eq!(csrs.sepc, 0x8002_0000);
    assert_eq!(ctx.mepc, 0x8002_1000);
}

#[test]
fn canonical_invalid_pte_load_becomes_page_fault() {
    let mut ctx = fresh_ctx();
    ctx.mstatus = MSTATUS_SV39_MPP_S;
    let mut csrs = fresh_csrs();
    let addr: u64 = 0x1_0000_0000;
    csrs.mtval = addr;
    let mut entry: u64 = 0;
    handle_machine_trap(
        &mut ctx,
        &mut csrs,
        &mut entry,
        MachineTrap::LoadFault(addr),
        0,
        0,
    );
    assert_eq!(csrs.scause, 13);
}

#[test]
fn load_fault_without_paging_stays_access_fault() {
    let mut ctx = fresh_ctx();
    let mut csrs = fresh_csrs();
    let mut entry: u64 = 0;
    handle_machine_trap(
        &mut ctx,
        &mut csrs,
        &mut entry,
        MachineTrap::LoadFault(0x4000),
        0,
        0,
    );
    assert_eq!(csrs.scause, 5, "scause must read LoadFault");
}

#[test]
fn store_and_instruction_faults_follow_paging_state() {
    let addr: u64 = 0xFEFF_FF80_0000_0000;
    let mut ctx = fresh_ctx();
    ctx.mstatus = MSTATUS_SV39_MPP_S;
    let mut csrs = fresh_csrs();
    let mut entry: u64 = 0;
    handle_machine_trap(&mut ctx, &mut csrs, &mut entry, MachineTrap::StoreFault(addr), 0, 0);
    assert_eq!(csrs.scause, 15, "StorePageFault under Sv39");

    let mut ctx = fresh_ctx();
    ctx.mstatus = MSTATUS_SV39_MPP_S;
    let mut csrs = fresh_csrs();
    handle_machine_trap(&mut ctx, &mut csrs, &mut entry, MachineTrap::InstructionFault(addr), 0, 0);
    assert_eq!(csrs.scause, 12, "InstructionPageFault under Sv39");

    let mut ctx = fresh_ctx();
    let mut csrs = fresh_csrs();
    handle_machine_trap(&mut ctx, &mut csrs, &mut entry, MachineTrap::StoreFault(addr), 0, 0);
    assert_eq!(csrs.scause, 7, "StoreFault with paging off");

    let mut ctx = fresh_ctx();
    let mut csrs = fresh_csrs();
    handle_machine_trap(&mut ctx, &mut csrs, &mut entry, MachineTrap::InstructionFault(addr), 0, 0);
    assert_eq!(csrs.scause, 1, "InstructionFault with paging off");
}

#[test]
fn vendor_extension_registers_entry() {
    let mut ctx = fresh_ctx();
    ctx.a7 = SEXT_EXTENSION_ID;
    ctx.a6 = SEXT_FUNCTION_ID;
    ctx.a0 = 0x8002_4000;
    let mut csrs = fresh_csrs();
    let mut entry: u64 = 0;
    let act = handle_machine_trap(&mut ctx, &mut csrs, &mut entry, MachineTrap::SbiCall(), 0, 0);
    assert_eq!(act, MachineAction::Resume);
    assert_eq!((ctx.a0, ctx.a1), (0, 0), "the call returns (error, value) = (0, 0)");
    assert_eq!(ctx.mepc, 0x8002_0004);
    assert_eq!(entry, 0x8002_4000);
    assert_ne!(csrs.mie & MIE_MEIE, 0, "MEIE must be enabled");
}

#[test]
fn external_interrupt_calls_registered_entry() {
    let mut ctx = fresh_ctx();
    ctx.a7 = SEXT_EXTENSION_ID;
    ctx.a6 = SEXT_FUNCTION_ID;
    ctx.a0 = 0x8002_4000;
    let mut csrs = fresh_csrs();
    let mut entry: u64 = 0;
    handle_machine_trap(&mut ctx, &mut csrs, &mut entry, MachineTrap::SbiCall(), 0, 0);

    let mstatus_before = ctx.mstatus;
    let act = handle_machine_trap(&mut ctx, &mut csrs, &mut entry, MachineTrap::ExternalInterrupt(), 0, 0);
    match act {
        MachineAction::CallSupervisorEntry { entry: e, mstatus_for_call } => {
            assert_eq!(e, 0x8002_4000, "the registered entry is invoked");
            assert_ne!(mstatus_for_call & MSTATUS_MPRV, 0, "MPRV is set during the call");
            assert_eq!((mstatus_for_call >> 11) & 3, 1, "MPP reads supervisor during the call");
        }
        other => panic!("expected a supervisor-entry call, got {:?}", other),
    }
    assert_eq!(ctx.mstatus, mstatus_before, "mstatus is restored after the call");
}

#[test]
fn sbi_call_dispatch_and_writeback() {
    let mut ctx = fresh_ctx();
    ctx.a7 = 0x10;
    ctx.a6 = 3;
    ctx.a0 = 0x10;
    ctx.a2 = 77;
    let mut csrs = fresh_csrs();
    let mut entry: u64 = 0;
    let act = handle_machine_trap(&mut ctx, &mut csrs, &mut entry, MachineTrap::SbiCall(), 0, 0);
    assert_eq!(
        act,
        MachineAction::DispatchSbiCall {
            extension: 0x10,
            function: 3,
            arg0: 0x10,
            arg1: 0x8001_0000,
            arg2: 77,
            arg3: 0,
            arg4: 0,
            arg5: 0,
        }
    );
    assert_eq!(ctx.mepc, 0x8002_0000, "the PC moves only once the answer is stored");
    finish_sbi_call(&mut ctx, 0, 1);
    assert_eq!((ctx.a0, ctx.a1), (0, 1));
    assert_eq!(ctx.mepc, 0x8002_0004, "every SBI call advances mepc by 4");
}

#[test]
fn timer_forward_bit_discipline() {
    let mut ctx = fresh_ctx();
    let mut csrs = fresh_csrs();
    csrs.mie = 0x888;
    let mut entry: u64 = 0;
    let act = handle_machine_trap(&mut ctx, &mut csrs, &mut entry, MachineTrap::MachineTimer(), 0, 0);
    assert_eq!(act, MachineAction::Resume);
    assert_eq!(csrs.mip, 0x20, "STIP raised");
    assert_eq!(csrs.mie, 0x8, "MTIE and MEIE masked, MSIE kept");
    assert_eq!(ctx, fresh_ctx());
}

#[test]
fn soft_forward_bit_discipline() {
    let mut ctx = fresh_ctx();
    let mut csrs = fresh_csrs();
    csrs.mie = 0x888;
    let mut entry: u64 = 0;
    let act = handle_machine_trap(&mut ctx, &mut csrs, &mut entry, MachineTrap::MachineSoft(), 0, 0);
    assert_eq!(act, MachineAction::Resume);
    assert_eq!(csrs.mip, 0x2, "SSIP raised");
    assert_eq!(csrs.mie, 0x880, "MSIE masked, the rest kept");
}

#[test]
fn set_timer_preprocess_reenables_external() {
    // Legacy set_timer with the machine timer pending and an entry
    // registered: MEIE must come back on before the dispatch.
    let mut ctx = fresh_ctx();
    ctx.a7 = 0;
    let mut csrs = fresh_csrs();
    csrs.mip = 0x80;
    let mut entry: u64 = 0x8002_4000;
    handle_machine_trap(&mut ctx, &mut csrs, &mut entry, MachineTrap::SbiCall(), 0, 0);
    assert_ne!(csrs.mie & MIE_MEIE, 0, "MEIE re-enabled before set_timer dispatch");
}

#[test]
fn set_timer_preprocess_needs_all_three_conditions() {
    // No entry registered.
    let mut ctx = fresh_ctx();
    ctx.a7 = 0;
    let mut csrs = fresh_csrs();
    csrs.mip = 0x80;
    let mut entry: u64 = 0;
    handle_machine_trap(&mut ctx, &mut csrs, &mut entry, MachineTrap::SbiCall(), 0, 0);
    assert_eq!(csrs.mie & MIE_MEIE, 0);

    // Machine timer not pending.
    let mut csrs = fresh_csrs();
    let mut entry: u64 = 0x8002_4000;
    handle_machine_trap(&mut ctx, &mut csrs, &mut entry, MachineTrap::SbiCall(), 0, 0);
    assert_eq!(csrs.mie & MIE_MEIE, 0);

    // Not the legacy set_timer extension.
    let mut ctx = fresh_ctx();
    ctx.a7 = 0x10;
    let mut csrs = fresh_csrs();
    csrs.mip = 0x80;
    handle_machine_trap(&mut ctx, &mut csrs, &mut entry, MachineTrap::SbiCall(), 0, 0);
    assert_eq!(csrs.mie & MIE_MEIE, 0);
}

#[test]
fn illegal_from_machine_mode_is_fatal() {
    let mut ctx = fresh_ctx();
    ctx.mstatus = 0x1800; // MPP = machine
    let before = ctx;
    let mut csrs = fresh_csrs();
    let mut entry: u64 = 0;
    let act = handle_machine_trap(
        &mut ctx,
        &mut csrs,
        &mut entry,
        MachineTrap::IllegalInstruction(),
        CSRW_MCYCLE_X0,
        0,
    );
    assert_eq!(
        act,
        MachineAction::Fatal { ctx: before, ins: CSRW_MCYCLE_X0 },
        "a machine-level illegal instruction is a firmware bug"
    );
    assert_eq!(ctx, before);
}

#[test]
fn fault_reclassifier_is_idempotent() {
    let kinds = [
        Exception::IllegalInstruction,
        Exception::InstructionFault,
        Exception::LoadFault,
        Exception::StoreFault,
        Exception::InstructionPageFault,
        Exception::LoadPageFault,
        Exception::StorePageFault,
    ];
    for mstatus in [MSTATUS_SV39_MPP_S, 0x800] {
        for addr in [0xFEFF_FF80_0000_0000u64, 0x1_0000_0000] {
            for kind in kinds {
                let once = classify_fault(mstatus, addr, kind);
                let twice = classify_fault(mstatus, addr, once);
                assert_eq!(twice, once);
            }
        }
    }
}

#[test]
fn sv39_sign_extension_check() {
    assert!(check_sext_sv39(0x0));
    assert!(check_sext_sv39(0x8002_0000));
    assert!(check_sext_sv39(0x3F_FFFF_FFFF));
    assert!(check_sext_sv39(0xFFFF_FFC0_0000_0000));
    assert!(check_sext_sv39(0xFFFF_FFFF_0000_0000));
    assert!(!check_sext_sv39(0xFEFF_FF80_0000_0000));
    assert!(!check_sext_sv39(0x0100_0000_0000_0000));
    assert!(!check_sext_sv39(0x0000_0040_0000_0000));
}

#[test]
fn paging_mode_detection() {
    assert!(is_s1p9_mstatus_sv39_mode(MSTATUS_SV39_MPP_S));
    assert!(!is_s1p9_mstatus_sv39_mode(0x800));
    assert!(!is_s1p9_mstatus_sv39_mode(8 << 24));
    assert!(is_page_fault(MSTATUS_SV39_MPP_S, 0x1_0000_0000));
    assert!(!is_page_fault(0x800, 0x1_0000_0000));
}

#[test]
fn delegation_masks() {
    let d = delegate_interrupt_exception();
    assert_eq!(d.mideleg, 0x22, "S-timer and S-soft interrupts delegated");
    assert_eq!(d.medeleg, 0x109, "misaligned, breakpoint and U-ecall delegated");
    assert_eq!(d.mie, 0x8, "the wake-up IPI source enabled");
}

#[test]
fn initial_supervisor_context_shape() {
    let c = SupervisorContext::new_sbi_supervisor(0x8002_0000, 1, 0x8001_2340);
    assert_eq!(c.mepc, 0x8002_0000);
    assert_eq!(c.a0, 1, "a0 carries the hart id");
    assert_eq!(c.a1, 0x8001_2340, "a1 carries the device tree address");
    assert_eq!((c.mstatus >> 11) & 3, 1, "MPP starts as supervisor");
    assert_eq!(c.ra, 0);
    assert_eq!(c.sp, 0);
    assert_eq!(c.a7, 0);
    assert_eq!(c.t6, 0);
}

#[test]
fn mcause_classification() {
    let interrupt: u64 = 1 << 63;
    assert_eq!(classify_mcause(9, 0), Some(MachineTrap::SbiCall()));
    assert_eq!(classify_mcause(2, 0), Some(MachineTrap::IllegalInstruction()));
    assert_eq!(classify_mcause(1, 0x4000), Some(MachineTrap::InstructionFault(0x4000)));
    assert_eq!(classify_mcause(5, 0x4000), Some(MachineTrap::LoadFault(0x4000)));
    assert_eq!(classify_mcause(7, 0x4000), Some(MachineTrap::StoreFault(0x4000)));
    assert_eq!(classify_mcause(interrupt | 3, 0), Some(MachineTrap::MachineSoft()));
    assert_eq!(classify_mcause(interrupt | 7, 0), Some(MachineTrap::MachineTimer()));
    assert_eq!(classify_mcause(interrupt | 11, 0), Some(MachineTrap::ExternalInterrupt()));
    // Causes the loop does not serve: U-ecall is delegated away, and an
    // interrupt code the chip cannot raise.
    assert_eq!(classify_mcause(8, 0), None);
    assert_eq!(classify_mcause(interrupt | 9, 0), None);
    // The interrupt bit separates timer interrupt 7 from store fault 7.
    assert_ne!(classify_mcause(interrupt | 7, 0), classify_mcause(7, 0));
}

#[test]
fn instruction_concatenation() {
    assert_eq!(instruction_from_halfwords(0x2073, 0xC010), 0xC010_2073);
    assert_eq!(instruction_from_halfwords(0x0073, 0x1200), 0x1200_0073);
    assert_eq!(instruction_from_halfwords(0, 0), 0);
}
