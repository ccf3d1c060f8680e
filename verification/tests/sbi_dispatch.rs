//! The engine in front of the real SBI dispatch library: a trapped
//! `ecall` that the firmware does not serve itself is handed out as a
//! dispatch action, answered by `rustsbi`, and the answer is stored back
//! into the context.

use rustsbi::{Builder, MachineInfo};
use rustsbi_k210::{
    finish_sbi_call, handle_machine_trap, Csrs, MachineAction, MachineTrap, SupervisorContext,
    SEXT_EXTENSION_ID, SEXT_FUNCTION_ID,
};

const TEST_MVENDORID: usize = 0x4954;
const TEST_MARCHID: usize = 0x5;
const TEST_MIMPID: usize = 0x1;

/// Run one S-mode `ecall` through the engine and, when the engine hands
/// it out, through the SBI dispatch library; return `(a0, a1)` as the
/// supervisor would read them afterwards.
fn ecall_through_engine(a7: u64, a6: u64, a0: u64) -> (u64, u64) {
    let mut ctx = SupervisorContext::new_sbi_supervisor(0x8002_0000, 0, 0x8001_0000);
    ctx.a7 = a7;
    ctx.a6 = a6;
    ctx.a0 = a0;
    let mut csrs = Csrs {
        mie: 0,
        mip: 0,
        mtval: 0,
        stvec: 0x8002_1000,
        scause: 0,
        sepc: 0,
        stval: 0,
    };
    let mut entry: u64 = 0;
    let mepc_before = ctx.mepc;
    let act = handle_machine_trap(&mut ctx, &mut csrs, &mut entry, MachineTrap::SbiCall(), 0, 0);
    match act {
        MachineAction::DispatchSbiCall {
            extension,
            function,
            arg0,
            arg1,
            arg2,
            arg3,
            arg4,
            arg5,
        } => {
            let mut sbi = Builder::with_machine_info(MachineInfo {
                mvendorid: TEST_MVENDORID,
                marchid: TEST_MARCHID,
                mimpid: TEST_MIMPID,
            })
            .build();
            let ret = sbi.handle_ecall(
                extension as usize,
                function as usize,
                [
                    arg0 as usize,
                    arg1 as usize,
                    arg2 as usize,
                    arg3 as usize,
                    arg4 as usize,
                    arg5 as usize,
                ],
            );
            finish_sbi_call(&mut ctx, ret.error as u64, ret.value as u64);
        }
        MachineAction::Resume => {}
        other => panic!("unexpected action for an SBI call: {:?}", other),
    }
    assert_eq!(ctx.mepc, mepc_before + 4, "every SBI call advances mepc by 4");
    (ctx.a0, ctx.a1)
}

#[test]
fn base_probe_returns_nonzero() {
    let (error, value) = ecall_through_engine(0x10, 3, 0x10);
    assert_eq!(error, 0);
    assert_ne!(value, 0, "probing the base extension must report it present");
}

#[test]
fn base_spec_version_is_finite() {
    let (error, value) = ecall_through_engine(0x10, 0, 0);
    assert_eq!(error, 0);
    assert_ne!(value, u64::MAX);
}

#[test]
fn base_impl_id_and_version() {
    let (error, value) = ecall_through_engine(0x10, 1, 0);
    assert_eq!(error, 0);
    assert_eq!(value, 4, "the dispatch library identifies itself as RustSBI");
    let (error, value) = ecall_through_engine(0x10, 2, 0);
    assert_eq!(error, 0);
    assert_ne!(value, u64::MAX);
}

#[test]
fn base_machine_ids_come_from_the_platform() {
    assert_eq!(ecall_through_engine(0x10, 4, 0), (0, TEST_MVENDORID as u64));
    assert_eq!(ecall_through_engine(0x10, 5, 0), (0, TEST_MARCHID as u64));
    assert_eq!(ecall_through_engine(0x10, 6, 0), (0, TEST_MIMPID as u64));
}

#[test]
fn vendor_extension_is_served_before_dispatch() {
    // The vendor registration call never reaches the dispatch library:
    // the engine answers (0, 0) itself.
    let (error, value) = ecall_through_engine(SEXT_EXTENSION_ID, SEXT_FUNCTION_ID, 0x8002_4000);
    assert_eq!((error, value), (0, 0));
    // The dispatch library itself does not know the vendor extension.
    let (_, probed) = ecall_through_engine(0x10, 3, SEXT_EXTENSION_ID);
    assert_eq!(probed, 0);
}

#[test]
fn unknown_extension_is_not_supported() {
    let (error, _) = ecall_through_engine(0x0BAD_F00D, 0, 0);
    assert_eq!(error as i64, -2, "SBI_ERR_NOT_SUPPORTED");
}
