use kjit::harness::code::MockCodeProvider;
use kjit::harness::model::MachineState;
use kjit::harness::runtime::{
    RuntimeError, URuntime, URuntimeConfig, URuntimeHalt, DEFAULT_BASE_PC, DEFAULT_PT_REGS_ADDR,
    DEFAULT_RETURN_PC, DEFAULT_STACK_TOP,
};
use kjit::shared::abi::RetStatus;
use kjit::shared::arm64::ergo::{uimm, x};
use kjit::shared::arm64::{A64Imm, A64Insn};
use kjit::shared::emit::layout::ExecutionFragment;
use kjit::shared::trans::input::{TranslationRequest, TranslationTrigger};
use kjit::shared::trans::translate::compile_request;

fn compile_insns(base_pc: u64, insns: &[A64Insn]) -> ExecutionFragment {
    let mut bytes = Vec::with_capacity(insns.len() * 4);
    for insn in insns {
        bytes.extend_from_slice(&insn.encode().unwrap().to_le_bytes());
    }
    let code = MockCodeProvider::new(base_pc, bytes);
    let request = TranslationRequest {
        entry_pc: base_pc,
        trigger: TranslationTrigger::Manual,
        regs: None,
    };
    compile_request(&request, &code).unwrap()
}

#[test]
fn svc_runtime_exit_continues_at_original_resume_pc() {
    let base_pc = 0x4000;
    let fragment = compile_insns(
        base_pc,
        &[
            A64Insn::MovzMovz64Movewide {
                hw: 0,
                imm16: uimm(172, 16),
                rd: x(8),
            },
            A64Insn::SvcSvcExException {
                imm16: A64Imm::unsigned(0, 16),
            },
            A64Insn::MovzMovz64Movewide {
                hw: 0,
                imm16: uimm(2, 16),
                rd: x(2),
            },
            A64Insn::RetRet64rBranchReg { rn: x(30) },
        ],
    );
    let mut initial_state = MachineState::new();
    initial_state.write_x(30, 0xfeed_0000);

    let mut runtime = URuntime::new(fragment, initial_state);
    let report = runtime.run();

    assert_eq!(report.state.read_x(2), 2);
    assert_eq!(
        report.halt,
        URuntimeHalt::ReturnedToUserspace {
            status: RetStatus::Ret,
            target_pc: 0xfeed_0000
        }
    );
}

#[test]
fn ret_to_unknown_original_pc_returns_to_userspace() {
    let base_pc = 0x5000;
    let fragment = compile_insns(base_pc, &[A64Insn::RetRet64rBranchReg { rn: x(30) }]);
    let mut initial_state = MachineState::new();
    initial_state.write_x(30, 0x7777_0000);

    let mut runtime = URuntime::new(fragment, initial_state);
    let report = runtime.run();

    assert_eq!(
        report.halt,
        URuntimeHalt::ReturnedToUserspace {
            status: RetStatus::Ret,
            target_pc: 0x7777_0000
        }
    );
}

#[test]
fn runtime_keeps_user_registers_and_memory_but_hides_its_own() {
    let fragment = compile_insns(
        0x4000,
        &[
            A64Insn::MovzMovz64Movewide { hw: 0, imm16: uimm(9, 16), rd: x(3) },
            A64Insn::RetRet64rBranchReg { rn: x(30) },
        ],
    );
    let mut initial_state = MachineState::new();
    initial_state.write_x(30, 0x9999_0000);
    initial_state.write_x(7, 77);
    initial_state.seed_memory_u64(0x2000, 0x55);

    let mut runtime = URuntime::new(fragment, initial_state);
    assert_eq!(runtime.state.read_u64(DEFAULT_PT_REGS_ADDR + 7 * 8), 77);
    let report = runtime.run();

    assert_eq!(report.state.read_x(3), 9);
    assert_eq!(report.state.read_x(7), 77);
    assert_eq!(report.state.read_u64(0x2000), 0x55);
    assert_eq!(report.state.read_u64(DEFAULT_PT_REGS_ADDR), 0);
    assert!(report.steps > 35);
    assert_eq!(runtime.config, URuntimeConfig::default());
}

#[test]
fn runtime_reports_fragment_without_prologue() {
    let fragment = ExecutionFragment {
        insns: vec![A64Insn::NopNopHiHints {}],
        entry_offset: 0,
        vlabels: Vec::new(),
    };
    let mut runtime = URuntime::new(fragment, MachineState::new());
    let report = runtime.run();
    assert_eq!(
        report.halt,
        URuntimeHalt::ExecutionError { pc: DEFAULT_BASE_PC, error: RuntimeError::MissingPrologue }
    );
    assert_eq!(report.steps, 0);
}

#[test]
fn runtime_reports_unaligned_entry() {
    let mut fragment = compile_insns(0x4000, &[A64Insn::RetRet64rBranchReg { rn: x(30) }]);
    fragment.entry_offset = 2;
    let mut runtime = URuntime::new(fragment, MachineState::new());
    let report = runtime.run();
    assert_eq!(
        report.halt,
        URuntimeHalt::ExecutionError {
            pc: DEFAULT_BASE_PC,
            error: RuntimeError::InvalidEntryOffset { offset: 2 }
        }
    );
    assert_eq!(DEFAULT_STACK_TOP, 0x800000);
    assert_eq!(DEFAULT_RETURN_PC, 0x123456);
}
