use kjit::harness::arm64::execute_insn;
use kjit::harness::model::MachineState;
use kjit::harness::runtime::{URuntimeConfig, DEFAULT_BASE_PC};
use kjit::harness::code::MockCodeProvider;
use kjit::harness::model::HaltReason;
use kjit::harness::arm64::StepError;
use kjit::harness::trace::{
    build_pc_index, trace_cfg, trace_original_execution, LayoutRegion as Region, TraceCfg, TraceCfgBlock,
    TraceFragment, TraceInsn, TraceLayoutInsn,
    layout_original_pcs, layout_region, original_pc_for_offset, push_unique_pcs, request_for_trace, LayoutRegion,
};
use kjit::shared::arm64::ergo::scaled_simm;
use kjit::shared::arm64::{A64Insn, IrInsn};
use kjit::shared::trans::cfg::{build_cfg, RuntimeExitReason};
use kjit::shared::trans::input::{TranslationRequest, TranslationTrigger};
use kjit::shared::arm64::ergo::{uimm, x};
use kjit::shared::arm64::A64Imm;
use kjit::shared::trans::rephrase::{rephrase_insn, RephrasedBlock, RephrasedInsn, RephrasedInsnKind};

#[test]
fn request_for_trace_snapshots_registers_at_entry() {
    let mut state = MachineState::new();
    state.write_x(3, 0x33);
    state.set_sp(0x7000);
    let request = request_for_trace(0x4000, TranslationTrigger::Manual, &state);
    assert_eq!(request.entry_pc, 0x4000);
    let regs = request.regs.unwrap();
    assert_eq!(regs.x[3], 0x33);
    assert_eq!(regs.x[4], 0);
    assert_eq!(regs.sp, 0x7000);
    assert_eq!(regs.pc, 0x4000);
    assert_eq!(regs.pstate, 0);
}

#[test]
fn layout_regions_follow_wrapper_sizes() {
    assert_eq!(layout_region(0), LayoutRegion::Prologue);
    assert_eq!(layout_region(0x8c), LayoutRegion::Prologue);
    assert_eq!(layout_region(0x90), LayoutRegion::Epilogue);
    assert_eq!(layout_region(0x114), LayoutRegion::Epilogue);
    assert_eq!(layout_region(0x118), LayoutRegion::Body);
}

#[test]
fn push_unique_pcs_skips_repeats() {
    let mut pcs = vec![4, 8];
    push_unique_pcs(&mut pcs, &[8, 12, 4, 12, 16]);
    assert_eq!(pcs, vec![4, 8, 12, 16]);
}

#[test]
fn original_pc_for_offset_takes_first_label() {
    let labels = [(0x1000u64, 280usize), (0x1004, 284), (0x1008, 284)];
    assert_eq!(original_pc_for_offset(&labels, 284), Some(0x1004));
    assert_eq!(original_pc_for_offset(&labels, 288), None);
}

#[test]
fn layout_origins_cover_wrapper_then_body() {
    let program = vec![RephrasedBlock {
        start_addr: 0x1000,
        end_addr: 0x1004,
        prev: Vec::new(),
        next: Vec::new(),
        insns: vec![
            RephrasedInsn::original(0x1000, A64Insn::NopNopHiHints {}),
            RephrasedInsn::synthetic(0x1000, A64Insn::NopNopHiHints {}),
        ],
    }];
    let origins = layout_original_pcs(&program);
    assert_eq!(origins.len(), 72);
    assert!(origins[..70].iter().all(|o| o.is_none()));
    assert_eq!(origins[70], Some(0x1000));
    assert_eq!(origins[71], Some(0x1000));
}

#[test]
fn runtime_config_defaults() {
    let config = URuntimeConfig::default();
    assert_eq!(config.base_pc, DEFAULT_BASE_PC);
    assert_eq!(config.pt_regs_addr, 0x7fe000);
    assert_eq!(config.extra_params_addr, 0x7ff000);
    assert_eq!(config.return_pc, 0x123456);
    assert_eq!(config.stack_top, 0x800000);
}

#[test]
fn rephrased_link_moves_set_the_resume_address() {
    // Running the user-synthetic moves a BL at 0x1234_5678_9abc is rephrased
    // into puts the resume address into x30, whatever x30 held.
    let rephrased = rephrase_insn(IrInsn {
        pc: 0x1234_5678_9abc,
        word: 0,
        inner: A64Insn::BlBlOnlyBranchImm { imm26: scaled_simm(2, 26, 2) },
    })
    .unwrap();
    let mut state = MachineState::new();
    state.write_x(30, u64::MAX);
    for insn in rephrased.iter().filter(|insn| insn.kind == RephrasedInsnKind::UserSynthetic) {
        execute_insn(insn.insn, 0x1000, &mut state).unwrap();
    }
    assert_eq!(state.read_x(30), 0x1234_5678_9ac0);
}

fn program_bytes(insns: &[A64Insn]) -> Vec<u8> {
    let mut bytes = Vec::new();
    for insn in insns {
        bytes.extend_from_slice(&insn.encode().unwrap().to_le_bytes());
    }
    bytes
}

fn svc_program() -> Vec<u8> {
    program_bytes(&[
        A64Insn::MovzMovz64Movewide { hw: 0, imm16: uimm(7, 16), rd: x(1) },
        A64Insn::SvcSvcExException { imm16: A64Imm::unsigned(0, 16) },
        A64Insn::MovzMovz64Movewide { hw: 0, imm16: uimm(9, 16), rd: x(2) },
        A64Insn::RetRet64rBranchReg { rn: x(30) },
    ])
}

#[test]
fn trace_original_execution_resumes_after_svc_and_stops_at_ret() {
    let bytes = svc_program();
    let steps = trace_original_execution(&bytes, 0x4000, 0x4000, &MachineState::new()).unwrap();
    assert_eq!(steps.len(), 4);
    assert_eq!(steps[0].pc, 0x4000);
    assert_eq!(steps[0].state.read_x(1), 7);
    assert_eq!(steps[0].halt_reason, None);
    assert_eq!(steps[1].pc, 0x4004);
    assert_eq!(
        steps[1].runtime_exit,
        Some(RuntimeExitReason::Svc { imm16: 0, resume_pc: 0x4008 })
    );
    assert_eq!(steps[2].pc, 0x4008);
    assert_eq!(steps[2].state.read_x(2), 9);
    assert_eq!(steps[3].pc, 0x400c);
    assert_eq!(
        steps[3].halt_reason,
        Some(HaltReason::RuntimeExit { reason: RuntimeExitReason::Ret { lr_reg: 30 } })
    );
}

#[test]
fn trace_original_execution_refuses_partial_words() {
    let bytes = vec![0u8, 0, 0];
    assert_eq!(
        trace_original_execution(&bytes, 0x4000, 0x4000, &MachineState::new()).unwrap_err(),
        StepError::ProgramLength
    );
}

#[test]
fn trace_original_execution_records_falling_off_the_end() {
    let bytes = program_bytes(&[A64Insn::MovzMovz64Movewide { hw: 0, imm16: uimm(1, 16), rd: x(3) }]);
    let steps = trace_original_execution(&bytes, 0x4000, 0x4000, &MachineState::new()).unwrap();
    assert_eq!(steps.len(), 2);
    assert_eq!(steps[1].pc, 0x4004);
    assert_eq!(steps[1].halt_reason, Some(HaltReason::FellOffEnd));
}

#[test]
fn trace_cfg_lists_blocks_with_their_instructions() {
    let bytes = svc_program();
    let code = MockCodeProvider::new(0x4000, bytes);
    let request = TranslationRequest { entry_pc: 0x4000, trigger: TranslationTrigger::Manual, regs: None };
    let cfg = build_cfg(&request, &code).unwrap();
    let shown = trace_cfg(&cfg);
    assert_eq!(shown.entry_pc, 0x4000);
    assert_eq!(shown.blocks.len(), cfg.blocks.len());
    assert_eq!(shown.blocks[0].index, 0);
    assert_eq!(shown.blocks[0].start_pc, 0x4000);
    assert_eq!(shown.blocks[0].insn_pcs, vec![0x4000, 0x4004]);
    assert!(shown.blocks.iter().any(|b| b.insn_pcs == vec![0x4008, 0x400c]));
}

fn raw_insn(pc: u64) -> TraceInsn {
    TraceInsn {
        pc,
        text_offset: 0,
        word: 0,
        key: "",
        mnemonic: "",
        pretty: String::new(),
        debug: String::new(),
        direct_branch_target: None,
        conditional_targets: None,
        runtime_exit: None,
    }
}

fn layout_insn(offset: usize, ori_pc: Option<u64>) -> TraceLayoutInsn {
    TraceLayoutInsn {
        index: offset / 4,
        offset,
        ori_pc,
        region: Region::Body,
        key: "",
        mnemonic: "",
        pretty: String::new(),
        debug: String::new(),
    }
}

#[test]
fn build_pc_index_sorts_pcs_and_finds_each_stage() {
    let raw = vec![raw_insn(0x1008), raw_insn(0x1000), raw_insn(0x1004)];
    let cfg = TraceCfg {
        entry_pc: 0x1000,
        blocks: vec![TraceCfgBlock {
            index: 0,
            start_pc: 0x1000,
            end_pc: 0x1008,
            prev: Vec::new(),
            next: Vec::new(),
            insn_pcs: vec![0x1000, 0x1004],
        }],
    };
    let fragment = TraceFragment {
        entry_offset: 0,
        len_bytes: 12,
        vlabels: Vec::new(),
        insns: vec![layout_insn(0, None), layout_insn(4, Some(0x1004)), layout_insn(8, Some(0x1004)), layout_insn(12, Some(0x100c))],
    };
    let index = build_pc_index(&raw, &cfg, &[], &fragment);
    let pcs: Vec<u64> = index.iter().map(|e| e.pc).collect();
    assert_eq!(pcs, vec![0x1000, 0x1004, 0x1008, 0x100c]);
    assert_eq!(index[0].raw_index, Some(1));
    assert_eq!(index[0].cfg_block, Some(0));
    assert_eq!(index[1].layout_offsets, vec![4, 8]);
    assert_eq!(index[2].raw_index, Some(0));
    assert_eq!(index[2].cfg_block, None);
    assert_eq!(index[3].raw_index, None);
    assert_eq!(index[3].layout_offsets, vec![12]);
    assert_eq!(index[3].rephrased_block, None);
}
