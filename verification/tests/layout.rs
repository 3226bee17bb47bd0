use kjit::harness::code::MockCodeProvider;
use kjit::shared::abi::{EPILOGUE_LEN_BYTES, EPILOGUE_OFFSET, PROLOGUE_ENTRY_BRANCH_OFFSET, PROLOGUE_LEN_BYTES};
use kjit::shared::arm64::{A64Imm, A64Insn, A64Reg};
use kjit::shared::emit::layout::{layout_program, LayoutError};
use kjit::shared::trans::input::{TranslationRequest, TranslationTrigger};
use kjit::shared::trans::rephrase::{RephrasedBlock, RephrasedInsn, RephrasedProgram};
use kjit::shared::trans::translate::{compile_request, translate_request, CompileError};
use kjit::shared::utils::vlabel::VLabels;

fn one_block(insns: Vec<RephrasedInsn>) -> RephrasedProgram {
    vec![RephrasedBlock { start_addr: 0x1000, end_addr: 0x100c, prev: Vec::new(), next: Vec::new(), insns }]
}

fn body_start_offset() -> usize {
    PROLOGUE_LEN_BYTES + EPILOGUE_LEN_BYTES
}

#[test]
fn rewrites_forward_branch_to_layout_offset() {
    let insns = vec![
        RephrasedInsn::original(0x1000, A64Insn::BUncondBOnlyBranchImm { imm26: A64Imm::scaled_signed(2, 26, 2) }),
        RephrasedInsn::synthetic(0x1004, A64Insn::NopNopHiHints {}),
        RephrasedInsn::synthetic(0x1004, A64Insn::NopNopHiHints {}),
        RephrasedInsn::original(0x1008, A64Insn::NopNopHiHints {}),
    ];

    let layout = layout_program(one_block(insns)).unwrap();
    let body_index = body_start_offset() / 4;

    assert_eq!(layout.entry_offset, body_start_offset());
    assert_eq!(layout.vlabels[2], (0x1008, body_start_offset() + 12));
    assert_eq!(layout.insns[body_index].branch_target_imm("imm26"), Some(3));
    assert_eq!(
        layout.insns[body_index].direct_branch_target(body_start_offset() as u64),
        Some((body_start_offset() + 12) as u64)
    );
}

#[test]
fn rewrites_backward_cond_branch_to_layout_offset() {
    let insns = vec![
        RephrasedInsn::original(0x1000, A64Insn::NopNopHiHints {}),
        RephrasedInsn::synthetic(0x1004, A64Insn::NopNopHiHints {}),
        RephrasedInsn::synthetic(0x1004, A64Insn::NopNopHiHints {}),
        RephrasedInsn::original(
            0x1008,
            A64Insn::CbnzCbnz64Compbranch { imm19: A64Imm::scaled_signed(524286, 19, 2), rt: A64Reg::x(0) },
        ),
    ];

    let layout = layout_program(one_block(insns)).unwrap();
    let body_index = body_start_offset() / 4;

    assert_eq!(layout.insns[body_index + 3].branch_target_imm("imm19"), Some(524285));
}

#[test]
fn wraps_body_with_prologue_and_epilogue() {
    let insns = vec![RephrasedInsn::original(0x1000, A64Insn::NopNopHiHints {})];

    let layout = layout_program(one_block(insns)).unwrap();

    assert_eq!(layout.insns.len(), (body_start_offset() / 4) + 1);
    assert_eq!(layout.entry_offset, body_start_offset());
    assert_eq!(layout.vlabels[0], (0x1000, body_start_offset()));
}

#[test]
fn resolves_prologue_entry_branch_to_entry_offset() {
    let insns = vec![RephrasedInsn::original(0x1000, A64Insn::NopNopHiHints {})];

    let layout = layout_program(one_block(insns)).unwrap();
    let prologue_branch_index = PROLOGUE_ENTRY_BRANCH_OFFSET / 4;

    assert_eq!(
        layout.insns[prologue_branch_index].direct_branch_target(PROLOGUE_ENTRY_BRANCH_OFFSET as u64),
        Some(layout.entry_offset as u64)
    );
}

#[test]
fn resolves_runtime_exit_branch_to_epilogue() {
    let insns = vec![RephrasedInsn::runtime_exit_branch(
        0x1000,
        A64Insn::BUncondBOnlyBranchImm { imm26: A64Imm::scaled_signed(0, 26, 2) },
    )];

    let layout = layout_program(one_block(insns)).unwrap();
    let runtime_branch_index = body_start_offset() / 4;

    assert_eq!(
        layout.insns[runtime_branch_index].direct_branch_target(body_start_offset() as u64),
        Some(EPILOGUE_OFFSET as u64)
    );
}

#[test]
fn empty_program_is_refused() {
    assert_eq!(layout_program(Vec::new()), Err(LayoutError::EmptyProgram));
}

#[test]
fn branch_to_unlabelled_pc_is_refused() {
    let insns = vec![RephrasedInsn::original(
        0x1000,
        A64Insn::BUncondBOnlyBranchImm { imm26: A64Imm::scaled_signed(16, 26, 2) },
    )];
    assert_eq!(
        layout_program(one_block(insns)),
        Err(LayoutError::MissingLabel { target_original_pc: 0x1040 })
    );
}

#[test]
fn missing_entry_label_is_refused() {
    let insns = vec![RephrasedInsn::original(0x2000, A64Insn::NopNopHiHints {})];
    assert_eq!(
        layout_program(one_block(insns)),
        Err(LayoutError::MissingLabel { target_original_pc: 0x1000 })
    );
}

#[test]
fn exit_branch_without_branch_field_is_refused() {
    let insns = vec![RephrasedInsn::runtime_exit_branch(0x1000, A64Insn::NopNopHiHints {})];
    assert_eq!(
        layout_program(one_block(insns)),
        Err(LayoutError::UnsupportedBranchField { insn_index: body_start_offset() / 4, field: "" })
    );
}

#[test]
fn offset_for_pc_finds_the_first_label() {
    let insns = vec![
        RephrasedInsn::original(0x1000, A64Insn::NopNopHiHints {}),
        RephrasedInsn::synthetic(0x1004, A64Insn::NopNopHiHints {}),
        RephrasedInsn::synthetic(0x1004, A64Insn::NopNopHiHints {}),
    ];
    let layout = layout_program(one_block(insns)).unwrap();
    assert_eq!(layout.offset_for_pc(0x1004), Some(body_start_offset() + 4));
    assert_eq!(layout.offset_for_pc(0x2000), None);
    assert_eq!(layout.len_bytes(), body_start_offset() + 12);
}

fn words(insns: &[A64Insn]) -> Vec<u8> {
    let mut bytes = Vec::new();
    for insn in insns {
        bytes.extend_from_slice(&insn.encode().unwrap().to_le_bytes());
    }
    bytes
}

#[test]
fn compile_request_returns_encodable_wrapped_fragment() {
    let base_pc = 0x4000;
    let code = MockCodeProvider::new(
        base_pc,
        words(&[A64Insn::SvcSvcExException { imm16: A64Imm::unsigned(0, 16) }, A64Insn::NopNopHiHints {}]),
    );
    let request = TranslationRequest { entry_pc: base_pc, trigger: TranslationTrigger::Manual, regs: None };

    let fragment = compile_request(&request, &code).unwrap();

    assert!(fragment.insns.len() > (PROLOGUE_LEN_BYTES + EPILOGUE_LEN_BYTES) / 4);
    assert_eq!(fragment.entry_offset, PROLOGUE_LEN_BYTES + EPILOGUE_LEN_BYTES);
    for insn in &fragment.insns {
        insn.encode().unwrap();
    }
}

#[test]
fn compile_request_reports_unmapped_entry() {
    let code = MockCodeProvider::new(0x4000, words(&[A64Insn::NopNopHiHints {}]));
    let request = TranslationRequest { entry_pc: 0x8000, trigger: TranslationTrigger::Manual, regs: None };
    assert!(matches!(compile_request(&request, &code), Err(CompileError::Cfg(_))));
}

#[test]
fn compile_request_reports_register_refusal() {
    let code = MockCodeProvider::new(
        0x4000,
        words(&[
            A64Insn::MovzMovz64Movewide { hw: 0, imm16: A64Imm::unsigned(1, 16), rd: A64Reg::x(9) },
            A64Insn::RetRet64rBranchReg { rn: A64Reg::x(30) },
        ]),
    );
    let request = TranslationRequest { entry_pc: 0x4000, trigger: TranslationTrigger::Manual, regs: None };
    assert!(matches!(compile_request(&request, &code), Err(CompileError::RegVirt(_))));
}

#[test]
fn translate_request_flattens_blocks_in_order() {
    let code = MockCodeProvider::new(
        0x4000,
        words(&[A64Insn::NopNopHiHints {}, A64Insn::RetRet64rBranchReg { rn: A64Reg::x(30) }]),
    );
    let request = TranslationRequest { entry_pc: 0x4000, trigger: TranslationTrigger::Manual, regs: None };
    let program = translate_request(&request, &code).unwrap();
    assert_eq!(program.len(), 2);
    assert_eq!(program[0].pc, 0x4000);
    assert_eq!(program[1].pc, 0x4004);
    assert_eq!(program[1].inner, A64Insn::RetRet64rBranchReg { rn: A64Reg::x(30) });
}

#[test]
fn vlabels_find_first_entries_both_ways() {
    let mut labels = VLabels::from_entries(Vec::new());
    labels.insert(0x1000, 280);
    labels.insert(0x1004, 284);
    labels.insert(0x1000, 300);
    assert_eq!(labels.offset_for_pc(0x1000), Some(280));
    assert_eq!(labels.pc_for_offset(284), Some(0x1004));
    assert_eq!(labels.pc_for_offset(1), None);
    assert_eq!(labels.entries().len(), 3);
}
