use kjit::shared::abi::REG_VIRT_SCRATCH_GPR_LIMIT;
use kjit::shared::arm64::ergo::{uimm, x, xzr};
use kjit::shared::arm64::{A64Imm, A64Insn, A64Mem, A64Reg, A64Reg31Mode, A64RegWidth};
use kjit::shared::trans::reg_virt::{classify_reg, virtualize_registers, AccessSummary, RegClass, RegVirtError};
use kjit::shared::trans::rephrase::{RephrasedBlock, RephrasedInsn, RephrasedProgram};

fn one_insn(insn: RephrasedInsn) -> RephrasedProgram {
    vec![RephrasedBlock {
        start_addr: insn.ori_pc,
        end_addr: insn.ori_pc + 4,
        prev: Vec::new(),
        next: Vec::new(),
        insns: vec![insn],
    }]
}

fn validate_one(insn: RephrasedInsn) -> Result<RephrasedProgram, RegVirtError> {
    virtualize_registers(one_insn(insn))
}

fn movz(rd: A64Reg) -> A64Insn {
    A64Insn::MovzMovz64Movewide { hw: 0, imm16: uimm(1, 16), rd }
}

#[test]
fn direct_user_semantic_registers_pass_validation() {
    let program = validate_one(RephrasedInsn::original(
        0x1000,
        A64Insn::AddAddsubImmAdd64AddsubImm { sh: 0, imm12: uimm(1, 12), rn: x(1), rd: x(2) },
    ))
    .unwrap();

    assert_eq!(program[0].insns[0].insn.key(), "ADD_addsub_imm.ADD_64_addsub_imm");
}

#[test]
fn runtime_payload_can_write_return_channel_registers() {
    validate_one(RephrasedInsn::runtime_exit_payload(0x1000, movz(x(9)))).unwrap();
}

#[test]
fn rejects_user_semantic_runtime_reserved_registers_until_preserved() {
    assert_eq!(
        validate_one(RephrasedInsn::original(0x1000, movz(x(9)))),
        Err(RegVirtError::RuntimeReservedRegNotPreserved { pc: 0x1000, insn: "MOVZ.MOVZ_64_movewide", reg: x(9) })
    );
}

#[test]
fn rejects_stack_backed_registers_until_rewrite_templates_exist() {
    assert_eq!(
        validate_one(RephrasedInsn::original(0x1000, movz(x(12)))),
        Err(RegVirtError::StackBackedRewriteNotImplemented { pc: 0x1000, insn: "MOVZ.MOVZ_64_movewide", reg: x(12) })
    );
}

#[test]
fn read_only_shadowed_stack_backed_registers_pass_for_current_no_helper_path() {
    validate_one(RephrasedInsn::original(
        0x1000,
        A64Insn::StrImmGenStr64LdstPos { rt: x(12), mem: A64Mem::offset(x(1), A64Imm::scaled_unsigned(0, 12, 3)) },
    ))
    .unwrap();
}

#[test]
fn rejects_stack_backed_registers_without_current_physical_shadow() {
    assert_eq!(
        validate_one(RephrasedInsn::original(
            0x1000,
            A64Insn::OrrLogShiftOrr64LogShift { shift: 0, rm: x(16), imm6: uimm(0, 6), rn: xzr(), rd: x(0) },
        )),
        Err(RegVirtError::StackBackedRewriteNotImplemented {
            pc: 0x1000,
            insn: "ORR_log_shift.ORR_64_log_shift",
            reg: x(16),
        })
    );
}

#[test]
fn rejects_32_bit_writes_to_stack_backed_registers() {
    assert_eq!(
        validate_one(RephrasedInsn::original(
            0x1000,
            A64Insn::MovzMovz32Movewide { hw: 0, imm16: uimm(1, 16), rd: A64Reg::w(12) },
        )),
        Err(RegVirtError::UnsupportedStackBackedWriteWidth {
            pc: 0x1000,
            insn: "MOVZ.MOVZ_32_movewide",
            field: "Rd",
            reg: A64Reg::w(12),
            width: A64RegWidth::W32,
        })
    );
}

#[test]
fn rejects_stable_mapped_x29_until_rewrite_templates_exist() {
    assert_eq!(
        validate_one(RephrasedInsn::original(0x1000, movz(x(29)))),
        Err(RegVirtError::StableMappedRewriteNotImplemented { pc: 0x1000, insn: "MOVZ.MOVZ_64_movewide", reg: x(29) })
    );
}

#[test]
fn rejects_sp_operands_until_stable_mapping_is_implemented() {
    assert_eq!(
        validate_one(RephrasedInsn::original(
            0x1000,
            A64Insn::AddAddsubImmAdd64AddsubImm { sh: 0, imm12: uimm(1, 12), rn: A64Reg::x_sp(31), rd: x(0) },
        )),
        Err(RegVirtError::UnsupportedSpOperand {
            pc: 0x1000,
            insn: "ADD_addsub_imm.ADD_64_addsub_imm",
            field: "Rn",
            reg: A64Reg::x_sp(31),
        })
    );
}

#[test]
fn rejects_pre_and_post_index_memory_until_writeback_ordering_is_defined() {
    assert_eq!(
        validate_one(RephrasedInsn::original(
            0x1000,
            A64Insn::LdrImmGenLdr64LdstImmpost { rt: x(0), mem: A64Mem::post_index(x(1), A64Imm::signed(8, 9)) },
        )),
        Err(RegVirtError::UnsupportedWritebackMemory { pc: 0x1000, insn: "LDR_imm_gen.LDR_64_ldst_immpost" })
    );
}

#[test]
fn rejects_pair_ops_until_overlap_policy_is_defined() {
    assert_eq!(
        validate_one(RephrasedInsn::original(
            0x1000,
            A64Insn::StpGenStp64LdstpairOff {
                rt2: x(1),
                rt: x(0),
                mem: A64Mem::offset(x(2), A64Imm::scaled_signed(0, 7, 3)),
            },
        )),
        Err(RegVirtError::UnsupportedPairOp { pc: 0x1000, insn: "STP_gen.STP_64_ldstpair_off" })
    );
}

#[test]
fn rejects_implicit_register_writes_left_on_user_path() {
    assert_eq!(
        validate_one(RephrasedInsn::original(
            0x1000,
            A64Insn::BlBlOnlyBranchImm { imm26: A64Imm::scaled_signed(1, 26, 2) },
        )),
        Err(RegVirtError::UnsupportedImplicitRegWrite {
            pc: 0x1000,
            insn: "BL.BL_only_branch_imm",
            reg: 30,
            width: A64RegWidth::X64,
        })
    );
}

#[test]
fn rejects_runtime_exit_sources_that_need_capture() {
    assert_eq!(
        validate_one(RephrasedInsn::runtime_exit_payload(
            0x1000,
            A64Insn::OrrLogShiftOrr64LogShift { shift: 0, rm: x(16), imm6: uimm(0, 6), rn: xzr(), rd: x(10) },
        )),
        Err(RegVirtError::UnsupportedRuntimeExitSource {
            pc: 0x1000,
            insn: "ORR_log_shift.ORR_64_log_shift",
            field: "Rm",
            reg: x(16),
        })
    );
}

#[test]
fn rejects_more_than_four_stack_backed_registers() {
    let mut access = AccessSummary::new(0x1000, "test");
    for reg in 12..=15 {
        access.add_stack_backed(x(reg)).unwrap();
    }

    assert_eq!(
        access.add_stack_backed(x(16)),
        Err(RegVirtError::TooManyStackBackedRegs { pc: 0x1000, insn: "test", limit: REG_VIRT_SCRATCH_GPR_LIMIT })
    );
}

#[test]
fn repeated_stack_backed_register_takes_one_slot() {
    let mut access = AccessSummary::new(0x1000, "test");
    for _ in 0..8 {
        access.add_stack_backed(x(12)).unwrap();
    }
    for reg in 13..=15 {
        access.add_stack_backed(x(reg)).unwrap();
    }
    assert!(access.add_stack_backed(x(17)).is_err());
}

#[test]
fn zero_register_operands_do_not_require_virtualization() {
    validate_one(RephrasedInsn::original(
        0x1000,
        A64Insn::OrrLogShiftOrr64LogShift { shift: 0, rm: xzr(), imm6: uimm(0, 6), rn: xzr(), rd: x(0) },
    ))
    .unwrap();

    assert_eq!(classify_reg(A64Reg::new(31, A64RegWidth::X64, A64Reg31Mode::Xzr)), RegClass::Zero);
}

#[test]
fn reg_virt_helpers_are_unexpected() {
    assert_eq!(
        validate_one(RephrasedInsn::reg_virt_helper(0x1000, A64Insn::NopNopHiHints {})),
        Err(RegVirtError::UnexpectedRegVirtHelper { pc: 0x1000 })
    );
}

#[test]
fn first_refusal_in_program_order_is_reported() {
    let mut program = one_insn(RephrasedInsn::original(0x1000, A64Insn::NopNopHiHints {}));
    program[0].insns.push(RephrasedInsn::original(0x1004, movz(x(29))));
    program[0].insns.push(RephrasedInsn::original(0x1008, movz(x(9))));
    assert_eq!(
        virtualize_registers(program),
        Err(RegVirtError::StableMappedRewriteNotImplemented { pc: 0x1004, insn: "MOVZ.MOVZ_64_movewide", reg: x(29) })
    );
}
