use kjit::harness::a64_pretty::{
    condition_name, imm, mem_operand, pretty_insn, pretty_runtime_exit, reg_name, shift_name,
    unsigned_imm,
};
use kjit::shared::arm64::{A64Imm, A64Insn, A64Mem, A64Reg};
use kjit::shared::trans::cfg::RuntimeExitReason;

#[test]
fn formats_registers_and_immediates_concisely() {
    let insn = A64Insn::MovzMovz64Movewide {
        hw: 0,
        imm16: A64Imm::unsigned(200, 16),
        rd: A64Reg::x(0),
    };
    assert_eq!(pretty_insn(insn, Some(0x4000)), "movz x0, #0xc8");

    let insn = A64Insn::StrImmGenStr64LdstPos {
        rt: A64Reg::x(1),
        mem: A64Mem::offset(A64Reg::x_sp(12), A64Imm::scaled_unsigned(2, 12, 3)),
    };
    assert_eq!(pretty_insn(insn, None), "str x1, [x12, #0x10]");
}

#[test]
fn formats_pc_relative_targets() {
    let insn = A64Insn::CbnzCbnz64Compbranch {
        rt: A64Reg::x(0),
        imm19: A64Imm::scaled_signed(2, 19, 2),
    };
    assert_eq!(pretty_insn(insn, Some(0x403c)), "cbnz x0, 0x4044");
}

#[test]
fn register_names_cover_zero_register_and_stack_pointer() {
    assert_eq!(reg_name(A64Reg::x(31)), "xzr");
    assert_eq!(reg_name(A64Reg::x_sp(31)), "sp");
    assert_eq!(reg_name(A64Reg::w(31)), "wzr");
    assert_eq!(reg_name(A64Reg::w(7)), "w7");
    assert_eq!(reg_name(A64Reg::x(30)), "x30");
}

#[test]
fn immediates_switch_to_hex_from_ten() {
    assert_eq!(unsigned_imm(9), "#9");
    assert_eq!(unsigned_imm(10), "#0xa");
    assert_eq!(imm(-3), "#-3");
    assert_eq!(imm(-16), "#-0x10");
    assert_eq!(imm(i64::MIN), "#-0x8000000000000000");
}

#[test]
fn names_of_shifts_and_conditions() {
    assert_eq!(shift_name(2), "asr");
    assert_eq!(shift_name(9), "shift");
    assert_eq!(condition_name(0), "eq");
    assert_eq!(condition_name(11), "lt");
    assert_eq!(condition_name(2), "unknown");
}

#[test]
fn memory_operands_show_their_addressing_mode() {
    let base = A64Reg::x_sp(31);
    assert_eq!(mem_operand(A64Mem::offset(base, A64Imm::scaled_unsigned(0, 12, 3))), "[sp]");
    assert_eq!(
        mem_operand(A64Mem::pre_index(base, A64Imm::scaled_signed(0x7e, 7, 3))),
        "[sp, #-0x10]!"
    );
    assert_eq!(
        mem_operand(A64Mem::post_index(base, A64Imm::signed(8, 9))),
        "[sp], #8"
    );
}

#[test]
fn branches_without_pc_show_their_distance() {
    let insn = A64Insn::BUncondBOnlyBranchImm { imm26: A64Imm::scaled_signed(3, 26, 2) };
    assert_eq!(pretty_insn(insn, None), "b pc+0xc");
    let back = A64Insn::BCondBOnlyCondbranch { imm19: A64Imm::scaled_signed(0x7ffff, 19, 2), cond: 1 };
    assert_eq!(pretty_insn(back, Some(0x1000)), "b.ne 0xffc");
    assert_eq!(pretty_insn(back, None), "b.ne pc+0xfffffffffffffffc");
}

#[test]
fn pc_relative_address_needs_a_pc() {
    let insn = A64Insn::AdrAdrOnlyPcreladdr {
        immlo: A64Imm::unsigned(0, 2),
        immhi: A64Imm::signed(4, 19),
        rd: A64Reg::x(3),
    };
    assert_eq!(pretty_insn(insn, Some(0x2000)), "adr x3, 0x2010");
    assert_eq!(pretty_insn(insn, None), "adr x3, <pc-relative>");
}

#[test]
fn ret_through_link_register_prints_bare() {
    let ret = A64Insn::RetRet64rBranchReg { rn: A64Reg::x(30) };
    assert_eq!(pretty_insn(ret, None), "ret");
    let ret = A64Insn::RetRet64rBranchReg { rn: A64Reg::x(5) };
    assert_eq!(pretty_insn(ret, None), "ret x5");
    let svc = A64Insn::SvcSvcExException { imm16: A64Imm::unsigned(0xac, 16) };
    assert_eq!(pretty_insn(svc, None), "svc #0xac");
}

#[test]
fn add_with_shifted_immediate_shows_both_values() {
    let insn = A64Insn::AddAddsubImmAdd64AddsubImm {
        sh: 1,
        imm12: A64Imm::unsigned(2, 12),
        rn: A64Reg::x_sp(31),
        rd: A64Reg::x(1),
    };
    assert_eq!(pretty_insn(insn, None), "add x1, sp, #0x2000 ; imm12=#2");
    let movk = A64Insn::MovkMovk64Movewide { hw: 2, imm16: A64Imm::unsigned(1, 16), rd: A64Reg::x(2) };
    assert_eq!(pretty_insn(movk, None), "movk x2, #1, lsl #32");
}

#[test]
fn runtime_exits_name_their_operands() {
    assert_eq!(
        pretty_runtime_exit(RuntimeExitReason::Svc { imm16: 0xac, resume_pc: 0x4004 }),
        "runtime_exit=svc imm16=0xac resume_pc=0x4004"
    );
    assert_eq!(
        pretty_runtime_exit(RuntimeExitReason::Blr { target_reg: 16, resume_pc: 0x10 }),
        "runtime_exit=blr target_reg=x16 resume_pc=0x10"
    );
    assert_eq!(
        pretty_runtime_exit(RuntimeExitReason::Ret { lr_reg: 30 }),
        "runtime_exit=ret lr=x30"
    );
    assert_eq!(pretty_runtime_exit(RuntimeExitReason::Unsupported), "runtime_exit=unsupported");
}
