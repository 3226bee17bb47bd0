use kjit::harness::arm64::{execute_insn, execute_program, execute_program_from, ExecError, OriginalStepper, StepError};
use kjit::harness::model::{HaltReason, MachineState};
use kjit::shared::arm64::ergo::{scaled_simm, uimm, x};
use kjit::shared::arm64::{A64Imm, A64Insn, A64Mem, A64Reg};
use kjit::shared::trans::cfg::RuntimeExitReason;

fn encode_insns(insns: &[A64Insn]) -> Vec<u8> {
    let mut bytes = Vec::with_capacity(insns.len() * 4);
    for insn in insns {
        bytes.extend_from_slice(&insn.encode().unwrap().to_le_bytes());
    }
    bytes
}

fn signed_field(value: i64, bits: u8) -> u8 {
    let min = -(1_i64 << (bits - 1));
    let max = (1_i64 << (bits - 1)) - 1;
    assert!((min..=max).contains(&value));
    (value as i128 & ((1_i128 << bits) - 1)) as u8
}

#[test]
fn original_stepper_advances_one_arithmetic_instruction() {
    let program = encode_insns(&[A64Insn::MovzMovz64Movewide { hw: 0, imm16: uimm(7, 16), rd: x(0) }]);
    let state = MachineState::new();
    let mut stepper = OriginalStepper::new(&program, 0x4000, 0x4000, &state).unwrap();

    let step = stepper.step().unwrap().unwrap();

    assert_eq!(step.pc, 0x4000);
    assert_eq!(step.next_pc, Some(0x4004));
    assert_eq!(step.runtime_exit, None);
    assert_eq!(step.halt_reason, None);
    assert_eq!(step.state.read_x(0), 7);
    assert_eq!(stepper.pc(), 0x4004);
}

#[test]
fn original_stepper_direct_branch_updates_pc() {
    let program = encode_insns(&[
        A64Insn::BUncondBOnlyBranchImm { imm26: scaled_simm(2, 26, 2) },
        A64Insn::MovzMovz64Movewide { hw: 0, imm16: uimm(1, 16), rd: x(0) },
        A64Insn::MovzMovz64Movewide { hw: 0, imm16: uimm(2, 16), rd: x(0) },
    ]);
    let state = MachineState::new();
    let mut stepper = OriginalStepper::new(&program, 0x4000, 0x4000, &state).unwrap();

    let branch = stepper.step().unwrap().unwrap();
    let target = stepper.step().unwrap().unwrap();

    assert_eq!(branch.next_pc, Some(0x4008));
    assert_eq!(target.pc, 0x4008);
    assert_eq!(target.state.read_x(0), 2);
}

#[test]
fn original_stepper_svc_can_resume_at_resume_pc() {
    let program = encode_insns(&[
        A64Insn::SvcSvcExException { imm16: A64Imm::unsigned(0, 16) },
        A64Insn::MovzMovz64Movewide { hw: 0, imm16: uimm(7, 16), rd: x(0) },
    ]);
    let state = MachineState::new();
    let mut stepper = OriginalStepper::new(&program, 0x4000, 0x4000, &state).unwrap();

    let svc = stepper.step().unwrap().unwrap();
    assert_eq!(svc.runtime_exit, Some(RuntimeExitReason::Svc { imm16: 0, resume_pc: 0x4004 }));

    stepper.resume_at(0x4004);
    let resumed = stepper.step().unwrap().unwrap();
    assert_eq!(resumed.pc, 0x4004);
    assert_eq!(resumed.state.read_x(0), 7);
}

#[test]
fn original_stepper_ret_and_br_halt_with_runtime_exit_reasons() {
    let ret_program = encode_insns(&[A64Insn::RetRet64rBranchReg { rn: x(30) }]);
    let mut ret_state = MachineState::new();
    ret_state.write_x(30, 0x9000);
    let mut ret_stepper = OriginalStepper::new(&ret_program, 0x4000, 0x4000, &ret_state).unwrap();
    let ret = ret_stepper.step().unwrap().unwrap();
    assert_eq!(
        ret.halt_reason,
        Some(HaltReason::RuntimeExit { reason: RuntimeExitReason::Ret { lr_reg: 30 } })
    );

    let br_program = encode_insns(&[A64Insn::BrBr64BranchReg { rn: x(5) }]);
    let mut br_state = MachineState::new();
    br_state.write_x(5, 0x8000);
    let mut br_stepper = OriginalStepper::new(&br_program, 0x5000, 0x5000, &br_state).unwrap();
    let br = br_stepper.step().unwrap().unwrap();
    assert_eq!(
        br.halt_reason,
        Some(HaltReason::RuntimeExit { reason: RuntimeExitReason::Br { target_reg: 5 } })
    );
}

#[test]
fn original_stepper_blr_updates_lr_before_runtime_exit() {
    let program = encode_insns(&[A64Insn::BlrBlr64BranchReg { rn: x(10) }]);
    let mut state = MachineState::new();
    state.write_x(10, 0x9000);
    state.write_x(30, 0x7777);
    let mut stepper = OriginalStepper::new(&program, 0x4000, 0x4000, &state).unwrap();

    let blr = stepper.step().unwrap().unwrap();

    assert_eq!(
        blr.halt_reason,
        Some(HaltReason::RuntimeExit {
            reason: RuntimeExitReason::Blr { target_reg: 10, resume_pc: 0x4004 }
        })
    );
    assert_eq!(blr.state.read_x(10), 0x9000);
    assert_eq!(blr.state.read_x(30), 0x4004);
}

#[test]
fn execute_blr_x30_branches_to_old_lr_and_then_updates_lr() {
    let mut state = MachineState::new();
    state.write_x(30, 0x9000);

    let next_pc = execute_insn(A64Insn::BlrBlr64BranchReg { rn: x(30) }, 0x4000, &mut state).unwrap();

    assert_eq!(next_pc, 0x9000);
    assert_eq!(state.read_x(30), 0x4004);
}

#[test]
fn add_sub_immediate_distinguishes_sp_from_xzr() {
    let mut state = MachineState::new();
    state.set_sp(0x1000);

    execute_insn(
        A64Insn::AddAddsubImmAdd64AddsubImm {
            sh: 0,
            imm12: A64Imm::unsigned(0x20, 12),
            rn: A64Reg::x_sp(31),
            rd: A64Reg::x_sp(0),
        },
        0x4000,
        &mut state,
    )
    .unwrap();
    assert_eq!(state.read_x(0), 0x1020);
    assert_eq!(state.read_x(31), 0);
    assert_eq!(state.read_reg(A64Reg::x_sp(31)), 0x1000);

    execute_insn(
        A64Insn::SubAddsubImmSub64AddsubImm {
            sh: 0,
            imm12: A64Imm::unsigned(0x10, 12),
            rn: A64Reg::x_sp(31),
            rd: A64Reg::x_sp(31),
        },
        0x4004,
        &mut state,
    )
    .unwrap();
    assert_eq!(state.sp(), 0x0ff0);
    assert_eq!(state.read_x(31), 0);
}

#[test]
fn ldr_str_use_sp_as_memory_base() {
    let mut state = MachineState::new();
    state.set_sp(0x8000);
    state.write_x(0, 0x1122_3344_5566_7788);

    execute_insn(
        A64Insn::StrImmGenStr64LdstPos {
            rt: A64Reg::x(0),
            mem: A64Mem::offset(A64Reg::x_sp(31), A64Imm::scaled_unsigned(1, 12, 3)),
        },
        0x4000,
        &mut state,
    )
    .unwrap();
    assert_eq!(state.read_u64(0x8008), 0x1122_3344_5566_7788);

    execute_insn(
        A64Insn::LdrImmGenLdr64LdstPos {
            rt: A64Reg::x(1),
            mem: A64Mem::offset(A64Reg::x_sp(31), A64Imm::scaled_unsigned(1, 12, 3)),
        },
        0x4004,
        &mut state,
    )
    .unwrap();
    assert_eq!(state.read_x(1), 0x1122_3344_5566_7788);
}

#[test]
fn ldp_stp_pair_support_sp_pre_and_post_index() {
    let mut state = MachineState::new();
    state.set_sp(0x9000);
    state.write_x(29, 0x1111_2222_3333_4444);
    state.write_x(30, 0xAAAA_BBBB_CCCC_DDDD);

    execute_insn(
        A64Insn::StpGenStp64LdstpairPre {
            rt2: A64Reg::x(30),
            rt: A64Reg::x(29),
            mem: A64Mem::pre_index(A64Reg::x_sp(31), A64Imm::scaled_signed(signed_field(-2, 7) as u32, 7, 3)),
        },
        0x4000,
        &mut state,
    )
    .unwrap();
    assert_eq!(state.sp(), 0x8ff0);
    assert_eq!(state.read_u64(0x8ff0), 0x1111_2222_3333_4444);
    assert_eq!(state.read_u64(0x8ff8), 0xAAAA_BBBB_CCCC_DDDD);

    state.write_x(29, 0);
    state.write_x(30, 0);
    execute_insn(
        A64Insn::LdpGenLdp64LdstpairPost {
            rt2: A64Reg::x(30),
            rt: A64Reg::x(29),
            mem: A64Mem::post_index(A64Reg::x_sp(31), A64Imm::scaled_signed(signed_field(2, 7) as u32, 7, 3)),
        },
        0x4004,
        &mut state,
    )
    .unwrap();
    assert_eq!(state.read_x(29), 0x1111_2222_3333_4444);
    assert_eq!(state.read_x(30), 0xAAAA_BBBB_CCCC_DDDD);
    assert_eq!(state.sp(), 0x9000);
}

#[test]
fn execute_program_runs_to_runtime_exit_and_counts_steps() {
    let program = encode_insns(&[
        A64Insn::MovzMovz64Movewide { hw: 0, imm16: uimm(5, 16), rd: x(1) },
        A64Insn::SubsAddsubImmSubs64sAddsubImm { sh: 0, imm12: A64Imm::unsigned(5, 12), rn: A64Reg::x_sp(1), rd: A64Reg::x(31) },
        A64Insn::RetRet64rBranchReg { rn: x(30) },
    ]);
    let result = execute_program(&program, 0x4000, &MachineState::new()).unwrap();
    assert_eq!(result.steps, 3);
    assert_eq!(result.halt_reason, HaltReason::RuntimeExit { reason: RuntimeExitReason::Ret { lr_reg: 30 } });
    assert_eq!(result.state.read_x(1), 5);
    assert!(result.state.flags.z);
    assert!(result.state.flags.c);
}

#[test]
fn execute_program_falls_off_the_end_and_rejects_partial_words() {
    let program = encode_insns(&[A64Insn::NopNopHiHints {}]);
    let result = execute_program(&program, 0x4000, &MachineState::new()).unwrap();
    assert_eq!(result.halt_reason, HaltReason::FellOffEnd);
    assert_eq!(result.steps, 1);
    assert_eq!(
        execute_program(&[0, 0, 0], 0x4000, &MachineState::new()).unwrap_err(),
        StepError::ProgramLength
    );
}

#[test]
fn memory_writes_read_back_little_endian() {
    let mut state = MachineState::new();
    state.write_u64(0x100, 0x0102_0304_0506_0708);
    assert_eq!(state.read_u64(0x100), 0x0102_0304_0506_0708);
    assert_eq!(state.read_u32(0x100), 0x0506_0708);
    assert_eq!(state.read_u32(0x104), 0x0102_0304);
    assert_eq!(state.memory().get(0x100), Some(0x08));
    assert_eq!(state.memory().get(0x108), None);
}

#[test]
fn empty_program_falls_off_the_end_after_no_steps() {
    let s = MachineState::new();
    let r = execute_program_from(&[], 0x4000, 0x4000, &s).unwrap();
    assert_eq!(r.state, s);
    assert_eq!(r.halt_reason, HaltReason::FellOffEnd);
    assert_eq!(r.steps, 0);
    assert_eq!(execute_program_from(&[0u8; 3], 0x4000, 0x4000, &s).unwrap_err(), StepError::ProgramLength);
}

#[test]
fn execute_program_starts_at_the_base() {
    let program = encode_insns(&[
        A64Insn::MovzMovz64Movewide { hw: 0, imm16: uimm(5, 16), rd: x(1) },
        A64Insn::RetRet64rBranchReg { rn: x(30) },
    ]);
    let s = MachineState::new();
    let a = execute_program(&program, 0x4000, &s).unwrap();
    let b = execute_program_from(&program, 0x4000, 0x4000, &s).unwrap();
    assert_eq!(a, b);
    assert_eq!(a.steps, 2);
    assert_eq!(a.state.read_x(1), 5);
}

#[test]
fn out_of_range_fields_are_refused_without_change() {
    let mut state = MachineState::new();
    let r = execute_insn(A64Insn::MovzMovz64Movewide { hw: 5, imm16: uimm(1, 16), rd: x(1) }, 0x4000, &mut state);
    assert_eq!(r, Err(ExecError::FieldOutOfRange));
    assert_eq!(state, MachineState::new());
}
