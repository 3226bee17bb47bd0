use kjit::shared::abi::{
    copy_epilogue, copy_prologue, frame::pt_regs_x_slot_offset,
    frame::reg_virt_stack_backed_slot_offset, reg_virt_scratch_gpr, RetStatus, EPILOGUE_LEN_BYTES,
    EPILOGUE_OFFSET, PROLOGUE_ENTRY_BRANCH_OFFSET, PROLOGUE_LEN_BYTES,
};

#[test]
fn wrapper_lengths_match_old_contract() {
    assert_eq!(PROLOGUE_LEN_BYTES, 0x90);
    assert_eq!(PROLOGUE_ENTRY_BRANCH_OFFSET, 0x8c);
    assert_eq!(EPILOGUE_OFFSET, 0x90);
    assert_eq!(EPILOGUE_LEN_BYTES, 0x88);
}

#[test]
fn wrapper_sequences_are_encodable() {
    for insn in copy_prologue().iter().chain(copy_epilogue().iter()) {
        insn.encode().unwrap();
    }
}

#[test]
fn wrapper_copy_helpers_preserve_sequences() {
    assert_eq!(copy_prologue().len() * 4, PROLOGUE_LEN_BYTES);
    assert_eq!(copy_epilogue().len() * 4, EPILOGUE_LEN_BYTES);
    assert_eq!(copy_prologue(), copy_prologue());
}

#[test]
fn ret_status_roundtrips_through_its_register() {
    for status in [
        RetStatus::Svc,
        RetStatus::Bl,
        RetStatus::Blr,
        RetStatus::Br,
        RetStatus::Ret,
        RetStatus::Mem,
        RetStatus::Debug,
        RetStatus::Invalid(7),
    ] {
        assert_eq!(RetStatus::from_reg(status.as_reg()), status);
    }
    assert_eq!(RetStatus::from_reg(0x1_0001), RetStatus::Bl);
    assert_eq!(RetStatus::from_reg(0x2_0009), RetStatus::Invalid(9));
}

#[test]
fn frame_slots_and_scratch_registers() {
    assert_eq!(reg_virt_stack_backed_slot_offset(12), Some(16));
    assert_eq!(reg_virt_stack_backed_slot_offset(17), Some(56));
    assert_eq!(reg_virt_stack_backed_slot_offset(18), None);
    assert_eq!(reg_virt_stack_backed_slot_offset(11), None);
    assert_eq!(pt_regs_x_slot_offset(30), Some(240));
    assert_eq!(pt_regs_x_slot_offset(31), None);
    assert_eq!(reg_virt_scratch_gpr(0), Some(12));
    assert_eq!(reg_virt_scratch_gpr(3), Some(15));
    assert_eq!(reg_virt_scratch_gpr(4), None);
}
