use kjit::assem::{
    asm_one, assemble, check_mem_acc_cls, Cond, MemAccCls, MemInsn, Reg, ShiftCls, SysReg, TInsn,
};

fn word(insn: TInsn) -> u32 {
    let bytes = asm_one(insn);
    assert_eq!(bytes.len(), 4);
    u32::from_le_bytes([bytes[0], bytes[1], bytes[2], bytes[3]])
}

#[test]
fn encodes_template_instructions() {
    assert_eq!(word(TInsn::NOP), 0xD503_201F);
    assert_eq!(word(TInsn::ADD_RRI(Reg::X(12), Reg::X(23), 0x3F6)), 0x910F_DAEC);
    assert_eq!(word(TInsn::RET_R(Reg::X(30))), 0xD65F_03C0);
    assert_eq!(word(TInsn::SVC_I(0)), 0xD400_0001);
    assert_eq!(word(TInsn::BL_I(0x3F8)), 0x9400_00FE);
    assert_eq!(word(TInsn::B_I(8)), 0x1400_0002);
    assert_eq!(word(TInsn::MOVZ_RIF(Reg::X(9), 4, (ShiftCls::LSL, 16))), 0xD2A0_0089);
    assert_eq!(
        word(TInsn::LDP_RRM(Reg::X(29), Reg::X(30), (Reg::SP, Reg::INV, (-16i32) as u32, MemAccCls::PreIndex))),
        0xA9FF_7BFD
    );
    assert_eq!(word(TInsn::MRS_RS(Reg::X(9), SysReg { code: 0x5A10 })), 0xD53B_4209);
}

#[test]
fn aliases_encode_as_their_base_instruction() {
    assert_eq!(word(TInsn::MOV_RR(Reg::X(0), Reg::X(1))), 0xAA01_03E0);
    assert_eq!(word(TInsn::CMP_RR(Reg::X(23), Reg::X(12))), 0xEB0C_02FF);
    assert_eq!(word(TInsn::MOV_RR(Reg::SP, Reg::X(1))), word(TInsn::ADD_RRI(Reg::SP, Reg::X(1), 0)));
    assert_eq!(word(TInsn::MUL_RRR(Reg::X(1), Reg::X(2), Reg::X(3))), word(TInsn::MADD_RRRR(Reg::X(1), Reg::X(2), Reg::X(3), Reg::X(31))));
    assert_eq!(word(TInsn::CMP_RI(Reg::W(3), 5)), word(TInsn::SUBS_RRI(Reg::W(31), Reg::W(3), 5)));
    // cset x0, eq is csinc x0, xzr, xzr, ne; cinc x1, x2, ne is csinc x1, x2, x2, eq
    assert_eq!(word(TInsn::CSET_RC(Reg::X(0), Cond::EQ)), 0x9A9F_17E0);
    assert_eq!(word(TInsn::CINC_RRC(Reg::X(1), Reg::X(2), Cond::NE)), 0x9A82_0441);
}

#[test]
fn register_offset_forms_other_than_offset_assemble_to_nothing() {
    assert!(asm_one(TInsn::LDR_RM(Reg::X(0), (Reg::X(1), Reg::X(2), 0, MemAccCls::PreIndex))).is_empty());
    assert!(asm_one(TInsn::LDTRB_RM(Reg::W(0), (Reg::X(1), Reg::INV, 0, MemAccCls::PstIndex))).is_empty());
    assert_eq!(asm_one(TInsn::LDR_RM(Reg::X(0), (Reg::X(1), Reg::X(2), 0, MemAccCls::Offset))).len(), 4);
}

#[test]
fn assemble_concatenates_instruction_bytes() {
    let insns = vec![TInsn::NOP, TInsn::RET_R(Reg::X(30))];
    assert_eq!(assemble(&insns), vec![0x1F, 0x20, 0x03, 0xD5, 0xC0, 0x03, 0x5F, 0xD6]);
}

#[test]
fn register_numbers_map_both_ways() {
    assert_eq!(Reg::from(218u32), Reg::X(0));
    assert_eq!(Reg::from(2u32), Reg::X(29));
    assert_eq!(Reg::from(187u32), Reg::W(0));
    assert_eq!(Reg::from(5u32), Reg::SP);
    assert_eq!(Reg::from(341u32), Reg::V(31));
    assert_eq!(Reg::from(1000u32), Reg::INV);
    assert_eq!(Reg::from(32u8), Reg::SP);
    assert_eq!(Reg::from(7u8), Reg::X(7));
    assert_eq!(u64::from(Reg::X(3)), 8);
    assert_eq!(u64::from(Reg::W(31)), 1 << 31);
    assert_eq!(u64::from(Reg::SP), 1 << 32);
    assert_eq!(Reg::from(8u64), Reg::X(3));
    assert_eq!(Reg::from(1u64 << 32), Reg::SP);
    assert_eq!(Reg::from(3u64), Reg::INV);
    assert_eq!(Reg::W(4).to_x_reg(), Reg::X(4));
    assert_eq!(Reg::X(4).to_w_reg(), Reg::W(4));
    assert_eq!(Reg::SP.to_w_reg(), Reg::SP);
}

#[test]
fn condition_and_shift_codes() {
    assert_eq!(Cond::from(1u32), Cond::EQ);
    assert_eq!(Cond::from(16u32), Cond::NV);
    assert_eq!(Cond::from(0u32), Cond::NV);
    // The inverse is the opposite condition.
    assert_eq!(Cond::NE.inverse(), Cond::EQ);
    assert_eq!(Cond::EQ.inverse(), Cond::NE);
    assert_eq!(Cond::GT.inverse(), Cond::LE);
    assert_eq!(Cond::AL.inverse(), Cond::NV);
    assert_eq!(ShiftCls::from(1u32), ShiftCls::LSL);
    assert_eq!(ShiftCls::from(9u32), ShiftCls::INV);
}

#[test]
fn memory_access_class_from_word() {
    let ldp_pre = 0xA9FF_7BFDu32.to_le_bytes();
    assert_eq!(check_mem_acc_cls(&ldp_pre, MemInsn::Ldp), MemAccCls::PreIndex);
    let ldp_post = 0xA8C1_7BFDu32.to_le_bytes();
    assert_eq!(check_mem_acc_cls(&ldp_post, MemInsn::Ldp), MemAccCls::PstIndex);
    let ldr_off = 0xF940_0020u32.to_le_bytes();
    assert_eq!(check_mem_acc_cls(&ldr_off, MemInsn::Ldr), MemAccCls::Offset);
    let ldr_pre = 0xF840_8C20u32.to_le_bytes();
    assert_eq!(check_mem_acc_cls(&ldr_pre, MemInsn::Ldr), MemAccCls::PreIndex);
    assert_eq!(check_mem_acc_cls(&[0, 1, 2], MemInsn::Ldr), MemAccCls::Offset);
}
