use kjit::shared::arm64::{
    A64Condition, A64Imm, A64Insn, A64Mem, A64Reg, A64Reg31Mode, A64RegWidth, A64RewriteError,
};

fn branch_imm(offset_bytes: i64, bits: u8) -> u32 {
    assert_eq!(offset_bytes % 4, 0);
    signed_field(offset_bytes >> 2, bits)
}

fn signed_field(value: i64, bits: u8) -> u32 {
    let min = -(1_i64 << (bits - 1));
    let max = (1_i64 << (bits - 1)) - 1;
    assert!((min..=max).contains(&value));
    (value as i128 & ((1_i128 << bits) - 1)) as u32
}

#[test]
fn reg_accessors_get_and_set_top_level_fields() {
    let insn = A64Insn::OrrLogShiftOrr64LogShift {
        shift: 0,
        rm: A64Reg::x(2),
        imm6: A64Imm::unsigned(0, 6),
        rn: A64Reg::x(3),
        rd: A64Reg::x(4),
    };

    assert_eq!(insn.get_reg("Rm"), Some(A64Reg::x(2)));
    assert_eq!(insn.get_reg("Rn"), Some(A64Reg::x(3)));
    assert_eq!(insn.get_reg("Rd"), Some(A64Reg::x(4)));

    let rewritten = insn.set_reg("Rm", A64Reg::w_sp(9)).unwrap();
    assert_eq!(rewritten.get_reg("Rm"), Some(A64Reg::x(9)));
    assert_eq!(rewritten.get_reg("Rn"), Some(A64Reg::x(3)));
    assert_eq!(rewritten.get_reg("Rd"), Some(A64Reg::x(4)));
}

#[test]
fn reg_accessors_get_and_set_memory_base_preserving_mode_and_offset() {
    let post_offset = A64Imm::signed(4, 9);
    let post = A64Insn::LdrImmGenLdr64LdstImmpost {
        rt: A64Reg::x(1),
        mem: A64Mem::post_index(A64Reg::x_sp(31), post_offset),
    };
    assert_eq!(post.get_reg("Rn"), Some(A64Reg::x_sp(31)));
    assert_eq!(
        post.set_reg("Rn", A64Reg::w(8)).unwrap(),
        A64Insn::LdrImmGenLdr64LdstImmpost {
            rt: A64Reg::x(1),
            mem: A64Mem::post_index(A64Reg::x_sp(8), post_offset),
        }
    );

    let pre_offset = A64Imm::signed(signed_field(-8, 9), 9);
    let pre = A64Insn::StrImmGenStr64LdstImmpre {
        rt: A64Reg::x(2),
        mem: A64Mem::pre_index(A64Reg::x_sp(31), pre_offset),
    };
    assert_eq!(
        pre.set_reg("Rn", A64Reg::unknown(7)).unwrap(),
        A64Insn::StrImmGenStr64LdstImmpre {
            rt: A64Reg::x(2),
            mem: A64Mem::pre_index(A64Reg::x_sp(7), pre_offset),
        }
    );

    let scaled_offset = A64Imm::scaled_unsigned(3, 12, 3);
    let offset = A64Insn::LdrImmGenLdr64LdstPos {
        rt: A64Reg::x(3),
        mem: A64Mem::offset(A64Reg::x_sp(31), scaled_offset),
    };
    assert_eq!(
        offset.set_reg("Rn", A64Reg::w_sp(6)).unwrap(),
        A64Insn::LdrImmGenLdr64LdstPos {
            rt: A64Reg::x(3),
            mem: A64Mem::offset(A64Reg::x_sp(6), scaled_offset),
        }
    );
}

#[test]
fn set_reg_rejects_unsupported_field() {
    let insn = A64Insn::AddAddsubImmAdd32AddsubImm {
        sh: 0,
        imm12: A64Imm::unsigned(1, 12),
        rn: A64Reg::w_sp(1),
        rd: A64Reg::w_sp(2),
    };

    assert_eq!(insn.get_reg("Rm"), None);
    assert_eq!(
        insn.set_reg("Rm", A64Reg::w(3)),
        Err(A64RewriteError::UnsupportedField {
            insn: "ADD_addsub_imm.ADD_32_addsub_imm",
            field: "Rm",
        })
    );
}

#[test]
fn set_reg_rejects_invalid_register_encoding() {
    let insn = A64Insn::MovzMovz32Movewide {
        hw: 0,
        imm16: A64Imm::unsigned(0, 16),
        rd: A64Reg::w(0),
    };

    assert_eq!(
        insn.set_reg("Rd", A64Reg::new(32, A64RegWidth::X64, A64Reg31Mode::Sp)),
        Err(A64RewriteError::FieldOutOfRange {
            insn: "MOVZ.MOVZ_32_movewide",
            field: "Rd",
            value: 32,
            width: 5,
        })
    );
}

#[test]
fn set_reg_canonicalizes_target_width_and_reg31_mode() {
    let add = A64Insn::AddAddsubImmAdd64AddsubImm {
        sh: 0,
        imm12: A64Imm::unsigned(16, 12),
        rn: A64Reg::x_sp(31),
        rd: A64Reg::x_sp(0),
    };
    let rewritten_add = add.set_reg("Rd", A64Reg::w(31)).unwrap();
    assert_eq!(rewritten_add.get_reg("Rd"), Some(A64Reg::x_sp(31)));

    let movz = A64Insn::MovzMovz32Movewide {
        hw: 0,
        imm16: A64Imm::unsigned(0, 16),
        rd: A64Reg::w(0),
    };
    let rewritten_movz = movz.set_reg("Rd", A64Reg::x_sp(31)).unwrap();
    assert_eq!(rewritten_movz.get_reg("Rd"), Some(A64Reg::w(31)));
}

#[test]
fn reg_accessors_do_not_expose_implicit_bl_link_register() {
    let insn = A64Insn::BlBlOnlyBranchImm {
        imm26: A64Imm::scaled_signed(branch_imm(4, 26), 26, 2),
    };

    assert_eq!(insn.get_reg("x30"), None);
    assert_eq!(
        insn.set_reg("x30", A64Reg::x(0)),
        Err(A64RewriteError::UnsupportedField {
            insn: "BL.BL_only_branch_imm",
            field: "x30",
        })
    );
}

/// Known words of the subset: each encodes to the word and decodes back.
fn encoding_cases() -> Vec<(u32, A64Insn)> {
    vec![
        (0x1000_0023, A64Insn::AdrAdrOnlyPcreladdr { immlo: A64Imm::unsigned(0, 2), immhi: A64Imm::unsigned(1, 19), rd: A64Reg::x(3) }),
        (0x9000_0004, A64Insn::AdrpAdrpOnlyPcreladdr { immlo: A64Imm::unsigned(0, 2), immhi: A64Imm::unsigned(0, 19), rd: A64Reg::x(4) }),
        (0x1100_1441, A64Insn::AddAddsubImmAdd32AddsubImm { sh: 0, imm12: A64Imm::unsigned(5, 12), rn: A64Reg::w_sp(2), rd: A64Reg::w_sp(1) }),
        (0x9100_43E1, A64Insn::AddAddsubImmAdd64AddsubImm { sh: 0, imm12: A64Imm::unsigned(16, 12), rn: A64Reg::x_sp(31), rd: A64Reg::x_sp(1) }),
        (0x5100_1C83, A64Insn::SubAddsubImmSub32AddsubImm { sh: 0, imm12: A64Imm::unsigned(7, 12), rn: A64Reg::w_sp(4), rd: A64Reg::w_sp(3) }),
        (0xD100_83FF, A64Insn::SubAddsubImmSub64AddsubImm { sh: 0, imm12: A64Imm::unsigned(32, 12), rn: A64Reg::x_sp(31), rd: A64Reg::x_sp(31) }),
        (0x7100_24C5, A64Insn::SubsAddsubImmSubs32sAddsubImm { sh: 0, imm12: A64Imm::unsigned(9, 12), rn: A64Reg::w_sp(6), rd: A64Reg::w(5) }),
        (0xF100_2CFF, A64Insn::SubsAddsubImmSubs64sAddsubImm { sh: 0, imm12: A64Imm::unsigned(11, 12), rn: A64Reg::x_sp(7), rd: A64Reg::x(31) }),
        (0x1400_0001, A64Insn::BUncondBOnlyBranchImm { imm26: A64Imm::scaled_signed(branch_imm(4, 26), 26, 2) }),
        (0x5400_0020, A64Insn::BCondBOnlyCondbranch { imm19: A64Imm::scaled_signed(branch_imm(4, 19), 19, 2), cond: A64Condition::Eq.bits() }),
        (0x3400_0028, A64Insn::CbzCbz32Compbranch { imm19: A64Imm::scaled_signed(branch_imm(4, 19), 19, 2), rt: A64Reg::w(8) }),
        (0xB400_0029, A64Insn::CbzCbz64Compbranch { imm19: A64Imm::scaled_signed(branch_imm(4, 19), 19, 2), rt: A64Reg::x(9) }),
        (0x3500_002A, A64Insn::CbnzCbnz32Compbranch { imm19: A64Imm::scaled_signed(branch_imm(4, 19), 19, 2), rt: A64Reg::w(10) }),
        (0xB500_002B, A64Insn::CbnzCbnz64Compbranch { imm19: A64Imm::scaled_signed(branch_imm(4, 19), 19, 2), rt: A64Reg::x(11) }),
        (0x5282_468C, A64Insn::MovzMovz32Movewide { hw: 0, imm16: A64Imm::unsigned(0x1234, 16), rd: A64Reg::w(12) }),
        (0xD2A2_468D, A64Insn::MovzMovz64Movewide { hw: 1, imm16: A64Imm::unsigned(0x1234, 16), rd: A64Reg::x(13) }),
        (0x7295_79AE, A64Insn::MovkMovk32Movewide { hw: 0, imm16: A64Imm::unsigned(0xabcd, 16), rd: A64Reg::w(14) }),
        (0xF2D5_79AF, A64Insn::MovkMovk64Movewide { hw: 2, imm16: A64Imm::unsigned(0xabcd, 16), rd: A64Reg::x(15) }),
        (0xAA12_1230, A64Insn::OrrLogShiftOrr64LogShift { shift: 0, rm: A64Reg::x(18), imm6: A64Imm::unsigned(4, 6), rn: A64Reg::x(17), rd: A64Reg::x(16) }),
        (0x3638_0033, A64Insn::TbzTbzOnlyTestbranch { b5: 0, b40: 7, imm14: A64Imm::scaled_signed(branch_imm(4, 14), 14, 2), rt: A64Reg::new(19, A64RegWidth::Unknown, A64Reg31Mode::Xzr) }),
        (0xB708_0034, A64Insn::TbnzTbnzOnlyTestbranch { b5: 1, b40: 1, imm14: A64Imm::scaled_signed(branch_imm(4, 14), 14, 2), rt: A64Reg::new(20, A64RegWidth::Unknown, A64Reg31Mode::Xzr) }),
        (0xB840_47E1, A64Insn::LdrImmGenLdr32LdstImmpost { rt: A64Reg::w(1), mem: A64Mem::post_index(A64Reg::x_sp(31), A64Imm::signed(4, 9)) }),
        (0xF840_87E2, A64Insn::LdrImmGenLdr64LdstImmpost { rt: A64Reg::x(2), mem: A64Mem::post_index(A64Reg::x_sp(31), A64Imm::signed(8, 9)) }),
        (0xB85F_CFE3, A64Insn::LdrImmGenLdr32LdstImmpre { rt: A64Reg::w(3), mem: A64Mem::pre_index(A64Reg::x_sp(31), A64Imm::signed(signed_field(-4, 9), 9)) }),
        (0xF85F_8FE4, A64Insn::LdrImmGenLdr64LdstImmpre { rt: A64Reg::x(4), mem: A64Mem::pre_index(A64Reg::x_sp(31), A64Imm::signed(signed_field(-8, 9), 9)) }),
        (0xB940_0FE5, A64Insn::LdrImmGenLdr32LdstPos { rt: A64Reg::w(5), mem: A64Mem::offset(A64Reg::x_sp(31), A64Imm::scaled_unsigned(3, 12, 2)) }),
        (0xF940_0BE6, A64Insn::LdrImmGenLdr64LdstPos { rt: A64Reg::x(6), mem: A64Mem::offset(A64Reg::x_sp(31), A64Imm::scaled_unsigned(2, 12, 3)) }),
        (0xB800_47E7, A64Insn::StrImmGenStr32LdstImmpost { rt: A64Reg::w(7), mem: A64Mem::post_index(A64Reg::x_sp(31), A64Imm::signed(4, 9)) }),
        (0xF800_87E8, A64Insn::StrImmGenStr64LdstImmpost { rt: A64Reg::x(8), mem: A64Mem::post_index(A64Reg::x_sp(31), A64Imm::signed(8, 9)) }),
        (0xB81F_CFE9, A64Insn::StrImmGenStr32LdstImmpre { rt: A64Reg::w(9), mem: A64Mem::pre_index(A64Reg::x_sp(31), A64Imm::signed(signed_field(-4, 9), 9)) }),
        (0xF81F_8FEA, A64Insn::StrImmGenStr64LdstImmpre { rt: A64Reg::x(10), mem: A64Mem::pre_index(A64Reg::x_sp(31), A64Imm::signed(signed_field(-8, 9), 9)) }),
        (0xB900_0FEB, A64Insn::StrImmGenStr32LdstPos { rt: A64Reg::w(11), mem: A64Mem::offset(A64Reg::x_sp(31), A64Imm::scaled_unsigned(3, 12, 2)) }),
        (0xF900_0BEC, A64Insn::StrImmGenStr64LdstPos { rt: A64Reg::x(12), mem: A64Mem::offset(A64Reg::x_sp(31), A64Imm::scaled_unsigned(2, 12, 3)) }),
        (0xA8C1_3BED, A64Insn::LdpGenLdp64LdstpairPost { rt2: A64Reg::x(14), rt: A64Reg::x(13), mem: A64Mem::post_index(A64Reg::x_sp(31), A64Imm::scaled_signed(2, 7, 3)) }),
        (0xA9FF_43EF, A64Insn::LdpGenLdp64LdstpairPre { rt2: A64Reg::x(16), rt: A64Reg::x(15), mem: A64Mem::pre_index(A64Reg::x_sp(31), A64Imm::scaled_signed(signed_field(-2, 7), 7, 3)) }),
        (0xA941_CBF1, A64Insn::LdpGenLdp64LdstpairOff { rt2: A64Reg::x(18), rt: A64Reg::x(17), mem: A64Mem::offset(A64Reg::x_sp(31), A64Imm::scaled_signed(3, 7, 3)) }),
        (0xA881_53F3, A64Insn::StpGenStp64LdstpairPost { rt2: A64Reg::x(20), rt: A64Reg::x(19), mem: A64Mem::post_index(A64Reg::x_sp(31), A64Imm::scaled_signed(2, 7, 3)) }),
        (0xA9BF_5BF5, A64Insn::StpGenStp64LdstpairPre { rt2: A64Reg::x(22), rt: A64Reg::x(21), mem: A64Mem::pre_index(A64Reg::x_sp(31), A64Imm::scaled_signed(signed_field(-2, 7), 7, 3)) }),
        (0xA901_E3F7, A64Insn::StpGenStp64LdstpairOff { rt2: A64Reg::x(24), rt: A64Reg::x(23), mem: A64Mem::offset(A64Reg::x_sp(31), A64Imm::scaled_signed(3, 7, 3)) }),
        (0xD503_201F, A64Insn::NopNopHiHints {}),
        (0x9400_0001, A64Insn::BlBlOnlyBranchImm { imm26: A64Imm::scaled_signed(branch_imm(4, 26), 26, 2) }),
        (0xD61F_0320, A64Insn::BrBr64BranchReg { rn: A64Reg::x(25) }),
        (0xD63F_0340, A64Insn::BlrBlr64BranchReg { rn: A64Reg::x(26) }),
        (0xD65F_0360, A64Insn::RetRet64rBranchReg { rn: A64Reg::x(27) }),
        (0xD400_1001, A64Insn::SvcSvcExException { imm16: A64Imm::unsigned(0x80, 16) }),
    ]
}

#[test]
fn known_words_encode_and_decode_both_ways() {
    for (word, insn) in encoding_cases() {
        assert_eq!(insn.encode(), Ok(word), "{}", insn.key());
        assert_eq!(A64Insn::decode(word), Some(insn), "{:#010x}", word);
    }
}

#[test]
fn encode_reports_first_field_out_of_range() {
    let insn = A64Insn::AddAddsubImmAdd64AddsubImm {
        sh: 2,
        imm12: A64Imm::unsigned(0x1000, 12),
        rn: A64Reg::x(1),
        rd: A64Reg::x(2),
    };
    assert_eq!(
        insn.encode(),
        Err(kjit::shared::arm64::A64EncodeError::FieldOutOfRange {
            insn: "ADD_addsub_imm.ADD_64_addsub_imm",
            field: "sh",
            value: 2,
            width: 1,
        })
    );
}

#[test]
fn words_outside_the_subset_do_not_decode() {
    assert_eq!(A64Insn::decode(0), None);
    assert_eq!(A64Insn::decode(0xD61F_0321), None);
    assert_eq!(A64Insn::decode(0x11C0_0000), None);
}

#[test]
fn branch_target_field_rewrites_and_reads_back() {
    let b = A64Insn::BUncondBOnlyBranchImm { imm26: A64Imm::scaled_signed(1, 26, 2) };
    assert_eq!(b.branch_target_imm("imm26"), Some(1));
    assert_eq!(b.branch_target_imm("imm19"), None);
    let moved = b.set_branch_target_imm("imm26", 3).unwrap();
    assert_eq!(moved.branch_target_imm("imm26"), Some(3));
    assert_eq!(
        b.set_branch_target_imm("imm26", 1 << 26),
        Err(A64RewriteError::FieldOutOfRange {
            insn: "B_uncond.B_only_branch_imm",
            field: "imm26",
            value: 1 << 26,
            width: 26,
        })
    );
}
