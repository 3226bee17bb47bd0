//! The A64 instruction subset: one variant per encoding form, with its
//! operands as typed fields, and the encoder that packs a form into its word.
use vstd::prelude::*;

use super::fields;
use super::types::{A64Imm, A64Mem, A64Reg, A64Reg31Mode, A64RegWidth};

verus! {

/// An instruction of the supported A64 subset, one variant per encoding form.
#[derive(Clone, Copy, Debug, PartialEq, Eq, Structural)]
pub enum A64Insn {
    AdrAdrOnlyPcreladdr { immlo: A64Imm, immhi: A64Imm, rd: A64Reg },
    AdrpAdrpOnlyPcreladdr { immlo: A64Imm, immhi: A64Imm, rd: A64Reg },
    AddAddsubImmAdd32AddsubImm { sh: u8, imm12: A64Imm, rn: A64Reg, rd: A64Reg },
    AddAddsubImmAdd64AddsubImm { sh: u8, imm12: A64Imm, rn: A64Reg, rd: A64Reg },
    SubAddsubImmSub32AddsubImm { sh: u8, imm12: A64Imm, rn: A64Reg, rd: A64Reg },
    SubAddsubImmSub64AddsubImm { sh: u8, imm12: A64Imm, rn: A64Reg, rd: A64Reg },
    SubsAddsubImmSubs32sAddsubImm { sh: u8, imm12: A64Imm, rn: A64Reg, rd: A64Reg },
    SubsAddsubImmSubs64sAddsubImm { sh: u8, imm12: A64Imm, rn: A64Reg, rd: A64Reg },
    BUncondBOnlyBranchImm { imm26: A64Imm },
    BlBlOnlyBranchImm { imm26: A64Imm },
    BCondBOnlyCondbranch { imm19: A64Imm, cond: u8 },
    CbzCbz32Compbranch { imm19: A64Imm, rt: A64Reg },
    CbzCbz64Compbranch { imm19: A64Imm, rt: A64Reg },
    CbnzCbnz32Compbranch { imm19: A64Imm, rt: A64Reg },
    CbnzCbnz64Compbranch { imm19: A64Imm, rt: A64Reg },
    MovzMovz32Movewide { hw: u8, imm16: A64Imm, rd: A64Reg },
    MovzMovz64Movewide { hw: u8, imm16: A64Imm, rd: A64Reg },
    MovkMovk32Movewide { hw: u8, imm16: A64Imm, rd: A64Reg },
    MovkMovk64Movewide { hw: u8, imm16: A64Imm, rd: A64Reg },
    OrrLogShiftOrr64LogShift { shift: u8, rm: A64Reg, imm6: A64Imm, rn: A64Reg, rd: A64Reg },
    TbzTbzOnlyTestbranch { b5: u8, b40: u8, imm14: A64Imm, rt: A64Reg },
    TbnzTbnzOnlyTestbranch { b5: u8, b40: u8, imm14: A64Imm, rt: A64Reg },
    LdrImmGenLdr32LdstImmpost { rt: A64Reg, mem: A64Mem },
    LdrImmGenLdr64LdstImmpost { rt: A64Reg, mem: A64Mem },
    LdrImmGenLdr32LdstImmpre { rt: A64Reg, mem: A64Mem },
    LdrImmGenLdr64LdstImmpre { rt: A64Reg, mem: A64Mem },
    LdrImmGenLdr32LdstPos { rt: A64Reg, mem: A64Mem },
    LdrImmGenLdr64LdstPos { rt: A64Reg, mem: A64Mem },
    StrImmGenStr32LdstImmpost { rt: A64Reg, mem: A64Mem },
    StrImmGenStr64LdstImmpost { rt: A64Reg, mem: A64Mem },
    StrImmGenStr32LdstImmpre { rt: A64Reg, mem: A64Mem },
    StrImmGenStr64LdstImmpre { rt: A64Reg, mem: A64Mem },
    StrImmGenStr32LdstPos { rt: A64Reg, mem: A64Mem },
    StrImmGenStr64LdstPos { rt: A64Reg, mem: A64Mem },
    LdpGenLdp64LdstpairPost { rt2: A64Reg, rt: A64Reg, mem: A64Mem },
    LdpGenLdp64LdstpairPre { rt2: A64Reg, rt: A64Reg, mem: A64Mem },
    LdpGenLdp64LdstpairOff { rt2: A64Reg, rt: A64Reg, mem: A64Mem },
    StpGenStp64LdstpairPost { rt2: A64Reg, rt: A64Reg, mem: A64Mem },
    StpGenStp64LdstpairPre { rt2: A64Reg, rt: A64Reg, mem: A64Mem },
    StpGenStp64LdstpairOff { rt2: A64Reg, rt: A64Reg, mem: A64Mem },
    NopNopHiHints {},
    BrBr64BranchReg { rn: A64Reg },
    BlrBlr64BranchReg { rn: A64Reg },
    RetRet64rBranchReg { rn: A64Reg },
    SvcSvcExException { imm16: A64Imm },
}

/// What an instruction does with one of its operands.
#[derive(Clone, Copy, Debug, PartialEq, Eq)]
pub enum A64OperandRole {
    RegRead { field: &'static str, width: A64RegWidth },
    RegWrite { field: &'static str, width: A64RegWidth },
    RegReadWrite { field: &'static str, width: A64RegWidth },
    ImplicitRegWrite { reg: u8, width: A64RegWidth },
    MemBase { field: &'static str },
    MemOffset { field: &'static str },
    BranchTarget { field: &'static str, scale: u8, bits: u8 },
    FlagsRead,
    FlagsWrite,
    ControlFlow,
    Memory,
}

/// An operand that does not fit the width of its encoding field.
#[derive(Clone, Copy, Debug, PartialEq, Eq)]
pub enum A64EncodeError {
    FieldOutOfRange { insn: &'static str, field: &'static str, value: u64, width: u8 },
}

impl A64Insn {
    /// The name of the encoding form, `<instruction>.<encoding>`.
    pub open spec fn spec_key(self) -> &'static str {
        match self {
            A64Insn::AdrAdrOnlyPcreladdr { .. } => "ADR.ADR_only_pcreladdr",
            A64Insn::AdrpAdrpOnlyPcreladdr { .. } => "ADRP.ADRP_only_pcreladdr",
            A64Insn::AddAddsubImmAdd32AddsubImm { .. } => "ADD_addsub_imm.ADD_32_addsub_imm",
            A64Insn::AddAddsubImmAdd64AddsubImm { .. } => "ADD_addsub_imm.ADD_64_addsub_imm",
            A64Insn::SubAddsubImmSub32AddsubImm { .. } => "SUB_addsub_imm.SUB_32_addsub_imm",
            A64Insn::SubAddsubImmSub64AddsubImm { .. } => "SUB_addsub_imm.SUB_64_addsub_imm",
            A64Insn::SubsAddsubImmSubs32sAddsubImm { .. } => "SUBS_addsub_imm.SUBS_32S_addsub_imm",
            A64Insn::SubsAddsubImmSubs64sAddsubImm { .. } => "SUBS_addsub_imm.SUBS_64S_addsub_imm",
            A64Insn::BUncondBOnlyBranchImm { .. } => "B_uncond.B_only_branch_imm",
            A64Insn::BlBlOnlyBranchImm { .. } => "BL.BL_only_branch_imm",
            A64Insn::BCondBOnlyCondbranch { .. } => "B_cond.B_only_condbranch",
            A64Insn::CbzCbz32Compbranch { .. } => "CBZ.CBZ_32_compbranch",
            A64Insn::CbzCbz64Compbranch { .. } => "CBZ.CBZ_64_compbranch",
            A64Insn::CbnzCbnz32Compbranch { .. } => "CBNZ.CBNZ_32_compbranch",
            A64Insn::CbnzCbnz64Compbranch { .. } => "CBNZ.CBNZ_64_compbranch",
            A64Insn::MovzMovz32Movewide { .. } => "MOVZ.MOVZ_32_movewide",
            A64Insn::MovzMovz64Movewide { .. } => "MOVZ.MOVZ_64_movewide",
            A64Insn::MovkMovk32Movewide { .. } => "MOVK.MOVK_32_movewide",
            A64Insn::MovkMovk64Movewide { .. } => "MOVK.MOVK_64_movewide",
            A64Insn::OrrLogShiftOrr64LogShift { .. } => "ORR_log_shift.ORR_64_log_shift",
            A64Insn::TbzTbzOnlyTestbranch { .. } => "TBZ.TBZ_only_testbranch",
            A64Insn::TbnzTbnzOnlyTestbranch { .. } => "TBNZ.TBNZ_only_testbranch",
            A64Insn::LdrImmGenLdr32LdstImmpost { .. } => "LDR_imm_gen.LDR_32_ldst_immpost",
            A64Insn::LdrImmGenLdr64LdstImmpost { .. } => "LDR_imm_gen.LDR_64_ldst_immpost",
            A64Insn::LdrImmGenLdr32LdstImmpre { .. } => "LDR_imm_gen.LDR_32_ldst_immpre",
            A64Insn::LdrImmGenLdr64LdstImmpre { .. } => "LDR_imm_gen.LDR_64_ldst_immpre",
            A64Insn::LdrImmGenLdr32LdstPos { .. } => "LDR_imm_gen.LDR_32_ldst_pos",
            A64Insn::LdrImmGenLdr64LdstPos { .. } => "LDR_imm_gen.LDR_64_ldst_pos",
            A64Insn::StrImmGenStr32LdstImmpost { .. } => "STR_imm_gen.STR_32_ldst_immpost",
            A64Insn::StrImmGenStr64LdstImmpost { .. } => "STR_imm_gen.STR_64_ldst_immpost",
            A64Insn::StrImmGenStr32LdstImmpre { .. } => "STR_imm_gen.STR_32_ldst_immpre",
            A64Insn::StrImmGenStr64LdstImmpre { .. } => "STR_imm_gen.STR_64_ldst_immpre",
            A64Insn::StrImmGenStr32LdstPos { .. } => "STR_imm_gen.STR_32_ldst_pos",
            A64Insn::StrImmGenStr64LdstPos { .. } => "STR_imm_gen.STR_64_ldst_pos",
            A64Insn::LdpGenLdp64LdstpairPost { .. } => "LDP_gen.LDP_64_ldstpair_post",
            A64Insn::LdpGenLdp64LdstpairPre { .. } => "LDP_gen.LDP_64_ldstpair_pre",
            A64Insn::LdpGenLdp64LdstpairOff { .. } => "LDP_gen.LDP_64_ldstpair_off",
            A64Insn::StpGenStp64LdstpairPost { .. } => "STP_gen.STP_64_ldstpair_post",
            A64Insn::StpGenStp64LdstpairPre { .. } => "STP_gen.STP_64_ldstpair_pre",
            A64Insn::StpGenStp64LdstpairOff { .. } => "STP_gen.STP_64_ldstpair_off",
            A64Insn::NopNopHiHints { .. } => "NOP.NOP_HI_hints",
            A64Insn::BrBr64BranchReg { .. } => "BR.BR_64_branch_reg",
            A64Insn::BlrBlr64BranchReg { .. } => "BLR.BLR_64_branch_reg",
            A64Insn::RetRet64rBranchReg { .. } => "RET.RET_64R_branch_reg",
            A64Insn::SvcSvcExException { .. } => "SVC.SVC_EX_exception",
        }
    }

    pub fn key(self) -> (r: &'static str)
        ensures
            r == self.spec_key(),
    {
        match self {
            A64Insn::AdrAdrOnlyPcreladdr { .. } => "ADR.ADR_only_pcreladdr",
            A64Insn::AdrpAdrpOnlyPcreladdr { .. } => "ADRP.ADRP_only_pcreladdr",
            A64Insn::AddAddsubImmAdd32AddsubImm { .. } => "ADD_addsub_imm.ADD_32_addsub_imm",
            A64Insn::AddAddsubImmAdd64AddsubImm { .. } => "ADD_addsub_imm.ADD_64_addsub_imm",
            A64Insn::SubAddsubImmSub32AddsubImm { .. } => "SUB_addsub_imm.SUB_32_addsub_imm",
            A64Insn::SubAddsubImmSub64AddsubImm { .. } => "SUB_addsub_imm.SUB_64_addsub_imm",
            A64Insn::SubsAddsubImmSubs32sAddsubImm { .. } => "SUBS_addsub_imm.SUBS_32S_addsub_imm",
            A64Insn::SubsAddsubImmSubs64sAddsubImm { .. } => "SUBS_addsub_imm.SUBS_64S_addsub_imm",
            A64Insn::BUncondBOnlyBranchImm { .. } => "B_uncond.B_only_branch_imm",
            A64Insn::BlBlOnlyBranchImm { .. } => "BL.BL_only_branch_imm",
            A64Insn::BCondBOnlyCondbranch { .. } => "B_cond.B_only_condbranch",
            A64Insn::CbzCbz32Compbranch { .. } => "CBZ.CBZ_32_compbranch",
            A64Insn::CbzCbz64Compbranch { .. } => "CBZ.CBZ_64_compbranch",
            A64Insn::CbnzCbnz32Compbranch { .. } => "CBNZ.CBNZ_32_compbranch",
            A64Insn::CbnzCbnz64Compbranch { .. } => "CBNZ.CBNZ_64_compbranch",
            A64Insn::MovzMovz32Movewide { .. } => "MOVZ.MOVZ_32_movewide",
            A64Insn::MovzMovz64Movewide { .. } => "MOVZ.MOVZ_64_movewide",
            A64Insn::MovkMovk32Movewide { .. } => "MOVK.MOVK_32_movewide",
            A64Insn::MovkMovk64Movewide { .. } => "MOVK.MOVK_64_movewide",
            A64Insn::OrrLogShiftOrr64LogShift { .. } => "ORR_log_shift.ORR_64_log_shift",
            A64Insn::TbzTbzOnlyTestbranch { .. } => "TBZ.TBZ_only_testbranch",
            A64Insn::TbnzTbnzOnlyTestbranch { .. } => "TBNZ.TBNZ_only_testbranch",
            A64Insn::LdrImmGenLdr32LdstImmpost { .. } => "LDR_imm_gen.LDR_32_ldst_immpost",
            A64Insn::LdrImmGenLdr64LdstImmpost { .. } => "LDR_imm_gen.LDR_64_ldst_immpost",
            A64Insn::LdrImmGenLdr32LdstImmpre { .. } => "LDR_imm_gen.LDR_32_ldst_immpre",
            A64Insn::LdrImmGenLdr64LdstImmpre { .. } => "LDR_imm_gen.LDR_64_ldst_immpre",
            A64Insn::LdrImmGenLdr32LdstPos { .. } => "LDR_imm_gen.LDR_32_ldst_pos",
            A64Insn::LdrImmGenLdr64LdstPos { .. } => "LDR_imm_gen.LDR_64_ldst_pos",
            A64Insn::StrImmGenStr32LdstImmpost { .. } => "STR_imm_gen.STR_32_ldst_immpost",
            A64Insn::StrImmGenStr64LdstImmpost { .. } => "STR_imm_gen.STR_64_ldst_immpost",
            A64Insn::StrImmGenStr32LdstImmpre { .. } => "STR_imm_gen.STR_32_ldst_immpre",
            A64Insn::StrImmGenStr64LdstImmpre { .. } => "STR_imm_gen.STR_64_ldst_immpre",
            A64Insn::StrImmGenStr32LdstPos { .. } => "STR_imm_gen.STR_32_ldst_pos",
            A64Insn::StrImmGenStr64LdstPos { .. } => "STR_imm_gen.STR_64_ldst_pos",
            A64Insn::LdpGenLdp64LdstpairPost { .. } => "LDP_gen.LDP_64_ldstpair_post",
            A64Insn::LdpGenLdp64LdstpairPre { .. } => "LDP_gen.LDP_64_ldstpair_pre",
            A64Insn::LdpGenLdp64LdstpairOff { .. } => "LDP_gen.LDP_64_ldstpair_off",
            A64Insn::StpGenStp64LdstpairPost { .. } => "STP_gen.STP_64_ldstpair_post",
            A64Insn::StpGenStp64LdstpairPre { .. } => "STP_gen.STP_64_ldstpair_pre",
            A64Insn::StpGenStp64LdstpairOff { .. } => "STP_gen.STP_64_ldstpair_off",
            A64Insn::NopNopHiHints { .. } => "NOP.NOP_HI_hints",
            A64Insn::BrBr64BranchReg { .. } => "BR.BR_64_branch_reg",
            A64Insn::BlrBlr64BranchReg { .. } => "BLR.BLR_64_branch_reg",
            A64Insn::RetRet64rBranchReg { .. } => "RET.RET_64R_branch_reg",
            A64Insn::SvcSvcExException { .. } => "SVC.SVC_EX_exception",
        }
    }

    /// The operand roles of the form, in a fixed order.
    pub open spec fn spec_roles(self) -> Seq<A64OperandRole> {
        match self {
            A64Insn::AdrAdrOnlyPcreladdr { .. } => seq![A64OperandRole::RegWrite { field: "Rd", width: A64RegWidth::X64 }],
            A64Insn::AdrpAdrpOnlyPcreladdr { .. } => seq![A64OperandRole::RegWrite { field: "Rd", width: A64RegWidth::X64 }],
            A64Insn::AddAddsubImmAdd32AddsubImm { .. } => seq![A64OperandRole::RegRead { field: "Rn", width: A64RegWidth::W32 }, A64OperandRole::RegWrite { field: "Rd", width: A64RegWidth::W32 }],
            A64Insn::AddAddsubImmAdd64AddsubImm { .. } => seq![A64OperandRole::RegRead { field: "Rn", width: A64RegWidth::X64 }, A64OperandRole::RegWrite { field: "Rd", width: A64RegWidth::X64 }],
            A64Insn::SubAddsubImmSub32AddsubImm { .. } => seq![A64OperandRole::RegRead { field: "Rn", width: A64RegWidth::W32 }, A64OperandRole::RegWrite { field: "Rd", width: A64RegWidth::W32 }],
            A64Insn::SubAddsubImmSub64AddsubImm { .. } => seq![A64OperandRole::RegRead { field: "Rn", width: A64RegWidth::X64 }, A64OperandRole::RegWrite { field: "Rd", width: A64RegWidth::X64 }],
            A64Insn::SubsAddsubImmSubs32sAddsubImm { .. } => seq![A64OperandRole::RegRead { field: "Rn", width: A64RegWidth::W32 }, A64OperandRole::RegWrite { field: "Rd", width: A64RegWidth::W32 }, A64OperandRole::FlagsWrite],
            A64Insn::SubsAddsubImmSubs64sAddsubImm { .. } => seq![A64OperandRole::RegRead { field: "Rn", width: A64RegWidth::X64 }, A64OperandRole::RegWrite { field: "Rd", width: A64RegWidth::X64 }, A64OperandRole::FlagsWrite],
            A64Insn::BUncondBOnlyBranchImm { .. } => seq![A64OperandRole::BranchTarget { field: "imm26", scale: 2, bits: 26 }, A64OperandRole::ControlFlow],
            A64Insn::BlBlOnlyBranchImm { .. } => seq![A64OperandRole::BranchTarget { field: "imm26", scale: 2, bits: 26 }, A64OperandRole::ImplicitRegWrite { reg: 30, width: A64RegWidth::X64 }, A64OperandRole::ControlFlow],
            A64Insn::BCondBOnlyCondbranch { .. } => seq![A64OperandRole::BranchTarget { field: "imm19", scale: 2, bits: 19 }, A64OperandRole::FlagsRead, A64OperandRole::ControlFlow],
            A64Insn::CbzCbz32Compbranch { .. } => seq![A64OperandRole::RegRead { field: "Rt", width: A64RegWidth::W32 }, A64OperandRole::BranchTarget { field: "imm19", scale: 2, bits: 19 }, A64OperandRole::ControlFlow],
            A64Insn::CbzCbz64Compbranch { .. } => seq![A64OperandRole::RegRead { field: "Rt", width: A64RegWidth::X64 }, A64OperandRole::BranchTarget { field: "imm19", scale: 2, bits: 19 }, A64OperandRole::ControlFlow],
            A64Insn::CbnzCbnz32Compbranch { .. } => seq![A64OperandRole::RegRead { field: "Rt", width: A64RegWidth::W32 }, A64OperandRole::BranchTarget { field: "imm19", scale: 2, bits: 19 }, A64OperandRole::ControlFlow],
            A64Insn::CbnzCbnz64Compbranch { .. } => seq![A64OperandRole::RegRead { field: "Rt", width: A64RegWidth::X64 }, A64OperandRole::BranchTarget { field: "imm19", scale: 2, bits: 19 }, A64OperandRole::ControlFlow],
            A64Insn::MovzMovz32Movewide { .. } => seq![A64OperandRole::RegWrite { field: "Rd", width: A64RegWidth::W32 }],
            A64Insn::MovzMovz64Movewide { .. } => seq![A64OperandRole::RegWrite { field: "Rd", width: A64RegWidth::X64 }],
            A64Insn::MovkMovk32Movewide { .. } => seq![A64OperandRole::RegReadWrite { field: "Rd", width: A64RegWidth::W32 }],
            A64Insn::MovkMovk64Movewide { .. } => seq![A64OperandRole::RegReadWrite { field: "Rd", width: A64RegWidth::X64 }],
            A64Insn::OrrLogShiftOrr64LogShift { .. } => seq![A64OperandRole::RegRead { field: "Rm", width: A64RegWidth::X64 }, A64OperandRole::RegRead { field: "Rn", width: A64RegWidth::X64 }, A64OperandRole::RegWrite { field: "Rd", width: A64RegWidth::X64 }],
            A64Insn::TbzTbzOnlyTestbranch { .. } => seq![A64OperandRole::RegRead { field: "Rt", width: A64RegWidth::Unknown }, A64OperandRole::BranchTarget { field: "imm14", scale: 2, bits: 14 }, A64OperandRole::ControlFlow],
            A64Insn::TbnzTbnzOnlyTestbranch { .. } => seq![A64OperandRole::RegRead { field: "Rt", width: A64RegWidth::Unknown }, A64OperandRole::BranchTarget { field: "imm14", scale: 2, bits: 14 }, A64OperandRole::ControlFlow],
            A64Insn::LdrImmGenLdr32LdstImmpost { .. } => seq![A64OperandRole::RegWrite { field: "Rt", width: A64RegWidth::W32 }, A64OperandRole::MemBase { field: "Rn" }, A64OperandRole::MemOffset { field: "imm9" }, A64OperandRole::Memory],
            A64Insn::LdrImmGenLdr64LdstImmpost { .. } => seq![A64OperandRole::RegWrite { field: "Rt", width: A64RegWidth::X64 }, A64OperandRole::MemBase { field: "Rn" }, A64OperandRole::MemOffset { field: "imm9" }, A64OperandRole::Memory],
            A64Insn::LdrImmGenLdr32LdstImmpre { .. } => seq![A64OperandRole::RegWrite { field: "Rt", width: A64RegWidth::W32 }, A64OperandRole::MemBase { field: "Rn" }, A64OperandRole::MemOffset { field: "imm9" }, A64OperandRole::Memory],
            A64Insn::LdrImmGenLdr64LdstImmpre { .. } => seq![A64OperandRole::RegWrite { field: "Rt", width: A64RegWidth::X64 }, A64OperandRole::MemBase { field: "Rn" }, A64OperandRole::MemOffset { field: "imm9" }, A64OperandRole::Memory],
            A64Insn::LdrImmGenLdr32LdstPos { .. } => seq![A64OperandRole::RegWrite { field: "Rt", width: A64RegWidth::W32 }, A64OperandRole::MemBase { field: "Rn" }, A64OperandRole::MemOffset { field: "imm12" }, A64OperandRole::Memory],
            A64Insn::LdrImmGenLdr64LdstPos { .. } => seq![A64OperandRole::RegWrite { field: "Rt", width: A64RegWidth::X64 }, A64OperandRole::MemBase { field: "Rn" }, A64OperandRole::MemOffset { field: "imm12" }, A64OperandRole::Memory],
            A64Insn::StrImmGenStr32LdstImmpost { .. } => seq![A64OperandRole::RegRead { field: "Rt", width: A64RegWidth::W32 }, A64OperandRole::MemBase { field: "Rn" }, A64OperandRole::MemOffset { field: "imm9" }, A64OperandRole::Memory],
            A64Insn::StrImmGenStr64LdstImmpost { .. } => seq![A64OperandRole::RegRead { field: "Rt", width: A64RegWidth::X64 }, A64OperandRole::MemBase { field: "Rn" }, A64OperandRole::MemOffset { field: "imm9" }, A64OperandRole::Memory],
            A64Insn::StrImmGenStr32LdstImmpre { .. } => seq![A64OperandRole::RegRead { field: "Rt", width: A64RegWidth::W32 }, A64OperandRole::MemBase { field: "Rn" }, A64OperandRole::MemOffset { field: "imm9" }, A64OperandRole::Memory],
            A64Insn::StrImmGenStr64LdstImmpre { .. } => seq![A64OperandRole::RegRead { field: "Rt", width: A64RegWidth::X64 }, A64OperandRole::MemBase { field: "Rn" }, A64OperandRole::MemOffset { field: "imm9" }, A64OperandRole::Memory],
            A64Insn::StrImmGenStr32LdstPos { .. } => seq![A64OperandRole::RegRead { field: "Rt", width: A64RegWidth::W32 }, A64OperandRole::MemBase { field: "Rn" }, A64OperandRole::MemOffset { field: "imm12" }, A64OperandRole::Memory],
            A64Insn::StrImmGenStr64LdstPos { .. } => seq![A64OperandRole::RegRead { field: "Rt", width: A64RegWidth::X64 }, A64OperandRole::MemBase { field: "Rn" }, A64OperandRole::MemOffset { field: "imm12" }, A64OperandRole::Memory],
            A64Insn::LdpGenLdp64LdstpairPost { .. } => seq![A64OperandRole::RegWrite { field: "Rt", width: A64RegWidth::X64 }, A64OperandRole::RegWrite { field: "Rt2", width: A64RegWidth::X64 }, A64OperandRole::MemBase { field: "Rn" }, A64OperandRole::MemOffset { field: "imm7" }, A64OperandRole::Memory],
            A64Insn::LdpGenLdp64LdstpairPre { .. } => seq![A64OperandRole::RegWrite { field: "Rt", width: A64RegWidth::X64 }, A64OperandRole::RegWrite { field: "Rt2", width: A64RegWidth::X64 }, A64OperandRole::MemBase { field: "Rn" }, A64OperandRole::MemOffset { field: "imm7" }, A64OperandRole::Memory],
            A64Insn::LdpGenLdp64LdstpairOff { .. } => seq![A64OperandRole::RegWrite { field: "Rt", width: A64RegWidth::X64 }, A64OperandRole::RegWrite { field: "Rt2", width: A64RegWidth::X64 }, A64OperandRole::MemBase { field: "Rn" }, A64OperandRole::MemOffset { field: "imm7" }, A64OperandRole::Memory],
            A64Insn::StpGenStp64LdstpairPost { .. } => seq![A64OperandRole::RegRead { field: "Rt", width: A64RegWidth::X64 }, A64OperandRole::RegRead { field: "Rt2", width: A64RegWidth::X64 }, A64OperandRole::MemBase { field: "Rn" }, A64OperandRole::MemOffset { field: "imm7" }, A64OperandRole::Memory],
            A64Insn::StpGenStp64LdstpairPre { .. } => seq![A64OperandRole::RegRead { field: "Rt", width: A64RegWidth::X64 }, A64OperandRole::RegRead { field: "Rt2", width: A64RegWidth::X64 }, A64OperandRole::MemBase { field: "Rn" }, A64OperandRole::MemOffset { field: "imm7" }, A64OperandRole::Memory],
            A64Insn::StpGenStp64LdstpairOff { .. } => seq![A64OperandRole::RegRead { field: "Rt", width: A64RegWidth::X64 }, A64OperandRole::RegRead { field: "Rt2", width: A64RegWidth::X64 }, A64OperandRole::MemBase { field: "Rn" }, A64OperandRole::MemOffset { field: "imm7" }, A64OperandRole::Memory],
            A64Insn::NopNopHiHints { .. } => seq![],
            A64Insn::BrBr64BranchReg { .. } => seq![A64OperandRole::RegRead { field: "Rn", width: A64RegWidth::X64 }, A64OperandRole::ControlFlow],
            A64Insn::BlrBlr64BranchReg { .. } => seq![A64OperandRole::RegRead { field: "Rn", width: A64RegWidth::X64 }, A64OperandRole::ImplicitRegWrite { reg: 30, width: A64RegWidth::X64 }, A64OperandRole::ControlFlow],
            A64Insn::RetRet64rBranchReg { .. } => seq![A64OperandRole::RegRead { field: "Rn", width: A64RegWidth::X64 }, A64OperandRole::ControlFlow],
            A64Insn::SvcSvcExException { .. } => seq![A64OperandRole::ControlFlow],
        }
    }

    pub fn operand_roles(self) -> (r: Vec<A64OperandRole>)
        ensures
            r@ == self.spec_roles(),
    {
        match self {
            A64Insn::AdrAdrOnlyPcreladdr { .. } => vec![A64OperandRole::RegWrite { field: "Rd", width: A64RegWidth::X64 }],
            A64Insn::AdrpAdrpOnlyPcreladdr { .. } => vec![A64OperandRole::RegWrite { field: "Rd", width: A64RegWidth::X64 }],
            A64Insn::AddAddsubImmAdd32AddsubImm { .. } => vec![A64OperandRole::RegRead { field: "Rn", width: A64RegWidth::W32 }, A64OperandRole::RegWrite { field: "Rd", width: A64RegWidth::W32 }],
            A64Insn::AddAddsubImmAdd64AddsubImm { .. } => vec![A64OperandRole::RegRead { field: "Rn", width: A64RegWidth::X64 }, A64OperandRole::RegWrite { field: "Rd", width: A64RegWidth::X64 }],
            A64Insn::SubAddsubImmSub32AddsubImm { .. } => vec![A64OperandRole::RegRead { field: "Rn", width: A64RegWidth::W32 }, A64OperandRole::RegWrite { field: "Rd", width: A64RegWidth::W32 }],
            A64Insn::SubAddsubImmSub64AddsubImm { .. } => vec![A64OperandRole::RegRead { field: "Rn", width: A64RegWidth::X64 }, A64OperandRole::RegWrite { field: "Rd", width: A64RegWidth::X64 }],
            A64Insn::SubsAddsubImmSubs32sAddsubImm { .. } => vec![A64OperandRole::RegRead { field: "Rn", width: A64RegWidth::W32 }, A64OperandRole::RegWrite { field: "Rd", width: A64RegWidth::W32 }, A64OperandRole::FlagsWrite],
            A64Insn::SubsAddsubImmSubs64sAddsubImm { .. } => vec![A64OperandRole::RegRead { field: "Rn", width: A64RegWidth::X64 }, A64OperandRole::RegWrite { field: "Rd", width: A64RegWidth::X64 }, A64OperandRole::FlagsWrite],
            A64Insn::BUncondBOnlyBranchImm { .. } => vec![A64OperandRole::BranchTarget { field: "imm26", scale: 2, bits: 26 }, A64OperandRole::ControlFlow],
            A64Insn::BlBlOnlyBranchImm { .. } => vec![A64OperandRole::BranchTarget { field: "imm26", scale: 2, bits: 26 }, A64OperandRole::ImplicitRegWrite { reg: 30, width: A64RegWidth::X64 }, A64OperandRole::ControlFlow],
            A64Insn::BCondBOnlyCondbranch { .. } => vec![A64OperandRole::BranchTarget { field: "imm19", scale: 2, bits: 19 }, A64OperandRole::FlagsRead, A64OperandRole::ControlFlow],
            A64Insn::CbzCbz32Compbranch { .. } => vec![A64OperandRole::RegRead { field: "Rt", width: A64RegWidth::W32 }, A64OperandRole::BranchTarget { field: "imm19", scale: 2, bits: 19 }, A64OperandRole::ControlFlow],
            A64Insn::CbzCbz64Compbranch { .. } => vec![A64OperandRole::RegRead { field: "Rt", width: A64RegWidth::X64 }, A64OperandRole::BranchTarget { field: "imm19", scale: 2, bits: 19 }, A64OperandRole::ControlFlow],
            A64Insn::CbnzCbnz32Compbranch { .. } => vec![A64OperandRole::RegRead { field: "Rt", width: A64RegWidth::W32 }, A64OperandRole::BranchTarget { field: "imm19", scale: 2, bits: 19 }, A64OperandRole::ControlFlow],
            A64Insn::CbnzCbnz64Compbranch { .. } => vec![A64OperandRole::RegRead { field: "Rt", width: A64RegWidth::X64 }, A64OperandRole::BranchTarget { field: "imm19", scale: 2, bits: 19 }, A64OperandRole::ControlFlow],
            A64Insn::MovzMovz32Movewide { .. } => vec![A64OperandRole::RegWrite { field: "Rd", width: A64RegWidth::W32 }],
            A64Insn::MovzMovz64Movewide { .. } => vec![A64OperandRole::RegWrite { field: "Rd", width: A64RegWidth::X64 }],
            A64Insn::MovkMovk32Movewide { .. } => vec![A64OperandRole::RegReadWrite { field: "Rd", width: A64RegWidth::W32 }],
            A64Insn::MovkMovk64Movewide { .. } => vec![A64OperandRole::RegReadWrite { field: "Rd", width: A64RegWidth::X64 }],
            A64Insn::OrrLogShiftOrr64LogShift { .. } => vec![A64OperandRole::RegRead { field: "Rm", width: A64RegWidth::X64 }, A64OperandRole::RegRead { field: "Rn", width: A64RegWidth::X64 }, A64OperandRole::RegWrite { field: "Rd", width: A64RegWidth::X64 }],
            A64Insn::TbzTbzOnlyTestbranch { .. } => vec![A64OperandRole::RegRead { field: "Rt", width: A64RegWidth::Unknown }, A64OperandRole::BranchTarget { field: "imm14", scale: 2, bits: 14 }, A64OperandRole::ControlFlow],
            A64Insn::TbnzTbnzOnlyTestbranch { .. } => vec![A64OperandRole::RegRead { field: "Rt", width: A64RegWidth::Unknown }, A64OperandRole::BranchTarget { field: "imm14", scale: 2, bits: 14 }, A64OperandRole::ControlFlow],
            A64Insn::LdrImmGenLdr32LdstImmpost { .. } => vec![A64OperandRole::RegWrite { field: "Rt", width: A64RegWidth::W32 }, A64OperandRole::MemBase { field: "Rn" }, A64OperandRole::MemOffset { field: "imm9" }, A64OperandRole::Memory],
            A64Insn::LdrImmGenLdr64LdstImmpost { .. } => vec![A64OperandRole::RegWrite { field: "Rt", width: A64RegWidth::X64 }, A64OperandRole::MemBase { field: "Rn" }, A64OperandRole::MemOffset { field: "imm9" }, A64OperandRole::Memory],
            A64Insn::LdrImmGenLdr32LdstImmpre { .. } => vec![A64OperandRole::RegWrite { field: "Rt", width: A64RegWidth::W32 }, A64OperandRole::MemBase { field: "Rn" }, A64OperandRole::MemOffset { field: "imm9" }, A64OperandRole::Memory],
            A64Insn::LdrImmGenLdr64LdstImmpre { .. } => vec![A64OperandRole::RegWrite { field: "Rt", width: A64RegWidth::X64 }, A64OperandRole::MemBase { field: "Rn" }, A64OperandRole::MemOffset { field: "imm9" }, A64OperandRole::Memory],
            A64Insn::LdrImmGenLdr32LdstPos { .. } => vec![A64OperandRole::RegWrite { field: "Rt", width: A64RegWidth::W32 }, A64OperandRole::MemBase { field: "Rn" }, A64OperandRole::MemOffset { field: "imm12" }, A64OperandRole::Memory],
            A64Insn::LdrImmGenLdr64LdstPos { .. } => vec![A64OperandRole::RegWrite { field: "Rt", width: A64RegWidth::X64 }, A64OperandRole::MemBase { field: "Rn" }, A64OperandRole::MemOffset { field: "imm12" }, A64OperandRole::Memory],
            A64Insn::StrImmGenStr32LdstImmpost { .. } => vec![A64OperandRole::RegRead { field: "Rt", width: A64RegWidth::W32 }, A64OperandRole::MemBase { field: "Rn" }, A64OperandRole::MemOffset { field: "imm9" }, A64OperandRole::Memory],
            A64Insn::StrImmGenStr64LdstImmpost { .. } => vec![A64OperandRole::RegRead { field: "Rt", width: A64RegWidth::X64 }, A64OperandRole::MemBase { field: "Rn" }, A64OperandRole::MemOffset { field: "imm9" }, A64OperandRole::Memory],
            A64Insn::StrImmGenStr32LdstImmpre { .. } => vec![A64OperandRole::RegRead { field: "Rt", width: A64RegWidth::W32 }, A64OperandRole::MemBase { field: "Rn" }, A64OperandRole::MemOffset { field: "imm9" }, A64OperandRole::Memory],
            A64Insn::StrImmGenStr64LdstImmpre { .. } => vec![A64OperandRole::RegRead { field: "Rt", width: A64RegWidth::X64 }, A64OperandRole::MemBase { field: "Rn" }, A64OperandRole::MemOffset { field: "imm9" }, A64OperandRole::Memory],
            A64Insn::StrImmGenStr32LdstPos { .. } => vec![A64OperandRole::RegRead { field: "Rt", width: A64RegWidth::W32 }, A64OperandRole::MemBase { field: "Rn" }, A64OperandRole::MemOffset { field: "imm12" }, A64OperandRole::Memory],
            A64Insn::StrImmGenStr64LdstPos { .. } => vec![A64OperandRole::RegRead { field: "Rt", width: A64RegWidth::X64 }, A64OperandRole::MemBase { field: "Rn" }, A64OperandRole::MemOffset { field: "imm12" }, A64OperandRole::Memory],
            A64Insn::LdpGenLdp64LdstpairPost { .. } => vec![A64OperandRole::RegWrite { field: "Rt", width: A64RegWidth::X64 }, A64OperandRole::RegWrite { field: "Rt2", width: A64RegWidth::X64 }, A64OperandRole::MemBase { field: "Rn" }, A64OperandRole::MemOffset { field: "imm7" }, A64OperandRole::Memory],
            A64Insn::LdpGenLdp64LdstpairPre { .. } => vec![A64OperandRole::RegWrite { field: "Rt", width: A64RegWidth::X64 }, A64OperandRole::RegWrite { field: "Rt2", width: A64RegWidth::X64 }, A64OperandRole::MemBase { field: "Rn" }, A64OperandRole::MemOffset { field: "imm7" }, A64OperandRole::Memory],
            A64Insn::LdpGenLdp64LdstpairOff { .. } => vec![A64OperandRole::RegWrite { field: "Rt", width: A64RegWidth::X64 }, A64OperandRole::RegWrite { field: "Rt2", width: A64RegWidth::X64 }, A64OperandRole::MemBase { field: "Rn" }, A64OperandRole::MemOffset { field: "imm7" }, A64OperandRole::Memory],
            A64Insn::StpGenStp64LdstpairPost { .. } => vec![A64OperandRole::RegRead { field: "Rt", width: A64RegWidth::X64 }, A64OperandRole::RegRead { field: "Rt2", width: A64RegWidth::X64 }, A64OperandRole::MemBase { field: "Rn" }, A64OperandRole::MemOffset { field: "imm7" }, A64OperandRole::Memory],
            A64Insn::StpGenStp64LdstpairPre { .. } => vec![A64OperandRole::RegRead { field: "Rt", width: A64RegWidth::X64 }, A64OperandRole::RegRead { field: "Rt2", width: A64RegWidth::X64 }, A64OperandRole::MemBase { field: "Rn" }, A64OperandRole::MemOffset { field: "imm7" }, A64OperandRole::Memory],
            A64Insn::StpGenStp64LdstpairOff { .. } => vec![A64OperandRole::RegRead { field: "Rt", width: A64RegWidth::X64 }, A64OperandRole::RegRead { field: "Rt2", width: A64RegWidth::X64 }, A64OperandRole::MemBase { field: "Rn" }, A64OperandRole::MemOffset { field: "imm7" }, A64OperandRole::Memory],
            A64Insn::NopNopHiHints { .. } => vec![],
            A64Insn::BrBr64BranchReg { .. } => vec![A64OperandRole::RegRead { field: "Rn", width: A64RegWidth::X64 }, A64OperandRole::ControlFlow],
            A64Insn::BlrBlr64BranchReg { .. } => vec![A64OperandRole::RegRead { field: "Rn", width: A64RegWidth::X64 }, A64OperandRole::ImplicitRegWrite { reg: 30, width: A64RegWidth::X64 }, A64OperandRole::ControlFlow],
            A64Insn::RetRet64rBranchReg { .. } => vec![A64OperandRole::RegRead { field: "Rn", width: A64RegWidth::X64 }, A64OperandRole::ControlFlow],
            A64Insn::SvcSvcExException { .. } => vec![A64OperandRole::ControlFlow],
        }
    }

    /// Every operand fits the width of its encoding field.
    pub open spec fn spec_fits(self) -> bool {
        match self {
            A64Insn::AdrAdrOnlyPcreladdr { immlo, immhi, rd } => immlo.raw < 0x4 && immhi.raw < 0x80000 && rd.enc < 32,
            A64Insn::AdrpAdrpOnlyPcreladdr { immlo, immhi, rd } => immlo.raw < 0x4 && immhi.raw < 0x80000 && rd.enc < 32,
            A64Insn::AddAddsubImmAdd32AddsubImm { sh, imm12, rn, rd } => sh < 0x2 && imm12.raw < 0x1000 && rn.enc < 32 && rd.enc < 32,
            A64Insn::AddAddsubImmAdd64AddsubImm { sh, imm12, rn, rd } => sh < 0x2 && imm12.raw < 0x1000 && rn.enc < 32 && rd.enc < 32,
            A64Insn::SubAddsubImmSub32AddsubImm { sh, imm12, rn, rd } => sh < 0x2 && imm12.raw < 0x1000 && rn.enc < 32 && rd.enc < 32,
            A64Insn::SubAddsubImmSub64AddsubImm { sh, imm12, rn, rd } => sh < 0x2 && imm12.raw < 0x1000 && rn.enc < 32 && rd.enc < 32,
            A64Insn::SubsAddsubImmSubs32sAddsubImm { sh, imm12, rn, rd } => sh < 0x2 && imm12.raw < 0x1000 && rn.enc < 32 && rd.enc < 32,
            A64Insn::SubsAddsubImmSubs64sAddsubImm { sh, imm12, rn, rd } => sh < 0x2 && imm12.raw < 0x1000 && rn.enc < 32 && rd.enc < 32,
            A64Insn::BUncondBOnlyBranchImm { imm26 } => imm26.raw < 0x4000000,
            A64Insn::BlBlOnlyBranchImm { imm26 } => imm26.raw < 0x4000000,
            A64Insn::BCondBOnlyCondbranch { imm19, cond } => imm19.raw < 0x80000 && cond < 0x10,
            A64Insn::CbzCbz32Compbranch { imm19, rt } => imm19.raw < 0x80000 && rt.enc < 32,
            A64Insn::CbzCbz64Compbranch { imm19, rt } => imm19.raw < 0x80000 && rt.enc < 32,
            A64Insn::CbnzCbnz32Compbranch { imm19, rt } => imm19.raw < 0x80000 && rt.enc < 32,
            A64Insn::CbnzCbnz64Compbranch { imm19, rt } => imm19.raw < 0x80000 && rt.enc < 32,
            A64Insn::MovzMovz32Movewide { hw, imm16, rd } => hw < 0x4 && imm16.raw < 0x10000 && rd.enc < 32,
            A64Insn::MovzMovz64Movewide { hw, imm16, rd } => hw < 0x4 && imm16.raw < 0x10000 && rd.enc < 32,
            A64Insn::MovkMovk32Movewide { hw, imm16, rd } => hw < 0x4 && imm16.raw < 0x10000 && rd.enc < 32,
            A64Insn::MovkMovk64Movewide { hw, imm16, rd } => hw < 0x4 && imm16.raw < 0x10000 && rd.enc < 32,
            A64Insn::OrrLogShiftOrr64LogShift { shift, rm, imm6, rn, rd } => shift < 0x4 && rm.enc < 32 && imm6.raw < 0x40 && rn.enc < 32 && rd.enc < 32,
            A64Insn::TbzTbzOnlyTestbranch { b5, b40, imm14, rt } => b5 < 0x2 && b40 < 0x20 && imm14.raw < 0x4000 && rt.enc < 32,
            A64Insn::TbnzTbnzOnlyTestbranch { b5, b40, imm14, rt } => b5 < 0x2 && b40 < 0x20 && imm14.raw < 0x4000 && rt.enc < 32,
            A64Insn::LdrImmGenLdr32LdstImmpost { rt, mem } => rt.enc < 32 && mem.spec_base().enc < 32 && mem.spec_offset_imm().raw < 0x200,
            A64Insn::LdrImmGenLdr64LdstImmpost { rt, mem } => rt.enc < 32 && mem.spec_base().enc < 32 && mem.spec_offset_imm().raw < 0x200,
            A64Insn::LdrImmGenLdr32LdstImmpre { rt, mem } => rt.enc < 32 && mem.spec_base().enc < 32 && mem.spec_offset_imm().raw < 0x200,
            A64Insn::LdrImmGenLdr64LdstImmpre { rt, mem } => rt.enc < 32 && mem.spec_base().enc < 32 && mem.spec_offset_imm().raw < 0x200,
            A64Insn::LdrImmGenLdr32LdstPos { rt, mem } => rt.enc < 32 && mem.spec_base().enc < 32 && mem.spec_offset_imm().raw < 0x1000,
            A64Insn::LdrImmGenLdr64LdstPos { rt, mem } => rt.enc < 32 && mem.spec_base().enc < 32 && mem.spec_offset_imm().raw < 0x1000,
            A64Insn::StrImmGenStr32LdstImmpost { rt, mem } => rt.enc < 32 && mem.spec_base().enc < 32 && mem.spec_offset_imm().raw < 0x200,
            A64Insn::StrImmGenStr64LdstImmpost { rt, mem } => rt.enc < 32 && mem.spec_base().enc < 32 && mem.spec_offset_imm().raw < 0x200,
            A64Insn::StrImmGenStr32LdstImmpre { rt, mem } => rt.enc < 32 && mem.spec_base().enc < 32 && mem.spec_offset_imm().raw < 0x200,
            A64Insn::StrImmGenStr64LdstImmpre { rt, mem } => rt.enc < 32 && mem.spec_base().enc < 32 && mem.spec_offset_imm().raw < 0x200,
            A64Insn::StrImmGenStr32LdstPos { rt, mem } => rt.enc < 32 && mem.spec_base().enc < 32 && mem.spec_offset_imm().raw < 0x1000,
            A64Insn::StrImmGenStr64LdstPos { rt, mem } => rt.enc < 32 && mem.spec_base().enc < 32 && mem.spec_offset_imm().raw < 0x1000,
            A64Insn::LdpGenLdp64LdstpairPost { rt2, rt, mem } => rt2.enc < 32 && rt.enc < 32 && mem.spec_base().enc < 32 && mem.spec_offset_imm().raw < 0x80,
            A64Insn::LdpGenLdp64LdstpairPre { rt2, rt, mem } => rt2.enc < 32 && rt.enc < 32 && mem.spec_base().enc < 32 && mem.spec_offset_imm().raw < 0x80,
            A64Insn::LdpGenLdp64LdstpairOff { rt2, rt, mem } => rt2.enc < 32 && rt.enc < 32 && mem.spec_base().enc < 32 && mem.spec_offset_imm().raw < 0x80,
            A64Insn::StpGenStp64LdstpairPost { rt2, rt, mem } => rt2.enc < 32 && rt.enc < 32 && mem.spec_base().enc < 32 && mem.spec_offset_imm().raw < 0x80,
            A64Insn::StpGenStp64LdstpairPre { rt2, rt, mem } => rt2.enc < 32 && rt.enc < 32 && mem.spec_base().enc < 32 && mem.spec_offset_imm().raw < 0x80,
            A64Insn::StpGenStp64LdstpairOff { rt2, rt, mem } => rt2.enc < 32 && rt.enc < 32 && mem.spec_base().enc < 32 && mem.spec_offset_imm().raw < 0x80,
            A64Insn::NopNopHiHints {} => true,
            A64Insn::BrBr64BranchReg { rn } => rn.enc < 32,
            A64Insn::BlrBlr64BranchReg { rn } => rn.enc < 32,
            A64Insn::RetRet64rBranchReg { rn } => rn.enc < 32,
            A64Insn::SvcSvcExException { imm16 } => imm16.raw < 0x10000,
        }
    }

    /// The same operands with the register kinds and immediate shapes that
    /// decoding produces for this form.
    pub open spec fn spec_canon(self) -> A64Insn {
        match self {
            A64Insn::AdrAdrOnlyPcreladdr { immlo, immhi, rd } => A64Insn::AdrAdrOnlyPcreladdr { immlo: A64Imm { raw: immlo.raw, bits: 2, scale: 0, signed: false }, immhi: A64Imm { raw: immhi.raw, bits: 19, scale: 0, signed: false }, rd: A64Reg { enc: rd.enc, width: A64RegWidth::X64, reg31: A64Reg31Mode::Xzr } },
            A64Insn::AdrpAdrpOnlyPcreladdr { immlo, immhi, rd } => A64Insn::AdrpAdrpOnlyPcreladdr { immlo: A64Imm { raw: immlo.raw, bits: 2, scale: 0, signed: false }, immhi: A64Imm { raw: immhi.raw, bits: 19, scale: 0, signed: false }, rd: A64Reg { enc: rd.enc, width: A64RegWidth::X64, reg31: A64Reg31Mode::Xzr } },
            A64Insn::AddAddsubImmAdd32AddsubImm { sh, imm12, rn, rd } => A64Insn::AddAddsubImmAdd32AddsubImm { sh: sh, imm12: A64Imm { raw: imm12.raw, bits: 12, scale: 0, signed: false }, rn: A64Reg { enc: rn.enc, width: A64RegWidth::W32, reg31: A64Reg31Mode::Sp }, rd: A64Reg { enc: rd.enc, width: A64RegWidth::W32, reg31: A64Reg31Mode::Sp } },
            A64Insn::AddAddsubImmAdd64AddsubImm { sh, imm12, rn, rd } => A64Insn::AddAddsubImmAdd64AddsubImm { sh: sh, imm12: A64Imm { raw: imm12.raw, bits: 12, scale: 0, signed: false }, rn: A64Reg { enc: rn.enc, width: A64RegWidth::X64, reg31: A64Reg31Mode::Sp }, rd: A64Reg { enc: rd.enc, width: A64RegWidth::X64, reg31: A64Reg31Mode::Sp } },
            A64Insn::SubAddsubImmSub32AddsubImm { sh, imm12, rn, rd } => A64Insn::SubAddsubImmSub32AddsubImm { sh: sh, imm12: A64Imm { raw: imm12.raw, bits: 12, scale: 0, signed: false }, rn: A64Reg { enc: rn.enc, width: A64RegWidth::W32, reg31: A64Reg31Mode::Sp }, rd: A64Reg { enc: rd.enc, width: A64RegWidth::W32, reg31: A64Reg31Mode::Sp } },
            A64Insn::SubAddsubImmSub64AddsubImm { sh, imm12, rn, rd } => A64Insn::SubAddsubImmSub64AddsubImm { sh: sh, imm12: A64Imm { raw: imm12.raw, bits: 12, scale: 0, signed: false }, rn: A64Reg { enc: rn.enc, width: A64RegWidth::X64, reg31: A64Reg31Mode::Sp }, rd: A64Reg { enc: rd.enc, width: A64RegWidth::X64, reg31: A64Reg31Mode::Sp } },
            A64Insn::SubsAddsubImmSubs32sAddsubImm { sh, imm12, rn, rd } => A64Insn::SubsAddsubImmSubs32sAddsubImm { sh: sh, imm12: A64Imm { raw: imm12.raw, bits: 12, scale: 0, signed: false }, rn: A64Reg { enc: rn.enc, width: A64RegWidth::W32, reg31: A64Reg31Mode::Sp }, rd: A64Reg { enc: rd.enc, width: A64RegWidth::W32, reg31: A64Reg31Mode::Xzr } },
            A64Insn::SubsAddsubImmSubs64sAddsubImm { sh, imm12, rn, rd } => A64Insn::SubsAddsubImmSubs64sAddsubImm { sh: sh, imm12: A64Imm { raw: imm12.raw, bits: 12, scale: 0, signed: false }, rn: A64Reg { enc: rn.enc, width: A64RegWidth::X64, reg31: A64Reg31Mode::Sp }, rd: A64Reg { enc: rd.enc, width: A64RegWidth::X64, reg31: A64Reg31Mode::Xzr } },
            A64Insn::BUncondBOnlyBranchImm { imm26 } => A64Insn::BUncondBOnlyBranchImm { imm26: A64Imm { raw: imm26.raw, bits: 26, scale: 2, signed: true } },
            A64Insn::BlBlOnlyBranchImm { imm26 } => A64Insn::BlBlOnlyBranchImm { imm26: A64Imm { raw: imm26.raw, bits: 26, scale: 2, signed: true } },
            A64Insn::BCondBOnlyCondbranch { imm19, cond } => A64Insn::BCondBOnlyCondbranch { imm19: A64Imm { raw: imm19.raw, bits: 19, scale: 2, signed: true }, cond: cond },
            A64Insn::CbzCbz32Compbranch { imm19, rt } => A64Insn::CbzCbz32Compbranch { imm19: A64Imm { raw: imm19.raw, bits: 19, scale: 2, signed: true }, rt: A64Reg { enc: rt.enc, width: A64RegWidth::W32, reg31: A64Reg31Mode::Xzr } },
            A64Insn::CbzCbz64Compbranch { imm19, rt } => A64Insn::CbzCbz64Compbranch { imm19: A64Imm { raw: imm19.raw, bits: 19, scale: 2, signed: true }, rt: A64Reg { enc: rt.enc, width: A64RegWidth::X64, reg31: A64Reg31Mode::Xzr } },
            A64Insn::CbnzCbnz32Compbranch { imm19, rt } => A64Insn::CbnzCbnz32Compbranch { imm19: A64Imm { raw: imm19.raw, bits: 19, scale: 2, signed: true }, rt: A64Reg { enc: rt.enc, width: A64RegWidth::W32, reg31: A64Reg31Mode::Xzr } },
            A64Insn::CbnzCbnz64Compbranch { imm19, rt } => A64Insn::CbnzCbnz64Compbranch { imm19: A64Imm { raw: imm19.raw, bits: 19, scale: 2, signed: true }, rt: A64Reg { enc: rt.enc, width: A64RegWidth::X64, reg31: A64Reg31Mode::Xzr } },
            A64Insn::MovzMovz32Movewide { hw, imm16, rd } => A64Insn::MovzMovz32Movewide { hw: hw, imm16: A64Imm { raw: imm16.raw, bits: 16, scale: 0, signed: false }, rd: A64Reg { enc: rd.enc, width: A64RegWidth::W32, reg31: A64Reg31Mode::Xzr } },
            A64Insn::MovzMovz64Movewide { hw, imm16, rd } => A64Insn::MovzMovz64Movewide { hw: hw, imm16: A64Imm { raw: imm16.raw, bits: 16, scale: 0, signed: false }, rd: A64Reg { enc: rd.enc, width: A64RegWidth::X64, reg31: A64Reg31Mode::Xzr } },
            A64Insn::MovkMovk32Movewide { hw, imm16, rd } => A64Insn::MovkMovk32Movewide { hw: hw, imm16: A64Imm { raw: imm16.raw, bits: 16, scale: 0, signed: false }, rd: A64Reg { enc: rd.enc, width: A64RegWidth::W32, reg31: A64Reg31Mode::Xzr } },
            A64Insn::MovkMovk64Movewide { hw, imm16, rd } => A64Insn::MovkMovk64Movewide { hw: hw, imm16: A64Imm { raw: imm16.raw, bits: 16, scale: 0, signed: false }, rd: A64Reg { enc: rd.enc, width: A64RegWidth::X64, reg31: A64Reg31Mode::Xzr } },
            A64Insn::OrrLogShiftOrr64LogShift { shift, rm, imm6, rn, rd } => A64Insn::OrrLogShiftOrr64LogShift { shift: shift, rm: A64Reg { enc: rm.enc, width: A64RegWidth::X64, reg31: A64Reg31Mode::Xzr }, imm6: A64Imm { raw: imm6.raw, bits: 6, scale: 0, signed: false }, rn: A64Reg { enc: rn.enc, width: A64RegWidth::X64, reg31: A64Reg31Mode::Xzr }, rd: A64Reg { enc: rd.enc, width: A64RegWidth::X64, reg31: A64Reg31Mode::Xzr } },
            A64Insn::TbzTbzOnlyTestbranch { b5, b40, imm14, rt } => A64Insn::TbzTbzOnlyTestbranch { b5: b5, b40: b40, imm14: A64Imm { raw: imm14.raw, bits: 14, scale: 2, signed: true }, rt: A64Reg { enc: rt.enc, width: A64RegWidth::Unknown, reg31: A64Reg31Mode::Xzr } },
            A64Insn::TbnzTbnzOnlyTestbranch { b5, b40, imm14, rt } => A64Insn::TbnzTbnzOnlyTestbranch { b5: b5, b40: b40, imm14: A64Imm { raw: imm14.raw, bits: 14, scale: 2, signed: true }, rt: A64Reg { enc: rt.enc, width: A64RegWidth::Unknown, reg31: A64Reg31Mode::Xzr } },
            A64Insn::LdrImmGenLdr32LdstImmpost { rt, mem } => A64Insn::LdrImmGenLdr32LdstImmpost { rt: A64Reg { enc: rt.enc, width: A64RegWidth::W32, reg31: A64Reg31Mode::Xzr }, mem: A64Mem::PostIndex { base: A64Reg { enc: mem.spec_base().enc, width: A64RegWidth::X64, reg31: A64Reg31Mode::Sp }, offset: A64Imm { raw: mem.spec_offset_imm().raw, bits: 9, scale: 0, signed: true } } },
            A64Insn::LdrImmGenLdr64LdstImmpost { rt, mem } => A64Insn::LdrImmGenLdr64LdstImmpost { rt: A64Reg { enc: rt.enc, width: A64RegWidth::X64, reg31: A64Reg31Mode::Xzr }, mem: A64Mem::PostIndex { base: A64Reg { enc: mem.spec_base().enc, width: A64RegWidth::X64, reg31: A64Reg31Mode::Sp }, offset: A64Imm { raw: mem.spec_offset_imm().raw, bits: 9, scale: 0, signed: true } } },
            A64Insn::LdrImmGenLdr32LdstImmpre { rt, mem } => A64Insn::LdrImmGenLdr32LdstImmpre { rt: A64Reg { enc: rt.enc, width: A64RegWidth::W32, reg31: A64Reg31Mode::Xzr }, mem: A64Mem::PreIndex { base: A64Reg { enc: mem.spec_base().enc, width: A64RegWidth::X64, reg31: A64Reg31Mode::Sp }, offset: A64Imm { raw: mem.spec_offset_imm().raw, bits: 9, scale: 0, signed: true } } },
            A64Insn::LdrImmGenLdr64LdstImmpre { rt, mem } => A64Insn::LdrImmGenLdr64LdstImmpre { rt: A64Reg { enc: rt.enc, width: A64RegWidth::X64, reg31: A64Reg31Mode::Xzr }, mem: A64Mem::PreIndex { base: A64Reg { enc: mem.spec_base().enc, width: A64RegWidth::X64, reg31: A64Reg31Mode::Sp }, offset: A64Imm { raw: mem.spec_offset_imm().raw, bits: 9, scale: 0, signed: true } } },
            A64Insn::LdrImmGenLdr32LdstPos { rt, mem } => A64Insn::LdrImmGenLdr32LdstPos { rt: A64Reg { enc: rt.enc, width: A64RegWidth::W32, reg31: A64Reg31Mode::Xzr }, mem: A64Mem::Offset { base: A64Reg { enc: mem.spec_base().enc, width: A64RegWidth::X64, reg31: A64Reg31Mode::Sp }, offset: A64Imm { raw: mem.spec_offset_imm().raw, bits: 12, scale: 2, signed: false } } },
            A64Insn::LdrImmGenLdr64LdstPos { rt, mem } => A64Insn::LdrImmGenLdr64LdstPos { rt: A64Reg { enc: rt.enc, width: A64RegWidth::X64, reg31: A64Reg31Mode::Xzr }, mem: A64Mem::Offset { base: A64Reg { enc: mem.spec_base().enc, width: A64RegWidth::X64, reg31: A64Reg31Mode::Sp }, offset: A64Imm { raw: mem.spec_offset_imm().raw, bits: 12, scale: 3, signed: false } } },
            A64Insn::StrImmGenStr32LdstImmpost { rt, mem } => A64Insn::StrImmGenStr32LdstImmpost { rt: A64Reg { enc: rt.enc, width: A64RegWidth::W32, reg31: A64Reg31Mode::Xzr }, mem: A64Mem::PostIndex { base: A64Reg { enc: mem.spec_base().enc, width: A64RegWidth::X64, reg31: A64Reg31Mode::Sp }, offset: A64Imm { raw: mem.spec_offset_imm().raw, bits: 9, scale: 0, signed: true } } },
            A64Insn::StrImmGenStr64LdstImmpost { rt, mem } => A64Insn::StrImmGenStr64LdstImmpost { rt: A64Reg { enc: rt.enc, width: A64RegWidth::X64, reg31: A64Reg31Mode::Xzr }, mem: A64Mem::PostIndex { base: A64Reg { enc: mem.spec_base().enc, width: A64RegWidth::X64, reg31: A64Reg31Mode::Sp }, offset: A64Imm { raw: mem.spec_offset_imm().raw, bits: 9, scale: 0, signed: true } } },
            A64Insn::StrImmGenStr32LdstImmpre { rt, mem } => A64Insn::StrImmGenStr32LdstImmpre { rt: A64Reg { enc: rt.enc, width: A64RegWidth::W32, reg31: A64Reg31Mode::Xzr }, mem: A64Mem::PreIndex { base: A64Reg { enc: mem.spec_base().enc, width: A64RegWidth::X64, reg31: A64Reg31Mode::Sp }, offset: A64Imm { raw: mem.spec_offset_imm().raw, bits: 9, scale: 0, signed: true } } },
            A64Insn::StrImmGenStr64LdstImmpre { rt, mem } => A64Insn::StrImmGenStr64LdstImmpre { rt: A64Reg { enc: rt.enc, width: A64RegWidth::X64, reg31: A64Reg31Mode::Xzr }, mem: A64Mem::PreIndex { base: A64Reg { enc: mem.spec_base().enc, width: A64RegWidth::X64, reg31: A64Reg31Mode::Sp }, offset: A64Imm { raw: mem.spec_offset_imm().raw, bits: 9, scale: 0, signed: true } } },
            A64Insn::StrImmGenStr32LdstPos { rt, mem } => A64Insn::StrImmGenStr32LdstPos { rt: A64Reg { enc: rt.enc, width: A64RegWidth::W32, reg31: A64Reg31Mode::Xzr }, mem: A64Mem::Offset { base: A64Reg { enc: mem.spec_base().enc, width: A64RegWidth::X64, reg31: A64Reg31Mode::Sp }, offset: A64Imm { raw: mem.spec_offset_imm().raw, bits: 12, scale: 2, signed: false } } },
            A64Insn::StrImmGenStr64LdstPos { rt, mem } => A64Insn::StrImmGenStr64LdstPos { rt: A64Reg { enc: rt.enc, width: A64RegWidth::X64, reg31: A64Reg31Mode::Xzr }, mem: A64Mem::Offset { base: A64Reg { enc: mem.spec_base().enc, width: A64RegWidth::X64, reg31: A64Reg31Mode::Sp }, offset: A64Imm { raw: mem.spec_offset_imm().raw, bits: 12, scale: 3, signed: false } } },
            A64Insn::LdpGenLdp64LdstpairPost { rt2, rt, mem } => A64Insn::LdpGenLdp64LdstpairPost { rt2: A64Reg { enc: rt2.enc, width: A64RegWidth::X64, reg31: A64Reg31Mode::Xzr }, rt: A64Reg { enc: rt.enc, width: A64RegWidth::X64, reg31: A64Reg31Mode::Xzr }, mem: A64Mem::PostIndex { base: A64Reg { enc: mem.spec_base().enc, width: A64RegWidth::X64, reg31: A64Reg31Mode::Sp }, offset: A64Imm { raw: mem.spec_offset_imm().raw, bits: 7, scale: 3, signed: true } } },
            A64Insn::LdpGenLdp64LdstpairPre { rt2, rt, mem } => A64Insn::LdpGenLdp64LdstpairPre { rt2: A64Reg { enc: rt2.enc, width: A64RegWidth::X64, reg31: A64Reg31Mode::Xzr }, rt: A64Reg { enc: rt.enc, width: A64RegWidth::X64, reg31: A64Reg31Mode::Xzr }, mem: A64Mem::PreIndex { base: A64Reg { enc: mem.spec_base().enc, width: A64RegWidth::X64, reg31: A64Reg31Mode::Sp }, offset: A64Imm { raw: mem.spec_offset_imm().raw, bits: 7, scale: 3, signed: true } } },
            A64Insn::LdpGenLdp64LdstpairOff { rt2, rt, mem } => A64Insn::LdpGenLdp64LdstpairOff { rt2: A64Reg { enc: rt2.enc, width: A64RegWidth::X64, reg31: A64Reg31Mode::Xzr }, rt: A64Reg { enc: rt.enc, width: A64RegWidth::X64, reg31: A64Reg31Mode::Xzr }, mem: A64Mem::Offset { base: A64Reg { enc: mem.spec_base().enc, width: A64RegWidth::X64, reg31: A64Reg31Mode::Sp }, offset: A64Imm { raw: mem.spec_offset_imm().raw, bits: 7, scale: 3, signed: true } } },
            A64Insn::StpGenStp64LdstpairPost { rt2, rt, mem } => A64Insn::StpGenStp64LdstpairPost { rt2: A64Reg { enc: rt2.enc, width: A64RegWidth::X64, reg31: A64Reg31Mode::Xzr }, rt: A64Reg { enc: rt.enc, width: A64RegWidth::X64, reg31: A64Reg31Mode::Xzr }, mem: A64Mem::PostIndex { base: A64Reg { enc: mem.spec_base().enc, width: A64RegWidth::X64, reg31: A64Reg31Mode::Sp }, offset: A64Imm { raw: mem.spec_offset_imm().raw, bits: 7, scale: 3, signed: true } } },
            A64Insn::StpGenStp64LdstpairPre { rt2, rt, mem } => A64Insn::StpGenStp64LdstpairPre { rt2: A64Reg { enc: rt2.enc, width: A64RegWidth::X64, reg31: A64Reg31Mode::Xzr }, rt: A64Reg { enc: rt.enc, width: A64RegWidth::X64, reg31: A64Reg31Mode::Xzr }, mem: A64Mem::PreIndex { base: A64Reg { enc: mem.spec_base().enc, width: A64RegWidth::X64, reg31: A64Reg31Mode::Sp }, offset: A64Imm { raw: mem.spec_offset_imm().raw, bits: 7, scale: 3, signed: true } } },
            A64Insn::StpGenStp64LdstpairOff { rt2, rt, mem } => A64Insn::StpGenStp64LdstpairOff { rt2: A64Reg { enc: rt2.enc, width: A64RegWidth::X64, reg31: A64Reg31Mode::Xzr }, rt: A64Reg { enc: rt.enc, width: A64RegWidth::X64, reg31: A64Reg31Mode::Xzr }, mem: A64Mem::Offset { base: A64Reg { enc: mem.spec_base().enc, width: A64RegWidth::X64, reg31: A64Reg31Mode::Sp }, offset: A64Imm { raw: mem.spec_offset_imm().raw, bits: 7, scale: 3, signed: true } } },
            A64Insn::NopNopHiHints {} => A64Insn::NopNopHiHints {},
            A64Insn::BrBr64BranchReg { rn } => A64Insn::BrBr64BranchReg { rn: A64Reg { enc: rn.enc, width: A64RegWidth::X64, reg31: A64Reg31Mode::Xzr } },
            A64Insn::BlrBlr64BranchReg { rn } => A64Insn::BlrBlr64BranchReg { rn: A64Reg { enc: rn.enc, width: A64RegWidth::X64, reg31: A64Reg31Mode::Xzr } },
            A64Insn::RetRet64rBranchReg { rn } => A64Insn::RetRet64rBranchReg { rn: A64Reg { enc: rn.enc, width: A64RegWidth::X64, reg31: A64Reg31Mode::Xzr } },
            A64Insn::SvcSvcExException { imm16 } => A64Insn::SvcSvcExException { imm16: A64Imm { raw: imm16.raw, bits: 16, scale: 0, signed: false } },
        }
    }

    /// The instruction is in the form that decoding produces.
    pub open spec fn spec_is_canonical(self) -> bool {
        self.spec_canon() == self
    }

    /// The instruction word: the fixed bits of the form with each operand
    /// field in its place.
    pub open spec fn spec_word(self) -> u32 {
        match self {
            A64Insn::AdrAdrOnlyPcreladdr { immlo, immhi, rd } => fields::pack_pcrel(0, immlo.raw, immhi.raw, (rd.enc as u32)),
            A64Insn::AdrpAdrpOnlyPcreladdr { immlo, immhi, rd } => fields::pack_pcrel(1, immlo.raw, immhi.raw, (rd.enc as u32)),
            A64Insn::AddAddsubImmAdd32AddsubImm { sh, imm12, rn, rd } => fields::pack_addsub(0x11, (sh as u32), imm12.raw, (rn.enc as u32), (rd.enc as u32)),
            A64Insn::AddAddsubImmAdd64AddsubImm { sh, imm12, rn, rd } => fields::pack_addsub(0x91, (sh as u32), imm12.raw, (rn.enc as u32), (rd.enc as u32)),
            A64Insn::SubAddsubImmSub32AddsubImm { sh, imm12, rn, rd } => fields::pack_addsub(0x51, (sh as u32), imm12.raw, (rn.enc as u32), (rd.enc as u32)),
            A64Insn::SubAddsubImmSub64AddsubImm { sh, imm12, rn, rd } => fields::pack_addsub(0xD1, (sh as u32), imm12.raw, (rn.enc as u32), (rd.enc as u32)),
            A64Insn::SubsAddsubImmSubs32sAddsubImm { sh, imm12, rn, rd } => fields::pack_addsub(0x71, (sh as u32), imm12.raw, (rn.enc as u32), (rd.enc as u32)),
            A64Insn::SubsAddsubImmSubs64sAddsubImm { sh, imm12, rn, rd } => fields::pack_addsub(0xF1, (sh as u32), imm12.raw, (rn.enc as u32), (rd.enc as u32)),
            A64Insn::BUncondBOnlyBranchImm { imm26 } => fields::pack_bimm(0x5, imm26.raw),
            A64Insn::BlBlOnlyBranchImm { imm26 } => fields::pack_bimm(0x25, imm26.raw),
            A64Insn::BCondBOnlyCondbranch { imm19, cond } => fields::pack_bcond(imm19.raw, (cond as u32)),
            A64Insn::CbzCbz32Compbranch { imm19, rt } => fields::pack_cb(0x34, imm19.raw, (rt.enc as u32)),
            A64Insn::CbzCbz64Compbranch { imm19, rt } => fields::pack_cb(0xB4, imm19.raw, (rt.enc as u32)),
            A64Insn::CbnzCbnz32Compbranch { imm19, rt } => fields::pack_cb(0x35, imm19.raw, (rt.enc as u32)),
            A64Insn::CbnzCbnz64Compbranch { imm19, rt } => fields::pack_cb(0xB5, imm19.raw, (rt.enc as u32)),
            A64Insn::MovzMovz32Movewide { hw, imm16, rd } => fields::pack_movw(0x52, (hw as u32), imm16.raw, (rd.enc as u32)),
            A64Insn::MovzMovz64Movewide { hw, imm16, rd } => fields::pack_movw(0xD2, (hw as u32), imm16.raw, (rd.enc as u32)),
            A64Insn::MovkMovk32Movewide { hw, imm16, rd } => fields::pack_movw(0x72, (hw as u32), imm16.raw, (rd.enc as u32)),
            A64Insn::MovkMovk64Movewide { hw, imm16, rd } => fields::pack_movw(0xF2, (hw as u32), imm16.raw, (rd.enc as u32)),
            A64Insn::OrrLogShiftOrr64LogShift { shift, rm, imm6, rn, rd } => fields::pack_logsh(0xAA, (shift as u32), (rm.enc as u32), imm6.raw, (rn.enc as u32), (rd.enc as u32)),
            A64Insn::TbzTbzOnlyTestbranch { b5, b40, imm14, rt } => fields::pack_tb((b5 as u32), 0x36, (b40 as u32), imm14.raw, (rt.enc as u32)),
            A64Insn::TbnzTbnzOnlyTestbranch { b5, b40, imm14, rt } => fields::pack_tb((b5 as u32), 0x37, (b40 as u32), imm14.raw, (rt.enc as u32)),
            A64Insn::LdrImmGenLdr32LdstImmpost { rt, mem } => fields::pack_ldst9(0xB8, 1, mem.spec_offset_imm().raw, 1, (mem.spec_base().enc as u32), (rt.enc as u32)),
            A64Insn::LdrImmGenLdr64LdstImmpost { rt, mem } => fields::pack_ldst9(0xF8, 1, mem.spec_offset_imm().raw, 1, (mem.spec_base().enc as u32), (rt.enc as u32)),
            A64Insn::LdrImmGenLdr32LdstImmpre { rt, mem } => fields::pack_ldst9(0xB8, 1, mem.spec_offset_imm().raw, 3, (mem.spec_base().enc as u32), (rt.enc as u32)),
            A64Insn::LdrImmGenLdr64LdstImmpre { rt, mem } => fields::pack_ldst9(0xF8, 1, mem.spec_offset_imm().raw, 3, (mem.spec_base().enc as u32), (rt.enc as u32)),
            A64Insn::LdrImmGenLdr32LdstPos { rt, mem } => fields::pack_ldstpos(0xB9, 1, mem.spec_offset_imm().raw, (mem.spec_base().enc as u32), (rt.enc as u32)),
            A64Insn::LdrImmGenLdr64LdstPos { rt, mem } => fields::pack_ldstpos(0xF9, 1, mem.spec_offset_imm().raw, (mem.spec_base().enc as u32), (rt.enc as u32)),
            A64Insn::StrImmGenStr32LdstImmpost { rt, mem } => fields::pack_ldst9(0xB8, 0, mem.spec_offset_imm().raw, 1, (mem.spec_base().enc as u32), (rt.enc as u32)),
            A64Insn::StrImmGenStr64LdstImmpost { rt, mem } => fields::pack_ldst9(0xF8, 0, mem.spec_offset_imm().raw, 1, (mem.spec_base().enc as u32), (rt.enc as u32)),
            A64Insn::StrImmGenStr32LdstImmpre { rt, mem } => fields::pack_ldst9(0xB8, 0, mem.spec_offset_imm().raw, 3, (mem.spec_base().enc as u32), (rt.enc as u32)),
            A64Insn::StrImmGenStr64LdstImmpre { rt, mem } => fields::pack_ldst9(0xF8, 0, mem.spec_offset_imm().raw, 3, (mem.spec_base().enc as u32), (rt.enc as u32)),
            A64Insn::StrImmGenStr32LdstPos { rt, mem } => fields::pack_ldstpos(0xB9, 0, mem.spec_offset_imm().raw, (mem.spec_base().enc as u32), (rt.enc as u32)),
            A64Insn::StrImmGenStr64LdstPos { rt, mem } => fields::pack_ldstpos(0xF9, 0, mem.spec_offset_imm().raw, (mem.spec_base().enc as u32), (rt.enc as u32)),
            A64Insn::LdpGenLdp64LdstpairPost { rt2, rt, mem } => fields::pack_pair(0xA8, 3, mem.spec_offset_imm().raw, (rt2.enc as u32), (mem.spec_base().enc as u32), (rt.enc as u32)),
            A64Insn::LdpGenLdp64LdstpairPre { rt2, rt, mem } => fields::pack_pair(0xA9, 3, mem.spec_offset_imm().raw, (rt2.enc as u32), (mem.spec_base().enc as u32), (rt.enc as u32)),
            A64Insn::LdpGenLdp64LdstpairOff { rt2, rt, mem } => fields::pack_pair(0xA9, 1, mem.spec_offset_imm().raw, (rt2.enc as u32), (mem.spec_base().enc as u32), (rt.enc as u32)),
            A64Insn::StpGenStp64LdstpairPost { rt2, rt, mem } => fields::pack_pair(0xA8, 2, mem.spec_offset_imm().raw, (rt2.enc as u32), (mem.spec_base().enc as u32), (rt.enc as u32)),
            A64Insn::StpGenStp64LdstpairPre { rt2, rt, mem } => fields::pack_pair(0xA9, 2, mem.spec_offset_imm().raw, (rt2.enc as u32), (mem.spec_base().enc as u32), (rt.enc as u32)),
            A64Insn::StpGenStp64LdstpairOff { rt2, rt, mem } => fields::pack_pair(0xA9, 0, mem.spec_offset_imm().raw, (rt2.enc as u32), (mem.spec_base().enc as u32), (rt.enc as u32)),
            A64Insn::NopNopHiHints {} => 0xD503_201Fu32,
            A64Insn::BrBr64BranchReg { rn } => fields::pack_breg(0x3587C0, (rn.enc as u32)),
            A64Insn::BlrBlr64BranchReg { rn } => fields::pack_breg(0x358FC0, (rn.enc as u32)),
            A64Insn::RetRet64rBranchReg { rn } => fields::pack_breg(0x3597C0, (rn.enc as u32)),
            A64Insn::SvcSvcExException { imm16 } => fields::pack_svc(imm16.raw),
        }
    }

    /// The error for the first operand, in declaration order, that does not fit.
    pub open spec fn spec_encode_error(self) -> A64EncodeError {
        match self {
            A64Insn::AdrAdrOnlyPcreladdr { immlo, immhi, rd } => if !(immlo.raw < 0x4) { A64EncodeError::FieldOutOfRange { insn: "ADR.ADR_only_pcreladdr", field: "immlo", value: immlo.raw as u64, width: 2 } } else { if !(immhi.raw < 0x80000) { A64EncodeError::FieldOutOfRange { insn: "ADR.ADR_only_pcreladdr", field: "immhi", value: immhi.raw as u64, width: 19 } } else { A64EncodeError::FieldOutOfRange { insn: "ADR.ADR_only_pcreladdr", field: "Rd", value: rd.enc as u64, width: 5 } } },
            A64Insn::AdrpAdrpOnlyPcreladdr { immlo, immhi, rd } => if !(immlo.raw < 0x4) { A64EncodeError::FieldOutOfRange { insn: "ADRP.ADRP_only_pcreladdr", field: "immlo", value: immlo.raw as u64, width: 2 } } else { if !(immhi.raw < 0x80000) { A64EncodeError::FieldOutOfRange { insn: "ADRP.ADRP_only_pcreladdr", field: "immhi", value: immhi.raw as u64, width: 19 } } else { A64EncodeError::FieldOutOfRange { insn: "ADRP.ADRP_only_pcreladdr", field: "Rd", value: rd.enc as u64, width: 5 } } },
            A64Insn::AddAddsubImmAdd32AddsubImm { sh, imm12, rn, rd } => if !(sh < 0x2) { A64EncodeError::FieldOutOfRange { insn: "ADD_addsub_imm.ADD_32_addsub_imm", field: "sh", value: sh as u64, width: 1 } } else { if !(imm12.raw < 0x1000) { A64EncodeError::FieldOutOfRange { insn: "ADD_addsub_imm.ADD_32_addsub_imm", field: "imm12", value: imm12.raw as u64, width: 12 } } else { if !(rn.enc < 32) { A64EncodeError::FieldOutOfRange { insn: "ADD_addsub_imm.ADD_32_addsub_imm", field: "Rn", value: rn.enc as u64, width: 5 } } else { A64EncodeError::FieldOutOfRange { insn: "ADD_addsub_imm.ADD_32_addsub_imm", field: "Rd", value: rd.enc as u64, width: 5 } } } },
            A64Insn::AddAddsubImmAdd64AddsubImm { sh, imm12, rn, rd } => if !(sh < 0x2) { A64EncodeError::FieldOutOfRange { insn: "ADD_addsub_imm.ADD_64_addsub_imm", field: "sh", value: sh as u64, width: 1 } } else { if !(imm12.raw < 0x1000) { A64EncodeError::FieldOutOfRange { insn: "ADD_addsub_imm.ADD_64_addsub_imm", field: "imm12", value: imm12.raw as u64, width: 12 } } else { if !(rn.enc < 32) { A64EncodeError::FieldOutOfRange { insn: "ADD_addsub_imm.ADD_64_addsub_imm", field: "Rn", value: rn.enc as u64, width: 5 } } else { A64EncodeError::FieldOutOfRange { insn: "ADD_addsub_imm.ADD_64_addsub_imm", field: "Rd", value: rd.enc as u64, width: 5 } } } },
            A64Insn::SubAddsubImmSub32AddsubImm { sh, imm12, rn, rd } => if !(sh < 0x2) { A64EncodeError::FieldOutOfRange { insn: "SUB_addsub_imm.SUB_32_addsub_imm", field: "sh", value: sh as u64, width: 1 } } else { if !(imm12.raw < 0x1000) { A64EncodeError::FieldOutOfRange { insn: "SUB_addsub_imm.SUB_32_addsub_imm", field: "imm12", value: imm12.raw as u64, width: 12 } } else { if !(rn.enc < 32) { A64EncodeError::FieldOutOfRange { insn: "SUB_addsub_imm.SUB_32_addsub_imm", field: "Rn", value: rn.enc as u64, width: 5 } } else { A64EncodeError::FieldOutOfRange { insn: "SUB_addsub_imm.SUB_32_addsub_imm", field: "Rd", value: rd.enc as u64, width: 5 } } } },
            A64Insn::SubAddsubImmSub64AddsubImm { sh, imm12, rn, rd } => if !(sh < 0x2) { A64EncodeError::FieldOutOfRange { insn: "SUB_addsub_imm.SUB_64_addsub_imm", field: "sh", value: sh as u64, width: 1 } } else { if !(imm12.raw < 0x1000) { A64EncodeError::FieldOutOfRange { insn: "SUB_addsub_imm.SUB_64_addsub_imm", field: "imm12", value: imm12.raw as u64, width: 12 } } else { if !(rn.enc < 32) { A64EncodeError::FieldOutOfRange { insn: "SUB_addsub_imm.SUB_64_addsub_imm", field: "Rn", value: rn.enc as u64, width: 5 } } else { A64EncodeError::FieldOutOfRange { insn: "SUB_addsub_imm.SUB_64_addsub_imm", field: "Rd", value: rd.enc as u64, width: 5 } } } },
            A64Insn::SubsAddsubImmSubs32sAddsubImm { sh, imm12, rn, rd } => if !(sh < 0x2) { A64EncodeError::FieldOutOfRange { insn: "SUBS_addsub_imm.SUBS_32S_addsub_imm", field: "sh", value: sh as u64, width: 1 } } else { if !(imm12.raw < 0x1000) { A64EncodeError::FieldOutOfRange { insn: "SUBS_addsub_imm.SUBS_32S_addsub_imm", field: "imm12", value: imm12.raw as u64, width: 12 } } else { if !(rn.enc < 32) { A64EncodeError::FieldOutOfRange { insn: "SUBS_addsub_imm.SUBS_32S_addsub_imm", field: "Rn", value: rn.enc as u64, width: 5 } } else { A64EncodeError::FieldOutOfRange { insn: "SUBS_addsub_imm.SUBS_32S_addsub_imm", field: "Rd", value: rd.enc as u64, width: 5 } } } },
            A64Insn::SubsAddsubImmSubs64sAddsubImm { sh, imm12, rn, rd } => if !(sh < 0x2) { A64EncodeError::FieldOutOfRange { insn: "SUBS_addsub_imm.SUBS_64S_addsub_imm", field: "sh", value: sh as u64, width: 1 } } else { if !(imm12.raw < 0x1000) { A64EncodeError::FieldOutOfRange { insn: "SUBS_addsub_imm.SUBS_64S_addsub_imm", field: "imm12", value: imm12.raw as u64, width: 12 } } else { if !(rn.enc < 32) { A64EncodeError::FieldOutOfRange { insn: "SUBS_addsub_imm.SUBS_64S_addsub_imm", field: "Rn", value: rn.enc as u64, width: 5 } } else { A64EncodeError::FieldOutOfRange { insn: "SUBS_addsub_imm.SUBS_64S_addsub_imm", field: "Rd", value: rd.enc as u64, width: 5 } } } },
            A64Insn::BUncondBOnlyBranchImm { imm26 } => A64EncodeError::FieldOutOfRange { insn: "B_uncond.B_only_branch_imm", field: "imm26", value: imm26.raw as u64, width: 26 },
            A64Insn::BlBlOnlyBranchImm { imm26 } => A64EncodeError::FieldOutOfRange { insn: "BL.BL_only_branch_imm", field: "imm26", value: imm26.raw as u64, width: 26 },
            A64Insn::BCondBOnlyCondbranch { imm19, cond } => if !(imm19.raw < 0x80000) { A64EncodeError::FieldOutOfRange { insn: "B_cond.B_only_condbranch", field: "imm19", value: imm19.raw as u64, width: 19 } } else { A64EncodeError::FieldOutOfRange { insn: "B_cond.B_only_condbranch", field: "cond", value: cond as u64, width: 4 } },
            A64Insn::CbzCbz32Compbranch { imm19, rt } => if !(imm19.raw < 0x80000) { A64EncodeError::FieldOutOfRange { insn: "CBZ.CBZ_32_compbranch", field: "imm19", value: imm19.raw as u64, width: 19 } } else { A64EncodeError::FieldOutOfRange { insn: "CBZ.CBZ_32_compbranch", field: "Rt", value: rt.enc as u64, width: 5 } },
            A64Insn::CbzCbz64Compbranch { imm19, rt } => if !(imm19.raw < 0x80000) { A64EncodeError::FieldOutOfRange { insn: "CBZ.CBZ_64_compbranch", field: "imm19", value: imm19.raw as u64, width: 19 } } else { A64EncodeError::FieldOutOfRange { insn: "CBZ.CBZ_64_compbranch", field: "Rt", value: rt.enc as u64, width: 5 } },
            A64Insn::CbnzCbnz32Compbranch { imm19, rt } => if !(imm19.raw < 0x80000) { A64EncodeError::FieldOutOfRange { insn: "CBNZ.CBNZ_32_compbranch", field: "imm19", value: imm19.raw as u64, width: 19 } } else { A64EncodeError::FieldOutOfRange { insn: "CBNZ.CBNZ_32_compbranch", field: "Rt", value: rt.enc as u64, width: 5 } },
            A64Insn::CbnzCbnz64Compbranch { imm19, rt } => if !(imm19.raw < 0x80000) { A64EncodeError::FieldOutOfRange { insn: "CBNZ.CBNZ_64_compbranch", field: "imm19", value: imm19.raw as u64, width: 19 } } else { A64EncodeError::FieldOutOfRange { insn: "CBNZ.CBNZ_64_compbranch", field: "Rt", value: rt.enc as u64, width: 5 } },
            A64Insn::MovzMovz32Movewide { hw, imm16, rd } => if !(hw < 0x4) { A64EncodeError::FieldOutOfRange { insn: "MOVZ.MOVZ_32_movewide", field: "hw", value: hw as u64, width: 2 } } else { if !(imm16.raw < 0x10000) { A64EncodeError::FieldOutOfRange { insn: "MOVZ.MOVZ_32_movewide", field: "imm16", value: imm16.raw as u64, width: 16 } } else { A64EncodeError::FieldOutOfRange { insn: "MOVZ.MOVZ_32_movewide", field: "Rd", value: rd.enc as u64, width: 5 } } },
            A64Insn::MovzMovz64Movewide { hw, imm16, rd } => if !(hw < 0x4) { A64EncodeError::FieldOutOfRange { insn: "MOVZ.MOVZ_64_movewide", field: "hw", value: hw as u64, width: 2 } } else { if !(imm16.raw < 0x10000) { A64EncodeError::FieldOutOfRange { insn: "MOVZ.MOVZ_64_movewide", field: "imm16", value: imm16.raw as u64, width: 16 } } else { A64EncodeError::FieldOutOfRange { insn: "MOVZ.MOVZ_64_movewide", field: "Rd", value: rd.enc as u64, width: 5 } } },
            A64Insn::MovkMovk32Movewide { hw, imm16, rd } => if !(hw < 0x4) { A64EncodeError::FieldOutOfRange { insn: "MOVK.MOVK_32_movewide", field: "hw", value: hw as u64, width: 2 } } else { if !(imm16.raw < 0x10000) { A64EncodeError::FieldOutOfRange { insn: "MOVK.MOVK_32_movewide", field: "imm16", value: imm16.raw as u64, width: 16 } } else { A64EncodeError::FieldOutOfRange { insn: "MOVK.MOVK_32_movewide", field: "Rd", value: rd.enc as u64, width: 5 } } },
            A64Insn::MovkMovk64Movewide { hw, imm16, rd } => if !(hw < 0x4) { A64EncodeError::FieldOutOfRange { insn: "MOVK.MOVK_64_movewide", field: "hw", value: hw as u64, width: 2 } } else { if !(imm16.raw < 0x10000) { A64EncodeError::FieldOutOfRange { insn: "MOVK.MOVK_64_movewide", field: "imm16", value: imm16.raw as u64, width: 16 } } else { A64EncodeError::FieldOutOfRange { insn: "MOVK.MOVK_64_movewide", field: "Rd", value: rd.enc as u64, width: 5 } } },
            A64Insn::OrrLogShiftOrr64LogShift { shift, rm, imm6, rn, rd } => if !(shift < 0x4) { A64EncodeError::FieldOutOfRange { insn: "ORR_log_shift.ORR_64_log_shift", field: "shift", value: shift as u64, width: 2 } } else { if !(rm.enc < 32) { A64EncodeError::FieldOutOfRange { insn: "ORR_log_shift.ORR_64_log_shift", field: "Rm", value: rm.enc as u64, width: 5 } } else { if !(imm6.raw < 0x40) { A64EncodeError::FieldOutOfRange { insn: "ORR_log_shift.ORR_64_log_shift", field: "imm6", value: imm6.raw as u64, width: 6 } } else { if !(rn.enc < 32) { A64EncodeError::FieldOutOfRange { insn: "ORR_log_shift.ORR_64_log_shift", field: "Rn", value: rn.enc as u64, width: 5 } } else { A64EncodeError::FieldOutOfRange { insn: "ORR_log_shift.ORR_64_log_shift", field: "Rd", value: rd.enc as u64, width: 5 } } } } },
            A64Insn::TbzTbzOnlyTestbranch { b5, b40, imm14, rt } => if !(b5 < 0x2) { A64EncodeError::FieldOutOfRange { insn: "TBZ.TBZ_only_testbranch", field: "b5", value: b5 as u64, width: 1 } } else { if !(b40 < 0x20) { A64EncodeError::FieldOutOfRange { insn: "TBZ.TBZ_only_testbranch", field: "b40", value: b40 as u64, width: 5 } } else { if !(imm14.raw < 0x4000) { A64EncodeError::FieldOutOfRange { insn: "TBZ.TBZ_only_testbranch", field: "imm14", value: imm14.raw as u64, width: 14 } } else { A64EncodeError::FieldOutOfRange { insn: "TBZ.TBZ_only_testbranch", field: "Rt", value: rt.enc as u64, width: 5 } } } },
            A64Insn::TbnzTbnzOnlyTestbranch { b5, b40, imm14, rt } => if !(b5 < 0x2) { A64EncodeError::FieldOutOfRange { insn: "TBNZ.TBNZ_only_testbranch", field: "b5", value: b5 as u64, width: 1 } } else { if !(b40 < 0x20) { A64EncodeError::FieldOutOfRange { insn: "TBNZ.TBNZ_only_testbranch", field: "b40", value: b40 as u64, width: 5 } } else { if !(imm14.raw < 0x4000) { A64EncodeError::FieldOutOfRange { insn: "TBNZ.TBNZ_only_testbranch", field: "imm14", value: imm14.raw as u64, width: 14 } } else { A64EncodeError::FieldOutOfRange { insn: "TBNZ.TBNZ_only_testbranch", field: "Rt", value: rt.enc as u64, width: 5 } } } },
            A64Insn::LdrImmGenLdr32LdstImmpost { rt, mem } => if !(rt.enc < 32) { A64EncodeError::FieldOutOfRange { insn: "LDR_imm_gen.LDR_32_ldst_immpost", field: "Rt", value: rt.enc as u64, width: 5 } } else { if !(mem.spec_base().enc < 32) { A64EncodeError::FieldOutOfRange { insn: "LDR_imm_gen.LDR_32_ldst_immpost", field: "Rn", value: mem.spec_base().enc as u64, width: 5 } } else { A64EncodeError::FieldOutOfRange { insn: "LDR_imm_gen.LDR_32_ldst_immpost", field: "imm9", value: mem.spec_offset_imm().raw as u64, width: 9 } } },
            A64Insn::LdrImmGenLdr64LdstImmpost { rt, mem } => if !(rt.enc < 32) { A64EncodeError::FieldOutOfRange { insn: "LDR_imm_gen.LDR_64_ldst_immpost", field: "Rt", value: rt.enc as u64, width: 5 } } else { if !(mem.spec_base().enc < 32) { A64EncodeError::FieldOutOfRange { insn: "LDR_imm_gen.LDR_64_ldst_immpost", field: "Rn", value: mem.spec_base().enc as u64, width: 5 } } else { A64EncodeError::FieldOutOfRange { insn: "LDR_imm_gen.LDR_64_ldst_immpost", field: "imm9", value: mem.spec_offset_imm().raw as u64, width: 9 } } },
            A64Insn::LdrImmGenLdr32LdstImmpre { rt, mem } => if !(rt.enc < 32) { A64EncodeError::FieldOutOfRange { insn: "LDR_imm_gen.LDR_32_ldst_immpre", field: "Rt", value: rt.enc as u64, width: 5 } } else { if !(mem.spec_base().enc < 32) { A64EncodeError::FieldOutOfRange { insn: "LDR_imm_gen.LDR_32_ldst_immpre", field: "Rn", value: mem.spec_base().enc as u64, width: 5 } } else { A64EncodeError::FieldOutOfRange { insn: "LDR_imm_gen.LDR_32_ldst_immpre", field: "imm9", value: mem.spec_offset_imm().raw as u64, width: 9 } } },
            A64Insn::LdrImmGenLdr64LdstImmpre { rt, mem } => if !(rt.enc < 32) { A64EncodeError::FieldOutOfRange { insn: "LDR_imm_gen.LDR_64_ldst_immpre", field: "Rt", value: rt.enc as u64, width: 5 } } else { if !(mem.spec_base().enc < 32) { A64EncodeError::FieldOutOfRange { insn: "LDR_imm_gen.LDR_64_ldst_immpre", field: "Rn", value: mem.spec_base().enc as u64, width: 5 } } else { A64EncodeError::FieldOutOfRange { insn: "LDR_imm_gen.LDR_64_ldst_immpre", field: "imm9", value: mem.spec_offset_imm().raw as u64, width: 9 } } },
            A64Insn::LdrImmGenLdr32LdstPos { rt, mem } => if !(rt.enc < 32) { A64EncodeError::FieldOutOfRange { insn: "LDR_imm_gen.LDR_32_ldst_pos", field: "Rt", value: rt.enc as u64, width: 5 } } else { if !(mem.spec_base().enc < 32) { A64EncodeError::FieldOutOfRange { insn: "LDR_imm_gen.LDR_32_ldst_pos", field: "Rn", value: mem.spec_base().enc as u64, width: 5 } } else { A64EncodeError::FieldOutOfRange { insn: "LDR_imm_gen.LDR_32_ldst_pos", field: "imm12", value: mem.spec_offset_imm().raw as u64, width: 12 } } },
            A64Insn::LdrImmGenLdr64LdstPos { rt, mem } => if !(rt.enc < 32) { A64EncodeError::FieldOutOfRange { insn: "LDR_imm_gen.LDR_64_ldst_pos", field: "Rt", value: rt.enc as u64, width: 5 } } else { if !(mem.spec_base().enc < 32) { A64EncodeError::FieldOutOfRange { insn: "LDR_imm_gen.LDR_64_ldst_pos", field: "Rn", value: mem.spec_base().enc as u64, width: 5 } } else { A64EncodeError::FieldOutOfRange { insn: "LDR_imm_gen.LDR_64_ldst_pos", field: "imm12", value: mem.spec_offset_imm().raw as u64, width: 12 } } },
            A64Insn::StrImmGenStr32LdstImmpost { rt, mem } => if !(rt.enc < 32) { A64EncodeError::FieldOutOfRange { insn: "STR_imm_gen.STR_32_ldst_immpost", field: "Rt", value: rt.enc as u64, width: 5 } } else { if !(mem.spec_base().enc < 32) { A64EncodeError::FieldOutOfRange { insn: "STR_imm_gen.STR_32_ldst_immpost", field: "Rn", value: mem.spec_base().enc as u64, width: 5 } } else { A64EncodeError::FieldOutOfRange { insn: "STR_imm_gen.STR_32_ldst_immpost", field: "imm9", value: mem.spec_offset_imm().raw as u64, width: 9 } } },
            A64Insn::StrImmGenStr64LdstImmpost { rt, mem } => if !(rt.enc < 32) { A64EncodeError::FieldOutOfRange { insn: "STR_imm_gen.STR_64_ldst_immpost", field: "Rt", value: rt.enc as u64, width: 5 } } else { if !(mem.spec_base().enc < 32) { A64EncodeError::FieldOutOfRange { insn: "STR_imm_gen.STR_64_ldst_immpost", field: "Rn", value: mem.spec_base().enc as u64, width: 5 } } else { A64EncodeError::FieldOutOfRange { insn: "STR_imm_gen.STR_64_ldst_immpost", field: "imm9", value: mem.spec_offset_imm().raw as u64, width: 9 } } },
            A64Insn::StrImmGenStr32LdstImmpre { rt, mem } => if !(rt.enc < 32) { A64EncodeError::FieldOutOfRange { insn: "STR_imm_gen.STR_32_ldst_immpre", field: "Rt", value: rt.enc as u64, width: 5 } } else { if !(mem.spec_base().enc < 32) { A64EncodeError::FieldOutOfRange { insn: "STR_imm_gen.STR_32_ldst_immpre", field: "Rn", value: mem.spec_base().enc as u64, width: 5 } } else { A64EncodeError::FieldOutOfRange { insn: "STR_imm_gen.STR_32_ldst_immpre", field: "imm9", value: mem.spec_offset_imm().raw as u64, width: 9 } } },
            A64Insn::StrImmGenStr64LdstImmpre { rt, mem } => if !(rt.enc < 32) { A64EncodeError::FieldOutOfRange { insn: "STR_imm_gen.STR_64_ldst_immpre", field: "Rt", value: rt.enc as u64, width: 5 } } else { if !(mem.spec_base().enc < 32) { A64EncodeError::FieldOutOfRange { insn: "STR_imm_gen.STR_64_ldst_immpre", field: "Rn", value: mem.spec_base().enc as u64, width: 5 } } else { A64EncodeError::FieldOutOfRange { insn: "STR_imm_gen.STR_64_ldst_immpre", field: "imm9", value: mem.spec_offset_imm().raw as u64, width: 9 } } },
            A64Insn::StrImmGenStr32LdstPos { rt, mem } => if !(rt.enc < 32) { A64EncodeError::FieldOutOfRange { insn: "STR_imm_gen.STR_32_ldst_pos", field: "Rt", value: rt.enc as u64, width: 5 } } else { if !(mem.spec_base().enc < 32) { A64EncodeError::FieldOutOfRange { insn: "STR_imm_gen.STR_32_ldst_pos", field: "Rn", value: mem.spec_base().enc as u64, width: 5 } } else { A64EncodeError::FieldOutOfRange { insn: "STR_imm_gen.STR_32_ldst_pos", field: "imm12", value: mem.spec_offset_imm().raw as u64, width: 12 } } },
            A64Insn::StrImmGenStr64LdstPos { rt, mem } => if !(rt.enc < 32) { A64EncodeError::FieldOutOfRange { insn: "STR_imm_gen.STR_64_ldst_pos", field: "Rt", value: rt.enc as u64, width: 5 } } else { if !(mem.spec_base().enc < 32) { A64EncodeError::FieldOutOfRange { insn: "STR_imm_gen.STR_64_ldst_pos", field: "Rn", value: mem.spec_base().enc as u64, width: 5 } } else { A64EncodeError::FieldOutOfRange { insn: "STR_imm_gen.STR_64_ldst_pos", field: "imm12", value: mem.spec_offset_imm().raw as u64, width: 12 } } },
            A64Insn::LdpGenLdp64LdstpairPost { rt2, rt, mem } => if !(rt2.enc < 32) { A64EncodeError::FieldOutOfRange { insn: "LDP_gen.LDP_64_ldstpair_post", field: "Rt2", value: rt2.enc as u64, width: 5 } } else { if !(rt.enc < 32) { A64EncodeError::FieldOutOfRange { insn: "LDP_gen.LDP_64_ldstpair_post", field: "Rt", value: rt.enc as u64, width: 5 } } else { if !(mem.spec_base().enc < 32) { A64EncodeError::FieldOutOfRange { insn: "LDP_gen.LDP_64_ldstpair_post", field: "Rn", value: mem.spec_base().enc as u64, width: 5 } } else { A64EncodeError::FieldOutOfRange { insn: "LDP_gen.LDP_64_ldstpair_post", field: "imm7", value: mem.spec_offset_imm().raw as u64, width: 7 } } } },
            A64Insn::LdpGenLdp64LdstpairPre { rt2, rt, mem } => if !(rt2.enc < 32) { A64EncodeError::FieldOutOfRange { insn: "LDP_gen.LDP_64_ldstpair_pre", field: "Rt2", value: rt2.enc as u64, width: 5 } } else { if !(rt.enc < 32) { A64EncodeError::FieldOutOfRange { insn: "LDP_gen.LDP_64_ldstpair_pre", field: "Rt", value: rt.enc as u64, width: 5 } } else { if !(mem.spec_base().enc < 32) { A64EncodeError::FieldOutOfRange { insn: "LDP_gen.LDP_64_ldstpair_pre", field: "Rn", value: mem.spec_base().enc as u64, width: 5 } } else { A64EncodeError::FieldOutOfRange { insn: "LDP_gen.LDP_64_ldstpair_pre", field: "imm7", value: mem.spec_offset_imm().raw as u64, width: 7 } } } },
            A64Insn::LdpGenLdp64LdstpairOff { rt2, rt, mem } => if !(rt2.enc < 32) { A64EncodeError::FieldOutOfRange { insn: "LDP_gen.LDP_64_ldstpair_off", field: "Rt2", value: rt2.enc as u64, width: 5 } } else { if !(rt.enc < 32) { A64EncodeError::FieldOutOfRange { insn: "LDP_gen.LDP_64_ldstpair_off", field: "Rt", value: rt.enc as u64, width: 5 } } else { if !(mem.spec_base().enc < 32) { A64EncodeError::FieldOutOfRange { insn: "LDP_gen.LDP_64_ldstpair_off", field: "Rn", value: mem.spec_base().enc as u64, width: 5 } } else { A64EncodeError::FieldOutOfRange { insn: "LDP_gen.LDP_64_ldstpair_off", field: "imm7", value: mem.spec_offset_imm().raw as u64, width: 7 } } } },
            A64Insn::StpGenStp64LdstpairPost { rt2, rt, mem } => if !(rt2.enc < 32) { A64EncodeError::FieldOutOfRange { insn: "STP_gen.STP_64_ldstpair_post", field: "Rt2", value: rt2.enc as u64, width: 5 } } else { if !(rt.enc < 32) { A64EncodeError::FieldOutOfRange { insn: "STP_gen.STP_64_ldstpair_post", field: "Rt", value: rt.enc as u64, width: 5 } } else { if !(mem.spec_base().enc < 32) { A64EncodeError::FieldOutOfRange { insn: "STP_gen.STP_64_ldstpair_post", field: "Rn", value: mem.spec_base().enc as u64, width: 5 } } else { A64EncodeError::FieldOutOfRange { insn: "STP_gen.STP_64_ldstpair_post", field: "imm7", value: mem.spec_offset_imm().raw as u64, width: 7 } } } },
            A64Insn::StpGenStp64LdstpairPre { rt2, rt, mem } => if !(rt2.enc < 32) { A64EncodeError::FieldOutOfRange { insn: "STP_gen.STP_64_ldstpair_pre", field: "Rt2", value: rt2.enc as u64, width: 5 } } else { if !(rt.enc < 32) { A64EncodeError::FieldOutOfRange { insn: "STP_gen.STP_64_ldstpair_pre", field: "Rt", value: rt.enc as u64, width: 5 } } else { if !(mem.spec_base().enc < 32) { A64EncodeError::FieldOutOfRange { insn: "STP_gen.STP_64_ldstpair_pre", field: "Rn", value: mem.spec_base().enc as u64, width: 5 } } else { A64EncodeError::FieldOutOfRange { insn: "STP_gen.STP_64_ldstpair_pre", field: "imm7", value: mem.spec_offset_imm().raw as u64, width: 7 } } } },
            A64Insn::StpGenStp64LdstpairOff { rt2, rt, mem } => if !(rt2.enc < 32) { A64EncodeError::FieldOutOfRange { insn: "STP_gen.STP_64_ldstpair_off", field: "Rt2", value: rt2.enc as u64, width: 5 } } else { if !(rt.enc < 32) { A64EncodeError::FieldOutOfRange { insn: "STP_gen.STP_64_ldstpair_off", field: "Rt", value: rt.enc as u64, width: 5 } } else { if !(mem.spec_base().enc < 32) { A64EncodeError::FieldOutOfRange { insn: "STP_gen.STP_64_ldstpair_off", field: "Rn", value: mem.spec_base().enc as u64, width: 5 } } else { A64EncodeError::FieldOutOfRange { insn: "STP_gen.STP_64_ldstpair_off", field: "imm7", value: mem.spec_offset_imm().raw as u64, width: 7 } } } },
            A64Insn::NopNopHiHints {} => A64EncodeError::FieldOutOfRange { insn: "NOP.NOP_HI_hints", field: "", value: 0, width: 0 },
            A64Insn::BrBr64BranchReg { rn } => A64EncodeError::FieldOutOfRange { insn: "BR.BR_64_branch_reg", field: "Rn", value: rn.enc as u64, width: 5 },
            A64Insn::BlrBlr64BranchReg { rn } => A64EncodeError::FieldOutOfRange { insn: "BLR.BLR_64_branch_reg", field: "Rn", value: rn.enc as u64, width: 5 },
            A64Insn::RetRet64rBranchReg { rn } => A64EncodeError::FieldOutOfRange { insn: "RET.RET_64R_branch_reg", field: "Rn", value: rn.enc as u64, width: 5 },
            A64Insn::SvcSvcExException { imm16 } => A64EncodeError::FieldOutOfRange { insn: "SVC.SVC_EX_exception", field: "imm16", value: imm16.raw as u64, width: 16 },
        }
    }

    pub open spec fn spec_encode(self) -> Result<u32, A64EncodeError> {
        if self.spec_fits() {
            Ok(self.spec_word())
        } else {
            Err(self.spec_encode_error())
        }
    }

    /// Packs the instruction into its word; fails on the first operand that
    /// does not fit its field.
    pub fn encode(self) -> (r: Result<u32, A64EncodeError>)
        ensures
            r == self.spec_encode(),
    {
        match self {
            A64Insn::AdrAdrOnlyPcreladdr { immlo, immhi, rd } => {
                if !(immlo.raw < 0x4) {
                    return Err(A64EncodeError::FieldOutOfRange { insn: "ADR.ADR_only_pcreladdr", field: "immlo", value: immlo.raw as u64, width: 2 });
                }
                if !(immhi.raw < 0x80000) {
                    return Err(A64EncodeError::FieldOutOfRange { insn: "ADR.ADR_only_pcreladdr", field: "immhi", value: immhi.raw as u64, width: 19 });
                }
                if !(rd.enc < 32) {
                    return Err(A64EncodeError::FieldOutOfRange { insn: "ADR.ADR_only_pcreladdr", field: "Rd", value: rd.enc as u64, width: 5 });
                }
                Ok(fields::pack_pcrel_word(0, immlo.raw, immhi.raw, (rd.enc as u32)))
            },
            A64Insn::AdrpAdrpOnlyPcreladdr { immlo, immhi, rd } => {
                if !(immlo.raw < 0x4) {
                    return Err(A64EncodeError::FieldOutOfRange { insn: "ADRP.ADRP_only_pcreladdr", field: "immlo", value: immlo.raw as u64, width: 2 });
                }
                if !(immhi.raw < 0x80000) {
                    return Err(A64EncodeError::FieldOutOfRange { insn: "ADRP.ADRP_only_pcreladdr", field: "immhi", value: immhi.raw as u64, width: 19 });
                }
                if !(rd.enc < 32) {
                    return Err(A64EncodeError::FieldOutOfRange { insn: "ADRP.ADRP_only_pcreladdr", field: "Rd", value: rd.enc as u64, width: 5 });
                }
                Ok(fields::pack_pcrel_word(1, immlo.raw, immhi.raw, (rd.enc as u32)))
            },
            A64Insn::AddAddsubImmAdd32AddsubImm { sh, imm12, rn, rd } => {
                if !(sh < 0x2) {
                    return Err(A64EncodeError::FieldOutOfRange { insn: "ADD_addsub_imm.ADD_32_addsub_imm", field: "sh", value: sh as u64, width: 1 });
                }
                if !(imm12.raw < 0x1000) {
                    return Err(A64EncodeError::FieldOutOfRange { insn: "ADD_addsub_imm.ADD_32_addsub_imm", field: "imm12", value: imm12.raw as u64, width: 12 });
                }
                if !(rn.enc < 32) {
                    return Err(A64EncodeError::FieldOutOfRange { insn: "ADD_addsub_imm.ADD_32_addsub_imm", field: "Rn", value: rn.enc as u64, width: 5 });
                }
                if !(rd.enc < 32) {
                    return Err(A64EncodeError::FieldOutOfRange { insn: "ADD_addsub_imm.ADD_32_addsub_imm", field: "Rd", value: rd.enc as u64, width: 5 });
                }
                Ok(fields::pack_addsub_word(0x11, (sh as u32), imm12.raw, (rn.enc as u32), (rd.enc as u32)))
            },
            A64Insn::AddAddsubImmAdd64AddsubImm { sh, imm12, rn, rd } => {
                if !(sh < 0x2) {
                    return Err(A64EncodeError::FieldOutOfRange { insn: "ADD_addsub_imm.ADD_64_addsub_imm", field: "sh", value: sh as u64, width: 1 });
                }
                if !(imm12.raw < 0x1000) {
                    return Err(A64EncodeError::FieldOutOfRange { insn: "ADD_addsub_imm.ADD_64_addsub_imm", field: "imm12", value: imm12.raw as u64, width: 12 });
                }
                if !(rn.enc < 32) {
                    return Err(A64EncodeError::FieldOutOfRange { insn: "ADD_addsub_imm.ADD_64_addsub_imm", field: "Rn", value: rn.enc as u64, width: 5 });
                }
                if !(rd.enc < 32) {
                    return Err(A64EncodeError::FieldOutOfRange { insn: "ADD_addsub_imm.ADD_64_addsub_imm", field: "Rd", value: rd.enc as u64, width: 5 });
                }
                Ok(fields::pack_addsub_word(0x91, (sh as u32), imm12.raw, (rn.enc as u32), (rd.enc as u32)))
            },
            A64Insn::SubAddsubImmSub32AddsubImm { sh, imm12, rn, rd } => {
                if !(sh < 0x2) {
                    return Err(A64EncodeError::FieldOutOfRange { insn: "SUB_addsub_imm.SUB_32_addsub_imm", field: "sh", value: sh as u64, width: 1 });
                }
                if !(imm12.raw < 0x1000) {
                    return Err(A64EncodeError::FieldOutOfRange { insn: "SUB_addsub_imm.SUB_32_addsub_imm", field: "imm12", value: imm12.raw as u64, width: 12 });
                }
                if !(rn.enc < 32) {
                    return Err(A64EncodeError::FieldOutOfRange { insn: "SUB_addsub_imm.SUB_32_addsub_imm", field: "Rn", value: rn.enc as u64, width: 5 });
                }
                if !(rd.enc < 32) {
                    return Err(A64EncodeError::FieldOutOfRange { insn: "SUB_addsub_imm.SUB_32_addsub_imm", field: "Rd", value: rd.enc as u64, width: 5 });
                }
                Ok(fields::pack_addsub_word(0x51, (sh as u32), imm12.raw, (rn.enc as u32), (rd.enc as u32)))
            },
            A64Insn::SubAddsubImmSub64AddsubImm { sh, imm12, rn, rd } => {
                if !(sh < 0x2) {
                    return Err(A64EncodeError::FieldOutOfRange { insn: "SUB_addsub_imm.SUB_64_addsub_imm", field: "sh", value: sh as u64, width: 1 });
                }
                if !(imm12.raw < 0x1000) {
                    return Err(A64EncodeError::FieldOutOfRange { insn: "SUB_addsub_imm.SUB_64_addsub_imm", field: "imm12", value: imm12.raw as u64, width: 12 });
                }
                if !(rn.enc < 32) {
                    return Err(A64EncodeError::FieldOutOfRange { insn: "SUB_addsub_imm.SUB_64_addsub_imm", field: "Rn", value: rn.enc as u64, width: 5 });
                }
                if !(rd.enc < 32) {
                    return Err(A64EncodeError::FieldOutOfRange { insn: "SUB_addsub_imm.SUB_64_addsub_imm", field: "Rd", value: rd.enc as u64, width: 5 });
                }
                Ok(fields::pack_addsub_word(0xD1, (sh as u32), imm12.raw, (rn.enc as u32), (rd.enc as u32)))
            },
            A64Insn::SubsAddsubImmSubs32sAddsubImm { sh, imm12, rn, rd } => {
                if !(sh < 0x2) {
                    return Err(A64EncodeError::FieldOutOfRange { insn: "SUBS_addsub_imm.SUBS_32S_addsub_imm", field: "sh", value: sh as u64, width: 1 });
                }
                if !(imm12.raw < 0x1000) {
                    return Err(A64EncodeError::FieldOutOfRange { insn: "SUBS_addsub_imm.SUBS_32S_addsub_imm", field: "imm12", value: imm12.raw as u64, width: 12 });
                }
                if !(rn.enc < 32) {
                    return Err(A64EncodeError::FieldOutOfRange { insn: "SUBS_addsub_imm.SUBS_32S_addsub_imm", field: "Rn", value: rn.enc as u64, width: 5 });
                }
                if !(rd.enc < 32) {
                    return Err(A64EncodeError::FieldOutOfRange { insn: "SUBS_addsub_imm.SUBS_32S_addsub_imm", field: "Rd", value: rd.enc as u64, width: 5 });
                }
                Ok(fields::pack_addsub_word(0x71, (sh as u32), imm12.raw, (rn.enc as u32), (rd.enc as u32)))
            },
            A64Insn::SubsAddsubImmSubs64sAddsubImm { sh, imm12, rn, rd } => {
                if !(sh < 0x2) {
                    return Err(A64EncodeError::FieldOutOfRange { insn: "SUBS_addsub_imm.SUBS_64S_addsub_imm", field: "sh", value: sh as u64, width: 1 });
                }
                if !(imm12.raw < 0x1000) {
                    return Err(A64EncodeError::FieldOutOfRange { insn: "SUBS_addsub_imm.SUBS_64S_addsub_imm", field: "imm12", value: imm12.raw as u64, width: 12 });
                }
                if !(rn.enc < 32) {
                    return Err(A64EncodeError::FieldOutOfRange { insn: "SUBS_addsub_imm.SUBS_64S_addsub_imm", field: "Rn", value: rn.enc as u64, width: 5 });
                }
                if !(rd.enc < 32) {
                    return Err(A64EncodeError::FieldOutOfRange { insn: "SUBS_addsub_imm.SUBS_64S_addsub_imm", field: "Rd", value: rd.enc as u64, width: 5 });
                }
                Ok(fields::pack_addsub_word(0xF1, (sh as u32), imm12.raw, (rn.enc as u32), (rd.enc as u32)))
            },
            A64Insn::BUncondBOnlyBranchImm { imm26 } => {
                if !(imm26.raw < 0x4000000) {
                    return Err(A64EncodeError::FieldOutOfRange { insn: "B_uncond.B_only_branch_imm", field: "imm26", value: imm26.raw as u64, width: 26 });
                }
                Ok(fields::pack_bimm_word(0x5, imm26.raw))
            },
            A64Insn::BlBlOnlyBranchImm { imm26 } => {
                if !(imm26.raw < 0x4000000) {
                    return Err(A64EncodeError::FieldOutOfRange { insn: "BL.BL_only_branch_imm", field: "imm26", value: imm26.raw as u64, width: 26 });
                }
                Ok(fields::pack_bimm_word(0x25, imm26.raw))
            },
            A64Insn::BCondBOnlyCondbranch { imm19, cond } => {
                if !(imm19.raw < 0x80000) {
                    return Err(A64EncodeError::FieldOutOfRange { insn: "B_cond.B_only_condbranch", field: "imm19", value: imm19.raw as u64, width: 19 });
                }
                if !(cond < 0x10) {
                    return Err(A64EncodeError::FieldOutOfRange { insn: "B_cond.B_only_condbranch", field: "cond", value: cond as u64, width: 4 });
                }
                Ok(fields::pack_bcond_word(imm19.raw, (cond as u32)))
            },
            A64Insn::CbzCbz32Compbranch { imm19, rt } => {
                if !(imm19.raw < 0x80000) {
                    return Err(A64EncodeError::FieldOutOfRange { insn: "CBZ.CBZ_32_compbranch", field: "imm19", value: imm19.raw as u64, width: 19 });
                }
                if !(rt.enc < 32) {
                    return Err(A64EncodeError::FieldOutOfRange { insn: "CBZ.CBZ_32_compbranch", field: "Rt", value: rt.enc as u64, width: 5 });
                }
                Ok(fields::pack_cb_word(0x34, imm19.raw, (rt.enc as u32)))
            },
            A64Insn::CbzCbz64Compbranch { imm19, rt } => {
                if !(imm19.raw < 0x80000) {
                    return Err(A64EncodeError::FieldOutOfRange { insn: "CBZ.CBZ_64_compbranch", field: "imm19", value: imm19.raw as u64, width: 19 });
                }
                if !(rt.enc < 32) {
                    return Err(A64EncodeError::FieldOutOfRange { insn: "CBZ.CBZ_64_compbranch", field: "Rt", value: rt.enc as u64, width: 5 });
                }
                Ok(fields::pack_cb_word(0xB4, imm19.raw, (rt.enc as u32)))
            },
            A64Insn::CbnzCbnz32Compbranch { imm19, rt } => {
                if !(imm19.raw < 0x80000) {
                    return Err(A64EncodeError::FieldOutOfRange { insn: "CBNZ.CBNZ_32_compbranch", field: "imm19", value: imm19.raw as u64, width: 19 });
                }
                if !(rt.enc < 32) {
                    return Err(A64EncodeError::FieldOutOfRange { insn: "CBNZ.CBNZ_32_compbranch", field: "Rt", value: rt.enc as u64, width: 5 });
                }
                Ok(fields::pack_cb_word(0x35, imm19.raw, (rt.enc as u32)))
            },
            A64Insn::CbnzCbnz64Compbranch { imm19, rt } => {
                if !(imm19.raw < 0x80000) {
                    return Err(A64EncodeError::FieldOutOfRange { insn: "CBNZ.CBNZ_64_compbranch", field: "imm19", value: imm19.raw as u64, width: 19 });
                }
                if !(rt.enc < 32) {
                    return Err(A64EncodeError::FieldOutOfRange { insn: "CBNZ.CBNZ_64_compbranch", field: "Rt", value: rt.enc as u64, width: 5 });
                }
                Ok(fields::pack_cb_word(0xB5, imm19.raw, (rt.enc as u32)))
            },
            A64Insn::MovzMovz32Movewide { hw, imm16, rd } => {
                if !(hw < 0x4) {
                    return Err(A64EncodeError::FieldOutOfRange { insn: "MOVZ.MOVZ_32_movewide", field: "hw", value: hw as u64, width: 2 });
                }
                if !(imm16.raw < 0x10000) {
                    return Err(A64EncodeError::FieldOutOfRange { insn: "MOVZ.MOVZ_32_movewide", field: "imm16", value: imm16.raw as u64, width: 16 });
                }
                if !(rd.enc < 32) {
                    return Err(A64EncodeError::FieldOutOfRange { insn: "MOVZ.MOVZ_32_movewide", field: "Rd", value: rd.enc as u64, width: 5 });
                }
                Ok(fields::pack_movw_word(0x52, (hw as u32), imm16.raw, (rd.enc as u32)))
            },
            A64Insn::MovzMovz64Movewide { hw, imm16, rd } => {
                if !(hw < 0x4) {
                    return Err(A64EncodeError::FieldOutOfRange { insn: "MOVZ.MOVZ_64_movewide", field: "hw", value: hw as u64, width: 2 });
                }
                if !(imm16.raw < 0x10000) {
                    return Err(A64EncodeError::FieldOutOfRange { insn: "MOVZ.MOVZ_64_movewide", field: "imm16", value: imm16.raw as u64, width: 16 });
                }
                if !(rd.enc < 32) {
                    return Err(A64EncodeError::FieldOutOfRange { insn: "MOVZ.MOVZ_64_movewide", field: "Rd", value: rd.enc as u64, width: 5 });
                }
                Ok(fields::pack_movw_word(0xD2, (hw as u32), imm16.raw, (rd.enc as u32)))
            },
            A64Insn::MovkMovk32Movewide { hw, imm16, rd } => {
                if !(hw < 0x4) {
                    return Err(A64EncodeError::FieldOutOfRange { insn: "MOVK.MOVK_32_movewide", field: "hw", value: hw as u64, width: 2 });
                }
                if !(imm16.raw < 0x10000) {
                    return Err(A64EncodeError::FieldOutOfRange { insn: "MOVK.MOVK_32_movewide", field: "imm16", value: imm16.raw as u64, width: 16 });
                }
                if !(rd.enc < 32) {
                    return Err(A64EncodeError::FieldOutOfRange { insn: "MOVK.MOVK_32_movewide", field: "Rd", value: rd.enc as u64, width: 5 });
                }
                Ok(fields::pack_movw_word(0x72, (hw as u32), imm16.raw, (rd.enc as u32)))
            },
            A64Insn::MovkMovk64Movewide { hw, imm16, rd } => {
                if !(hw < 0x4) {
                    return Err(A64EncodeError::FieldOutOfRange { insn: "MOVK.MOVK_64_movewide", field: "hw", value: hw as u64, width: 2 });
                }
                if !(imm16.raw < 0x10000) {
                    return Err(A64EncodeError::FieldOutOfRange { insn: "MOVK.MOVK_64_movewide", field: "imm16", value: imm16.raw as u64, width: 16 });
                }
                if !(rd.enc < 32) {
                    return Err(A64EncodeError::FieldOutOfRange { insn: "MOVK.MOVK_64_movewide", field: "Rd", value: rd.enc as u64, width: 5 });
                }
                Ok(fields::pack_movw_word(0xF2, (hw as u32), imm16.raw, (rd.enc as u32)))
            },
            A64Insn::OrrLogShiftOrr64LogShift { shift, rm, imm6, rn, rd } => {
                if !(shift < 0x4) {
                    return Err(A64EncodeError::FieldOutOfRange { insn: "ORR_log_shift.ORR_64_log_shift", field: "shift", value: shift as u64, width: 2 });
                }
                if !(rm.enc < 32) {
                    return Err(A64EncodeError::FieldOutOfRange { insn: "ORR_log_shift.ORR_64_log_shift", field: "Rm", value: rm.enc as u64, width: 5 });
                }
                if !(imm6.raw < 0x40) {
                    return Err(A64EncodeError::FieldOutOfRange { insn: "ORR_log_shift.ORR_64_log_shift", field: "imm6", value: imm6.raw as u64, width: 6 });
                }
                if !(rn.enc < 32) {
                    return Err(A64EncodeError::FieldOutOfRange { insn: "ORR_log_shift.ORR_64_log_shift", field: "Rn", value: rn.enc as u64, width: 5 });
                }
                if !(rd.enc < 32) {
                    return Err(A64EncodeError::FieldOutOfRange { insn: "ORR_log_shift.ORR_64_log_shift", field: "Rd", value: rd.enc as u64, width: 5 });
                }
                Ok(fields::pack_logsh_word(0xAA, (shift as u32), (rm.enc as u32), imm6.raw, (rn.enc as u32), (rd.enc as u32)))
            },
            A64Insn::TbzTbzOnlyTestbranch { b5, b40, imm14, rt } => {
                if !(b5 < 0x2) {
                    return Err(A64EncodeError::FieldOutOfRange { insn: "TBZ.TBZ_only_testbranch", field: "b5", value: b5 as u64, width: 1 });
                }
                if !(b40 < 0x20) {
                    return Err(A64EncodeError::FieldOutOfRange { insn: "TBZ.TBZ_only_testbranch", field: "b40", value: b40 as u64, width: 5 });
                }
                if !(imm14.raw < 0x4000) {
                    return Err(A64EncodeError::FieldOutOfRange { insn: "TBZ.TBZ_only_testbranch", field: "imm14", value: imm14.raw as u64, width: 14 });
                }
                if !(rt.enc < 32) {
                    return Err(A64EncodeError::FieldOutOfRange { insn: "TBZ.TBZ_only_testbranch", field: "Rt", value: rt.enc as u64, width: 5 });
                }
                Ok(fields::pack_tb_word((b5 as u32), 0x36, (b40 as u32), imm14.raw, (rt.enc as u32)))
            },
            A64Insn::TbnzTbnzOnlyTestbranch { b5, b40, imm14, rt } => {
                if !(b5 < 0x2) {
                    return Err(A64EncodeError::FieldOutOfRange { insn: "TBNZ.TBNZ_only_testbranch", field: "b5", value: b5 as u64, width: 1 });
                }
                if !(b40 < 0x20) {
                    return Err(A64EncodeError::FieldOutOfRange { insn: "TBNZ.TBNZ_only_testbranch", field: "b40", value: b40 as u64, width: 5 });
                }
                if !(imm14.raw < 0x4000) {
                    return Err(A64EncodeError::FieldOutOfRange { insn: "TBNZ.TBNZ_only_testbranch", field: "imm14", value: imm14.raw as u64, width: 14 });
                }
                if !(rt.enc < 32) {
                    return Err(A64EncodeError::FieldOutOfRange { insn: "TBNZ.TBNZ_only_testbranch", field: "Rt", value: rt.enc as u64, width: 5 });
                }
                Ok(fields::pack_tb_word((b5 as u32), 0x37, (b40 as u32), imm14.raw, (rt.enc as u32)))
            },
            A64Insn::LdrImmGenLdr32LdstImmpost { rt, mem } => {
                if !(rt.enc < 32) {
                    return Err(A64EncodeError::FieldOutOfRange { insn: "LDR_imm_gen.LDR_32_ldst_immpost", field: "Rt", value: rt.enc as u64, width: 5 });
                }
                if !(mem.base().enc < 32) {
                    return Err(A64EncodeError::FieldOutOfRange { insn: "LDR_imm_gen.LDR_32_ldst_immpost", field: "Rn", value: mem.base().enc as u64, width: 5 });
                }
                if !(mem.offset_imm().raw < 0x200) {
                    return Err(A64EncodeError::FieldOutOfRange { insn: "LDR_imm_gen.LDR_32_ldst_immpost", field: "imm9", value: mem.offset_imm().raw as u64, width: 9 });
                }
                Ok(fields::pack_ldst9_word(0xB8, 1, mem.offset_imm().raw, 1, (mem.base().enc as u32), (rt.enc as u32)))
            },
            A64Insn::LdrImmGenLdr64LdstImmpost { rt, mem } => {
                if !(rt.enc < 32) {
                    return Err(A64EncodeError::FieldOutOfRange { insn: "LDR_imm_gen.LDR_64_ldst_immpost", field: "Rt", value: rt.enc as u64, width: 5 });
                }
                if !(mem.base().enc < 32) {
                    return Err(A64EncodeError::FieldOutOfRange { insn: "LDR_imm_gen.LDR_64_ldst_immpost", field: "Rn", value: mem.base().enc as u64, width: 5 });
                }
                if !(mem.offset_imm().raw < 0x200) {
                    return Err(A64EncodeError::FieldOutOfRange { insn: "LDR_imm_gen.LDR_64_ldst_immpost", field: "imm9", value: mem.offset_imm().raw as u64, width: 9 });
                }
                Ok(fields::pack_ldst9_word(0xF8, 1, mem.offset_imm().raw, 1, (mem.base().enc as u32), (rt.enc as u32)))
            },
            A64Insn::LdrImmGenLdr32LdstImmpre { rt, mem } => {
                if !(rt.enc < 32) {
                    return Err(A64EncodeError::FieldOutOfRange { insn: "LDR_imm_gen.LDR_32_ldst_immpre", field: "Rt", value: rt.enc as u64, width: 5 });
                }
                if !(mem.base().enc < 32) {
                    return Err(A64EncodeError::FieldOutOfRange { insn: "LDR_imm_gen.LDR_32_ldst_immpre", field: "Rn", value: mem.base().enc as u64, width: 5 });
                }
                if !(mem.offset_imm().raw < 0x200) {
                    return Err(A64EncodeError::FieldOutOfRange { insn: "LDR_imm_gen.LDR_32_ldst_immpre", field: "imm9", value: mem.offset_imm().raw as u64, width: 9 });
                }
                Ok(fields::pack_ldst9_word(0xB8, 1, mem.offset_imm().raw, 3, (mem.base().enc as u32), (rt.enc as u32)))
            },
            A64Insn::LdrImmGenLdr64LdstImmpre { rt, mem } => {
                if !(rt.enc < 32) {
                    return Err(A64EncodeError::FieldOutOfRange { insn: "LDR_imm_gen.LDR_64_ldst_immpre", field: "Rt", value: rt.enc as u64, width: 5 });
                }
                if !(mem.base().enc < 32) {
                    return Err(A64EncodeError::FieldOutOfRange { insn: "LDR_imm_gen.LDR_64_ldst_immpre", field: "Rn", value: mem.base().enc as u64, width: 5 });
                }
                if !(mem.offset_imm().raw < 0x200) {
                    return Err(A64EncodeError::FieldOutOfRange { insn: "LDR_imm_gen.LDR_64_ldst_immpre", field: "imm9", value: mem.offset_imm().raw as u64, width: 9 });
                }
                Ok(fields::pack_ldst9_word(0xF8, 1, mem.offset_imm().raw, 3, (mem.base().enc as u32), (rt.enc as u32)))
            },
            A64Insn::LdrImmGenLdr32LdstPos { rt, mem } => {
                if !(rt.enc < 32) {
                    return Err(A64EncodeError::FieldOutOfRange { insn: "LDR_imm_gen.LDR_32_ldst_pos", field: "Rt", value: rt.enc as u64, width: 5 });
                }
                if !(mem.base().enc < 32) {
                    return Err(A64EncodeError::FieldOutOfRange { insn: "LDR_imm_gen.LDR_32_ldst_pos", field: "Rn", value: mem.base().enc as u64, width: 5 });
                }
                if !(mem.offset_imm().raw < 0x1000) {
                    return Err(A64EncodeError::FieldOutOfRange { insn: "LDR_imm_gen.LDR_32_ldst_pos", field: "imm12", value: mem.offset_imm().raw as u64, width: 12 });
                }
                Ok(fields::pack_ldstpos_word(0xB9, 1, mem.offset_imm().raw, (mem.base().enc as u32), (rt.enc as u32)))
            },
            A64Insn::LdrImmGenLdr64LdstPos { rt, mem } => {
                if !(rt.enc < 32) {
                    return Err(A64EncodeError::FieldOutOfRange { insn: "LDR_imm_gen.LDR_64_ldst_pos", field: "Rt", value: rt.enc as u64, width: 5 });
                }
                if !(mem.base().enc < 32) {
                    return Err(A64EncodeError::FieldOutOfRange { insn: "LDR_imm_gen.LDR_64_ldst_pos", field: "Rn", value: mem.base().enc as u64, width: 5 });
                }
                if !(mem.offset_imm().raw < 0x1000) {
                    return Err(A64EncodeError::FieldOutOfRange { insn: "LDR_imm_gen.LDR_64_ldst_pos", field: "imm12", value: mem.offset_imm().raw as u64, width: 12 });
                }
                Ok(fields::pack_ldstpos_word(0xF9, 1, mem.offset_imm().raw, (mem.base().enc as u32), (rt.enc as u32)))
            },
            A64Insn::StrImmGenStr32LdstImmpost { rt, mem } => {
                if !(rt.enc < 32) {
                    return Err(A64EncodeError::FieldOutOfRange { insn: "STR_imm_gen.STR_32_ldst_immpost", field: "Rt", value: rt.enc as u64, width: 5 });
                }
                if !(mem.base().enc < 32) {
                    return Err(A64EncodeError::FieldOutOfRange { insn: "STR_imm_gen.STR_32_ldst_immpost", field: "Rn", value: mem.base().enc as u64, width: 5 });
                }
                if !(mem.offset_imm().raw < 0x200) {
                    return Err(A64EncodeError::FieldOutOfRange { insn: "STR_imm_gen.STR_32_ldst_immpost", field: "imm9", value: mem.offset_imm().raw as u64, width: 9 });
                }
                Ok(fields::pack_ldst9_word(0xB8, 0, mem.offset_imm().raw, 1, (mem.base().enc as u32), (rt.enc as u32)))
            },
            A64Insn::StrImmGenStr64LdstImmpost { rt, mem } => {
                if !(rt.enc < 32) {
                    return Err(A64EncodeError::FieldOutOfRange { insn: "STR_imm_gen.STR_64_ldst_immpost", field: "Rt", value: rt.enc as u64, width: 5 });
                }
                if !(mem.base().enc < 32) {
                    return Err(A64EncodeError::FieldOutOfRange { insn: "STR_imm_gen.STR_64_ldst_immpost", field: "Rn", value: mem.base().enc as u64, width: 5 });
                }
                if !(mem.offset_imm().raw < 0x200) {
                    return Err(A64EncodeError::FieldOutOfRange { insn: "STR_imm_gen.STR_64_ldst_immpost", field: "imm9", value: mem.offset_imm().raw as u64, width: 9 });
                }
                Ok(fields::pack_ldst9_word(0xF8, 0, mem.offset_imm().raw, 1, (mem.base().enc as u32), (rt.enc as u32)))
            },
            A64Insn::StrImmGenStr32LdstImmpre { rt, mem } => {
                if !(rt.enc < 32) {
                    return Err(A64EncodeError::FieldOutOfRange { insn: "STR_imm_gen.STR_32_ldst_immpre", field: "Rt", value: rt.enc as u64, width: 5 });
                }
                if !(mem.base().enc < 32) {
                    return Err(A64EncodeError::FieldOutOfRange { insn: "STR_imm_gen.STR_32_ldst_immpre", field: "Rn", value: mem.base().enc as u64, width: 5 });
                }
                if !(mem.offset_imm().raw < 0x200) {
                    return Err(A64EncodeError::FieldOutOfRange { insn: "STR_imm_gen.STR_32_ldst_immpre", field: "imm9", value: mem.offset_imm().raw as u64, width: 9 });
                }
                Ok(fields::pack_ldst9_word(0xB8, 0, mem.offset_imm().raw, 3, (mem.base().enc as u32), (rt.enc as u32)))
            },
            A64Insn::StrImmGenStr64LdstImmpre { rt, mem } => {
                if !(rt.enc < 32) {
                    return Err(A64EncodeError::FieldOutOfRange { insn: "STR_imm_gen.STR_64_ldst_immpre", field: "Rt", value: rt.enc as u64, width: 5 });
                }
                if !(mem.base().enc < 32) {
                    return Err(A64EncodeError::FieldOutOfRange { insn: "STR_imm_gen.STR_64_ldst_immpre", field: "Rn", value: mem.base().enc as u64, width: 5 });
                }
                if !(mem.offset_imm().raw < 0x200) {
                    return Err(A64EncodeError::FieldOutOfRange { insn: "STR_imm_gen.STR_64_ldst_immpre", field: "imm9", value: mem.offset_imm().raw as u64, width: 9 });
                }
                Ok(fields::pack_ldst9_word(0xF8, 0, mem.offset_imm().raw, 3, (mem.base().enc as u32), (rt.enc as u32)))
            },
            A64Insn::StrImmGenStr32LdstPos { rt, mem } => {
                if !(rt.enc < 32) {
                    return Err(A64EncodeError::FieldOutOfRange { insn: "STR_imm_gen.STR_32_ldst_pos", field: "Rt", value: rt.enc as u64, width: 5 });
                }
                if !(mem.base().enc < 32) {
                    return Err(A64EncodeError::FieldOutOfRange { insn: "STR_imm_gen.STR_32_ldst_pos", field: "Rn", value: mem.base().enc as u64, width: 5 });
                }
                if !(mem.offset_imm().raw < 0x1000) {
                    return Err(A64EncodeError::FieldOutOfRange { insn: "STR_imm_gen.STR_32_ldst_pos", field: "imm12", value: mem.offset_imm().raw as u64, width: 12 });
                }
                Ok(fields::pack_ldstpos_word(0xB9, 0, mem.offset_imm().raw, (mem.base().enc as u32), (rt.enc as u32)))
            },
            A64Insn::StrImmGenStr64LdstPos { rt, mem } => {
                if !(rt.enc < 32) {
                    return Err(A64EncodeError::FieldOutOfRange { insn: "STR_imm_gen.STR_64_ldst_pos", field: "Rt", value: rt.enc as u64, width: 5 });
                }
                if !(mem.base().enc < 32) {
                    return Err(A64EncodeError::FieldOutOfRange { insn: "STR_imm_gen.STR_64_ldst_pos", field: "Rn", value: mem.base().enc as u64, width: 5 });
                }
                if !(mem.offset_imm().raw < 0x1000) {
                    return Err(A64EncodeError::FieldOutOfRange { insn: "STR_imm_gen.STR_64_ldst_pos", field: "imm12", value: mem.offset_imm().raw as u64, width: 12 });
                }
                Ok(fields::pack_ldstpos_word(0xF9, 0, mem.offset_imm().raw, (mem.base().enc as u32), (rt.enc as u32)))
            },
            A64Insn::LdpGenLdp64LdstpairPost { rt2, rt, mem } => {
                if !(rt2.enc < 32) {
                    return Err(A64EncodeError::FieldOutOfRange { insn: "LDP_gen.LDP_64_ldstpair_post", field: "Rt2", value: rt2.enc as u64, width: 5 });
                }
                if !(rt.enc < 32) {
                    return Err(A64EncodeError::FieldOutOfRange { insn: "LDP_gen.LDP_64_ldstpair_post", field: "Rt", value: rt.enc as u64, width: 5 });
                }
                if !(mem.base().enc < 32) {
                    return Err(A64EncodeError::FieldOutOfRange { insn: "LDP_gen.LDP_64_ldstpair_post", field: "Rn", value: mem.base().enc as u64, width: 5 });
                }
                if !(mem.offset_imm().raw < 0x80) {
                    return Err(A64EncodeError::FieldOutOfRange { insn: "LDP_gen.LDP_64_ldstpair_post", field: "imm7", value: mem.offset_imm().raw as u64, width: 7 });
                }
                Ok(fields::pack_pair_word(0xA8, 3, mem.offset_imm().raw, (rt2.enc as u32), (mem.base().enc as u32), (rt.enc as u32)))
            },
            A64Insn::LdpGenLdp64LdstpairPre { rt2, rt, mem } => {
                if !(rt2.enc < 32) {
                    return Err(A64EncodeError::FieldOutOfRange { insn: "LDP_gen.LDP_64_ldstpair_pre", field: "Rt2", value: rt2.enc as u64, width: 5 });
                }
                if !(rt.enc < 32) {
                    return Err(A64EncodeError::FieldOutOfRange { insn: "LDP_gen.LDP_64_ldstpair_pre", field: "Rt", value: rt.enc as u64, width: 5 });
                }
                if !(mem.base().enc < 32) {
                    return Err(A64EncodeError::FieldOutOfRange { insn: "LDP_gen.LDP_64_ldstpair_pre", field: "Rn", value: mem.base().enc as u64, width: 5 });
                }
                if !(mem.offset_imm().raw < 0x80) {
                    return Err(A64EncodeError::FieldOutOfRange { insn: "LDP_gen.LDP_64_ldstpair_pre", field: "imm7", value: mem.offset_imm().raw as u64, width: 7 });
                }
                Ok(fields::pack_pair_word(0xA9, 3, mem.offset_imm().raw, (rt2.enc as u32), (mem.base().enc as u32), (rt.enc as u32)))
            },
            A64Insn::LdpGenLdp64LdstpairOff { rt2, rt, mem } => {
                if !(rt2.enc < 32) {
                    return Err(A64EncodeError::FieldOutOfRange { insn: "LDP_gen.LDP_64_ldstpair_off", field: "Rt2", value: rt2.enc as u64, width: 5 });
                }
                if !(rt.enc < 32) {
                    return Err(A64EncodeError::FieldOutOfRange { insn: "LDP_gen.LDP_64_ldstpair_off", field: "Rt", value: rt.enc as u64, width: 5 });
                }
                if !(mem.base().enc < 32) {
                    return Err(A64EncodeError::FieldOutOfRange { insn: "LDP_gen.LDP_64_ldstpair_off", field: "Rn", value: mem.base().enc as u64, width: 5 });
                }
                if !(mem.offset_imm().raw < 0x80) {
                    return Err(A64EncodeError::FieldOutOfRange { insn: "LDP_gen.LDP_64_ldstpair_off", field: "imm7", value: mem.offset_imm().raw as u64, width: 7 });
                }
                Ok(fields::pack_pair_word(0xA9, 1, mem.offset_imm().raw, (rt2.enc as u32), (mem.base().enc as u32), (rt.enc as u32)))
            },
            A64Insn::StpGenStp64LdstpairPost { rt2, rt, mem } => {
                if !(rt2.enc < 32) {
                    return Err(A64EncodeError::FieldOutOfRange { insn: "STP_gen.STP_64_ldstpair_post", field: "Rt2", value: rt2.enc as u64, width: 5 });
                }
                if !(rt.enc < 32) {
                    return Err(A64EncodeError::FieldOutOfRange { insn: "STP_gen.STP_64_ldstpair_post", field: "Rt", value: rt.enc as u64, width: 5 });
                }
                if !(mem.base().enc < 32) {
                    return Err(A64EncodeError::FieldOutOfRange { insn: "STP_gen.STP_64_ldstpair_post", field: "Rn", value: mem.base().enc as u64, width: 5 });
                }
                if !(mem.offset_imm().raw < 0x80) {
                    return Err(A64EncodeError::FieldOutOfRange { insn: "STP_gen.STP_64_ldstpair_post", field: "imm7", value: mem.offset_imm().raw as u64, width: 7 });
                }
                Ok(fields::pack_pair_word(0xA8, 2, mem.offset_imm().raw, (rt2.enc as u32), (mem.base().enc as u32), (rt.enc as u32)))
            },
            A64Insn::StpGenStp64LdstpairPre { rt2, rt, mem } => {
                if !(rt2.enc < 32) {
                    return Err(A64EncodeError::FieldOutOfRange { insn: "STP_gen.STP_64_ldstpair_pre", field: "Rt2", value: rt2.enc as u64, width: 5 });
                }
                if !(rt.enc < 32) {
                    return Err(A64EncodeError::FieldOutOfRange { insn: "STP_gen.STP_64_ldstpair_pre", field: "Rt", value: rt.enc as u64, width: 5 });
                }
                if !(mem.base().enc < 32) {
                    return Err(A64EncodeError::FieldOutOfRange { insn: "STP_gen.STP_64_ldstpair_pre", field: "Rn", value: mem.base().enc as u64, width: 5 });
                }
                if !(mem.offset_imm().raw < 0x80) {
                    return Err(A64EncodeError::FieldOutOfRange { insn: "STP_gen.STP_64_ldstpair_pre", field: "imm7", value: mem.offset_imm().raw as u64, width: 7 });
                }
                Ok(fields::pack_pair_word(0xA9, 2, mem.offset_imm().raw, (rt2.enc as u32), (mem.base().enc as u32), (rt.enc as u32)))
            },
            A64Insn::StpGenStp64LdstpairOff { rt2, rt, mem } => {
                if !(rt2.enc < 32) {
                    return Err(A64EncodeError::FieldOutOfRange { insn: "STP_gen.STP_64_ldstpair_off", field: "Rt2", value: rt2.enc as u64, width: 5 });
                }
                if !(rt.enc < 32) {
                    return Err(A64EncodeError::FieldOutOfRange { insn: "STP_gen.STP_64_ldstpair_off", field: "Rt", value: rt.enc as u64, width: 5 });
                }
                if !(mem.base().enc < 32) {
                    return Err(A64EncodeError::FieldOutOfRange { insn: "STP_gen.STP_64_ldstpair_off", field: "Rn", value: mem.base().enc as u64, width: 5 });
                }
                if !(mem.offset_imm().raw < 0x80) {
                    return Err(A64EncodeError::FieldOutOfRange { insn: "STP_gen.STP_64_ldstpair_off", field: "imm7", value: mem.offset_imm().raw as u64, width: 7 });
                }
                Ok(fields::pack_pair_word(0xA9, 0, mem.offset_imm().raw, (rt2.enc as u32), (mem.base().enc as u32), (rt.enc as u32)))
            },
            A64Insn::NopNopHiHints {} => {
                Ok(0xD503_201Fu32)
            },
            A64Insn::BrBr64BranchReg { rn } => {
                if !(rn.enc < 32) {
                    return Err(A64EncodeError::FieldOutOfRange { insn: "BR.BR_64_branch_reg", field: "Rn", value: rn.enc as u64, width: 5 });
                }
                Ok(fields::pack_breg_word(0x3587C0, (rn.enc as u32)))
            },
            A64Insn::BlrBlr64BranchReg { rn } => {
                if !(rn.enc < 32) {
                    return Err(A64EncodeError::FieldOutOfRange { insn: "BLR.BLR_64_branch_reg", field: "Rn", value: rn.enc as u64, width: 5 });
                }
                Ok(fields::pack_breg_word(0x358FC0, (rn.enc as u32)))
            },
            A64Insn::RetRet64rBranchReg { rn } => {
                if !(rn.enc < 32) {
                    return Err(A64EncodeError::FieldOutOfRange { insn: "RET.RET_64R_branch_reg", field: "Rn", value: rn.enc as u64, width: 5 });
                }
                Ok(fields::pack_breg_word(0x3597C0, (rn.enc as u32)))
            },
            A64Insn::SvcSvcExException { imm16 } => {
                if !(imm16.raw < 0x10000) {
                    return Err(A64EncodeError::FieldOutOfRange { insn: "SVC.SVC_EX_exception", field: "imm16", value: imm16.raw as u64, width: 16 });
                }
                Ok(fields::pack_svc_word(imm16.raw))
            },
        }
    }
}

} // verus!
