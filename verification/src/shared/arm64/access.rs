//! Named access to the operand fields of an instruction: its register
//! fields by their encoding names, and its branch offset field.
use vstd::prelude::*;
use vstd::string::StrSliceExecFns;

use super::insn::A64Insn;
use super::types::{A64Imm, A64Mem, A64Reg, A64Reg31Mode, A64RegWidth};

verus! {

/// A field rewrite that the form does not allow.
#[derive(Clone, Copy, Debug, PartialEq, Eq)]
pub enum A64RewriteError {
    UnsupportedField { insn: &'static str, field: &'static str },
    FieldOutOfRange { insn: &'static str, field: &'static str, value: u64, width: u8 },
}

/// The register fields of the subset, by their encoding names.
#[derive(Clone, Copy, Debug, PartialEq, Eq, Structural)]
pub enum A64RegField {
    Rd,
    Rn,
    Rm,
    Rt,
    Rt2,
}

/// Character-wise equality of two strings.
pub fn str_eq(a: &str, b: &str) -> (r: bool)
    ensures
        r == (a@ == b@),
{
    let n = a.unicode_len();
    if n != b.unicode_len() {
        return false;
    }
    let mut i: usize = 0;
    while i < n
        invariant
            n == a@.len(),
            n == b@.len(),
            i <= n,
            forall|j: int| 0 <= j < i ==> a@[j] == b@[j],
        decreases n - i,
    {
        if a.get_char(i) != b.get_char(i) {
            return false;
        }
        i = i + 1;
    }
    assert(a@ =~= b@);
    true
}

/// The register field a name denotes.
pub open spec fn spec_reg_field(name: Seq<char>) -> Option<A64RegField> {
    if name == "Rd"@ {
        Some(A64RegField::Rd)
    } else if name == "Rn"@ {
        Some(A64RegField::Rn)
    } else if name == "Rm"@ {
        Some(A64RegField::Rm)
    } else if name == "Rt"@ {
        Some(A64RegField::Rt)
    } else if name == "Rt2"@ {
        Some(A64RegField::Rt2)
    } else {
        None
    }
}

pub fn reg_field(name: &str) -> (r: Option<A64RegField>)
    ensures
        r == spec_reg_field(name@),
{
    if str_eq(name, "Rd") {
        Some(A64RegField::Rd)
    } else if str_eq(name, "Rn") {
        Some(A64RegField::Rn)
    } else if str_eq(name, "Rm") {
        Some(A64RegField::Rm)
    } else if str_eq(name, "Rt") {
        Some(A64RegField::Rt)
    } else if str_eq(name, "Rt2") {
        Some(A64RegField::Rt2)
    } else {
        None
    }
}

impl A64Insn {
    /// The register in field `f`, if the form has that field.
    pub open spec fn spec_reg_at(self, f: A64RegField) -> Option<A64Reg> {
        match self {
            A64Insn::AdrAdrOnlyPcreladdr { rd, .. } => match f {
                A64RegField::Rd => Some(rd),
                _ => None,
            },
            A64Insn::AdrpAdrpOnlyPcreladdr { rd, .. } => match f {
                A64RegField::Rd => Some(rd),
                _ => None,
            },
            A64Insn::AddAddsubImmAdd32AddsubImm { rd, rn, .. } => match f {
                A64RegField::Rn => Some(rn),
                A64RegField::Rd => Some(rd),
                _ => None,
            },
            A64Insn::AddAddsubImmAdd64AddsubImm { rd, rn, .. } => match f {
                A64RegField::Rn => Some(rn),
                A64RegField::Rd => Some(rd),
                _ => None,
            },
            A64Insn::SubAddsubImmSub32AddsubImm { rd, rn, .. } => match f {
                A64RegField::Rn => Some(rn),
                A64RegField::Rd => Some(rd),
                _ => None,
            },
            A64Insn::SubAddsubImmSub64AddsubImm { rd, rn, .. } => match f {
                A64RegField::Rn => Some(rn),
                A64RegField::Rd => Some(rd),
                _ => None,
            },
            A64Insn::SubsAddsubImmSubs32sAddsubImm { rd, rn, .. } => match f {
                A64RegField::Rn => Some(rn),
                A64RegField::Rd => Some(rd),
                _ => None,
            },
            A64Insn::SubsAddsubImmSubs64sAddsubImm { rd, rn, .. } => match f {
                A64RegField::Rn => Some(rn),
                A64RegField::Rd => Some(rd),
                _ => None,
            },
            A64Insn::BUncondBOnlyBranchImm { .. } => None,
            A64Insn::BlBlOnlyBranchImm { .. } => None,
            A64Insn::BCondBOnlyCondbranch { .. } => None,
            A64Insn::CbzCbz32Compbranch { rt, .. } => match f {
                A64RegField::Rt => Some(rt),
                _ => None,
            },
            A64Insn::CbzCbz64Compbranch { rt, .. } => match f {
                A64RegField::Rt => Some(rt),
                _ => None,
            },
            A64Insn::CbnzCbnz32Compbranch { rt, .. } => match f {
                A64RegField::Rt => Some(rt),
                _ => None,
            },
            A64Insn::CbnzCbnz64Compbranch { rt, .. } => match f {
                A64RegField::Rt => Some(rt),
                _ => None,
            },
            A64Insn::MovzMovz32Movewide { rd, .. } => match f {
                A64RegField::Rd => Some(rd),
                _ => None,
            },
            A64Insn::MovzMovz64Movewide { rd, .. } => match f {
                A64RegField::Rd => Some(rd),
                _ => None,
            },
            A64Insn::MovkMovk32Movewide { rd, .. } => match f {
                A64RegField::Rd => Some(rd),
                _ => None,
            },
            A64Insn::MovkMovk64Movewide { rd, .. } => match f {
                A64RegField::Rd => Some(rd),
                _ => None,
            },
            A64Insn::OrrLogShiftOrr64LogShift { rd, rm, rn, .. } => match f {
                A64RegField::Rm => Some(rm),
                A64RegField::Rn => Some(rn),
                A64RegField::Rd => Some(rd),
                _ => None,
            },
            A64Insn::TbzTbzOnlyTestbranch { rt, .. } => match f {
                A64RegField::Rt => Some(rt),
                _ => None,
            },
            A64Insn::TbnzTbnzOnlyTestbranch { rt, .. } => match f {
                A64RegField::Rt => Some(rt),
                _ => None,
            },
            A64Insn::LdrImmGenLdr32LdstImmpost { mem, rt, .. } => match f {
                A64RegField::Rt => Some(rt),
                A64RegField::Rn => Some(mem.spec_base()),
                _ => None,
            },
            A64Insn::LdrImmGenLdr64LdstImmpost { mem, rt, .. } => match f {
                A64RegField::Rt => Some(rt),
                A64RegField::Rn => Some(mem.spec_base()),
                _ => None,
            },
            A64Insn::LdrImmGenLdr32LdstImmpre { mem, rt, .. } => match f {
                A64RegField::Rt => Some(rt),
                A64RegField::Rn => Some(mem.spec_base()),
                _ => None,
            },
            A64Insn::LdrImmGenLdr64LdstImmpre { mem, rt, .. } => match f {
                A64RegField::Rt => Some(rt),
                A64RegField::Rn => Some(mem.spec_base()),
                _ => None,
            },
            A64Insn::LdrImmGenLdr32LdstPos { mem, rt, .. } => match f {
                A64RegField::Rt => Some(rt),
                A64RegField::Rn => Some(mem.spec_base()),
                _ => None,
            },
            A64Insn::LdrImmGenLdr64LdstPos { mem, rt, .. } => match f {
                A64RegField::Rt => Some(rt),
                A64RegField::Rn => Some(mem.spec_base()),
                _ => None,
            },
            A64Insn::StrImmGenStr32LdstImmpost { mem, rt, .. } => match f {
                A64RegField::Rt => Some(rt),
                A64RegField::Rn => Some(mem.spec_base()),
                _ => None,
            },
            A64Insn::StrImmGenStr64LdstImmpost { mem, rt, .. } => match f {
                A64RegField::Rt => Some(rt),
                A64RegField::Rn => Some(mem.spec_base()),
                _ => None,
            },
            A64Insn::StrImmGenStr32LdstImmpre { mem, rt, .. } => match f {
                A64RegField::Rt => Some(rt),
                A64RegField::Rn => Some(mem.spec_base()),
                _ => None,
            },
            A64Insn::StrImmGenStr64LdstImmpre { mem, rt, .. } => match f {
                A64RegField::Rt => Some(rt),
                A64RegField::Rn => Some(mem.spec_base()),
                _ => None,
            },
            A64Insn::StrImmGenStr32LdstPos { mem, rt, .. } => match f {
                A64RegField::Rt => Some(rt),
                A64RegField::Rn => Some(mem.spec_base()),
                _ => None,
            },
            A64Insn::StrImmGenStr64LdstPos { mem, rt, .. } => match f {
                A64RegField::Rt => Some(rt),
                A64RegField::Rn => Some(mem.spec_base()),
                _ => None,
            },
            A64Insn::LdpGenLdp64LdstpairPost { mem, rt, rt2, .. } => match f {
                A64RegField::Rt2 => Some(rt2),
                A64RegField::Rt => Some(rt),
                A64RegField::Rn => Some(mem.spec_base()),
                _ => None,
            },
            A64Insn::LdpGenLdp64LdstpairPre { mem, rt, rt2, .. } => match f {
                A64RegField::Rt2 => Some(rt2),
                A64RegField::Rt => Some(rt),
                A64RegField::Rn => Some(mem.spec_base()),
                _ => None,
            },
            A64Insn::LdpGenLdp64LdstpairOff { mem, rt, rt2, .. } => match f {
                A64RegField::Rt2 => Some(rt2),
                A64RegField::Rt => Some(rt),
                A64RegField::Rn => Some(mem.spec_base()),
                _ => None,
            },
            A64Insn::StpGenStp64LdstpairPost { mem, rt, rt2, .. } => match f {
                A64RegField::Rt2 => Some(rt2),
                A64RegField::Rt => Some(rt),
                A64RegField::Rn => Some(mem.spec_base()),
                _ => None,
            },
            A64Insn::StpGenStp64LdstpairPre { mem, rt, rt2, .. } => match f {
                A64RegField::Rt2 => Some(rt2),
                A64RegField::Rt => Some(rt),
                A64RegField::Rn => Some(mem.spec_base()),
                _ => None,
            },
            A64Insn::StpGenStp64LdstpairOff { mem, rt, rt2, .. } => match f {
                A64RegField::Rt2 => Some(rt2),
                A64RegField::Rt => Some(rt),
                A64RegField::Rn => Some(mem.spec_base()),
                _ => None,
            },
            A64Insn::NopNopHiHints { .. } => None,
            A64Insn::BrBr64BranchReg { rn, .. } => match f {
                A64RegField::Rn => Some(rn),
                _ => None,
            },
            A64Insn::BlrBlr64BranchReg { rn, .. } => match f {
                A64RegField::Rn => Some(rn),
                _ => None,
            },
            A64Insn::RetRet64rBranchReg { rn, .. } => match f {
                A64RegField::Rn => Some(rn),
                _ => None,
            },
            A64Insn::SvcSvcExException { .. } => None,
        }
    }

    pub fn reg_at(self, f: A64RegField) -> (r: Option<A64Reg>)
        ensures
            r == self.spec_reg_at(f),
    {
        match self {
            A64Insn::AdrAdrOnlyPcreladdr { rd, .. } => match f {
                A64RegField::Rd => Some(rd),
                _ => None,
            },
            A64Insn::AdrpAdrpOnlyPcreladdr { rd, .. } => match f {
                A64RegField::Rd => Some(rd),
                _ => None,
            },
            A64Insn::AddAddsubImmAdd32AddsubImm { rd, rn, .. } => match f {
                A64RegField::Rn => Some(rn),
                A64RegField::Rd => Some(rd),
                _ => None,
            },
            A64Insn::AddAddsubImmAdd64AddsubImm { rd, rn, .. } => match f {
                A64RegField::Rn => Some(rn),
                A64RegField::Rd => Some(rd),
                _ => None,
            },
            A64Insn::SubAddsubImmSub32AddsubImm { rd, rn, .. } => match f {
                A64RegField::Rn => Some(rn),
                A64RegField::Rd => Some(rd),
                _ => None,
            },
            A64Insn::SubAddsubImmSub64AddsubImm { rd, rn, .. } => match f {
                A64RegField::Rn => Some(rn),
                A64RegField::Rd => Some(rd),
                _ => None,
            },
            A64Insn::SubsAddsubImmSubs32sAddsubImm { rd, rn, .. } => match f {
                A64RegField::Rn => Some(rn),
                A64RegField::Rd => Some(rd),
                _ => None,
            },
            A64Insn::SubsAddsubImmSubs64sAddsubImm { rd, rn, .. } => match f {
                A64RegField::Rn => Some(rn),
                A64RegField::Rd => Some(rd),
                _ => None,
            },
            A64Insn::BUncondBOnlyBranchImm { .. } => None,
            A64Insn::BlBlOnlyBranchImm { .. } => None,
            A64Insn::BCondBOnlyCondbranch { .. } => None,
            A64Insn::CbzCbz32Compbranch { rt, .. } => match f {
                A64RegField::Rt => Some(rt),
                _ => None,
            },
            A64Insn::CbzCbz64Compbranch { rt, .. } => match f {
                A64RegField::Rt => Some(rt),
                _ => None,
            },
            A64Insn::CbnzCbnz32Compbranch { rt, .. } => match f {
                A64RegField::Rt => Some(rt),
                _ => None,
            },
            A64Insn::CbnzCbnz64Compbranch { rt, .. } => match f {
                A64RegField::Rt => Some(rt),
                _ => None,
            },
            A64Insn::MovzMovz32Movewide { rd, .. } => match f {
                A64RegField::Rd => Some(rd),
                _ => None,
            },
            A64Insn::MovzMovz64Movewide { rd, .. } => match f {
                A64RegField::Rd => Some(rd),
                _ => None,
            },
            A64Insn::MovkMovk32Movewide { rd, .. } => match f {
                A64RegField::Rd => Some(rd),
                _ => None,
            },
            A64Insn::MovkMovk64Movewide { rd, .. } => match f {
                A64RegField::Rd => Some(rd),
                _ => None,
            },
            A64Insn::OrrLogShiftOrr64LogShift { rd, rm, rn, .. } => match f {
                A64RegField::Rm => Some(rm),
                A64RegField::Rn => Some(rn),
                A64RegField::Rd => Some(rd),
                _ => None,
            },
            A64Insn::TbzTbzOnlyTestbranch { rt, .. } => match f {
                A64RegField::Rt => Some(rt),
                _ => None,
            },
            A64Insn::TbnzTbnzOnlyTestbranch { rt, .. } => match f {
                A64RegField::Rt => Some(rt),
                _ => None,
            },
            A64Insn::LdrImmGenLdr32LdstImmpost { mem, rt, .. } => match f {
                A64RegField::Rt => Some(rt),
                A64RegField::Rn => Some(mem.base()),
                _ => None,
            },
            A64Insn::LdrImmGenLdr64LdstImmpost { mem, rt, .. } => match f {
                A64RegField::Rt => Some(rt),
                A64RegField::Rn => Some(mem.base()),
                _ => None,
            },
            A64Insn::LdrImmGenLdr32LdstImmpre { mem, rt, .. } => match f {
                A64RegField::Rt => Some(rt),
                A64RegField::Rn => Some(mem.base()),
                _ => None,
            },
            A64Insn::LdrImmGenLdr64LdstImmpre { mem, rt, .. } => match f {
                A64RegField::Rt => Some(rt),
                A64RegField::Rn => Some(mem.base()),
                _ => None,
            },
            A64Insn::LdrImmGenLdr32LdstPos { mem, rt, .. } => match f {
                A64RegField::Rt => Some(rt),
                A64RegField::Rn => Some(mem.base()),
                _ => None,
            },
            A64Insn::LdrImmGenLdr64LdstPos { mem, rt, .. } => match f {
                A64RegField::Rt => Some(rt),
                A64RegField::Rn => Some(mem.base()),
                _ => None,
            },
            A64Insn::StrImmGenStr32LdstImmpost { mem, rt, .. } => match f {
                A64RegField::Rt => Some(rt),
                A64RegField::Rn => Some(mem.base()),
                _ => None,
            },
            A64Insn::StrImmGenStr64LdstImmpost { mem, rt, .. } => match f {
                A64RegField::Rt => Some(rt),
                A64RegField::Rn => Some(mem.base()),
                _ => None,
            },
            A64Insn::StrImmGenStr32LdstImmpre { mem, rt, .. } => match f {
                A64RegField::Rt => Some(rt),
                A64RegField::Rn => Some(mem.base()),
                _ => None,
            },
            A64Insn::StrImmGenStr64LdstImmpre { mem, rt, .. } => match f {
                A64RegField::Rt => Some(rt),
                A64RegField::Rn => Some(mem.base()),
                _ => None,
            },
            A64Insn::StrImmGenStr32LdstPos { mem, rt, .. } => match f {
                A64RegField::Rt => Some(rt),
                A64RegField::Rn => Some(mem.base()),
                _ => None,
            },
            A64Insn::StrImmGenStr64LdstPos { mem, rt, .. } => match f {
                A64RegField::Rt => Some(rt),
                A64RegField::Rn => Some(mem.base()),
                _ => None,
            },
            A64Insn::LdpGenLdp64LdstpairPost { mem, rt, rt2, .. } => match f {
                A64RegField::Rt2 => Some(rt2),
                A64RegField::Rt => Some(rt),
                A64RegField::Rn => Some(mem.base()),
                _ => None,
            },
            A64Insn::LdpGenLdp64LdstpairPre { mem, rt, rt2, .. } => match f {
                A64RegField::Rt2 => Some(rt2),
                A64RegField::Rt => Some(rt),
                A64RegField::Rn => Some(mem.base()),
                _ => None,
            },
            A64Insn::LdpGenLdp64LdstpairOff { mem, rt, rt2, .. } => match f {
                A64RegField::Rt2 => Some(rt2),
                A64RegField::Rt => Some(rt),
                A64RegField::Rn => Some(mem.base()),
                _ => None,
            },
            A64Insn::StpGenStp64LdstpairPost { mem, rt, rt2, .. } => match f {
                A64RegField::Rt2 => Some(rt2),
                A64RegField::Rt => Some(rt),
                A64RegField::Rn => Some(mem.base()),
                _ => None,
            },
            A64Insn::StpGenStp64LdstpairPre { mem, rt, rt2, .. } => match f {
                A64RegField::Rt2 => Some(rt2),
                A64RegField::Rt => Some(rt),
                A64RegField::Rn => Some(mem.base()),
                _ => None,
            },
            A64Insn::StpGenStp64LdstpairOff { mem, rt, rt2, .. } => match f {
                A64RegField::Rt2 => Some(rt2),
                A64RegField::Rt => Some(rt),
                A64RegField::Rn => Some(mem.base()),
                _ => None,
            },
            A64Insn::NopNopHiHints { .. } => None,
            A64Insn::BrBr64BranchReg { rn, .. } => match f {
                A64RegField::Rn => Some(rn),
                _ => None,
            },
            A64Insn::BlrBlr64BranchReg { rn, .. } => match f {
                A64RegField::Rn => Some(rn),
                _ => None,
            },
            A64Insn::RetRet64rBranchReg { rn, .. } => match f {
                A64RegField::Rn => Some(rn),
                _ => None,
            },
            A64Insn::SvcSvcExException { .. } => None,
        }
    }

    /// The instruction with register number `enc` in field `f`, in the
    /// register kind that the form gives that field; unchanged if the form
    /// has no such field.
    pub open spec fn spec_with_reg(self, f: A64RegField, enc: u8) -> A64Insn {
        match self {
            A64Insn::AdrAdrOnlyPcreladdr { immlo, immhi, rd } => match f {
                A64RegField::Rd => A64Insn::AdrAdrOnlyPcreladdr { immlo: immlo, immhi: immhi, rd: A64Reg { enc: enc, width: A64RegWidth::X64, reg31: A64Reg31Mode::Xzr } },
                _ => self,
            },
            A64Insn::AdrpAdrpOnlyPcreladdr { immlo, immhi, rd } => match f {
                A64RegField::Rd => A64Insn::AdrpAdrpOnlyPcreladdr { immlo: immlo, immhi: immhi, rd: A64Reg { enc: enc, width: A64RegWidth::X64, reg31: A64Reg31Mode::Xzr } },
                _ => self,
            },
            A64Insn::AddAddsubImmAdd32AddsubImm { sh, imm12, rn, rd } => match f {
                A64RegField::Rn => A64Insn::AddAddsubImmAdd32AddsubImm { sh: sh, imm12: imm12, rn: A64Reg { enc: enc, width: A64RegWidth::W32, reg31: A64Reg31Mode::Sp }, rd: rd },
                A64RegField::Rd => A64Insn::AddAddsubImmAdd32AddsubImm { sh: sh, imm12: imm12, rn: rn, rd: A64Reg { enc: enc, width: A64RegWidth::W32, reg31: A64Reg31Mode::Sp } },
                _ => self,
            },
            A64Insn::AddAddsubImmAdd64AddsubImm { sh, imm12, rn, rd } => match f {
                A64RegField::Rn => A64Insn::AddAddsubImmAdd64AddsubImm { sh: sh, imm12: imm12, rn: A64Reg { enc: enc, width: A64RegWidth::X64, reg31: A64Reg31Mode::Sp }, rd: rd },
                A64RegField::Rd => A64Insn::AddAddsubImmAdd64AddsubImm { sh: sh, imm12: imm12, rn: rn, rd: A64Reg { enc: enc, width: A64RegWidth::X64, reg31: A64Reg31Mode::Sp } },
                _ => self,
            },
            A64Insn::SubAddsubImmSub32AddsubImm { sh, imm12, rn, rd } => match f {
                A64RegField::Rn => A64Insn::SubAddsubImmSub32AddsubImm { sh: sh, imm12: imm12, rn: A64Reg { enc: enc, width: A64RegWidth::W32, reg31: A64Reg31Mode::Sp }, rd: rd },
                A64RegField::Rd => A64Insn::SubAddsubImmSub32AddsubImm { sh: sh, imm12: imm12, rn: rn, rd: A64Reg { enc: enc, width: A64RegWidth::W32, reg31: A64Reg31Mode::Sp } },
                _ => self,
            },
            A64Insn::SubAddsubImmSub64AddsubImm { sh, imm12, rn, rd } => match f {
                A64RegField::Rn => A64Insn::SubAddsubImmSub64AddsubImm { sh: sh, imm12: imm12, rn: A64Reg { enc: enc, width: A64RegWidth::X64, reg31: A64Reg31Mode::Sp }, rd: rd },
                A64RegField::Rd => A64Insn::SubAddsubImmSub64AddsubImm { sh: sh, imm12: imm12, rn: rn, rd: A64Reg { enc: enc, width: A64RegWidth::X64, reg31: A64Reg31Mode::Sp } },
                _ => self,
            },
            A64Insn::SubsAddsubImmSubs32sAddsubImm { sh, imm12, rn, rd } => match f {
                A64RegField::Rn => A64Insn::SubsAddsubImmSubs32sAddsubImm { sh: sh, imm12: imm12, rn: A64Reg { enc: enc, width: A64RegWidth::W32, reg31: A64Reg31Mode::Sp }, rd: rd },
                A64RegField::Rd => A64Insn::SubsAddsubImmSubs32sAddsubImm { sh: sh, imm12: imm12, rn: rn, rd: A64Reg { enc: enc, width: A64RegWidth::W32, reg31: A64Reg31Mode::Xzr } },
                _ => self,
            },
            A64Insn::SubsAddsubImmSubs64sAddsubImm { sh, imm12, rn, rd } => match f {
                A64RegField::Rn => A64Insn::SubsAddsubImmSubs64sAddsubImm { sh: sh, imm12: imm12, rn: A64Reg { enc: enc, width: A64RegWidth::X64, reg31: A64Reg31Mode::Sp }, rd: rd },
                A64RegField::Rd => A64Insn::SubsAddsubImmSubs64sAddsubImm { sh: sh, imm12: imm12, rn: rn, rd: A64Reg { enc: enc, width: A64RegWidth::X64, reg31: A64Reg31Mode::Xzr } },
                _ => self,
            },
            A64Insn::BUncondBOnlyBranchImm { .. } => self,
            A64Insn::BlBlOnlyBranchImm { .. } => self,
            A64Insn::BCondBOnlyCondbranch { .. } => self,
            A64Insn::CbzCbz32Compbranch { imm19, rt } => match f {
                A64RegField::Rt => A64Insn::CbzCbz32Compbranch { imm19: imm19, rt: A64Reg { enc: enc, width: A64RegWidth::W32, reg31: A64Reg31Mode::Xzr } },
                _ => self,
            },
            A64Insn::CbzCbz64Compbranch { imm19, rt } => match f {
                A64RegField::Rt => A64Insn::CbzCbz64Compbranch { imm19: imm19, rt: A64Reg { enc: enc, width: A64RegWidth::X64, reg31: A64Reg31Mode::Xzr } },
                _ => self,
            },
            A64Insn::CbnzCbnz32Compbranch { imm19, rt } => match f {
                A64RegField::Rt => A64Insn::CbnzCbnz32Compbranch { imm19: imm19, rt: A64Reg { enc: enc, width: A64RegWidth::W32, reg31: A64Reg31Mode::Xzr } },
                _ => self,
            },
            A64Insn::CbnzCbnz64Compbranch { imm19, rt } => match f {
                A64RegField::Rt => A64Insn::CbnzCbnz64Compbranch { imm19: imm19, rt: A64Reg { enc: enc, width: A64RegWidth::X64, reg31: A64Reg31Mode::Xzr } },
                _ => self,
            },
            A64Insn::MovzMovz32Movewide { hw, imm16, rd } => match f {
                A64RegField::Rd => A64Insn::MovzMovz32Movewide { hw: hw, imm16: imm16, rd: A64Reg { enc: enc, width: A64RegWidth::W32, reg31: A64Reg31Mode::Xzr } },
                _ => self,
            },
            A64Insn::MovzMovz64Movewide { hw, imm16, rd } => match f {
                A64RegField::Rd => A64Insn::MovzMovz64Movewide { hw: hw, imm16: imm16, rd: A64Reg { enc: enc, width: A64RegWidth::X64, reg31: A64Reg31Mode::Xzr } },
                _ => self,
            },
            A64Insn::MovkMovk32Movewide { hw, imm16, rd } => match f {
                A64RegField::Rd => A64Insn::MovkMovk32Movewide { hw: hw, imm16: imm16, rd: A64Reg { enc: enc, width: A64RegWidth::W32, reg31: A64Reg31Mode::Xzr } },
                _ => self,
            },
            A64Insn::MovkMovk64Movewide { hw, imm16, rd } => match f {
                A64RegField::Rd => A64Insn::MovkMovk64Movewide { hw: hw, imm16: imm16, rd: A64Reg { enc: enc, width: A64RegWidth::X64, reg31: A64Reg31Mode::Xzr } },
                _ => self,
            },
            A64Insn::OrrLogShiftOrr64LogShift { shift, rm, imm6, rn, rd } => match f {
                A64RegField::Rm => A64Insn::OrrLogShiftOrr64LogShift { shift: shift, rm: A64Reg { enc: enc, width: A64RegWidth::X64, reg31: A64Reg31Mode::Xzr }, imm6: imm6, rn: rn, rd: rd },
                A64RegField::Rn => A64Insn::OrrLogShiftOrr64LogShift { shift: shift, rm: rm, imm6: imm6, rn: A64Reg { enc: enc, width: A64RegWidth::X64, reg31: A64Reg31Mode::Xzr }, rd: rd },
                A64RegField::Rd => A64Insn::OrrLogShiftOrr64LogShift { shift: shift, rm: rm, imm6: imm6, rn: rn, rd: A64Reg { enc: enc, width: A64RegWidth::X64, reg31: A64Reg31Mode::Xzr } },
                _ => self,
            },
            A64Insn::TbzTbzOnlyTestbranch { b5, b40, imm14, rt } => match f {
                A64RegField::Rt => A64Insn::TbzTbzOnlyTestbranch { b5: b5, b40: b40, imm14: imm14, rt: A64Reg { enc: enc, width: A64RegWidth::Unknown, reg31: A64Reg31Mode::Xzr } },
                _ => self,
            },
            A64Insn::TbnzTbnzOnlyTestbranch { b5, b40, imm14, rt } => match f {
                A64RegField::Rt => A64Insn::TbnzTbnzOnlyTestbranch { b5: b5, b40: b40, imm14: imm14, rt: A64Reg { enc: enc, width: A64RegWidth::Unknown, reg31: A64Reg31Mode::Xzr } },
                _ => self,
            },
            A64Insn::LdrImmGenLdr32LdstImmpost { rt, mem } => match f {
                A64RegField::Rt => A64Insn::LdrImmGenLdr32LdstImmpost { rt: A64Reg { enc: enc, width: A64RegWidth::W32, reg31: A64Reg31Mode::Xzr }, mem: mem },
                A64RegField::Rn => A64Insn::LdrImmGenLdr32LdstImmpost { rt: rt, mem: mem.spec_with_base(A64Reg { enc: enc, width: A64RegWidth::X64, reg31: A64Reg31Mode::Sp }) },
                _ => self,
            },
            A64Insn::LdrImmGenLdr64LdstImmpost { rt, mem } => match f {
                A64RegField::Rt => A64Insn::LdrImmGenLdr64LdstImmpost { rt: A64Reg { enc: enc, width: A64RegWidth::X64, reg31: A64Reg31Mode::Xzr }, mem: mem },
                A64RegField::Rn => A64Insn::LdrImmGenLdr64LdstImmpost { rt: rt, mem: mem.spec_with_base(A64Reg { enc: enc, width: A64RegWidth::X64, reg31: A64Reg31Mode::Sp }) },
                _ => self,
            },
            A64Insn::LdrImmGenLdr32LdstImmpre { rt, mem } => match f {
                A64RegField::Rt => A64Insn::LdrImmGenLdr32LdstImmpre { rt: A64Reg { enc: enc, width: A64RegWidth::W32, reg31: A64Reg31Mode::Xzr }, mem: mem },
                A64RegField::Rn => A64Insn::LdrImmGenLdr32LdstImmpre { rt: rt, mem: mem.spec_with_base(A64Reg { enc: enc, width: A64RegWidth::X64, reg31: A64Reg31Mode::Sp }) },
                _ => self,
            },
            A64Insn::LdrImmGenLdr64LdstImmpre { rt, mem } => match f {
                A64RegField::Rt => A64Insn::LdrImmGenLdr64LdstImmpre { rt: A64Reg { enc: enc, width: A64RegWidth::X64, reg31: A64Reg31Mode::Xzr }, mem: mem },
                A64RegField::Rn => A64Insn::LdrImmGenLdr64LdstImmpre { rt: rt, mem: mem.spec_with_base(A64Reg { enc: enc, width: A64RegWidth::X64, reg31: A64Reg31Mode::Sp }) },
                _ => self,
            },
            A64Insn::LdrImmGenLdr32LdstPos { rt, mem } => match f {
                A64RegField::Rt => A64Insn::LdrImmGenLdr32LdstPos { rt: A64Reg { enc: enc, width: A64RegWidth::W32, reg31: A64Reg31Mode::Xzr }, mem: mem },
                A64RegField::Rn => A64Insn::LdrImmGenLdr32LdstPos { rt: rt, mem: mem.spec_with_base(A64Reg { enc: enc, width: A64RegWidth::X64, reg31: A64Reg31Mode::Sp }) },
                _ => self,
            },
            A64Insn::LdrImmGenLdr64LdstPos { rt, mem } => match f {
                A64RegField::Rt => A64Insn::LdrImmGenLdr64LdstPos { rt: A64Reg { enc: enc, width: A64RegWidth::X64, reg31: A64Reg31Mode::Xzr }, mem: mem },
                A64RegField::Rn => A64Insn::LdrImmGenLdr64LdstPos { rt: rt, mem: mem.spec_with_base(A64Reg { enc: enc, width: A64RegWidth::X64, reg31: A64Reg31Mode::Sp }) },
                _ => self,
            },
            A64Insn::StrImmGenStr32LdstImmpost { rt, mem } => match f {
                A64RegField::Rt => A64Insn::StrImmGenStr32LdstImmpost { rt: A64Reg { enc: enc, width: A64RegWidth::W32, reg31: A64Reg31Mode::Xzr }, mem: mem },
                A64RegField::Rn => A64Insn::StrImmGenStr32LdstImmpost { rt: rt, mem: mem.spec_with_base(A64Reg { enc: enc, width: A64RegWidth::X64, reg31: A64Reg31Mode::Sp }) },
                _ => self,
            },
            A64Insn::StrImmGenStr64LdstImmpost { rt, mem } => match f {
                A64RegField::Rt => A64Insn::StrImmGenStr64LdstImmpost { rt: A64Reg { enc: enc, width: A64RegWidth::X64, reg31: A64Reg31Mode::Xzr }, mem: mem },
                A64RegField::Rn => A64Insn::StrImmGenStr64LdstImmpost { rt: rt, mem: mem.spec_with_base(A64Reg { enc: enc, width: A64RegWidth::X64, reg31: A64Reg31Mode::Sp }) },
                _ => self,
            },
            A64Insn::StrImmGenStr32LdstImmpre { rt, mem } => match f {
                A64RegField::Rt => A64Insn::StrImmGenStr32LdstImmpre { rt: A64Reg { enc: enc, width: A64RegWidth::W32, reg31: A64Reg31Mode::Xzr }, mem: mem },
                A64RegField::Rn => A64Insn::StrImmGenStr32LdstImmpre { rt: rt, mem: mem.spec_with_base(A64Reg { enc: enc, width: A64RegWidth::X64, reg31: A64Reg31Mode::Sp }) },
                _ => self,
            },
            A64Insn::StrImmGenStr64LdstImmpre { rt, mem } => match f {
                A64RegField::Rt => A64Insn::StrImmGenStr64LdstImmpre { rt: A64Reg { enc: enc, width: A64RegWidth::X64, reg31: A64Reg31Mode::Xzr }, mem: mem },
                A64RegField::Rn => A64Insn::StrImmGenStr64LdstImmpre { rt: rt, mem: mem.spec_with_base(A64Reg { enc: enc, width: A64RegWidth::X64, reg31: A64Reg31Mode::Sp }) },
                _ => self,
            },
            A64Insn::StrImmGenStr32LdstPos { rt, mem } => match f {
                A64RegField::Rt => A64Insn::StrImmGenStr32LdstPos { rt: A64Reg { enc: enc, width: A64RegWidth::W32, reg31: A64Reg31Mode::Xzr }, mem: mem },
                A64RegField::Rn => A64Insn::StrImmGenStr32LdstPos { rt: rt, mem: mem.spec_with_base(A64Reg { enc: enc, width: A64RegWidth::X64, reg31: A64Reg31Mode::Sp }) },
                _ => self,
            },
            A64Insn::StrImmGenStr64LdstPos { rt, mem } => match f {
                A64RegField::Rt => A64Insn::StrImmGenStr64LdstPos { rt: A64Reg { enc: enc, width: A64RegWidth::X64, reg31: A64Reg31Mode::Xzr }, mem: mem },
                A64RegField::Rn => A64Insn::StrImmGenStr64LdstPos { rt: rt, mem: mem.spec_with_base(A64Reg { enc: enc, width: A64RegWidth::X64, reg31: A64Reg31Mode::Sp }) },
                _ => self,
            },
            A64Insn::LdpGenLdp64LdstpairPost { rt2, rt, mem } => match f {
                A64RegField::Rt2 => A64Insn::LdpGenLdp64LdstpairPost { rt2: A64Reg { enc: enc, width: A64RegWidth::X64, reg31: A64Reg31Mode::Xzr }, rt: rt, mem: mem },
                A64RegField::Rt => A64Insn::LdpGenLdp64LdstpairPost { rt2: rt2, rt: A64Reg { enc: enc, width: A64RegWidth::X64, reg31: A64Reg31Mode::Xzr }, mem: mem },
                A64RegField::Rn => A64Insn::LdpGenLdp64LdstpairPost { rt2: rt2, rt: rt, mem: mem.spec_with_base(A64Reg { enc: enc, width: A64RegWidth::X64, reg31: A64Reg31Mode::Sp }) },
                _ => self,
            },
            A64Insn::LdpGenLdp64LdstpairPre { rt2, rt, mem } => match f {
                A64RegField::Rt2 => A64Insn::LdpGenLdp64LdstpairPre { rt2: A64Reg { enc: enc, width: A64RegWidth::X64, reg31: A64Reg31Mode::Xzr }, rt: rt, mem: mem },
                A64RegField::Rt => A64Insn::LdpGenLdp64LdstpairPre { rt2: rt2, rt: A64Reg { enc: enc, width: A64RegWidth::X64, reg31: A64Reg31Mode::Xzr }, mem: mem },
                A64RegField::Rn => A64Insn::LdpGenLdp64LdstpairPre { rt2: rt2, rt: rt, mem: mem.spec_with_base(A64Reg { enc: enc, width: A64RegWidth::X64, reg31: A64Reg31Mode::Sp }) },
                _ => self,
            },
            A64Insn::LdpGenLdp64LdstpairOff { rt2, rt, mem } => match f {
                A64RegField::Rt2 => A64Insn::LdpGenLdp64LdstpairOff { rt2: A64Reg { enc: enc, width: A64RegWidth::X64, reg31: A64Reg31Mode::Xzr }, rt: rt, mem: mem },
                A64RegField::Rt => A64Insn::LdpGenLdp64LdstpairOff { rt2: rt2, rt: A64Reg { enc: enc, width: A64RegWidth::X64, reg31: A64Reg31Mode::Xzr }, mem: mem },
                A64RegField::Rn => A64Insn::LdpGenLdp64LdstpairOff { rt2: rt2, rt: rt, mem: mem.spec_with_base(A64Reg { enc: enc, width: A64RegWidth::X64, reg31: A64Reg31Mode::Sp }) },
                _ => self,
            },
            A64Insn::StpGenStp64LdstpairPost { rt2, rt, mem } => match f {
                A64RegField::Rt2 => A64Insn::StpGenStp64LdstpairPost { rt2: A64Reg { enc: enc, width: A64RegWidth::X64, reg31: A64Reg31Mode::Xzr }, rt: rt, mem: mem },
                A64RegField::Rt => A64Insn::StpGenStp64LdstpairPost { rt2: rt2, rt: A64Reg { enc: enc, width: A64RegWidth::X64, reg31: A64Reg31Mode::Xzr }, mem: mem },
                A64RegField::Rn => A64Insn::StpGenStp64LdstpairPost { rt2: rt2, rt: rt, mem: mem.spec_with_base(A64Reg { enc: enc, width: A64RegWidth::X64, reg31: A64Reg31Mode::Sp }) },
                _ => self,
            },
            A64Insn::StpGenStp64LdstpairPre { rt2, rt, mem } => match f {
                A64RegField::Rt2 => A64Insn::StpGenStp64LdstpairPre { rt2: A64Reg { enc: enc, width: A64RegWidth::X64, reg31: A64Reg31Mode::Xzr }, rt: rt, mem: mem },
                A64RegField::Rt => A64Insn::StpGenStp64LdstpairPre { rt2: rt2, rt: A64Reg { enc: enc, width: A64RegWidth::X64, reg31: A64Reg31Mode::Xzr }, mem: mem },
                A64RegField::Rn => A64Insn::StpGenStp64LdstpairPre { rt2: rt2, rt: rt, mem: mem.spec_with_base(A64Reg { enc: enc, width: A64RegWidth::X64, reg31: A64Reg31Mode::Sp }) },
                _ => self,
            },
            A64Insn::StpGenStp64LdstpairOff { rt2, rt, mem } => match f {
                A64RegField::Rt2 => A64Insn::StpGenStp64LdstpairOff { rt2: A64Reg { enc: enc, width: A64RegWidth::X64, reg31: A64Reg31Mode::Xzr }, rt: rt, mem: mem },
                A64RegField::Rt => A64Insn::StpGenStp64LdstpairOff { rt2: rt2, rt: A64Reg { enc: enc, width: A64RegWidth::X64, reg31: A64Reg31Mode::Xzr }, mem: mem },
                A64RegField::Rn => A64Insn::StpGenStp64LdstpairOff { rt2: rt2, rt: rt, mem: mem.spec_with_base(A64Reg { enc: enc, width: A64RegWidth::X64, reg31: A64Reg31Mode::Sp }) },
                _ => self,
            },
            A64Insn::NopNopHiHints { .. } => self,
            A64Insn::BrBr64BranchReg { rn } => match f {
                A64RegField::Rn => A64Insn::BrBr64BranchReg { rn: A64Reg { enc: enc, width: A64RegWidth::X64, reg31: A64Reg31Mode::Xzr } },
                _ => self,
            },
            A64Insn::BlrBlr64BranchReg { rn } => match f {
                A64RegField::Rn => A64Insn::BlrBlr64BranchReg { rn: A64Reg { enc: enc, width: A64RegWidth::X64, reg31: A64Reg31Mode::Xzr } },
                _ => self,
            },
            A64Insn::RetRet64rBranchReg { rn } => match f {
                A64RegField::Rn => A64Insn::RetRet64rBranchReg { rn: A64Reg { enc: enc, width: A64RegWidth::X64, reg31: A64Reg31Mode::Xzr } },
                _ => self,
            },
            A64Insn::SvcSvcExException { .. } => self,
        }
    }

    pub fn with_reg(self, f: A64RegField, enc: u8) -> (r: A64Insn)
        ensures
            r == self.spec_with_reg(f, enc),
    {
        match self {
            A64Insn::AdrAdrOnlyPcreladdr { immlo, immhi, rd } => match f {
                A64RegField::Rd => A64Insn::AdrAdrOnlyPcreladdr { immlo: immlo, immhi: immhi, rd: A64Reg { enc: enc, width: A64RegWidth::X64, reg31: A64Reg31Mode::Xzr } },
                _ => self,
            },
            A64Insn::AdrpAdrpOnlyPcreladdr { immlo, immhi, rd } => match f {
                A64RegField::Rd => A64Insn::AdrpAdrpOnlyPcreladdr { immlo: immlo, immhi: immhi, rd: A64Reg { enc: enc, width: A64RegWidth::X64, reg31: A64Reg31Mode::Xzr } },
                _ => self,
            },
            A64Insn::AddAddsubImmAdd32AddsubImm { sh, imm12, rn, rd } => match f {
                A64RegField::Rn => A64Insn::AddAddsubImmAdd32AddsubImm { sh: sh, imm12: imm12, rn: A64Reg { enc: enc, width: A64RegWidth::W32, reg31: A64Reg31Mode::Sp }, rd: rd },
                A64RegField::Rd => A64Insn::AddAddsubImmAdd32AddsubImm { sh: sh, imm12: imm12, rn: rn, rd: A64Reg { enc: enc, width: A64RegWidth::W32, reg31: A64Reg31Mode::Sp } },
                _ => self,
            },
            A64Insn::AddAddsubImmAdd64AddsubImm { sh, imm12, rn, rd } => match f {
                A64RegField::Rn => A64Insn::AddAddsubImmAdd64AddsubImm { sh: sh, imm12: imm12, rn: A64Reg { enc: enc, width: A64RegWidth::X64, reg31: A64Reg31Mode::Sp }, rd: rd },
                A64RegField::Rd => A64Insn::AddAddsubImmAdd64AddsubImm { sh: sh, imm12: imm12, rn: rn, rd: A64Reg { enc: enc, width: A64RegWidth::X64, reg31: A64Reg31Mode::Sp } },
                _ => self,
            },
            A64Insn::SubAddsubImmSub32AddsubImm { sh, imm12, rn, rd } => match f {
                A64RegField::Rn => A64Insn::SubAddsubImmSub32AddsubImm { sh: sh, imm12: imm12, rn: A64Reg { enc: enc, width: A64RegWidth::W32, reg31: A64Reg31Mode::Sp }, rd: rd },
                A64RegField::Rd => A64Insn::SubAddsubImmSub32AddsubImm { sh: sh, imm12: imm12, rn: rn, rd: A64Reg { enc: enc, width: A64RegWidth::W32, reg31: A64Reg31Mode::Sp } },
                _ => self,
            },
            A64Insn::SubAddsubImmSub64AddsubImm { sh, imm12, rn, rd } => match f {
                A64RegField::Rn => A64Insn::SubAddsubImmSub64AddsubImm { sh: sh, imm12: imm12, rn: A64Reg { enc: enc, width: A64RegWidth::X64, reg31: A64Reg31Mode::Sp }, rd: rd },
                A64RegField::Rd => A64Insn::SubAddsubImmSub64AddsubImm { sh: sh, imm12: imm12, rn: rn, rd: A64Reg { enc: enc, width: A64RegWidth::X64, reg31: A64Reg31Mode::Sp } },
                _ => self,
            },
            A64Insn::SubsAddsubImmSubs32sAddsubImm { sh, imm12, rn, rd } => match f {
                A64RegField::Rn => A64Insn::SubsAddsubImmSubs32sAddsubImm { sh: sh, imm12: imm12, rn: A64Reg { enc: enc, width: A64RegWidth::W32, reg31: A64Reg31Mode::Sp }, rd: rd },
                A64RegField::Rd => A64Insn::SubsAddsubImmSubs32sAddsubImm { sh: sh, imm12: imm12, rn: rn, rd: A64Reg { enc: enc, width: A64RegWidth::W32, reg31: A64Reg31Mode::Xzr } },
                _ => self,
            },
            A64Insn::SubsAddsubImmSubs64sAddsubImm { sh, imm12, rn, rd } => match f {
                A64RegField::Rn => A64Insn::SubsAddsubImmSubs64sAddsubImm { sh: sh, imm12: imm12, rn: A64Reg { enc: enc, width: A64RegWidth::X64, reg31: A64Reg31Mode::Sp }, rd: rd },
                A64RegField::Rd => A64Insn::SubsAddsubImmSubs64sAddsubImm { sh: sh, imm12: imm12, rn: rn, rd: A64Reg { enc: enc, width: A64RegWidth::X64, reg31: A64Reg31Mode::Xzr } },
                _ => self,
            },
            A64Insn::BUncondBOnlyBranchImm { .. } => self,
            A64Insn::BlBlOnlyBranchImm { .. } => self,
            A64Insn::BCondBOnlyCondbranch { .. } => self,
            A64Insn::CbzCbz32Compbranch { imm19, rt } => match f {
                A64RegField::Rt => A64Insn::CbzCbz32Compbranch { imm19: imm19, rt: A64Reg { enc: enc, width: A64RegWidth::W32, reg31: A64Reg31Mode::Xzr } },
                _ => self,
            },
            A64Insn::CbzCbz64Compbranch { imm19, rt } => match f {
                A64RegField::Rt => A64Insn::CbzCbz64Compbranch { imm19: imm19, rt: A64Reg { enc: enc, width: A64RegWidth::X64, reg31: A64Reg31Mode::Xzr } },
                _ => self,
            },
            A64Insn::CbnzCbnz32Compbranch { imm19, rt } => match f {
                A64RegField::Rt => A64Insn::CbnzCbnz32Compbranch { imm19: imm19, rt: A64Reg { enc: enc, width: A64RegWidth::W32, reg31: A64Reg31Mode::Xzr } },
                _ => self,
            },
            A64Insn::CbnzCbnz64Compbranch { imm19, rt } => match f {
                A64RegField::Rt => A64Insn::CbnzCbnz64Compbranch { imm19: imm19, rt: A64Reg { enc: enc, width: A64RegWidth::X64, reg31: A64Reg31Mode::Xzr } },
                _ => self,
            },
            A64Insn::MovzMovz32Movewide { hw, imm16, rd } => match f {
                A64RegField::Rd => A64Insn::MovzMovz32Movewide { hw: hw, imm16: imm16, rd: A64Reg { enc: enc, width: A64RegWidth::W32, reg31: A64Reg31Mode::Xzr } },
                _ => self,
            },
            A64Insn::MovzMovz64Movewide { hw, imm16, rd } => match f {
                A64RegField::Rd => A64Insn::MovzMovz64Movewide { hw: hw, imm16: imm16, rd: A64Reg { enc: enc, width: A64RegWidth::X64, reg31: A64Reg31Mode::Xzr } },
                _ => self,
            },
            A64Insn::MovkMovk32Movewide { hw, imm16, rd } => match f {
                A64RegField::Rd => A64Insn::MovkMovk32Movewide { hw: hw, imm16: imm16, rd: A64Reg { enc: enc, width: A64RegWidth::W32, reg31: A64Reg31Mode::Xzr } },
                _ => self,
            },
            A64Insn::MovkMovk64Movewide { hw, imm16, rd } => match f {
                A64RegField::Rd => A64Insn::MovkMovk64Movewide { hw: hw, imm16: imm16, rd: A64Reg { enc: enc, width: A64RegWidth::X64, reg31: A64Reg31Mode::Xzr } },
                _ => self,
            },
            A64Insn::OrrLogShiftOrr64LogShift { shift, rm, imm6, rn, rd } => match f {
                A64RegField::Rm => A64Insn::OrrLogShiftOrr64LogShift { shift: shift, rm: A64Reg { enc: enc, width: A64RegWidth::X64, reg31: A64Reg31Mode::Xzr }, imm6: imm6, rn: rn, rd: rd },
                A64RegField::Rn => A64Insn::OrrLogShiftOrr64LogShift { shift: shift, rm: rm, imm6: imm6, rn: A64Reg { enc: enc, width: A64RegWidth::X64, reg31: A64Reg31Mode::Xzr }, rd: rd },
                A64RegField::Rd => A64Insn::OrrLogShiftOrr64LogShift { shift: shift, rm: rm, imm6: imm6, rn: rn, rd: A64Reg { enc: enc, width: A64RegWidth::X64, reg31: A64Reg31Mode::Xzr } },
                _ => self,
            },
            A64Insn::TbzTbzOnlyTestbranch { b5, b40, imm14, rt } => match f {
                A64RegField::Rt => A64Insn::TbzTbzOnlyTestbranch { b5: b5, b40: b40, imm14: imm14, rt: A64Reg { enc: enc, width: A64RegWidth::Unknown, reg31: A64Reg31Mode::Xzr } },
                _ => self,
            },
            A64Insn::TbnzTbnzOnlyTestbranch { b5, b40, imm14, rt } => match f {
                A64RegField::Rt => A64Insn::TbnzTbnzOnlyTestbranch { b5: b5, b40: b40, imm14: imm14, rt: A64Reg { enc: enc, width: A64RegWidth::Unknown, reg31: A64Reg31Mode::Xzr } },
                _ => self,
            },
            A64Insn::LdrImmGenLdr32LdstImmpost { rt, mem } => match f {
                A64RegField::Rt => A64Insn::LdrImmGenLdr32LdstImmpost { rt: A64Reg { enc: enc, width: A64RegWidth::W32, reg31: A64Reg31Mode::Xzr }, mem: mem },
                A64RegField::Rn => A64Insn::LdrImmGenLdr32LdstImmpost { rt: rt, mem: mem.with_base(A64Reg { enc: enc, width: A64RegWidth::X64, reg31: A64Reg31Mode::Sp }) },
                _ => self,
            },
            A64Insn::LdrImmGenLdr64LdstImmpost { rt, mem } => match f {
                A64RegField::Rt => A64Insn::LdrImmGenLdr64LdstImmpost { rt: A64Reg { enc: enc, width: A64RegWidth::X64, reg31: A64Reg31Mode::Xzr }, mem: mem },
                A64RegField::Rn => A64Insn::LdrImmGenLdr64LdstImmpost { rt: rt, mem: mem.with_base(A64Reg { enc: enc, width: A64RegWidth::X64, reg31: A64Reg31Mode::Sp }) },
                _ => self,
            },
            A64Insn::LdrImmGenLdr32LdstImmpre { rt, mem } => match f {
                A64RegField::Rt => A64Insn::LdrImmGenLdr32LdstImmpre { rt: A64Reg { enc: enc, width: A64RegWidth::W32, reg31: A64Reg31Mode::Xzr }, mem: mem },
                A64RegField::Rn => A64Insn::LdrImmGenLdr32LdstImmpre { rt: rt, mem: mem.with_base(A64Reg { enc: enc, width: A64RegWidth::X64, reg31: A64Reg31Mode::Sp }) },
                _ => self,
            },
            A64Insn::LdrImmGenLdr64LdstImmpre { rt, mem } => match f {
                A64RegField::Rt => A64Insn::LdrImmGenLdr64LdstImmpre { rt: A64Reg { enc: enc, width: A64RegWidth::X64, reg31: A64Reg31Mode::Xzr }, mem: mem },
                A64RegField::Rn => A64Insn::LdrImmGenLdr64LdstImmpre { rt: rt, mem: mem.with_base(A64Reg { enc: enc, width: A64RegWidth::X64, reg31: A64Reg31Mode::Sp }) },
                _ => self,
            },
            A64Insn::LdrImmGenLdr32LdstPos { rt, mem } => match f {
                A64RegField::Rt => A64Insn::LdrImmGenLdr32LdstPos { rt: A64Reg { enc: enc, width: A64RegWidth::W32, reg31: A64Reg31Mode::Xzr }, mem: mem },
                A64RegField::Rn => A64Insn::LdrImmGenLdr32LdstPos { rt: rt, mem: mem.with_base(A64Reg { enc: enc, width: A64RegWidth::X64, reg31: A64Reg31Mode::Sp }) },
                _ => self,
            },
            A64Insn::LdrImmGenLdr64LdstPos { rt, mem } => match f {
                A64RegField::Rt => A64Insn::LdrImmGenLdr64LdstPos { rt: A64Reg { enc: enc, width: A64RegWidth::X64, reg31: A64Reg31Mode::Xzr }, mem: mem },
                A64RegField::Rn => A64Insn::LdrImmGenLdr64LdstPos { rt: rt, mem: mem.with_base(A64Reg { enc: enc, width: A64RegWidth::X64, reg31: A64Reg31Mode::Sp }) },
                _ => self,
            },
            A64Insn::StrImmGenStr32LdstImmpost { rt, mem } => match f {
                A64RegField::Rt => A64Insn::StrImmGenStr32LdstImmpost { rt: A64Reg { enc: enc, width: A64RegWidth::W32, reg31: A64Reg31Mode::Xzr }, mem: mem },
                A64RegField::Rn => A64Insn::StrImmGenStr32LdstImmpost { rt: rt, mem: mem.with_base(A64Reg { enc: enc, width: A64RegWidth::X64, reg31: A64Reg31Mode::Sp }) },
                _ => self,
            },
            A64Insn::StrImmGenStr64LdstImmpost { rt, mem } => match f {
                A64RegField::Rt => A64Insn::StrImmGenStr64LdstImmpost { rt: A64Reg { enc: enc, width: A64RegWidth::X64, reg31: A64Reg31Mode::Xzr }, mem: mem },
                A64RegField::Rn => A64Insn::StrImmGenStr64LdstImmpost { rt: rt, mem: mem.with_base(A64Reg { enc: enc, width: A64RegWidth::X64, reg31: A64Reg31Mode::Sp }) },
                _ => self,
            },
            A64Insn::StrImmGenStr32LdstImmpre { rt, mem } => match f {
                A64RegField::Rt => A64Insn::StrImmGenStr32LdstImmpre { rt: A64Reg { enc: enc, width: A64RegWidth::W32, reg31: A64Reg31Mode::Xzr }, mem: mem },
                A64RegField::Rn => A64Insn::StrImmGenStr32LdstImmpre { rt: rt, mem: mem.with_base(A64Reg { enc: enc, width: A64RegWidth::X64, reg31: A64Reg31Mode::Sp }) },
                _ => self,
            },
            A64Insn::StrImmGenStr64LdstImmpre { rt, mem } => match f {
                A64RegField::Rt => A64Insn::StrImmGenStr64LdstImmpre { rt: A64Reg { enc: enc, width: A64RegWidth::X64, reg31: A64Reg31Mode::Xzr }, mem: mem },
                A64RegField::Rn => A64Insn::StrImmGenStr64LdstImmpre { rt: rt, mem: mem.with_base(A64Reg { enc: enc, width: A64RegWidth::X64, reg31: A64Reg31Mode::Sp }) },
                _ => self,
            },
            A64Insn::StrImmGenStr32LdstPos { rt, mem } => match f {
                A64RegField::Rt => A64Insn::StrImmGenStr32LdstPos { rt: A64Reg { enc: enc, width: A64RegWidth::W32, reg31: A64Reg31Mode::Xzr }, mem: mem },
                A64RegField::Rn => A64Insn::StrImmGenStr32LdstPos { rt: rt, mem: mem.with_base(A64Reg { enc: enc, width: A64RegWidth::X64, reg31: A64Reg31Mode::Sp }) },
                _ => self,
            },
            A64Insn::StrImmGenStr64LdstPos { rt, mem } => match f {
                A64RegField::Rt => A64Insn::StrImmGenStr64LdstPos { rt: A64Reg { enc: enc, width: A64RegWidth::X64, reg31: A64Reg31Mode::Xzr }, mem: mem },
                A64RegField::Rn => A64Insn::StrImmGenStr64LdstPos { rt: rt, mem: mem.with_base(A64Reg { enc: enc, width: A64RegWidth::X64, reg31: A64Reg31Mode::Sp }) },
                _ => self,
            },
            A64Insn::LdpGenLdp64LdstpairPost { rt2, rt, mem } => match f {
                A64RegField::Rt2 => A64Insn::LdpGenLdp64LdstpairPost { rt2: A64Reg { enc: enc, width: A64RegWidth::X64, reg31: A64Reg31Mode::Xzr }, rt: rt, mem: mem },
                A64RegField::Rt => A64Insn::LdpGenLdp64LdstpairPost { rt2: rt2, rt: A64Reg { enc: enc, width: A64RegWidth::X64, reg31: A64Reg31Mode::Xzr }, mem: mem },
                A64RegField::Rn => A64Insn::LdpGenLdp64LdstpairPost { rt2: rt2, rt: rt, mem: mem.with_base(A64Reg { enc: enc, width: A64RegWidth::X64, reg31: A64Reg31Mode::Sp }) },
                _ => self,
            },
            A64Insn::LdpGenLdp64LdstpairPre { rt2, rt, mem } => match f {
                A64RegField::Rt2 => A64Insn::LdpGenLdp64LdstpairPre { rt2: A64Reg { enc: enc, width: A64RegWidth::X64, reg31: A64Reg31Mode::Xzr }, rt: rt, mem: mem },
                A64RegField::Rt => A64Insn::LdpGenLdp64LdstpairPre { rt2: rt2, rt: A64Reg { enc: enc, width: A64RegWidth::X64, reg31: A64Reg31Mode::Xzr }, mem: mem },
                A64RegField::Rn => A64Insn::LdpGenLdp64LdstpairPre { rt2: rt2, rt: rt, mem: mem.with_base(A64Reg { enc: enc, width: A64RegWidth::X64, reg31: A64Reg31Mode::Sp }) },
                _ => self,
            },
            A64Insn::LdpGenLdp64LdstpairOff { rt2, rt, mem } => match f {
                A64RegField::Rt2 => A64Insn::LdpGenLdp64LdstpairOff { rt2: A64Reg { enc: enc, width: A64RegWidth::X64, reg31: A64Reg31Mode::Xzr }, rt: rt, mem: mem },
                A64RegField::Rt => A64Insn::LdpGenLdp64LdstpairOff { rt2: rt2, rt: A64Reg { enc: enc, width: A64RegWidth::X64, reg31: A64Reg31Mode::Xzr }, mem: mem },
                A64RegField::Rn => A64Insn::LdpGenLdp64LdstpairOff { rt2: rt2, rt: rt, mem: mem.with_base(A64Reg { enc: enc, width: A64RegWidth::X64, reg31: A64Reg31Mode::Sp }) },
                _ => self,
            },
            A64Insn::StpGenStp64LdstpairPost { rt2, rt, mem } => match f {
                A64RegField::Rt2 => A64Insn::StpGenStp64LdstpairPost { rt2: A64Reg { enc: enc, width: A64RegWidth::X64, reg31: A64Reg31Mode::Xzr }, rt: rt, mem: mem },
                A64RegField::Rt => A64Insn::StpGenStp64LdstpairPost { rt2: rt2, rt: A64Reg { enc: enc, width: A64RegWidth::X64, reg31: A64Reg31Mode::Xzr }, mem: mem },
                A64RegField::Rn => A64Insn::StpGenStp64LdstpairPost { rt2: rt2, rt: rt, mem: mem.with_base(A64Reg { enc: enc, width: A64RegWidth::X64, reg31: A64Reg31Mode::Sp }) },
                _ => self,
            },
            A64Insn::StpGenStp64LdstpairPre { rt2, rt, mem } => match f {
                A64RegField::Rt2 => A64Insn::StpGenStp64LdstpairPre { rt2: A64Reg { enc: enc, width: A64RegWidth::X64, reg31: A64Reg31Mode::Xzr }, rt: rt, mem: mem },
                A64RegField::Rt => A64Insn::StpGenStp64LdstpairPre { rt2: rt2, rt: A64Reg { enc: enc, width: A64RegWidth::X64, reg31: A64Reg31Mode::Xzr }, mem: mem },
                A64RegField::Rn => A64Insn::StpGenStp64LdstpairPre { rt2: rt2, rt: rt, mem: mem.with_base(A64Reg { enc: enc, width: A64RegWidth::X64, reg31: A64Reg31Mode::Sp }) },
                _ => self,
            },
            A64Insn::StpGenStp64LdstpairOff { rt2, rt, mem } => match f {
                A64RegField::Rt2 => A64Insn::StpGenStp64LdstpairOff { rt2: A64Reg { enc: enc, width: A64RegWidth::X64, reg31: A64Reg31Mode::Xzr }, rt: rt, mem: mem },
                A64RegField::Rt => A64Insn::StpGenStp64LdstpairOff { rt2: rt2, rt: A64Reg { enc: enc, width: A64RegWidth::X64, reg31: A64Reg31Mode::Xzr }, mem: mem },
                A64RegField::Rn => A64Insn::StpGenStp64LdstpairOff { rt2: rt2, rt: rt, mem: mem.with_base(A64Reg { enc: enc, width: A64RegWidth::X64, reg31: A64Reg31Mode::Sp }) },
                _ => self,
            },
            A64Insn::NopNopHiHints { .. } => self,
            A64Insn::BrBr64BranchReg { rn } => match f {
                A64RegField::Rn => A64Insn::BrBr64BranchReg { rn: A64Reg { enc: enc, width: A64RegWidth::X64, reg31: A64Reg31Mode::Xzr } },
                _ => self,
            },
            A64Insn::BlrBlr64BranchReg { rn } => match f {
                A64RegField::Rn => A64Insn::BlrBlr64BranchReg { rn: A64Reg { enc: enc, width: A64RegWidth::X64, reg31: A64Reg31Mode::Xzr } },
                _ => self,
            },
            A64Insn::RetRet64rBranchReg { rn } => match f {
                A64RegField::Rn => A64Insn::RetRet64rBranchReg { rn: A64Reg { enc: enc, width: A64RegWidth::X64, reg31: A64Reg31Mode::Xzr } },
                _ => self,
            },
            A64Insn::SvcSvcExException { .. } => self,
        }
    }

    /// The register in the field named `name`, if the form has such a field.
    pub open spec fn spec_get_reg(self, name: Seq<char>) -> Option<A64Reg> {
        match spec_reg_field(name) {
            Some(f) => self.spec_reg_at(f),
            None => None,
        }
    }

    pub fn get_reg(self, field: &str) -> (r: Option<A64Reg>)
        ensures
            r == self.spec_get_reg(field@),
    {
        match reg_field(field) {
            Some(f) => self.reg_at(f),
            None => None,
        }
    }

    /// Rewriting the register field named `field`: refused when the form has
    /// no such field, or when the register number does not fit five bits.
    pub open spec fn spec_set_reg(self, field: &'static str, reg: A64Reg) -> Result<A64Insn, A64RewriteError> {
        match spec_reg_field(field@) {
            Some(f) => if self.spec_reg_at(f) is None {
                Err(A64RewriteError::UnsupportedField { insn: self.spec_key(), field })
            } else if reg.enc >= 32 {
                Err(A64RewriteError::FieldOutOfRange { insn: self.spec_key(), field, value: reg.enc as u64, width: 5 })
            } else {
                Ok(self.spec_with_reg(f, reg.enc))
            },
            None => Err(A64RewriteError::UnsupportedField { insn: self.spec_key(), field }),
        }
    }

    pub fn set_reg(self, field: &'static str, reg: A64Reg) -> (r: Result<A64Insn, A64RewriteError>)
        ensures
            r == self.spec_set_reg(field, reg),
    {
        match reg_field(field) {
            Some(f) => {
                if self.reg_at(f).is_none() {
                    Err(A64RewriteError::UnsupportedField { insn: self.key(), field })
                } else if reg.enc >= 32 {
                    Err(A64RewriteError::FieldOutOfRange { insn: self.key(), field, value: reg.enc as u64, width: 5 })
                } else {
                    Ok(self.with_reg(f, reg.enc))
                }
            },
            None => Err(A64RewriteError::UnsupportedField { insn: self.key(), field }),
        }
    }

    /// The branch offset immediate of the form, if it has one.
    pub open spec fn spec_branch_imm(self) -> Option<A64Imm> {
        match self {
            A64Insn::BUncondBOnlyBranchImm { imm26, .. } => Some(imm26),
            A64Insn::BlBlOnlyBranchImm { imm26, .. } => Some(imm26),
            A64Insn::BCondBOnlyCondbranch { imm19, .. } => Some(imm19),
            A64Insn::CbzCbz32Compbranch { imm19, .. } => Some(imm19),
            A64Insn::CbzCbz64Compbranch { imm19, .. } => Some(imm19),
            A64Insn::CbnzCbnz32Compbranch { imm19, .. } => Some(imm19),
            A64Insn::CbnzCbnz64Compbranch { imm19, .. } => Some(imm19),
            A64Insn::TbzTbzOnlyTestbranch { imm14, .. } => Some(imm14),
            A64Insn::TbnzTbnzOnlyTestbranch { imm14, .. } => Some(imm14),
            _ => None,
        }
    }

    /// The encoding name of the branch offset field ("" when there is none).
    pub open spec fn spec_branch_field(self) -> &'static str {
        match self {
            A64Insn::BUncondBOnlyBranchImm { .. } => "imm26",
            A64Insn::BlBlOnlyBranchImm { .. } => "imm26",
            A64Insn::BCondBOnlyCondbranch { .. } => "imm19",
            A64Insn::CbzCbz32Compbranch { .. } => "imm19",
            A64Insn::CbzCbz64Compbranch { .. } => "imm19",
            A64Insn::CbnzCbnz32Compbranch { .. } => "imm19",
            A64Insn::CbnzCbnz64Compbranch { .. } => "imm19",
            A64Insn::TbzTbzOnlyTestbranch { .. } => "imm14",
            A64Insn::TbnzTbnzOnlyTestbranch { .. } => "imm14",
            _ => "",
        }
    }

    /// The width in bits of the branch offset field (0 when there is none).
    pub open spec fn spec_branch_bits(self) -> u8 {
        match self {
            A64Insn::BUncondBOnlyBranchImm { .. } => 26,
            A64Insn::BlBlOnlyBranchImm { .. } => 26,
            A64Insn::BCondBOnlyCondbranch { .. } => 19,
            A64Insn::CbzCbz32Compbranch { .. } => 19,
            A64Insn::CbzCbz64Compbranch { .. } => 19,
            A64Insn::CbnzCbnz32Compbranch { .. } => 19,
            A64Insn::CbnzCbnz64Compbranch { .. } => 19,
            A64Insn::TbzTbzOnlyTestbranch { .. } => 14,
            A64Insn::TbnzTbnzOnlyTestbranch { .. } => 14,
            _ => 0,
        }
    }

    /// One past the largest raw value of the branch offset field.
    pub open spec fn spec_branch_limit(self) -> u32 {
        match self {
            A64Insn::BUncondBOnlyBranchImm { .. } => 0x4000000,
            A64Insn::BlBlOnlyBranchImm { .. } => 0x4000000,
            A64Insn::BCondBOnlyCondbranch { .. } => 0x80000,
            A64Insn::CbzCbz32Compbranch { .. } => 0x80000,
            A64Insn::CbzCbz64Compbranch { .. } => 0x80000,
            A64Insn::CbnzCbnz32Compbranch { .. } => 0x80000,
            A64Insn::CbnzCbnz64Compbranch { .. } => 0x80000,
            A64Insn::TbzTbzOnlyTestbranch { .. } => 0x4000,
            A64Insn::TbnzTbnzOnlyTestbranch { .. } => 0x4000,
            _ => 0,
        }
    }

    /// The instruction with `raw` in its branch offset field.
    pub open spec fn spec_with_branch_raw(self, raw: u32) -> A64Insn {
        match self {
            A64Insn::BUncondBOnlyBranchImm { imm26 } => A64Insn::BUncondBOnlyBranchImm { imm26: A64Imm { raw: raw, bits: 26, scale: 2, signed: true } },
            A64Insn::BlBlOnlyBranchImm { imm26 } => A64Insn::BlBlOnlyBranchImm { imm26: A64Imm { raw: raw, bits: 26, scale: 2, signed: true } },
            A64Insn::BCondBOnlyCondbranch { imm19, cond } => A64Insn::BCondBOnlyCondbranch { imm19: A64Imm { raw: raw, bits: 19, scale: 2, signed: true }, cond: cond },
            A64Insn::CbzCbz32Compbranch { imm19, rt } => A64Insn::CbzCbz32Compbranch { imm19: A64Imm { raw: raw, bits: 19, scale: 2, signed: true }, rt: rt },
            A64Insn::CbzCbz64Compbranch { imm19, rt } => A64Insn::CbzCbz64Compbranch { imm19: A64Imm { raw: raw, bits: 19, scale: 2, signed: true }, rt: rt },
            A64Insn::CbnzCbnz32Compbranch { imm19, rt } => A64Insn::CbnzCbnz32Compbranch { imm19: A64Imm { raw: raw, bits: 19, scale: 2, signed: true }, rt: rt },
            A64Insn::CbnzCbnz64Compbranch { imm19, rt } => A64Insn::CbnzCbnz64Compbranch { imm19: A64Imm { raw: raw, bits: 19, scale: 2, signed: true }, rt: rt },
            A64Insn::TbzTbzOnlyTestbranch { b5, b40, imm14, rt } => A64Insn::TbzTbzOnlyTestbranch { b5: b5, b40: b40, imm14: A64Imm { raw: raw, bits: 14, scale: 2, signed: true }, rt: rt },
            A64Insn::TbnzTbnzOnlyTestbranch { b5, b40, imm14, rt } => A64Insn::TbnzTbnzOnlyTestbranch { b5: b5, b40: b40, imm14: A64Imm { raw: raw, bits: 14, scale: 2, signed: true }, rt: rt },
            _ => self,
        }
    }

    /// The raw branch offset, when `field` names the branch offset field.
    pub open spec fn spec_branch_target_imm(self, field: Seq<char>) -> Option<u32> {
        if self.spec_branch_imm() is Some && field == self.spec_branch_field()@ {
            Some(self.spec_branch_imm()->0.raw)
        } else {
            None
        }
    }

    pub fn branch_target_imm(self, field: &str) -> (r: Option<u32>)
        ensures
            r == self.spec_branch_target_imm(field@),
    {
        match self {
            A64Insn::BUncondBOnlyBranchImm { imm26, .. } => if str_eq(field, "imm26") {
                Some(imm26.raw)
            } else {
                None
            },
            A64Insn::BlBlOnlyBranchImm { imm26, .. } => if str_eq(field, "imm26") {
                Some(imm26.raw)
            } else {
                None
            },
            A64Insn::BCondBOnlyCondbranch { imm19, .. } => if str_eq(field, "imm19") {
                Some(imm19.raw)
            } else {
                None
            },
            A64Insn::CbzCbz32Compbranch { imm19, .. } => if str_eq(field, "imm19") {
                Some(imm19.raw)
            } else {
                None
            },
            A64Insn::CbzCbz64Compbranch { imm19, .. } => if str_eq(field, "imm19") {
                Some(imm19.raw)
            } else {
                None
            },
            A64Insn::CbnzCbnz32Compbranch { imm19, .. } => if str_eq(field, "imm19") {
                Some(imm19.raw)
            } else {
                None
            },
            A64Insn::CbnzCbnz64Compbranch { imm19, .. } => if str_eq(field, "imm19") {
                Some(imm19.raw)
            } else {
                None
            },
            A64Insn::TbzTbzOnlyTestbranch { imm14, .. } => if str_eq(field, "imm14") {
                Some(imm14.raw)
            } else {
                None
            },
            A64Insn::TbnzTbnzOnlyTestbranch { imm14, .. } => if str_eq(field, "imm14") {
                Some(imm14.raw)
            } else {
                None
            },
            _ => None,
        }
    }

    /// Rewriting the branch offset field: refused when `field` is not its
    /// name, or when `value` does not fit the field.
    pub open spec fn spec_set_branch_target_imm(self, field: &'static str, value: u32) -> Result<A64Insn, A64RewriteError> {
        if self.spec_branch_imm() is Some && field@ == self.spec_branch_field()@ {
            if value >= self.spec_branch_limit() {
                Err(A64RewriteError::FieldOutOfRange { insn: self.spec_key(), field, value: value as u64, width: self.spec_branch_bits() })
            } else {
                Ok(self.spec_with_branch_raw(value))
            }
        } else {
            Err(A64RewriteError::UnsupportedField { insn: self.spec_key(), field })
        }
    }

    pub fn set_branch_target_imm(self, field: &'static str, value: u32) -> (r: Result<A64Insn, A64RewriteError>)
        ensures
            r == self.spec_set_branch_target_imm(field, value),
    {
        match self {
            A64Insn::BUncondBOnlyBranchImm { imm26 } => {
                if !str_eq(field, "imm26") {
                    Err(A64RewriteError::UnsupportedField { insn: self.key(), field })
                } else if value >= 0x4000000 {
                    Err(A64RewriteError::FieldOutOfRange { insn: self.key(), field, value: value as u64, width: 26 })
                } else {
                    Ok(A64Insn::BUncondBOnlyBranchImm { imm26: A64Imm::scaled_signed(value, 26, 2) })
                }
            },
            A64Insn::BlBlOnlyBranchImm { imm26 } => {
                if !str_eq(field, "imm26") {
                    Err(A64RewriteError::UnsupportedField { insn: self.key(), field })
                } else if value >= 0x4000000 {
                    Err(A64RewriteError::FieldOutOfRange { insn: self.key(), field, value: value as u64, width: 26 })
                } else {
                    Ok(A64Insn::BlBlOnlyBranchImm { imm26: A64Imm::scaled_signed(value, 26, 2) })
                }
            },
            A64Insn::BCondBOnlyCondbranch { imm19, cond } => {
                if !str_eq(field, "imm19") {
                    Err(A64RewriteError::UnsupportedField { insn: self.key(), field })
                } else if value >= 0x80000 {
                    Err(A64RewriteError::FieldOutOfRange { insn: self.key(), field, value: value as u64, width: 19 })
                } else {
                    Ok(A64Insn::BCondBOnlyCondbranch { imm19: A64Imm::scaled_signed(value, 19, 2), cond: cond })
                }
            },
            A64Insn::CbzCbz32Compbranch { imm19, rt } => {
                if !str_eq(field, "imm19") {
                    Err(A64RewriteError::UnsupportedField { insn: self.key(), field })
                } else if value >= 0x80000 {
                    Err(A64RewriteError::FieldOutOfRange { insn: self.key(), field, value: value as u64, width: 19 })
                } else {
                    Ok(A64Insn::CbzCbz32Compbranch { imm19: A64Imm::scaled_signed(value, 19, 2), rt: rt })
                }
            },
            A64Insn::CbzCbz64Compbranch { imm19, rt } => {
                if !str_eq(field, "imm19") {
                    Err(A64RewriteError::UnsupportedField { insn: self.key(), field })
                } else if value >= 0x80000 {
                    Err(A64RewriteError::FieldOutOfRange { insn: self.key(), field, value: value as u64, width: 19 })
                } else {
                    Ok(A64Insn::CbzCbz64Compbranch { imm19: A64Imm::scaled_signed(value, 19, 2), rt: rt })
                }
            },
            A64Insn::CbnzCbnz32Compbranch { imm19, rt } => {
                if !str_eq(field, "imm19") {
                    Err(A64RewriteError::UnsupportedField { insn: self.key(), field })
                } else if value >= 0x80000 {
                    Err(A64RewriteError::FieldOutOfRange { insn: self.key(), field, value: value as u64, width: 19 })
                } else {
                    Ok(A64Insn::CbnzCbnz32Compbranch { imm19: A64Imm::scaled_signed(value, 19, 2), rt: rt })
                }
            },
            A64Insn::CbnzCbnz64Compbranch { imm19, rt } => {
                if !str_eq(field, "imm19") {
                    Err(A64RewriteError::UnsupportedField { insn: self.key(), field })
                } else if value >= 0x80000 {
                    Err(A64RewriteError::FieldOutOfRange { insn: self.key(), field, value: value as u64, width: 19 })
                } else {
                    Ok(A64Insn::CbnzCbnz64Compbranch { imm19: A64Imm::scaled_signed(value, 19, 2), rt: rt })
                }
            },
            A64Insn::TbzTbzOnlyTestbranch { b5, b40, imm14, rt } => {
                if !str_eq(field, "imm14") {
                    Err(A64RewriteError::UnsupportedField { insn: self.key(), field })
                } else if value >= 0x4000 {
                    Err(A64RewriteError::FieldOutOfRange { insn: self.key(), field, value: value as u64, width: 14 })
                } else {
                    Ok(A64Insn::TbzTbzOnlyTestbranch { b5: b5, b40: b40, imm14: A64Imm::scaled_signed(value, 14, 2), rt: rt })
                }
            },
            A64Insn::TbnzTbnzOnlyTestbranch { b5, b40, imm14, rt } => {
                if !str_eq(field, "imm14") {
                    Err(A64RewriteError::UnsupportedField { insn: self.key(), field })
                } else if value >= 0x4000 {
                    Err(A64RewriteError::FieldOutOfRange { insn: self.key(), field, value: value as u64, width: 14 })
                } else {
                    Ok(A64Insn::TbnzTbnzOnlyTestbranch { b5: b5, b40: b40, imm14: A64Imm::scaled_signed(value, 14, 2), rt: rt })
                }
            },
            _ => Err(A64RewriteError::UnsupportedField { insn: self.key(), field }),
        }
    }
}

proof fn lemma_with_reg_adr_adr_only_pcreladdr(i: A64Insn, f: A64RegField, enc: u8)
    requires
        i is AdrAdrOnlyPcreladdr,
        i.spec_is_canonical(),
        i.spec_reg_at(f) is Some,
    ensures
        ({
            let j = i.spec_with_reg(f, enc);
            let old = i.spec_reg_at(f)->0;
            &&& j.spec_reg_at(f) == Some(A64Reg { enc, width: old.width, reg31: old.reg31 })
            &&& forall|g: A64RegField| g != f ==> j.spec_reg_at(g) == i.spec_reg_at(g)
            &&& j.spec_is_canonical()
            &&& j.spec_key() == i.spec_key()
            &&& j.spec_roles() == i.spec_roles()
        }),
{
    assert forall|g: A64RegField| g != f implies i.spec_with_reg(f, enc).spec_reg_at(g) == i.spec_reg_at(g) by {
        match f {
            A64RegField::Rd => {},
            A64RegField::Rn => {},
            A64RegField::Rm => {},
            A64RegField::Rt => {},
            A64RegField::Rt2 => {},
        }
    }
}

proof fn lemma_with_reg_adrp_adrp_only_pcreladdr(i: A64Insn, f: A64RegField, enc: u8)
    requires
        i is AdrpAdrpOnlyPcreladdr,
        i.spec_is_canonical(),
        i.spec_reg_at(f) is Some,
    ensures
        ({
            let j = i.spec_with_reg(f, enc);
            let old = i.spec_reg_at(f)->0;
            &&& j.spec_reg_at(f) == Some(A64Reg { enc, width: old.width, reg31: old.reg31 })
            &&& forall|g: A64RegField| g != f ==> j.spec_reg_at(g) == i.spec_reg_at(g)
            &&& j.spec_is_canonical()
            &&& j.spec_key() == i.spec_key()
            &&& j.spec_roles() == i.spec_roles()
        }),
{
    assert forall|g: A64RegField| g != f implies i.spec_with_reg(f, enc).spec_reg_at(g) == i.spec_reg_at(g) by {
        match f {
            A64RegField::Rd => {},
            A64RegField::Rn => {},
            A64RegField::Rm => {},
            A64RegField::Rt => {},
            A64RegField::Rt2 => {},
        }
    }
}

proof fn lemma_with_reg_add_addsub_imm_add32_addsub_imm(i: A64Insn, f: A64RegField, enc: u8)
    requires
        i is AddAddsubImmAdd32AddsubImm,
        i.spec_is_canonical(),
        i.spec_reg_at(f) is Some,
    ensures
        ({
            let j = i.spec_with_reg(f, enc);
            let old = i.spec_reg_at(f)->0;
            &&& j.spec_reg_at(f) == Some(A64Reg { enc, width: old.width, reg31: old.reg31 })
            &&& forall|g: A64RegField| g != f ==> j.spec_reg_at(g) == i.spec_reg_at(g)
            &&& j.spec_is_canonical()
            &&& j.spec_key() == i.spec_key()
            &&& j.spec_roles() == i.spec_roles()
        }),
{
    assert forall|g: A64RegField| g != f implies i.spec_with_reg(f, enc).spec_reg_at(g) == i.spec_reg_at(g) by {
        match f {
            A64RegField::Rd => {},
            A64RegField::Rn => {},
            A64RegField::Rm => {},
            A64RegField::Rt => {},
            A64RegField::Rt2 => {},
        }
    }
}

proof fn lemma_with_reg_add_addsub_imm_add64_addsub_imm(i: A64Insn, f: A64RegField, enc: u8)
    requires
        i is AddAddsubImmAdd64AddsubImm,
        i.spec_is_canonical(),
        i.spec_reg_at(f) is Some,
    ensures
        ({
            let j = i.spec_with_reg(f, enc);
            let old = i.spec_reg_at(f)->0;
            &&& j.spec_reg_at(f) == Some(A64Reg { enc, width: old.width, reg31: old.reg31 })
            &&& forall|g: A64RegField| g != f ==> j.spec_reg_at(g) == i.spec_reg_at(g)
            &&& j.spec_is_canonical()
            &&& j.spec_key() == i.spec_key()
            &&& j.spec_roles() == i.spec_roles()
        }),
{
    assert forall|g: A64RegField| g != f implies i.spec_with_reg(f, enc).spec_reg_at(g) == i.spec_reg_at(g) by {
        match f {
            A64RegField::Rd => {},
            A64RegField::Rn => {},
            A64RegField::Rm => {},
            A64RegField::Rt => {},
            A64RegField::Rt2 => {},
        }
    }
}

proof fn lemma_with_reg_sub_addsub_imm_sub32_addsub_imm(i: A64Insn, f: A64RegField, enc: u8)
    requires
        i is SubAddsubImmSub32AddsubImm,
        i.spec_is_canonical(),
        i.spec_reg_at(f) is Some,
    ensures
        ({
            let j = i.spec_with_reg(f, enc);
            let old = i.spec_reg_at(f)->0;
            &&& j.spec_reg_at(f) == Some(A64Reg { enc, width: old.width, reg31: old.reg31 })
            &&& forall|g: A64RegField| g != f ==> j.spec_reg_at(g) == i.spec_reg_at(g)
            &&& j.spec_is_canonical()
            &&& j.spec_key() == i.spec_key()
            &&& j.spec_roles() == i.spec_roles()
        }),
{
    assert forall|g: A64RegField| g != f implies i.spec_with_reg(f, enc).spec_reg_at(g) == i.spec_reg_at(g) by {
        match f {
            A64RegField::Rd => {},
            A64RegField::Rn => {},
            A64RegField::Rm => {},
            A64RegField::Rt => {},
            A64RegField::Rt2 => {},
        }
    }
}

proof fn lemma_with_reg_sub_addsub_imm_sub64_addsub_imm(i: A64Insn, f: A64RegField, enc: u8)
    requires
        i is SubAddsubImmSub64AddsubImm,
        i.spec_is_canonical(),
        i.spec_reg_at(f) is Some,
    ensures
        ({
            let j = i.spec_with_reg(f, enc);
            let old = i.spec_reg_at(f)->0;
            &&& j.spec_reg_at(f) == Some(A64Reg { enc, width: old.width, reg31: old.reg31 })
            &&& forall|g: A64RegField| g != f ==> j.spec_reg_at(g) == i.spec_reg_at(g)
            &&& j.spec_is_canonical()
            &&& j.spec_key() == i.spec_key()
            &&& j.spec_roles() == i.spec_roles()
        }),
{
    assert forall|g: A64RegField| g != f implies i.spec_with_reg(f, enc).spec_reg_at(g) == i.spec_reg_at(g) by {
        match f {
            A64RegField::Rd => {},
            A64RegField::Rn => {},
            A64RegField::Rm => {},
            A64RegField::Rt => {},
            A64RegField::Rt2 => {},
        }
    }
}

proof fn lemma_with_reg_subs_addsub_imm_subs32s_addsub_imm(i: A64Insn, f: A64RegField, enc: u8)
    requires
        i is SubsAddsubImmSubs32sAddsubImm,
        i.spec_is_canonical(),
        i.spec_reg_at(f) is Some,
    ensures
        ({
            let j = i.spec_with_reg(f, enc);
            let old = i.spec_reg_at(f)->0;
            &&& j.spec_reg_at(f) == Some(A64Reg { enc, width: old.width, reg31: old.reg31 })
            &&& forall|g: A64RegField| g != f ==> j.spec_reg_at(g) == i.spec_reg_at(g)
            &&& j.spec_is_canonical()
            &&& j.spec_key() == i.spec_key()
            &&& j.spec_roles() == i.spec_roles()
        }),
{
    assert forall|g: A64RegField| g != f implies i.spec_with_reg(f, enc).spec_reg_at(g) == i.spec_reg_at(g) by {
        match f {
            A64RegField::Rd => {},
            A64RegField::Rn => {},
            A64RegField::Rm => {},
            A64RegField::Rt => {},
            A64RegField::Rt2 => {},
        }
    }
}

proof fn lemma_with_reg_subs_addsub_imm_subs64s_addsub_imm(i: A64Insn, f: A64RegField, enc: u8)
    requires
        i is SubsAddsubImmSubs64sAddsubImm,
        i.spec_is_canonical(),
        i.spec_reg_at(f) is Some,
    ensures
        ({
            let j = i.spec_with_reg(f, enc);
            let old = i.spec_reg_at(f)->0;
            &&& j.spec_reg_at(f) == Some(A64Reg { enc, width: old.width, reg31: old.reg31 })
            &&& forall|g: A64RegField| g != f ==> j.spec_reg_at(g) == i.spec_reg_at(g)
            &&& j.spec_is_canonical()
            &&& j.spec_key() == i.spec_key()
            &&& j.spec_roles() == i.spec_roles()
        }),
{
    assert forall|g: A64RegField| g != f implies i.spec_with_reg(f, enc).spec_reg_at(g) == i.spec_reg_at(g) by {
        match f {
            A64RegField::Rd => {},
            A64RegField::Rn => {},
            A64RegField::Rm => {},
            A64RegField::Rt => {},
            A64RegField::Rt2 => {},
        }
    }
}

proof fn lemma_with_reg_cbz_cbz32_compbranch(i: A64Insn, f: A64RegField, enc: u8)
    requires
        i is CbzCbz32Compbranch,
        i.spec_is_canonical(),
        i.spec_reg_at(f) is Some,
    ensures
        ({
            let j = i.spec_with_reg(f, enc);
            let old = i.spec_reg_at(f)->0;
            &&& j.spec_reg_at(f) == Some(A64Reg { enc, width: old.width, reg31: old.reg31 })
            &&& forall|g: A64RegField| g != f ==> j.spec_reg_at(g) == i.spec_reg_at(g)
            &&& j.spec_is_canonical()
            &&& j.spec_key() == i.spec_key()
            &&& j.spec_roles() == i.spec_roles()
        }),
{
    assert forall|g: A64RegField| g != f implies i.spec_with_reg(f, enc).spec_reg_at(g) == i.spec_reg_at(g) by {
        match f {
            A64RegField::Rd => {},
            A64RegField::Rn => {},
            A64RegField::Rm => {},
            A64RegField::Rt => {},
            A64RegField::Rt2 => {},
        }
    }
}

proof fn lemma_with_reg_cbz_cbz64_compbranch(i: A64Insn, f: A64RegField, enc: u8)
    requires
        i is CbzCbz64Compbranch,
        i.spec_is_canonical(),
        i.spec_reg_at(f) is Some,
    ensures
        ({
            let j = i.spec_with_reg(f, enc);
            let old = i.spec_reg_at(f)->0;
            &&& j.spec_reg_at(f) == Some(A64Reg { enc, width: old.width, reg31: old.reg31 })
            &&& forall|g: A64RegField| g != f ==> j.spec_reg_at(g) == i.spec_reg_at(g)
            &&& j.spec_is_canonical()
            &&& j.spec_key() == i.spec_key()
            &&& j.spec_roles() == i.spec_roles()
        }),
{
    assert forall|g: A64RegField| g != f implies i.spec_with_reg(f, enc).spec_reg_at(g) == i.spec_reg_at(g) by {
        match f {
            A64RegField::Rd => {},
            A64RegField::Rn => {},
            A64RegField::Rm => {},
            A64RegField::Rt => {},
            A64RegField::Rt2 => {},
        }
    }
}

proof fn lemma_with_reg_cbnz_cbnz32_compbranch(i: A64Insn, f: A64RegField, enc: u8)
    requires
        i is CbnzCbnz32Compbranch,
        i.spec_is_canonical(),
        i.spec_reg_at(f) is Some,
    ensures
        ({
            let j = i.spec_with_reg(f, enc);
            let old = i.spec_reg_at(f)->0;
            &&& j.spec_reg_at(f) == Some(A64Reg { enc, width: old.width, reg31: old.reg31 })
            &&& forall|g: A64RegField| g != f ==> j.spec_reg_at(g) == i.spec_reg_at(g)
            &&& j.spec_is_canonical()
            &&& j.spec_key() == i.spec_key()
            &&& j.spec_roles() == i.spec_roles()
        }),
{
    assert forall|g: A64RegField| g != f implies i.spec_with_reg(f, enc).spec_reg_at(g) == i.spec_reg_at(g) by {
        match f {
            A64RegField::Rd => {},
            A64RegField::Rn => {},
            A64RegField::Rm => {},
            A64RegField::Rt => {},
            A64RegField::Rt2 => {},
        }
    }
}

proof fn lemma_with_reg_cbnz_cbnz64_compbranch(i: A64Insn, f: A64RegField, enc: u8)
    requires
        i is CbnzCbnz64Compbranch,
        i.spec_is_canonical(),
        i.spec_reg_at(f) is Some,
    ensures
        ({
            let j = i.spec_with_reg(f, enc);
            let old = i.spec_reg_at(f)->0;
            &&& j.spec_reg_at(f) == Some(A64Reg { enc, width: old.width, reg31: old.reg31 })
            &&& forall|g: A64RegField| g != f ==> j.spec_reg_at(g) == i.spec_reg_at(g)
            &&& j.spec_is_canonical()
            &&& j.spec_key() == i.spec_key()
            &&& j.spec_roles() == i.spec_roles()
        }),
{
    assert forall|g: A64RegField| g != f implies i.spec_with_reg(f, enc).spec_reg_at(g) == i.spec_reg_at(g) by {
        match f {
            A64RegField::Rd => {},
            A64RegField::Rn => {},
            A64RegField::Rm => {},
            A64RegField::Rt => {},
            A64RegField::Rt2 => {},
        }
    }
}

proof fn lemma_with_reg_movz_movz32_movewide(i: A64Insn, f: A64RegField, enc: u8)
    requires
        i is MovzMovz32Movewide,
        i.spec_is_canonical(),
        i.spec_reg_at(f) is Some,
    ensures
        ({
            let j = i.spec_with_reg(f, enc);
            let old = i.spec_reg_at(f)->0;
            &&& j.spec_reg_at(f) == Some(A64Reg { enc, width: old.width, reg31: old.reg31 })
            &&& forall|g: A64RegField| g != f ==> j.spec_reg_at(g) == i.spec_reg_at(g)
            &&& j.spec_is_canonical()
            &&& j.spec_key() == i.spec_key()
            &&& j.spec_roles() == i.spec_roles()
        }),
{
    assert forall|g: A64RegField| g != f implies i.spec_with_reg(f, enc).spec_reg_at(g) == i.spec_reg_at(g) by {
        match f {
            A64RegField::Rd => {},
            A64RegField::Rn => {},
            A64RegField::Rm => {},
            A64RegField::Rt => {},
            A64RegField::Rt2 => {},
        }
    }
}

proof fn lemma_with_reg_movz_movz64_movewide(i: A64Insn, f: A64RegField, enc: u8)
    requires
        i is MovzMovz64Movewide,
        i.spec_is_canonical(),
        i.spec_reg_at(f) is Some,
    ensures
        ({
            let j = i.spec_with_reg(f, enc);
            let old = i.spec_reg_at(f)->0;
            &&& j.spec_reg_at(f) == Some(A64Reg { enc, width: old.width, reg31: old.reg31 })
            &&& forall|g: A64RegField| g != f ==> j.spec_reg_at(g) == i.spec_reg_at(g)
            &&& j.spec_is_canonical()
            &&& j.spec_key() == i.spec_key()
            &&& j.spec_roles() == i.spec_roles()
        }),
{
    assert forall|g: A64RegField| g != f implies i.spec_with_reg(f, enc).spec_reg_at(g) == i.spec_reg_at(g) by {
        match f {
            A64RegField::Rd => {},
            A64RegField::Rn => {},
            A64RegField::Rm => {},
            A64RegField::Rt => {},
            A64RegField::Rt2 => {},
        }
    }
}

proof fn lemma_with_reg_movk_movk32_movewide(i: A64Insn, f: A64RegField, enc: u8)
    requires
        i is MovkMovk32Movewide,
        i.spec_is_canonical(),
        i.spec_reg_at(f) is Some,
    ensures
        ({
            let j = i.spec_with_reg(f, enc);
            let old = i.spec_reg_at(f)->0;
            &&& j.spec_reg_at(f) == Some(A64Reg { enc, width: old.width, reg31: old.reg31 })
            &&& forall|g: A64RegField| g != f ==> j.spec_reg_at(g) == i.spec_reg_at(g)
            &&& j.spec_is_canonical()
            &&& j.spec_key() == i.spec_key()
            &&& j.spec_roles() == i.spec_roles()
        }),
{
    assert forall|g: A64RegField| g != f implies i.spec_with_reg(f, enc).spec_reg_at(g) == i.spec_reg_at(g) by {
        match f {
            A64RegField::Rd => {},
            A64RegField::Rn => {},
            A64RegField::Rm => {},
            A64RegField::Rt => {},
            A64RegField::Rt2 => {},
        }
    }
}

proof fn lemma_with_reg_movk_movk64_movewide(i: A64Insn, f: A64RegField, enc: u8)
    requires
        i is MovkMovk64Movewide,
        i.spec_is_canonical(),
        i.spec_reg_at(f) is Some,
    ensures
        ({
            let j = i.spec_with_reg(f, enc);
            let old = i.spec_reg_at(f)->0;
            &&& j.spec_reg_at(f) == Some(A64Reg { enc, width: old.width, reg31: old.reg31 })
            &&& forall|g: A64RegField| g != f ==> j.spec_reg_at(g) == i.spec_reg_at(g)
            &&& j.spec_is_canonical()
            &&& j.spec_key() == i.spec_key()
            &&& j.spec_roles() == i.spec_roles()
        }),
{
    assert forall|g: A64RegField| g != f implies i.spec_with_reg(f, enc).spec_reg_at(g) == i.spec_reg_at(g) by {
        match f {
            A64RegField::Rd => {},
            A64RegField::Rn => {},
            A64RegField::Rm => {},
            A64RegField::Rt => {},
            A64RegField::Rt2 => {},
        }
    }
}

proof fn lemma_with_reg_orr_log_shift_orr64_log_shift(i: A64Insn, f: A64RegField, enc: u8)
    requires
        i is OrrLogShiftOrr64LogShift,
        i.spec_is_canonical(),
        i.spec_reg_at(f) is Some,
    ensures
        ({
            let j = i.spec_with_reg(f, enc);
            let old = i.spec_reg_at(f)->0;
            &&& j.spec_reg_at(f) == Some(A64Reg { enc, width: old.width, reg31: old.reg31 })
            &&& forall|g: A64RegField| g != f ==> j.spec_reg_at(g) == i.spec_reg_at(g)
            &&& j.spec_is_canonical()
            &&& j.spec_key() == i.spec_key()
            &&& j.spec_roles() == i.spec_roles()
        }),
{
    assert forall|g: A64RegField| g != f implies i.spec_with_reg(f, enc).spec_reg_at(g) == i.spec_reg_at(g) by {
        match f {
            A64RegField::Rd => {},
            A64RegField::Rn => {},
            A64RegField::Rm => {},
            A64RegField::Rt => {},
            A64RegField::Rt2 => {},
        }
    }
}

proof fn lemma_with_reg_tbz_tbz_only_testbranch(i: A64Insn, f: A64RegField, enc: u8)
    requires
        i is TbzTbzOnlyTestbranch,
        i.spec_is_canonical(),
        i.spec_reg_at(f) is Some,
    ensures
        ({
            let j = i.spec_with_reg(f, enc);
            let old = i.spec_reg_at(f)->0;
            &&& j.spec_reg_at(f) == Some(A64Reg { enc, width: old.width, reg31: old.reg31 })
            &&& forall|g: A64RegField| g != f ==> j.spec_reg_at(g) == i.spec_reg_at(g)
            &&& j.spec_is_canonical()
            &&& j.spec_key() == i.spec_key()
            &&& j.spec_roles() == i.spec_roles()
        }),
{
    assert forall|g: A64RegField| g != f implies i.spec_with_reg(f, enc).spec_reg_at(g) == i.spec_reg_at(g) by {
        match f {
            A64RegField::Rd => {},
            A64RegField::Rn => {},
            A64RegField::Rm => {},
            A64RegField::Rt => {},
            A64RegField::Rt2 => {},
        }
    }
}

proof fn lemma_with_reg_tbnz_tbnz_only_testbranch(i: A64Insn, f: A64RegField, enc: u8)
    requires
        i is TbnzTbnzOnlyTestbranch,
        i.spec_is_canonical(),
        i.spec_reg_at(f) is Some,
    ensures
        ({
            let j = i.spec_with_reg(f, enc);
            let old = i.spec_reg_at(f)->0;
            &&& j.spec_reg_at(f) == Some(A64Reg { enc, width: old.width, reg31: old.reg31 })
            &&& forall|g: A64RegField| g != f ==> j.spec_reg_at(g) == i.spec_reg_at(g)
            &&& j.spec_is_canonical()
            &&& j.spec_key() == i.spec_key()
            &&& j.spec_roles() == i.spec_roles()
        }),
{
    assert forall|g: A64RegField| g != f implies i.spec_with_reg(f, enc).spec_reg_at(g) == i.spec_reg_at(g) by {
        match f {
            A64RegField::Rd => {},
            A64RegField::Rn => {},
            A64RegField::Rm => {},
            A64RegField::Rt => {},
            A64RegField::Rt2 => {},
        }
    }
}

proof fn lemma_with_reg_ldr_imm_gen_ldr32_ldst_immpost(i: A64Insn, f: A64RegField, enc: u8)
    requires
        i is LdrImmGenLdr32LdstImmpost,
        i.spec_is_canonical(),
        i.spec_reg_at(f) is Some,
    ensures
        ({
            let j = i.spec_with_reg(f, enc);
            let old = i.spec_reg_at(f)->0;
            &&& j.spec_reg_at(f) == Some(A64Reg { enc, width: old.width, reg31: old.reg31 })
            &&& forall|g: A64RegField| g != f ==> j.spec_reg_at(g) == i.spec_reg_at(g)
            &&& j.spec_is_canonical()
            &&& j.spec_key() == i.spec_key()
            &&& j.spec_roles() == i.spec_roles()
        }),
{
    assert forall|g: A64RegField| g != f implies i.spec_with_reg(f, enc).spec_reg_at(g) == i.spec_reg_at(g) by {
        match f {
            A64RegField::Rd => {},
            A64RegField::Rn => {},
            A64RegField::Rm => {},
            A64RegField::Rt => {},
            A64RegField::Rt2 => {},
        }
    }
}

proof fn lemma_with_reg_ldr_imm_gen_ldr64_ldst_immpost(i: A64Insn, f: A64RegField, enc: u8)
    requires
        i is LdrImmGenLdr64LdstImmpost,
        i.spec_is_canonical(),
        i.spec_reg_at(f) is Some,
    ensures
        ({
            let j = i.spec_with_reg(f, enc);
            let old = i.spec_reg_at(f)->0;
            &&& j.spec_reg_at(f) == Some(A64Reg { enc, width: old.width, reg31: old.reg31 })
            &&& forall|g: A64RegField| g != f ==> j.spec_reg_at(g) == i.spec_reg_at(g)
            &&& j.spec_is_canonical()
            &&& j.spec_key() == i.spec_key()
            &&& j.spec_roles() == i.spec_roles()
        }),
{
    assert forall|g: A64RegField| g != f implies i.spec_with_reg(f, enc).spec_reg_at(g) == i.spec_reg_at(g) by {
        match f {
            A64RegField::Rd => {},
            A64RegField::Rn => {},
            A64RegField::Rm => {},
            A64RegField::Rt => {},
            A64RegField::Rt2 => {},
        }
    }
}

proof fn lemma_with_reg_ldr_imm_gen_ldr32_ldst_immpre(i: A64Insn, f: A64RegField, enc: u8)
    requires
        i is LdrImmGenLdr32LdstImmpre,
        i.spec_is_canonical(),
        i.spec_reg_at(f) is Some,
    ensures
        ({
            let j = i.spec_with_reg(f, enc);
            let old = i.spec_reg_at(f)->0;
            &&& j.spec_reg_at(f) == Some(A64Reg { enc, width: old.width, reg31: old.reg31 })
            &&& forall|g: A64RegField| g != f ==> j.spec_reg_at(g) == i.spec_reg_at(g)
            &&& j.spec_is_canonical()
            &&& j.spec_key() == i.spec_key()
            &&& j.spec_roles() == i.spec_roles()
        }),
{
    assert forall|g: A64RegField| g != f implies i.spec_with_reg(f, enc).spec_reg_at(g) == i.spec_reg_at(g) by {
        match f {
            A64RegField::Rd => {},
            A64RegField::Rn => {},
            A64RegField::Rm => {},
            A64RegField::Rt => {},
            A64RegField::Rt2 => {},
        }
    }
}

proof fn lemma_with_reg_ldr_imm_gen_ldr64_ldst_immpre(i: A64Insn, f: A64RegField, enc: u8)
    requires
        i is LdrImmGenLdr64LdstImmpre,
        i.spec_is_canonical(),
        i.spec_reg_at(f) is Some,
    ensures
        ({
            let j = i.spec_with_reg(f, enc);
            let old = i.spec_reg_at(f)->0;
            &&& j.spec_reg_at(f) == Some(A64Reg { enc, width: old.width, reg31: old.reg31 })
            &&& forall|g: A64RegField| g != f ==> j.spec_reg_at(g) == i.spec_reg_at(g)
            &&& j.spec_is_canonical()
            &&& j.spec_key() == i.spec_key()
            &&& j.spec_roles() == i.spec_roles()
        }),
{
    assert forall|g: A64RegField| g != f implies i.spec_with_reg(f, enc).spec_reg_at(g) == i.spec_reg_at(g) by {
        match f {
            A64RegField::Rd => {},
            A64RegField::Rn => {},
            A64RegField::Rm => {},
            A64RegField::Rt => {},
            A64RegField::Rt2 => {},
        }
    }
}

proof fn lemma_with_reg_ldr_imm_gen_ldr32_ldst_pos(i: A64Insn, f: A64RegField, enc: u8)
    requires
        i is LdrImmGenLdr32LdstPos,
        i.spec_is_canonical(),
        i.spec_reg_at(f) is Some,
    ensures
        ({
            let j = i.spec_with_reg(f, enc);
            let old = i.spec_reg_at(f)->0;
            &&& j.spec_reg_at(f) == Some(A64Reg { enc, width: old.width, reg31: old.reg31 })
            &&& forall|g: A64RegField| g != f ==> j.spec_reg_at(g) == i.spec_reg_at(g)
            &&& j.spec_is_canonical()
            &&& j.spec_key() == i.spec_key()
            &&& j.spec_roles() == i.spec_roles()
        }),
{
    assert forall|g: A64RegField| g != f implies i.spec_with_reg(f, enc).spec_reg_at(g) == i.spec_reg_at(g) by {
        match f {
            A64RegField::Rd => {},
            A64RegField::Rn => {},
            A64RegField::Rm => {},
            A64RegField::Rt => {},
            A64RegField::Rt2 => {},
        }
    }
}

proof fn lemma_with_reg_ldr_imm_gen_ldr64_ldst_pos(i: A64Insn, f: A64RegField, enc: u8)
    requires
        i is LdrImmGenLdr64LdstPos,
        i.spec_is_canonical(),
        i.spec_reg_at(f) is Some,
    ensures
        ({
            let j = i.spec_with_reg(f, enc);
            let old = i.spec_reg_at(f)->0;
            &&& j.spec_reg_at(f) == Some(A64Reg { enc, width: old.width, reg31: old.reg31 })
            &&& forall|g: A64RegField| g != f ==> j.spec_reg_at(g) == i.spec_reg_at(g)
            &&& j.spec_is_canonical()
            &&& j.spec_key() == i.spec_key()
            &&& j.spec_roles() == i.spec_roles()
        }),
{
    assert forall|g: A64RegField| g != f implies i.spec_with_reg(f, enc).spec_reg_at(g) == i.spec_reg_at(g) by {
        match f {
            A64RegField::Rd => {},
            A64RegField::Rn => {},
            A64RegField::Rm => {},
            A64RegField::Rt => {},
            A64RegField::Rt2 => {},
        }
    }
}

proof fn lemma_with_reg_str_imm_gen_str32_ldst_immpost(i: A64Insn, f: A64RegField, enc: u8)
    requires
        i is StrImmGenStr32LdstImmpost,
        i.spec_is_canonical(),
        i.spec_reg_at(f) is Some,
    ensures
        ({
            let j = i.spec_with_reg(f, enc);
            let old = i.spec_reg_at(f)->0;
            &&& j.spec_reg_at(f) == Some(A64Reg { enc, width: old.width, reg31: old.reg31 })
            &&& forall|g: A64RegField| g != f ==> j.spec_reg_at(g) == i.spec_reg_at(g)
            &&& j.spec_is_canonical()
            &&& j.spec_key() == i.spec_key()
            &&& j.spec_roles() == i.spec_roles()
        }),
{
    assert forall|g: A64RegField| g != f implies i.spec_with_reg(f, enc).spec_reg_at(g) == i.spec_reg_at(g) by {
        match f {
            A64RegField::Rd => {},
            A64RegField::Rn => {},
            A64RegField::Rm => {},
            A64RegField::Rt => {},
            A64RegField::Rt2 => {},
        }
    }
}

proof fn lemma_with_reg_str_imm_gen_str64_ldst_immpost(i: A64Insn, f: A64RegField, enc: u8)
    requires
        i is StrImmGenStr64LdstImmpost,
        i.spec_is_canonical(),
        i.spec_reg_at(f) is Some,
    ensures
        ({
            let j = i.spec_with_reg(f, enc);
            let old = i.spec_reg_at(f)->0;
            &&& j.spec_reg_at(f) == Some(A64Reg { enc, width: old.width, reg31: old.reg31 })
            &&& forall|g: A64RegField| g != f ==> j.spec_reg_at(g) == i.spec_reg_at(g)
            &&& j.spec_is_canonical()
            &&& j.spec_key() == i.spec_key()
            &&& j.spec_roles() == i.spec_roles()
        }),
{
    assert forall|g: A64RegField| g != f implies i.spec_with_reg(f, enc).spec_reg_at(g) == i.spec_reg_at(g) by {
        match f {
            A64RegField::Rd => {},
            A64RegField::Rn => {},
            A64RegField::Rm => {},
            A64RegField::Rt => {},
            A64RegField::Rt2 => {},
        }
    }
}

proof fn lemma_with_reg_str_imm_gen_str32_ldst_immpre(i: A64Insn, f: A64RegField, enc: u8)
    requires
        i is StrImmGenStr32LdstImmpre,
        i.spec_is_canonical(),
        i.spec_reg_at(f) is Some,
    ensures
        ({
            let j = i.spec_with_reg(f, enc);
            let old = i.spec_reg_at(f)->0;
            &&& j.spec_reg_at(f) == Some(A64Reg { enc, width: old.width, reg31: old.reg31 })
            &&& forall|g: A64RegField| g != f ==> j.spec_reg_at(g) == i.spec_reg_at(g)
            &&& j.spec_is_canonical()
            &&& j.spec_key() == i.spec_key()
            &&& j.spec_roles() == i.spec_roles()
        }),
{
    assert forall|g: A64RegField| g != f implies i.spec_with_reg(f, enc).spec_reg_at(g) == i.spec_reg_at(g) by {
        match f {
            A64RegField::Rd => {},
            A64RegField::Rn => {},
            A64RegField::Rm => {},
            A64RegField::Rt => {},
            A64RegField::Rt2 => {},
        }
    }
}

proof fn lemma_with_reg_str_imm_gen_str64_ldst_immpre(i: A64Insn, f: A64RegField, enc: u8)
    requires
        i is StrImmGenStr64LdstImmpre,
        i.spec_is_canonical(),
        i.spec_reg_at(f) is Some,
    ensures
        ({
            let j = i.spec_with_reg(f, enc);
            let old = i.spec_reg_at(f)->0;
            &&& j.spec_reg_at(f) == Some(A64Reg { enc, width: old.width, reg31: old.reg31 })
            &&& forall|g: A64RegField| g != f ==> j.spec_reg_at(g) == i.spec_reg_at(g)
            &&& j.spec_is_canonical()
            &&& j.spec_key() == i.spec_key()
            &&& j.spec_roles() == i.spec_roles()
        }),
{
    assert forall|g: A64RegField| g != f implies i.spec_with_reg(f, enc).spec_reg_at(g) == i.spec_reg_at(g) by {
        match f {
            A64RegField::Rd => {},
            A64RegField::Rn => {},
            A64RegField::Rm => {},
            A64RegField::Rt => {},
            A64RegField::Rt2 => {},
        }
    }
}

proof fn lemma_with_reg_str_imm_gen_str32_ldst_pos(i: A64Insn, f: A64RegField, enc: u8)
    requires
        i is StrImmGenStr32LdstPos,
        i.spec_is_canonical(),
        i.spec_reg_at(f) is Some,
    ensures
        ({
            let j = i.spec_with_reg(f, enc);
            let old = i.spec_reg_at(f)->0;
            &&& j.spec_reg_at(f) == Some(A64Reg { enc, width: old.width, reg31: old.reg31 })
            &&& forall|g: A64RegField| g != f ==> j.spec_reg_at(g) == i.spec_reg_at(g)
            &&& j.spec_is_canonical()
            &&& j.spec_key() == i.spec_key()
            &&& j.spec_roles() == i.spec_roles()
        }),
{
    assert forall|g: A64RegField| g != f implies i.spec_with_reg(f, enc).spec_reg_at(g) == i.spec_reg_at(g) by {
        match f {
            A64RegField::Rd => {},
            A64RegField::Rn => {},
            A64RegField::Rm => {},
            A64RegField::Rt => {},
            A64RegField::Rt2 => {},
        }
    }
}

proof fn lemma_with_reg_str_imm_gen_str64_ldst_pos(i: A64Insn, f: A64RegField, enc: u8)
    requires
        i is StrImmGenStr64LdstPos,
        i.spec_is_canonical(),
        i.spec_reg_at(f) is Some,
    ensures
        ({
            let j = i.spec_with_reg(f, enc);
            let old = i.spec_reg_at(f)->0;
            &&& j.spec_reg_at(f) == Some(A64Reg { enc, width: old.width, reg31: old.reg31 })
            &&& forall|g: A64RegField| g != f ==> j.spec_reg_at(g) == i.spec_reg_at(g)
            &&& j.spec_is_canonical()
            &&& j.spec_key() == i.spec_key()
            &&& j.spec_roles() == i.spec_roles()
        }),
{
    assert forall|g: A64RegField| g != f implies i.spec_with_reg(f, enc).spec_reg_at(g) == i.spec_reg_at(g) by {
        match f {
            A64RegField::Rd => {},
            A64RegField::Rn => {},
            A64RegField::Rm => {},
            A64RegField::Rt => {},
            A64RegField::Rt2 => {},
        }
    }
}

proof fn lemma_with_reg_ldp_gen_ldp64_ldstpair_post(i: A64Insn, f: A64RegField, enc: u8)
    requires
        i is LdpGenLdp64LdstpairPost,
        i.spec_is_canonical(),
        i.spec_reg_at(f) is Some,
    ensures
        ({
            let j = i.spec_with_reg(f, enc);
            let old = i.spec_reg_at(f)->0;
            &&& j.spec_reg_at(f) == Some(A64Reg { enc, width: old.width, reg31: old.reg31 })
            &&& forall|g: A64RegField| g != f ==> j.spec_reg_at(g) == i.spec_reg_at(g)
            &&& j.spec_is_canonical()
            &&& j.spec_key() == i.spec_key()
            &&& j.spec_roles() == i.spec_roles()
        }),
{
    assert forall|g: A64RegField| g != f implies i.spec_with_reg(f, enc).spec_reg_at(g) == i.spec_reg_at(g) by {
        match f {
            A64RegField::Rd => {},
            A64RegField::Rn => {},
            A64RegField::Rm => {},
            A64RegField::Rt => {},
            A64RegField::Rt2 => {},
        }
    }
}

proof fn lemma_with_reg_ldp_gen_ldp64_ldstpair_pre(i: A64Insn, f: A64RegField, enc: u8)
    requires
        i is LdpGenLdp64LdstpairPre,
        i.spec_is_canonical(),
        i.spec_reg_at(f) is Some,
    ensures
        ({
            let j = i.spec_with_reg(f, enc);
            let old = i.spec_reg_at(f)->0;
            &&& j.spec_reg_at(f) == Some(A64Reg { enc, width: old.width, reg31: old.reg31 })
            &&& forall|g: A64RegField| g != f ==> j.spec_reg_at(g) == i.spec_reg_at(g)
            &&& j.spec_is_canonical()
            &&& j.spec_key() == i.spec_key()
            &&& j.spec_roles() == i.spec_roles()
        }),
{
    assert forall|g: A64RegField| g != f implies i.spec_with_reg(f, enc).spec_reg_at(g) == i.spec_reg_at(g) by {
        match f {
            A64RegField::Rd => {},
            A64RegField::Rn => {},
            A64RegField::Rm => {},
            A64RegField::Rt => {},
            A64RegField::Rt2 => {},
        }
    }
}

proof fn lemma_with_reg_ldp_gen_ldp64_ldstpair_off(i: A64Insn, f: A64RegField, enc: u8)
    requires
        i is LdpGenLdp64LdstpairOff,
        i.spec_is_canonical(),
        i.spec_reg_at(f) is Some,
    ensures
        ({
            let j = i.spec_with_reg(f, enc);
            let old = i.spec_reg_at(f)->0;
            &&& j.spec_reg_at(f) == Some(A64Reg { enc, width: old.width, reg31: old.reg31 })
            &&& forall|g: A64RegField| g != f ==> j.spec_reg_at(g) == i.spec_reg_at(g)
            &&& j.spec_is_canonical()
            &&& j.spec_key() == i.spec_key()
            &&& j.spec_roles() == i.spec_roles()
        }),
{
    assert forall|g: A64RegField| g != f implies i.spec_with_reg(f, enc).spec_reg_at(g) == i.spec_reg_at(g) by {
        match f {
            A64RegField::Rd => {},
            A64RegField::Rn => {},
            A64RegField::Rm => {},
            A64RegField::Rt => {},
            A64RegField::Rt2 => {},
        }
    }
}

proof fn lemma_with_reg_stp_gen_stp64_ldstpair_post(i: A64Insn, f: A64RegField, enc: u8)
    requires
        i is StpGenStp64LdstpairPost,
        i.spec_is_canonical(),
        i.spec_reg_at(f) is Some,
    ensures
        ({
            let j = i.spec_with_reg(f, enc);
            let old = i.spec_reg_at(f)->0;
            &&& j.spec_reg_at(f) == Some(A64Reg { enc, width: old.width, reg31: old.reg31 })
            &&& forall|g: A64RegField| g != f ==> j.spec_reg_at(g) == i.spec_reg_at(g)
            &&& j.spec_is_canonical()
            &&& j.spec_key() == i.spec_key()
            &&& j.spec_roles() == i.spec_roles()
        }),
{
    assert forall|g: A64RegField| g != f implies i.spec_with_reg(f, enc).spec_reg_at(g) == i.spec_reg_at(g) by {
        match f {
            A64RegField::Rd => {},
            A64RegField::Rn => {},
            A64RegField::Rm => {},
            A64RegField::Rt => {},
            A64RegField::Rt2 => {},
        }
    }
}

proof fn lemma_with_reg_stp_gen_stp64_ldstpair_pre(i: A64Insn, f: A64RegField, enc: u8)
    requires
        i is StpGenStp64LdstpairPre,
        i.spec_is_canonical(),
        i.spec_reg_at(f) is Some,
    ensures
        ({
            let j = i.spec_with_reg(f, enc);
            let old = i.spec_reg_at(f)->0;
            &&& j.spec_reg_at(f) == Some(A64Reg { enc, width: old.width, reg31: old.reg31 })
            &&& forall|g: A64RegField| g != f ==> j.spec_reg_at(g) == i.spec_reg_at(g)
            &&& j.spec_is_canonical()
            &&& j.spec_key() == i.spec_key()
            &&& j.spec_roles() == i.spec_roles()
        }),
{
    assert forall|g: A64RegField| g != f implies i.spec_with_reg(f, enc).spec_reg_at(g) == i.spec_reg_at(g) by {
        match f {
            A64RegField::Rd => {},
            A64RegField::Rn => {},
            A64RegField::Rm => {},
            A64RegField::Rt => {},
            A64RegField::Rt2 => {},
        }
    }
}

proof fn lemma_with_reg_stp_gen_stp64_ldstpair_off(i: A64Insn, f: A64RegField, enc: u8)
    requires
        i is StpGenStp64LdstpairOff,
        i.spec_is_canonical(),
        i.spec_reg_at(f) is Some,
    ensures
        ({
            let j = i.spec_with_reg(f, enc);
            let old = i.spec_reg_at(f)->0;
            &&& j.spec_reg_at(f) == Some(A64Reg { enc, width: old.width, reg31: old.reg31 })
            &&& forall|g: A64RegField| g != f ==> j.spec_reg_at(g) == i.spec_reg_at(g)
            &&& j.spec_is_canonical()
            &&& j.spec_key() == i.spec_key()
            &&& j.spec_roles() == i.spec_roles()
        }),
{
    assert forall|g: A64RegField| g != f implies i.spec_with_reg(f, enc).spec_reg_at(g) == i.spec_reg_at(g) by {
        match f {
            A64RegField::Rd => {},
            A64RegField::Rn => {},
            A64RegField::Rm => {},
            A64RegField::Rt => {},
            A64RegField::Rt2 => {},
        }
    }
}

proof fn lemma_with_reg_br_br64_branch_reg(i: A64Insn, f: A64RegField, enc: u8)
    requires
        i is BrBr64BranchReg,
        i.spec_is_canonical(),
        i.spec_reg_at(f) is Some,
    ensures
        ({
            let j = i.spec_with_reg(f, enc);
            let old = i.spec_reg_at(f)->0;
            &&& j.spec_reg_at(f) == Some(A64Reg { enc, width: old.width, reg31: old.reg31 })
            &&& forall|g: A64RegField| g != f ==> j.spec_reg_at(g) == i.spec_reg_at(g)
            &&& j.spec_is_canonical()
            &&& j.spec_key() == i.spec_key()
            &&& j.spec_roles() == i.spec_roles()
        }),
{
    assert forall|g: A64RegField| g != f implies i.spec_with_reg(f, enc).spec_reg_at(g) == i.spec_reg_at(g) by {
        match f {
            A64RegField::Rd => {},
            A64RegField::Rn => {},
            A64RegField::Rm => {},
            A64RegField::Rt => {},
            A64RegField::Rt2 => {},
        }
    }
}

proof fn lemma_with_reg_blr_blr64_branch_reg(i: A64Insn, f: A64RegField, enc: u8)
    requires
        i is BlrBlr64BranchReg,
        i.spec_is_canonical(),
        i.spec_reg_at(f) is Some,
    ensures
        ({
            let j = i.spec_with_reg(f, enc);
            let old = i.spec_reg_at(f)->0;
            &&& j.spec_reg_at(f) == Some(A64Reg { enc, width: old.width, reg31: old.reg31 })
            &&& forall|g: A64RegField| g != f ==> j.spec_reg_at(g) == i.spec_reg_at(g)
            &&& j.spec_is_canonical()
            &&& j.spec_key() == i.spec_key()
            &&& j.spec_roles() == i.spec_roles()
        }),
{
    assert forall|g: A64RegField| g != f implies i.spec_with_reg(f, enc).spec_reg_at(g) == i.spec_reg_at(g) by {
        match f {
            A64RegField::Rd => {},
            A64RegField::Rn => {},
            A64RegField::Rm => {},
            A64RegField::Rt => {},
            A64RegField::Rt2 => {},
        }
    }
}

proof fn lemma_with_reg_ret_ret64r_branch_reg(i: A64Insn, f: A64RegField, enc: u8)
    requires
        i is RetRet64rBranchReg,
        i.spec_is_canonical(),
        i.spec_reg_at(f) is Some,
    ensures
        ({
            let j = i.spec_with_reg(f, enc);
            let old = i.spec_reg_at(f)->0;
            &&& j.spec_reg_at(f) == Some(A64Reg { enc, width: old.width, reg31: old.reg31 })
            &&& forall|g: A64RegField| g != f ==> j.spec_reg_at(g) == i.spec_reg_at(g)
            &&& j.spec_is_canonical()
            &&& j.spec_key() == i.spec_key()
            &&& j.spec_roles() == i.spec_roles()
        }),
{
    assert forall|g: A64RegField| g != f implies i.spec_with_reg(f, enc).spec_reg_at(g) == i.spec_reg_at(g) by {
        match f {
            A64RegField::Rd => {},
            A64RegField::Rn => {},
            A64RegField::Rm => {},
            A64RegField::Rt => {},
            A64RegField::Rt2 => {},
        }
    }
}

/// Rewriting a register field of a canonical instruction and reading it back
/// gives the new number in the kind of register the field holds; the other
/// register fields, the form and its operand roles stay as they were, and
/// the result is canonical.
pub proof fn lemma_with_reg_then_reg_at(i: A64Insn, f: A64RegField, enc: u8)
    requires
        i.spec_is_canonical(),
        i.spec_reg_at(f) is Some,
    ensures
        ({
            let j = i.spec_with_reg(f, enc);
            let old = i.spec_reg_at(f)->0;
            &&& j.spec_reg_at(f) == Some(A64Reg { enc, width: old.width, reg31: old.reg31 })
            &&& forall|g: A64RegField| g != f ==> j.spec_reg_at(g) == i.spec_reg_at(g)
            &&& j.spec_is_canonical()
            &&& j.spec_key() == i.spec_key()
            &&& j.spec_roles() == i.spec_roles()
        }),
{
    match i {
        A64Insn::AdrAdrOnlyPcreladdr { .. } => lemma_with_reg_adr_adr_only_pcreladdr(i, f, enc),
        A64Insn::AdrpAdrpOnlyPcreladdr { .. } => lemma_with_reg_adrp_adrp_only_pcreladdr(i, f, enc),
        A64Insn::AddAddsubImmAdd32AddsubImm { .. } => lemma_with_reg_add_addsub_imm_add32_addsub_imm(i, f, enc),
        A64Insn::AddAddsubImmAdd64AddsubImm { .. } => lemma_with_reg_add_addsub_imm_add64_addsub_imm(i, f, enc),
        A64Insn::SubAddsubImmSub32AddsubImm { .. } => lemma_with_reg_sub_addsub_imm_sub32_addsub_imm(i, f, enc),
        A64Insn::SubAddsubImmSub64AddsubImm { .. } => lemma_with_reg_sub_addsub_imm_sub64_addsub_imm(i, f, enc),
        A64Insn::SubsAddsubImmSubs32sAddsubImm { .. } => lemma_with_reg_subs_addsub_imm_subs32s_addsub_imm(i, f, enc),
        A64Insn::SubsAddsubImmSubs64sAddsubImm { .. } => lemma_with_reg_subs_addsub_imm_subs64s_addsub_imm(i, f, enc),
        A64Insn::BUncondBOnlyBranchImm { .. } => {},
        A64Insn::BlBlOnlyBranchImm { .. } => {},
        A64Insn::BCondBOnlyCondbranch { .. } => {},
        A64Insn::CbzCbz32Compbranch { .. } => lemma_with_reg_cbz_cbz32_compbranch(i, f, enc),
        A64Insn::CbzCbz64Compbranch { .. } => lemma_with_reg_cbz_cbz64_compbranch(i, f, enc),
        A64Insn::CbnzCbnz32Compbranch { .. } => lemma_with_reg_cbnz_cbnz32_compbranch(i, f, enc),
        A64Insn::CbnzCbnz64Compbranch { .. } => lemma_with_reg_cbnz_cbnz64_compbranch(i, f, enc),
        A64Insn::MovzMovz32Movewide { .. } => lemma_with_reg_movz_movz32_movewide(i, f, enc),
        A64Insn::MovzMovz64Movewide { .. } => lemma_with_reg_movz_movz64_movewide(i, f, enc),
        A64Insn::MovkMovk32Movewide { .. } => lemma_with_reg_movk_movk32_movewide(i, f, enc),
        A64Insn::MovkMovk64Movewide { .. } => lemma_with_reg_movk_movk64_movewide(i, f, enc),
        A64Insn::OrrLogShiftOrr64LogShift { .. } => lemma_with_reg_orr_log_shift_orr64_log_shift(i, f, enc),
        A64Insn::TbzTbzOnlyTestbranch { .. } => lemma_with_reg_tbz_tbz_only_testbranch(i, f, enc),
        A64Insn::TbnzTbnzOnlyTestbranch { .. } => lemma_with_reg_tbnz_tbnz_only_testbranch(i, f, enc),
        A64Insn::LdrImmGenLdr32LdstImmpost { .. } => lemma_with_reg_ldr_imm_gen_ldr32_ldst_immpost(i, f, enc),
        A64Insn::LdrImmGenLdr64LdstImmpost { .. } => lemma_with_reg_ldr_imm_gen_ldr64_ldst_immpost(i, f, enc),
        A64Insn::LdrImmGenLdr32LdstImmpre { .. } => lemma_with_reg_ldr_imm_gen_ldr32_ldst_immpre(i, f, enc),
        A64Insn::LdrImmGenLdr64LdstImmpre { .. } => lemma_with_reg_ldr_imm_gen_ldr64_ldst_immpre(i, f, enc),
        A64Insn::LdrImmGenLdr32LdstPos { .. } => lemma_with_reg_ldr_imm_gen_ldr32_ldst_pos(i, f, enc),
        A64Insn::LdrImmGenLdr64LdstPos { .. } => lemma_with_reg_ldr_imm_gen_ldr64_ldst_pos(i, f, enc),
        A64Insn::StrImmGenStr32LdstImmpost { .. } => lemma_with_reg_str_imm_gen_str32_ldst_immpost(i, f, enc),
        A64Insn::StrImmGenStr64LdstImmpost { .. } => lemma_with_reg_str_imm_gen_str64_ldst_immpost(i, f, enc),
        A64Insn::StrImmGenStr32LdstImmpre { .. } => lemma_with_reg_str_imm_gen_str32_ldst_immpre(i, f, enc),
        A64Insn::StrImmGenStr64LdstImmpre { .. } => lemma_with_reg_str_imm_gen_str64_ldst_immpre(i, f, enc),
        A64Insn::StrImmGenStr32LdstPos { .. } => lemma_with_reg_str_imm_gen_str32_ldst_pos(i, f, enc),
        A64Insn::StrImmGenStr64LdstPos { .. } => lemma_with_reg_str_imm_gen_str64_ldst_pos(i, f, enc),
        A64Insn::LdpGenLdp64LdstpairPost { .. } => lemma_with_reg_ldp_gen_ldp64_ldstpair_post(i, f, enc),
        A64Insn::LdpGenLdp64LdstpairPre { .. } => lemma_with_reg_ldp_gen_ldp64_ldstpair_pre(i, f, enc),
        A64Insn::LdpGenLdp64LdstpairOff { .. } => lemma_with_reg_ldp_gen_ldp64_ldstpair_off(i, f, enc),
        A64Insn::StpGenStp64LdstpairPost { .. } => lemma_with_reg_stp_gen_stp64_ldstpair_post(i, f, enc),
        A64Insn::StpGenStp64LdstpairPre { .. } => lemma_with_reg_stp_gen_stp64_ldstpair_pre(i, f, enc),
        A64Insn::StpGenStp64LdstpairOff { .. } => lemma_with_reg_stp_gen_stp64_ldstpair_off(i, f, enc),
        A64Insn::NopNopHiHints { .. } => {},
        A64Insn::BrBr64BranchReg { .. } => lemma_with_reg_br_br64_branch_reg(i, f, enc),
        A64Insn::BlrBlr64BranchReg { .. } => lemma_with_reg_blr_blr64_branch_reg(i, f, enc),
        A64Insn::RetRet64rBranchReg { .. } => lemma_with_reg_ret_ret64r_branch_reg(i, f, enc),
        A64Insn::SvcSvcExException { .. } => {},
    }
}

/// Rewriting the branch offset field and reading it back gives the new raw
/// value; the form and its operand roles stay as they were, and operands
/// that fit still fit.
pub proof fn lemma_with_branch_raw_then_read(i: A64Insn, raw: u32)
    requires
        i.spec_branch_imm() is Some,
        raw < i.spec_branch_limit(),
    ensures
        ({
            let j = i.spec_with_branch_raw(raw);
            &&& j.spec_branch_imm() == Some(A64Imm { raw, bits: i.spec_branch_bits(), scale: 2, signed: true })
            &&& j.spec_branch_field() == i.spec_branch_field()
            &&& j.spec_key() == i.spec_key()
            &&& j.spec_roles() == i.spec_roles()
            &&& (i.spec_fits() ==> j.spec_fits())
        }),
{
}

} // verus!
