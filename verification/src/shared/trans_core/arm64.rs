//! Decoded instructions as typed operations: the operand width, the kind of
//! operation, and the branch targets resolved against the pc.
use vstd::prelude::*;

use crate::shared::arm64::ir::{self, pc_relative_target, sign_extend, wrapping_offset};
use crate::shared::arm64::{codec, types, A64Imm, A64Insn, A64Mem};
use crate::shared::platform::SharedAllocError;

verus! {

#[derive(Clone, Copy, Debug, PartialEq, Eq, Structural)]
pub enum GprWidth {
    W32,
    X64,
}

impl GprWidth {
    pub open spec fn spec_bytes(self) -> u16 {
        match self {
            GprWidth::W32 => 4,
            GprWidth::X64 => 8,
        }
    }

    /// The register width in bytes.
    pub fn bytes(self) -> (r: u16)
        ensures
            r == self.spec_bytes(),
    {
        match self {
            GprWidth::W32 => 4,
            GprWidth::X64 => 8,
        }
    }
}

#[derive(Clone, Copy, Debug, PartialEq, Eq, Structural)]
pub enum BranchCondition {
    Eq,
    Ne,
    Ge,
    Lt,
    Gt,
    Le,
    Al,
}

impl BranchCondition {
    pub open spec fn spec_from_bits(bits: u8) -> Result<BranchCondition, DecodeError> {
        if bits == 0x0 {
            Ok(BranchCondition::Eq)
        } else if bits == 0x1 {
            Ok(BranchCondition::Ne)
        } else if bits == 0xA {
            Ok(BranchCondition::Ge)
        } else if bits == 0xB {
            Ok(BranchCondition::Lt)
        } else if bits == 0xC {
            Ok(BranchCondition::Gt)
        } else if bits == 0xD {
            Ok(BranchCondition::Le)
        } else if bits == 0xE || bits == 0xF {
            Ok(BranchCondition::Al)
        } else {
            Err(DecodeError::InvalidConditionBits { bits })
        }
    }

    /// The condition a 4-bit field names; the conditions outside the subset
    /// are refused.
    pub fn from_bits(bits: u8) -> (r: Result<BranchCondition, DecodeError>)
        ensures
            r == BranchCondition::spec_from_bits(bits),
    {
        match bits {
            0x0 => Ok(BranchCondition::Eq),
            0x1 => Ok(BranchCondition::Ne),
            0xA => Ok(BranchCondition::Ge),
            0xB => Ok(BranchCondition::Lt),
            0xC => Ok(BranchCondition::Gt),
            0xD => Ok(BranchCondition::Le),
            0xE | 0xF => Ok(BranchCondition::Al),
            _ => Err(DecodeError::InvalidConditionBits { bits }),
        }
    }
}

#[derive(Clone, Copy, Debug, PartialEq, Eq, Structural)]
pub enum MoveWideOp {
    Zero,
    Keep,
}

#[derive(Clone, Copy, Debug, PartialEq, Eq, Structural)]
pub enum PcRelOp {
    Adr,
    Adrp,
}

#[derive(Clone, Copy, Debug, PartialEq, Eq, Structural)]
pub enum AddSubOp {
    Add,
    Sub,
}

#[derive(Clone, Copy, Debug, PartialEq, Eq, Structural)]
pub enum LoadStoreOp {
    Load,
    Store,
}

#[derive(Clone, Copy, Debug, PartialEq, Eq, Structural)]
pub enum LoadStoreAddressing {
    UnsignedScaledOffset { imm12: u16 },
    PreIndex { imm9: i16 },
    PostIndex { imm9: i16 },
}

impl LoadStoreAddressing {
    pub open spec fn spec_byte_offset(self, width: GprWidth) -> i32 {
        match self {
            LoadStoreAddressing::UnsignedScaledOffset { imm12 } => (imm12 * width.spec_bytes()) as i32,
            LoadStoreAddressing::PreIndex { imm9 } | LoadStoreAddressing::PostIndex { imm9 } => imm9 as i32,
        }
    }

    /// The byte offset the addressing adds to the base: the unsigned offset
    /// scaled by the access size, or the signed index.
    pub fn byte_offset(self, width: GprWidth) -> (r: i32)
        ensures
            r == self.spec_byte_offset(width),
    {
        match self {
            LoadStoreAddressing::UnsignedScaledOffset { imm12 } => (imm12 as i32) * (width.bytes() as i32),
            LoadStoreAddressing::PreIndex { imm9 } | LoadStoreAddressing::PostIndex { imm9 } => imm9 as i32,
        }
    }
}

#[allow(inconsistent_fields)]
#[derive(Clone, Copy, Debug, PartialEq, Eq, Structural)]
pub enum DecodedInsnKind {
    Nop,
    MoveWide { op: MoveWideOp, width: GprWidth, rd: u8, imm16: u16, shift: u8 },
    PcRelAddress { op: PcRelOp, rd: u8, target: u64 },
    AddSubImm {
        op: AddSubOp,
        width: GprWidth,
        set_flags: bool,
        rd: u8,
        rn: u8,
        imm12: u16,
        shift12: bool,
    },
    Branch { target: u64 },
    BranchLink { target: u64 },
    BranchReg { rn: u8 },
    BranchLinkReg { rn: u8 },
    Ret { rn: u8 },
    Svc { imm16: u16 },
    CondBranch { cond: BranchCondition, target: u64 },
    CompareBranch { nonzero: bool, width: GprWidth, rt: u8, target: u64 },
    TestBitBranch { nonzero: bool, width: GprWidth, rt: u8, bit: u8, target: u64 },
    LoadStoreImm { op: LoadStoreOp, width: GprWidth, rt: u8, rn: u8, addressing: LoadStoreAddressing },
}

#[derive(Clone, Copy, Debug, PartialEq, Eq, Structural)]
pub struct DecodedInsn {
    pub pc: u64,
    pub word: u32,
    pub kind: DecodedInsnKind,
}

#[derive(Clone, Copy, Debug, PartialEq, Eq)]
pub enum DecodeError {
    UnsupportedWord { pc: u64, word: u32 },
    UnsupportedEncoding { pc: u64, word: u32, key: &'static str, reason: &'static str },
    MissingField { key: &'static str, field: &'static str },
    InvalidConditionBits { bits: u8 },
    Alloc(SharedAllocError),
}

/// The typed view of a decoded instruction at `pc`; forms without a typed
/// view are refused.
pub open spec fn spec_kind(insn: A64Insn, pc: u64, word: u32) -> Result<DecodedInsnKind, DecodeError> {
    match insn {
        A64Insn::NopNopHiHints {} => Ok(DecodedInsnKind::Nop),
        A64Insn::AdrAdrOnlyPcreladdr { rd, .. } => Ok(
            DecodedInsnKind::PcRelAddress { op: PcRelOp::Adr, rd: rd.enc, target: insn.spec_pc_relative_address(pc)->0 },
        ),
        A64Insn::AdrpAdrpOnlyPcreladdr { rd, .. } => Ok(
            DecodedInsnKind::PcRelAddress { op: PcRelOp::Adrp, rd: rd.enc, target: insn.spec_pc_relative_address(pc)->0 },
        ),
        A64Insn::AddAddsubImmAdd32AddsubImm { sh, imm12, rn, rd } => Ok(add_sub_kind(AddSubOp::Add, GprWidth::W32, false, sh, imm12, rn.enc, rd.enc)),
        A64Insn::AddAddsubImmAdd64AddsubImm { sh, imm12, rn, rd } => Ok(add_sub_kind(AddSubOp::Add, GprWidth::X64, false, sh, imm12, rn.enc, rd.enc)),
        A64Insn::SubAddsubImmSub32AddsubImm { sh, imm12, rn, rd } => Ok(add_sub_kind(AddSubOp::Sub, GprWidth::W32, false, sh, imm12, rn.enc, rd.enc)),
        A64Insn::SubAddsubImmSub64AddsubImm { sh, imm12, rn, rd } => Ok(add_sub_kind(AddSubOp::Sub, GprWidth::X64, false, sh, imm12, rn.enc, rd.enc)),
        A64Insn::SubsAddsubImmSubs32sAddsubImm { sh, imm12, rn, rd } => Ok(add_sub_kind(AddSubOp::Sub, GprWidth::W32, true, sh, imm12, rn.enc, rd.enc)),
        A64Insn::SubsAddsubImmSubs64sAddsubImm { sh, imm12, rn, rd } => Ok(add_sub_kind(AddSubOp::Sub, GprWidth::X64, true, sh, imm12, rn.enc, rd.enc)),
        A64Insn::BUncondBOnlyBranchImm { imm26 } => Ok(DecodedInsnKind::Branch { target: ir::branch_target(pc, imm26.raw, 26) }),
        A64Insn::BlBlOnlyBranchImm { imm26 } => Ok(DecodedInsnKind::BranchLink { target: ir::branch_target(pc, imm26.raw, 26) }),
        A64Insn::BCondBOnlyCondbranch { imm19, cond } => match BranchCondition::spec_from_bits(cond) {
            Ok(c) => Ok(DecodedInsnKind::CondBranch { cond: c, target: ir::branch_target(pc, imm19.raw, 19) }),
            Err(e) => Err(e),
        },
        A64Insn::CbzCbz32Compbranch { imm19, rt } => Ok(DecodedInsnKind::CompareBranch { nonzero: false, width: GprWidth::W32, rt: rt.enc, target: ir::branch_target(pc, imm19.raw, 19) }),
        A64Insn::CbzCbz64Compbranch { imm19, rt } => Ok(DecodedInsnKind::CompareBranch { nonzero: false, width: GprWidth::X64, rt: rt.enc, target: ir::branch_target(pc, imm19.raw, 19) }),
        A64Insn::CbnzCbnz32Compbranch { imm19, rt } => Ok(DecodedInsnKind::CompareBranch { nonzero: true, width: GprWidth::W32, rt: rt.enc, target: ir::branch_target(pc, imm19.raw, 19) }),
        A64Insn::CbnzCbnz64Compbranch { imm19, rt } => Ok(DecodedInsnKind::CompareBranch { nonzero: true, width: GprWidth::X64, rt: rt.enc, target: ir::branch_target(pc, imm19.raw, 19) }),
        A64Insn::MovzMovz32Movewide { hw, imm16, rd } => Ok(DecodedInsnKind::MoveWide { op: MoveWideOp::Zero, width: GprWidth::W32, rd: rd.enc, imm16: imm16.raw as u16, shift: (hw * 16) as u8 }),
        A64Insn::MovzMovz64Movewide { hw, imm16, rd } => Ok(DecodedInsnKind::MoveWide { op: MoveWideOp::Zero, width: GprWidth::X64, rd: rd.enc, imm16: imm16.raw as u16, shift: (hw * 16) as u8 }),
        A64Insn::MovkMovk32Movewide { hw, imm16, rd } => Ok(DecodedInsnKind::MoveWide { op: MoveWideOp::Keep, width: GprWidth::W32, rd: rd.enc, imm16: imm16.raw as u16, shift: (hw * 16) as u8 }),
        A64Insn::MovkMovk64Movewide { hw, imm16, rd } => Ok(DecodedInsnKind::MoveWide { op: MoveWideOp::Keep, width: GprWidth::X64, rd: rd.enc, imm16: imm16.raw as u16, shift: (hw * 16) as u8 }),
        A64Insn::TbzTbzOnlyTestbranch { b5, b40, imm14, rt } => Ok(DecodedInsnKind::TestBitBranch { nonzero: false, width: if b5 == 0 { GprWidth::W32 } else { GprWidth::X64 }, rt: rt.enc, bit: (b5 * 32 + b40) as u8, target: ir::branch_target(pc, imm14.raw, 14) }),
        A64Insn::TbnzTbnzOnlyTestbranch { b5, b40, imm14, rt } => Ok(DecodedInsnKind::TestBitBranch { nonzero: true, width: if b5 == 0 { GprWidth::W32 } else { GprWidth::X64 }, rt: rt.enc, bit: (b5 * 32 + b40) as u8, target: ir::branch_target(pc, imm14.raw, 14) }),
        A64Insn::LdrImmGenLdr32LdstImmpost { rt, mem } | A64Insn::LdrImmGenLdr32LdstImmpre { rt, mem } | A64Insn::LdrImmGenLdr32LdstPos { rt, mem } => Ok(DecodedInsnKind::LoadStoreImm { op: LoadStoreOp::Load, width: GprWidth::W32, rt: rt.enc, rn: mem.spec_base().enc, addressing: addressing_of(mem) }),
        A64Insn::LdrImmGenLdr64LdstImmpost { rt, mem } | A64Insn::LdrImmGenLdr64LdstImmpre { rt, mem } | A64Insn::LdrImmGenLdr64LdstPos { rt, mem } => Ok(DecodedInsnKind::LoadStoreImm { op: LoadStoreOp::Load, width: GprWidth::X64, rt: rt.enc, rn: mem.spec_base().enc, addressing: addressing_of(mem) }),
        A64Insn::StrImmGenStr32LdstImmpost { rt, mem } | A64Insn::StrImmGenStr32LdstImmpre { rt, mem } | A64Insn::StrImmGenStr32LdstPos { rt, mem } => Ok(DecodedInsnKind::LoadStoreImm { op: LoadStoreOp::Store, width: GprWidth::W32, rt: rt.enc, rn: mem.spec_base().enc, addressing: addressing_of(mem) }),
        A64Insn::StrImmGenStr64LdstImmpost { rt, mem } | A64Insn::StrImmGenStr64LdstImmpre { rt, mem } | A64Insn::StrImmGenStr64LdstPos { rt, mem } => Ok(DecodedInsnKind::LoadStoreImm { op: LoadStoreOp::Store, width: GprWidth::X64, rt: rt.enc, rn: mem.spec_base().enc, addressing: addressing_of(mem) }),
        A64Insn::BrBr64BranchReg { rn } => Ok(DecodedInsnKind::BranchReg { rn: rn.enc }),
        A64Insn::BlrBlr64BranchReg { rn } => Ok(DecodedInsnKind::BranchLinkReg { rn: rn.enc }),
        A64Insn::RetRet64rBranchReg { rn } => Ok(DecodedInsnKind::Ret { rn: rn.enc }),
        A64Insn::SvcSvcExException { imm16 } => Ok(DecodedInsnKind::Svc { imm16: imm16.raw as u16 }),
        _ => Err(DecodeError::UnsupportedEncoding { pc, word, key: insn.spec_key(), reason: "no typed importer exists for this generated encoding yet" }),
    }
}

pub open spec fn add_sub_kind(op: AddSubOp, width: GprWidth, set_flags: bool, sh: u8, imm12: A64Imm, rn: u8, rd: u8) -> DecodedInsnKind {
    DecodedInsnKind::AddSubImm { op, width, set_flags, rd, rn, imm12: imm12.raw as u16, shift12: sh != 0 }
}

/// The addressing of a load/store memory operand; indexed offsets are
/// sign-extended from nine bits.
pub open spec fn addressing_of(mem: A64Mem) -> LoadStoreAddressing {
    match mem {
        A64Mem::Offset { offset, .. } => LoadStoreAddressing::UnsignedScaledOffset { imm12: offset.raw as u16 },
        A64Mem::PreIndex { offset, .. } => LoadStoreAddressing::PreIndex { imm9: ir::sext(offset.raw, 9) as i16 },
        A64Mem::PostIndex { offset, .. } => LoadStoreAddressing::PostIndex { imm9: ir::sext(offset.raw, 9) as i16 },
    }
}

/// What decoding `word` at `pc` gives.
pub open spec fn spec_decode(word: u32, pc: u64) -> Result<DecodedInsn, DecodeError> {
    match codec::spec_decode_word(word) {
        None => Err(DecodeError::UnsupportedWord { pc, word }),
        Some(insn) => match spec_kind(insn, pc, word) {
            Ok(kind) => Ok(DecodedInsn { pc, word, kind }),
            Err(e) => Err(e),
        },
    }
}

fn addressing(mem: A64Mem) -> (r: LoadStoreAddressing)
    ensures
        r == addressing_of(mem),
{
    match mem {
        A64Mem::Offset { offset, .. } => LoadStoreAddressing::UnsignedScaledOffset { imm12: offset.raw as u16 },
        A64Mem::PreIndex { offset, .. } => {
            let v = sign_extend(offset.raw, 9);
            proof {
                lemma_sext9_bounds(offset.raw);
            }
            LoadStoreAddressing::PreIndex { imm9: v as i16 }
        },
        A64Mem::PostIndex { offset, .. } => {
            let v = sign_extend(offset.raw, 9);
            proof {
                lemma_sext9_bounds(offset.raw);
            }
            LoadStoreAddressing::PostIndex { imm9: v as i16 }
        },
    }
}

/// A nine-bit signed field lies within -256..=255.
pub proof fn lemma_sext9_bounds(raw: u32)
    ensures
        -256 <= ir::sext(raw, 9) <= 255,
{
    vstd::arithmetic::power2::lemma2_to64();
}

fn add_sub(op: AddSubOp, width: GprWidth, set_flags: bool, sh: u8, imm12: A64Imm, rn: u8, rd: u8) -> (r: DecodedInsnKind)
    ensures
        r == add_sub_kind(op, width, set_flags, sh, imm12, rn, rd),
{
    DecodedInsnKind::AddSubImm { op, width, set_flags, rd, rn, imm12: imm12.raw as u16, shift12: sh != 0 }
}

/// Decodes `word` at `pc` into its typed view; words outside the subset,
/// and forms with no typed view, are refused.
pub fn decode_word(word: u32, pc: u64) -> (r: Result<DecodedInsn, DecodeError>)
    ensures
        r == spec_decode(word, pc),
{
    let insn = match A64Insn::decode(word) {
        Some(insn) => insn,
        None => {
            return Err(DecodeError::UnsupportedWord { pc, word });
        },
    };
    proof {
        codec::lemma_decode_sound(word);
    }
    let kind = match insn {
        A64Insn::NopNopHiHints {} => DecodedInsnKind::Nop,
        A64Insn::AdrAdrOnlyPcreladdr { rd, .. } => match insn.pc_relative_address(pc) {
            Some(target) => DecodedInsnKind::PcRelAddress { op: PcRelOp::Adr, rd: rd.enc, target },
            None => DecodedInsnKind::Nop,
        },
        A64Insn::AdrpAdrpOnlyPcreladdr { rd, .. } => match insn.pc_relative_address(pc) {
            Some(target) => DecodedInsnKind::PcRelAddress { op: PcRelOp::Adrp, rd: rd.enc, target },
            None => DecodedInsnKind::Nop,
        },
        A64Insn::AddAddsubImmAdd32AddsubImm { sh, imm12, rn, rd } => add_sub(AddSubOp::Add, GprWidth::W32, false, sh, imm12, rn.enc, rd.enc),
        A64Insn::AddAddsubImmAdd64AddsubImm { sh, imm12, rn, rd } => add_sub(AddSubOp::Add, GprWidth::X64, false, sh, imm12, rn.enc, rd.enc),
        A64Insn::SubAddsubImmSub32AddsubImm { sh, imm12, rn, rd } => add_sub(AddSubOp::Sub, GprWidth::W32, false, sh, imm12, rn.enc, rd.enc),
        A64Insn::SubAddsubImmSub64AddsubImm { sh, imm12, rn, rd } => add_sub(AddSubOp::Sub, GprWidth::X64, false, sh, imm12, rn.enc, rd.enc),
        A64Insn::SubsAddsubImmSubs32sAddsubImm { sh, imm12, rn, rd } => add_sub(AddSubOp::Sub, GprWidth::W32, true, sh, imm12, rn.enc, rd.enc),
        A64Insn::SubsAddsubImmSubs64sAddsubImm { sh, imm12, rn, rd } => add_sub(AddSubOp::Sub, GprWidth::X64, true, sh, imm12, rn.enc, rd.enc),
        A64Insn::BUncondBOnlyBranchImm { imm26 } => DecodedInsnKind::Branch { target: pc_relative_target(pc, imm26.raw, 26) },
        A64Insn::BlBlOnlyBranchImm { imm26 } => DecodedInsnKind::BranchLink { target: pc_relative_target(pc, imm26.raw, 26) },
        A64Insn::BCondBOnlyCondbranch { imm19, cond } => match BranchCondition::from_bits(cond) {
            Ok(c) => DecodedInsnKind::CondBranch { cond: c, target: pc_relative_target(pc, imm19.raw, 19) },
            Err(e) => {
                return Err(e);
            },
        },
        A64Insn::CbzCbz32Compbranch { imm19, rt } => DecodedInsnKind::CompareBranch { nonzero: false, width: GprWidth::W32, rt: rt.enc, target: pc_relative_target(pc, imm19.raw, 19) },
        A64Insn::CbzCbz64Compbranch { imm19, rt } => DecodedInsnKind::CompareBranch { nonzero: false, width: GprWidth::X64, rt: rt.enc, target: pc_relative_target(pc, imm19.raw, 19) },
        A64Insn::CbnzCbnz32Compbranch { imm19, rt } => DecodedInsnKind::CompareBranch { nonzero: true, width: GprWidth::W32, rt: rt.enc, target: pc_relative_target(pc, imm19.raw, 19) },
        A64Insn::CbnzCbnz64Compbranch { imm19, rt } => DecodedInsnKind::CompareBranch { nonzero: true, width: GprWidth::X64, rt: rt.enc, target: pc_relative_target(pc, imm19.raw, 19) },
        A64Insn::MovzMovz32Movewide { hw, imm16, rd } => DecodedInsnKind::MoveWide { op: MoveWideOp::Zero, width: GprWidth::W32, rd: rd.enc, imm16: imm16.raw as u16, shift: hw * 16 },
        A64Insn::MovzMovz64Movewide { hw, imm16, rd } => DecodedInsnKind::MoveWide { op: MoveWideOp::Zero, width: GprWidth::X64, rd: rd.enc, imm16: imm16.raw as u16, shift: hw * 16 },
        A64Insn::MovkMovk32Movewide { hw, imm16, rd } => DecodedInsnKind::MoveWide { op: MoveWideOp::Keep, width: GprWidth::W32, rd: rd.enc, imm16: imm16.raw as u16, shift: hw * 16 },
        A64Insn::MovkMovk64Movewide { hw, imm16, rd } => DecodedInsnKind::MoveWide { op: MoveWideOp::Keep, width: GprWidth::X64, rd: rd.enc, imm16: imm16.raw as u16, shift: hw * 16 },
        A64Insn::TbzTbzOnlyTestbranch { b5, b40, imm14, rt } => DecodedInsnKind::TestBitBranch { nonzero: false, width: if b5 == 0 { GprWidth::W32 } else { GprWidth::X64 }, rt: rt.enc, bit: b5 * 32 + b40, target: pc_relative_target(pc, imm14.raw, 14) },
        A64Insn::TbnzTbnzOnlyTestbranch { b5, b40, imm14, rt } => DecodedInsnKind::TestBitBranch { nonzero: true, width: if b5 == 0 { GprWidth::W32 } else { GprWidth::X64 }, rt: rt.enc, bit: b5 * 32 + b40, target: pc_relative_target(pc, imm14.raw, 14) },
        A64Insn::LdrImmGenLdr32LdstImmpost { rt, mem } | A64Insn::LdrImmGenLdr32LdstImmpre { rt, mem } | A64Insn::LdrImmGenLdr32LdstPos { rt, mem } => DecodedInsnKind::LoadStoreImm { op: LoadStoreOp::Load, width: GprWidth::W32, rt: rt.enc, rn: mem.base().enc, addressing: addressing(mem) },
        A64Insn::LdrImmGenLdr64LdstImmpost { rt, mem } | A64Insn::LdrImmGenLdr64LdstImmpre { rt, mem } | A64Insn::LdrImmGenLdr64LdstPos { rt, mem } => DecodedInsnKind::LoadStoreImm { op: LoadStoreOp::Load, width: GprWidth::X64, rt: rt.enc, rn: mem.base().enc, addressing: addressing(mem) },
        A64Insn::StrImmGenStr32LdstImmpost { rt, mem } | A64Insn::StrImmGenStr32LdstImmpre { rt, mem } | A64Insn::StrImmGenStr32LdstPos { rt, mem } => DecodedInsnKind::LoadStoreImm { op: LoadStoreOp::Store, width: GprWidth::W32, rt: rt.enc, rn: mem.base().enc, addressing: addressing(mem) },
        A64Insn::StrImmGenStr64LdstImmpost { rt, mem } | A64Insn::StrImmGenStr64LdstImmpre { rt, mem } | A64Insn::StrImmGenStr64LdstPos { rt, mem } => DecodedInsnKind::LoadStoreImm { op: LoadStoreOp::Store, width: GprWidth::X64, rt: rt.enc, rn: mem.base().enc, addressing: addressing(mem) },
        A64Insn::BrBr64BranchReg { rn } => DecodedInsnKind::BranchReg { rn: rn.enc },
        A64Insn::BlrBlr64BranchReg { rn } => DecodedInsnKind::BranchLinkReg { rn: rn.enc },
        A64Insn::RetRet64rBranchReg { rn } => DecodedInsnKind::Ret { rn: rn.enc },
        A64Insn::SvcSvcExException { imm16 } => DecodedInsnKind::Svc { imm16: imm16.raw as u16 },
        _ => {
            return Err(DecodeError::UnsupportedEncoding { pc, word, key: insn.key(), reason: "no typed importer exists for this generated encoding yet" });
        },
    };
    Ok(DecodedInsn { pc, word, kind })
}

} // verus!
