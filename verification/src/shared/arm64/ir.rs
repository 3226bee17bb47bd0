//! Decoded instructions with their addresses, and what the translator reads
//! off them: branch targets, runtime exits, PC-relative addresses.
use vstd::prelude::*;

use super::codec;
use super::insn::A64Insn;
use super::types::{self, A64Imm};
use crate::shared::platform::SharedAllocError;
use crate::shared::trans::cfg::RuntimeExitReason;

verus! {

/// The branch conditions the subset supports.
#[derive(Clone, Copy, Debug, PartialEq, Eq, Structural)]
pub enum A64Condition {
    Eq,
    Ne,
    Ge,
    Lt,
    Gt,
    Le,
    Al,
}

impl A64Condition {
    pub open spec fn spec_from_bits(bits: u8) -> Option<A64Condition> {
        if bits == 0x0 {
            Some(A64Condition::Eq)
        } else if bits == 0x1 {
            Some(A64Condition::Ne)
        } else if bits == 0xA {
            Some(A64Condition::Ge)
        } else if bits == 0xB {
            Some(A64Condition::Lt)
        } else if bits == 0xC {
            Some(A64Condition::Gt)
        } else if bits == 0xD {
            Some(A64Condition::Le)
        } else if bits == 0xE || bits == 0xF {
            Some(A64Condition::Al)
        } else {
            None
        }
    }

    /// The condition a 4-bit condition field names; `None` for the
    /// conditions outside the subset.
    pub fn from_bits(bits: u8) -> (r: Option<A64Condition>)
        ensures
            r == A64Condition::spec_from_bits(bits),
    {
        match bits {
            0x0 => Some(A64Condition::Eq),
            0x1 => Some(A64Condition::Ne),
            0xA => Some(A64Condition::Ge),
            0xB => Some(A64Condition::Lt),
            0xC => Some(A64Condition::Gt),
            0xD => Some(A64Condition::Le),
            0xE | 0xF => Some(A64Condition::Al),
            _ => None,
        }
    }

    pub open spec fn spec_bits(self) -> u8 {
        match self {
            A64Condition::Eq => 0x0,
            A64Condition::Ne => 0x1,
            A64Condition::Ge => 0xA,
            A64Condition::Lt => 0xB,
            A64Condition::Gt => 0xC,
            A64Condition::Le => 0xD,
            A64Condition::Al => 0xE,
        }
    }

    /// The 4-bit field that encodes the condition.
    pub fn bits(self) -> (r: u8)
        ensures
            r == self.spec_bits(),
    {
        match self {
            A64Condition::Eq => 0x0,
            A64Condition::Ne => 0x1,
            A64Condition::Ge => 0xA,
            A64Condition::Lt => 0xB,
            A64Condition::Gt => 0xC,
            A64Condition::Le => 0xD,
            A64Condition::Al => 0xE,
        }
    }
}

/// A condition written to its field and read back is the same condition.
pub proof fn lemma_condition_bits_roundtrip(c: A64Condition)
    ensures
        A64Condition::spec_from_bits(c.spec_bits()) == Some(c),
        c.spec_bits() < 16,
{
}

/// A decoded instruction with the address it was read from and its word.
#[derive(Clone, Copy, Debug, PartialEq, Eq, Structural)]
pub struct IrInsn {
    pub pc: u64,
    pub word: u32,
    pub inner: A64Insn,
}

#[derive(Clone, Copy, Debug, PartialEq, Eq, Structural)]
pub enum DecodeError {
    UnsupportedWord { pc: u64, word: u32 },
    Alloc(SharedAllocError),
}

/// `value` as a two's complement number of `bits` bits (its higher bits are
/// ignored).
pub open spec fn sext(value: u32, bits: nat) -> int {
    types::imm_value(value, bits, 0, true)
}

/// `pc + delta`, wrapped to 64 bits.
pub open spec fn wrap_add(pc: u64, delta: int) -> u64 {
    ((pc as int + delta) % 0x1_0000_0000_0000_0000) as u64
}

/// The target of a PC-relative branch whose word offset is the `bits`-bit
/// field `encoded`.
pub open spec fn branch_target(pc: u64, encoded: u32, bits: nat) -> u64 {
    wrap_add(pc, sext(encoded, bits) * 4)
}

/// `wrapping_add_signed` is addition modulo 2^64.
pub proof fn lemma_wrapping_add_signed(x: u64, y: i64)
    ensures
        vstd::wrapping::u64_specs::wrapping_add_signed(x, y) == wrap_add(x, y as int),
{
}

/// `wrapping_add` is addition modulo 2^64.
pub proof fn lemma_wrapping_add(x: u64, y: u64)
    ensures
        vstd::wrapping::u64_specs::wrapping_add(x, y) == wrap_add(x, y as int),
{
}

/// `x` plus `delta`, wrapped to 64 bits.
pub fn wrapping_offset(x: u64, delta: i64) -> (r: u64)
    ensures
        r == wrap_add(x, delta as int),
{
    proof {
        lemma_wrapping_add_signed(x, delta);
    }
    x.wrapping_add_signed(delta)
}

/// The sign-extended value of the low `bits` bits of `value`.
pub fn sign_extend(value: u32, bits: u8) -> (r: i64)
    requires
        1 <= bits,
    ensures
        r as int == sext(value, bits as nat),
        -0x1_0000_0000 <= r <= 0xFFFF_FFFF,
{
    let r = A64Imm::signed(value, bits).value();
    assert(r as int == sext(value, bits as nat));
    proof {
        lemma_sext_bounds(value, bits as nat);
    }
    r
}

/// A sign-extended field lies within 33 bits.
pub proof fn lemma_sext_bounds(value: u32, bits: nat)
    ensures
        -0x1_0000_0000 <= sext(value, bits) <= 0xFFFF_FFFF,
{
    vstd::arithmetic::power2::lemma2_to64();
    vstd::arithmetic::power2::lemma_pow2_pos(bits);
    if bits < 32 {
        vstd::arithmetic::power2::lemma_pow2_strictly_increases(bits, 32);
    }
    if bits >= 1 && bits <= 32 {
        vstd::arithmetic::power2::lemma_pow2_pos((bits - 1) as nat);
        if bits - 1 < 32 {
            vstd::arithmetic::power2::lemma_pow2_strictly_increases((bits - 1) as nat, 32);
        }
        vstd::arithmetic::power2::lemma_pow2_adds((bits - 1) as nat, 1);
    }
}

/// The target of a PC-relative branch whose word offset is the `bits`-bit
/// field `encoded`.
pub fn pc_relative_target(pc: u64, encoded: u32, bits: u8) -> (r: u64)
    requires
        1 <= bits,
    ensures
        r == branch_target(pc, encoded, bits as nat),
{
    let off = sign_extend(encoded, bits);
    wrapping_offset(pc, off * 4)
}

/// The 21-bit ADR/ADRP immediate `immhi:immlo`.
pub open spec fn adr_imm(immlo: A64Imm, immhi: A64Imm) -> u32 {
    (immhi.raw << 2) | immlo.raw
}

impl A64Insn {
    pub open spec fn spec_pc_relative_address(self, pc: u64) -> Option<u64> {
        match self {
            A64Insn::AdrAdrOnlyPcreladdr { immlo, immhi, .. } => Some(
                wrap_add(pc, sext(adr_imm(immlo, immhi), 21)),
            ),
            A64Insn::AdrpAdrpOnlyPcreladdr { immlo, immhi, .. } => Some(
                wrap_add((pc - pc % 4096) as u64, sext(adr_imm(immlo, immhi), 21) * 4096),
            ),
            _ => None,
        }
    }

    /// The address an ADR or ADRP at `pc` computes: `pc` plus the offset for
    /// ADR, the 4 KiB page of `pc` plus the offset in pages for ADRP.
    pub fn pc_relative_address(self, pc: u64) -> (r: Option<u64>)
        ensures
            r == self.spec_pc_relative_address(pc),
    {
        match self {
            A64Insn::AdrAdrOnlyPcreladdr { immlo, immhi, .. } => {
                let imm = (immhi.raw() << 2) | immlo.raw();
                Some(wrapping_offset(pc, sign_extend(imm, 21)))
            },
            A64Insn::AdrpAdrpOnlyPcreladdr { immlo, immhi, .. } => {
                let imm = (immhi.raw() << 2) | immlo.raw();
                let page_pc = pc & !0xFFFu64;
                assert(page_pc == pc - pc % 4096) by {
                    lemma_page_mask(pc);
                }
                Some(wrapping_offset(page_pc, sign_extend(imm, 21) * 4096))
            },
            _ => None,
        }
    }

    pub open spec fn spec_condition(self) -> Option<A64Condition> {
        match self {
            A64Insn::BCondBOnlyCondbranch { cond, .. } => A64Condition::spec_from_bits(cond),
            _ => None,
        }
    }

    /// The branch condition of a B.cond, when it is one the subset supports.
    pub fn condition(self) -> (r: Option<A64Condition>)
        ensures
            r == self.spec_condition(),
    {
        match self {
            A64Insn::BCondBOnlyCondbranch { cond, .. } => A64Condition::from_bits(cond),
            _ => None,
        }
    }

    /// The value of an add/subtract immediate: `imm12`, shifted left by 12
    /// when `sh` is 1; `None` for other shift codes.
    pub fn add_sub_imm(sh: u8, imm12: A64Imm) -> (r: Option<u64>)
        ensures
            sh == 0 ==> r == Some(imm12.raw as u64),
            sh == 1 ==> r == Some((imm12.raw * 4096) as u64),
            sh > 1 ==> r is None,
    {
        match sh {
            0 => Some(imm12.raw() as u64),
            1 => Some((imm12.raw() as u64) * 4096),
            _ => None,
        }
    }

    /// The left shift a move-wide `hw` field selects: 16 times `hw`, for
    /// `hw` up to 3.
    pub fn move_wide_shift(hw: u8) -> (r: Option<u8>)
        ensures
            hw <= 3 ==> r == Some((hw * 16) as u8),
            hw > 3 ==> r is None,
    {
        if hw <= 3 {
            Some(hw * 16)
        } else {
            None
        }
    }

    /// The value of a signed 9-bit load/store offset.
    pub fn signed_imm9(imm9: A64Imm) -> (r: i64)
        requires
            imm9.readable(),
        ensures
            r as int == imm9.spec_value(),
    {
        imm9.value()
    }

    pub open spec fn spec_direct_branch_target(self, pc: u64) -> Option<u64> {
        match self {
            A64Insn::BUncondBOnlyBranchImm { imm26 } => Some(branch_target(pc, imm26.raw, 26)),
            _ => None,
        }
    }

    /// The target of an unconditional B at `pc`.
    pub fn direct_branch_target(self, pc: u64) -> (r: Option<u64>)
        ensures
            r == self.spec_direct_branch_target(pc),
    {
        match self {
            A64Insn::BUncondBOnlyBranchImm { imm26 } => Some(pc_relative_target(pc, imm26.raw(), 26)),
            _ => None,
        }
    }

    pub open spec fn spec_conditional_targets(self, pc: u64) -> Option<(u64, u64)> {
        match self {
            A64Insn::BCondBOnlyCondbranch { imm19, .. }
            | A64Insn::CbzCbz32Compbranch { imm19, .. }
            | A64Insn::CbzCbz64Compbranch { imm19, .. }
            | A64Insn::CbnzCbnz32Compbranch { imm19, .. }
            | A64Insn::CbnzCbnz64Compbranch { imm19, .. } => Some(
                (branch_target(pc, imm19.raw, 19), wrap_add(pc, 4)),
            ),
            A64Insn::TbzTbzOnlyTestbranch { imm14, .. }
            | A64Insn::TbnzTbnzOnlyTestbranch { imm14, .. } => Some(
                (branch_target(pc, imm14.raw, 14), wrap_add(pc, 4)),
            ),
            _ => None,
        }
    }

    /// The taken and fall-through targets of a conditional branch at `pc`.
    pub fn conditional_targets(self, pc: u64) -> (r: Option<(u64, u64)>)
        ensures
            r == self.spec_conditional_targets(pc),
    {
        let taken = match self {
            A64Insn::BCondBOnlyCondbranch { imm19, .. }
            | A64Insn::CbzCbz32Compbranch { imm19, .. }
            | A64Insn::CbzCbz64Compbranch { imm19, .. }
            | A64Insn::CbnzCbnz32Compbranch { imm19, .. }
            | A64Insn::CbnzCbnz64Compbranch { imm19, .. } => pc_relative_target(pc, imm19.raw(), 19),
            A64Insn::TbzTbzOnlyTestbranch { imm14, .. }
            | A64Insn::TbnzTbnzOnlyTestbranch { imm14, .. } => pc_relative_target(pc, imm14.raw(), 14),
            _ => {
                return None;
            },
        };
        Some((taken, wrapping_offset(pc, 4)))
    }

    pub open spec fn spec_runtime_exit_reason(self, pc: u64) -> Option<RuntimeExitReason> {
        match self {
            A64Insn::BlBlOnlyBranchImm { imm26 } => Some(
                RuntimeExitReason::Bl {
                    target_pc: branch_target(pc, imm26.raw, 26),
                    resume_pc: wrap_add(pc, 4),
                },
            ),
            A64Insn::BlrBlr64BranchReg { rn } => Some(
                RuntimeExitReason::Blr { target_reg: rn.enc, resume_pc: wrap_add(pc, 4) },
            ),
            A64Insn::BrBr64BranchReg { rn } => Some(RuntimeExitReason::Br { target_reg: rn.enc }),
            A64Insn::RetRet64rBranchReg { rn } => Some(RuntimeExitReason::Ret { lr_reg: rn.enc }),
            A64Insn::SvcSvcExException { imm16 } => Some(
                RuntimeExitReason::Svc { imm16: imm16.raw as u16, resume_pc: wrap_add(pc, 4) },
            ),
            _ => None,
        }
    }

    /// Why an instruction at `pc` leaves translated code for the runtime: a
    /// call (BL, BLR), an indirect branch (BR), a return (RET) or a
    /// supervisor call (SVC).
    pub fn runtime_exit_reason(self, pc: u64) -> (r: Option<RuntimeExitReason>)
        ensures
            r == self.spec_runtime_exit_reason(pc),
    {
        match self {
            A64Insn::BlBlOnlyBranchImm { imm26 } => Some(
                RuntimeExitReason::Bl {
                    target_pc: pc_relative_target(pc, imm26.raw(), 26),
                    resume_pc: wrapping_offset(pc, 4),
                },
            ),
            A64Insn::BlrBlr64BranchReg { rn } => Some(
                RuntimeExitReason::Blr { target_reg: rn.enc(), resume_pc: wrapping_offset(pc, 4) },
            ),
            A64Insn::BrBr64BranchReg { rn } => Some(RuntimeExitReason::Br { target_reg: rn.enc() }),
            A64Insn::RetRet64rBranchReg { rn } => Some(RuntimeExitReason::Ret { lr_reg: rn.enc() }),
            A64Insn::SvcSvcExException { imm16 } => Some(
                RuntimeExitReason::Svc {
                    imm16: imm16.raw() as u16,
                    resume_pc: wrapping_offset(pc, 4),
                },
            ),
            _ => None,
        }
    }
}

/// Clearing the low twelve bits rounds down to a multiple of 4096.
pub proof fn lemma_page_mask(pc: u64)
    ensures
        pc & !0xFFFu64 == pc - pc % 4096,
{
    assert(pc & !0xFFFu64 == pc - pc % 4096) by (bit_vector);
}

/// Decodes the word at `pc`; fails with `UnsupportedWord` exactly when the
/// word is the encoding of no instruction of the subset.
pub fn decode_word(word: u32, pc: u64) -> (r: Result<IrInsn, DecodeError>)
    ensures
        r == (match codec::spec_decode_word(word) {
            Some(inner) => Ok(IrInsn { pc, word, inner }),
            None => Err(DecodeError::UnsupportedWord { pc, word }),
        }),
        r is Err <==> forall|i: A64Insn| i.spec_fits() ==> i.spec_word() != word,
{
    match A64Insn::decode(word) {
        Some(inner) => Ok(IrInsn { pc, word, inner }),
        None => Err(DecodeError::UnsupportedWord { pc, word }),
    }
}

/// The little-endian word at byte `k` of `bytes`.
pub open spec fn le_word(bytes: Seq<u8>, k: int) -> u32 {
    (bytes[k] as int + bytes[k + 1] as int * 0x100 + bytes[k + 2] as int * 0x1_0000 + bytes[k + 3] as int
        * 0x100_0000) as u32
}

/// The word at word index `k` of `bytes` decodes.
pub open spec fn word_decodes(bytes: Seq<u8>, k: int) -> bool {
    codec::spec_decode_word(le_word(bytes, 4 * k)) is Some
}

/// Reads the little-endian word at byte `k` of `bytes`.
pub fn read_le_word(bytes: &[u8], k: usize) -> (r: u32)
    requires
        k + 4 <= bytes@.len(),
    ensures
        r == le_word(bytes@, k as int),
{
    bytes[k] as u32 + (bytes[k + 1] as u32) * 0x100 + (bytes[k + 2] as u32) * 0x1_0000 + (bytes[k
        + 3] as u32) * 0x100_0000
}

/// Decodes a program of little-endian words, the first at `base_pc`. A
/// length that is not a multiple of four is refused as an unsupported word
/// 0 at `base_pc`; otherwise the first word that does not decode is reported.
pub fn decode_program(program: &[u8], base_pc: u64) -> (r: Result<Vec<IrInsn>, DecodeError>)
    requires
        base_pc + program@.len() <= u64::MAX,
    ensures
        program@.len() % 4 != 0 ==> r == Err::<Vec<IrInsn>, DecodeError>(
            DecodeError::UnsupportedWord { pc: base_pc, word: 0 },
        ),
        program@.len() % 4 == 0 ==> match r {
            Ok(v) => v@.len() == program@.len() / 4 && forall|j: int|
                0 <= j < v@.len() ==> Some(v@[j].inner) == codec::spec_decode_word(
                    le_word(program@, 4 * j),
                ) && v@[j].pc == base_pc + 4 * j && v@[j].word == le_word(program@, 4 * j),
            Err(e) => exists|j: int|
                0 <= j < program@.len() / 4 && !#[trigger] word_decodes(program@, j)
                    && e == DecodeError::UnsupportedWord {
                    pc: (base_pc + 4 * j) as u64,
                    word: le_word(program@, 4 * j),
                } && forall|k: int| 0 <= k < j ==> #[trigger] word_decodes(program@, k),
        },
{
    if program.len() % 4 != 0 {
        return Err(DecodeError::UnsupportedWord { pc: base_pc, word: 0 });
    }
    let len = program.len();
    let n = len / 4;
    let mut decoded: Vec<IrInsn> = Vec::new();
    let mut index: usize = 0;
    while index < n
        invariant
            len == program@.len(),
            n == program@.len() / 4,
            program@.len() % 4 == 0,
            base_pc + program@.len() <= u64::MAX,
            index <= n,
            decoded@.len() == index,
            forall|j: int|
                0 <= j < index ==> Some(decoded@[j].inner) == codec::spec_decode_word(
                    le_word(program@, 4 * j),
                ) && decoded@[j].pc == base_pc + 4 * j && decoded@[j].word == le_word(
                    program@,
                    4 * j,
                ),
        decreases n - index,
    {
        assert(index * 4 + 4 <= program@.len()) by (nonlinear_arith)
            requires
                index < n,
                n == program@.len() / 4,
        ;
        let pc = base_pc + (index as u64) * 4;
        let word = read_le_word(program, index * 4);
        match decode_word(word, pc) {
            Ok(insn) => decoded.push(insn),
            Err(e) => {
                assert forall|k: int| 0 <= k < index implies #[trigger] word_decodes(program@, k) by {
                    assert(Some(decoded@[k].inner) == codec::spec_decode_word(le_word(program@, 4 * k)));
                }
                assert(!word_decodes(program@, index as int));
                return Err(e);
            },
        }
        index = index + 1;
    }
    Ok(decoded)
}

} // verus!
