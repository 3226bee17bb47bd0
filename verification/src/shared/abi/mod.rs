//! The calling convention between translated fragments and the runtime:
//! register assignments, the exit status codes, and the prologue and
//! epilogue that every fragment carries.
pub mod frame;
pub mod regs;

use vstd::prelude::*;

use crate::shared::arm64::ergo::{
    ldst64_offset, ldstpair64_offset, mem_off, mem_post, mem_pre, scaled_simm, sp, uimm, x, xzr,
};
use crate::shared::arm64::{A64Imm, A64Insn, A64Mem, A64Reg, A64Reg31Mode, A64RegWidth};

pub use regs::{
    reg_virt_scratch_gpr, ABI_EXTRA_PARAMS_ARG_REG, ABI_LINK_REG, ABI_PT_REGS_ARG_REG,
    REG_VIRT_SCRATCH_GPR_END, REG_VIRT_SCRATCH_GPR_LIMIT, REG_VIRT_SCRATCH_GPR_START,
    REG_VIRT_STABLE_MAPPED_SP_PHYS_REG, REG_VIRT_STABLE_MAPPED_X29_PHYS_REG,
    REG_VIRT_STABLE_MAPPED_X29_REG, REG_VIRT_STACK_BACKED_REG_END, REG_VIRT_STACK_BACKED_REG_START,
    RET_PARAM0_REG, RET_PARAM1_REG, RET_STATUS_REG,
};

verus! {

pub const ABI_INSN_SIZE: usize = 4;

pub const PROLOGUE_INSN_COUNT: usize = 36;

pub const EPILOGUE_INSN_COUNT: usize = 34;

pub const PROLOGUE_LEN_BYTES: usize = PROLOGUE_INSN_COUNT * ABI_INSN_SIZE;

/// The offset of the prologue's last instruction, the branch to the entry.
pub const PROLOGUE_ENTRY_BRANCH_OFFSET: usize = PROLOGUE_LEN_BYTES - ABI_INSN_SIZE;

/// The epilogue follows the prologue.
pub const EPILOGUE_OFFSET: usize = PROLOGUE_LEN_BYTES;

pub const EPILOGUE_LEN_BYTES: usize = EPILOGUE_INSN_COUNT * ABI_INSN_SIZE;

/// The status a fragment returns to the runtime in the status register.
#[derive(Clone, Copy, Debug, PartialEq, Eq, Structural)]
pub enum RetStatus {
    Svc,
    Bl,
    Blr,
    Br,
    Ret,
    Mem,
    Debug,
    Invalid(u64),
}

impl RetStatus {
    pub open spec fn spec_as_reg(self) -> u64 {
        match self {
            RetStatus::Svc => 0,
            RetStatus::Bl => 1,
            RetStatus::Blr => 2,
            RetStatus::Br => 3,
            RetStatus::Ret => 4,
            RetStatus::Mem => 5,
            RetStatus::Debug => 8,
            RetStatus::Invalid(value) => value,
        }
    }

    /// The register value that carries the status.
    pub fn as_reg(self) -> (r: u64)
        ensures
            r == self.spec_as_reg(),
    {
        match self {
            RetStatus::Svc => 0,
            RetStatus::Bl => 1,
            RetStatus::Blr => 2,
            RetStatus::Br => 3,
            RetStatus::Ret => 4,
            RetStatus::Mem => 5,
            RetStatus::Debug => 8,
            RetStatus::Invalid(value) => value,
        }
    }

    /// The status a register value carries: its low 16 bits name it.
    pub open spec fn spec_from_reg(value: u64) -> RetStatus {
        let low = (value % 0x1_0000) as u64;
        if low == 0 {
            RetStatus::Svc
        } else if low == 1 {
            RetStatus::Bl
        } else if low == 2 {
            RetStatus::Blr
        } else if low == 3 {
            RetStatus::Br
        } else if low == 4 {
            RetStatus::Ret
        } else if low == 5 {
            RetStatus::Mem
        } else if low == 8 {
            RetStatus::Debug
        } else {
            RetStatus::Invalid(low)
        }
    }

    pub fn from_reg(value: u64) -> (r: RetStatus)
        ensures
            r == RetStatus::spec_from_reg(value),
    {
        let low = value % 0x1_0000;
        match low {
            0 => RetStatus::Svc,
            1 => RetStatus::Bl,
            2 => RetStatus::Blr,
            3 => RetStatus::Br,
            4 => RetStatus::Ret,
            5 => RetStatus::Mem,
            8 => RetStatus::Debug,
            other => RetStatus::Invalid(other),
        }
    }
}

/// A status passed through its register comes back unchanged; an invalid
/// status does so when its code fits 16 bits and names no status.
pub proof fn lemma_ret_status_roundtrip(s: RetStatus)
    requires
        s matches RetStatus::Invalid(v) ==> v < 0x1_0000 && v != 0 && v != 1 && v != 2 && v != 3
            && v != 4 && v != 5 && v != 8,
    ensures
        RetStatus::spec_from_reg(s.spec_as_reg()) == s,
{
}

/// The fragment prologue: saves the callee-saved registers and the runtime
/// frame, loads the user registers from the saved register block, and ends
/// in the slot that the layout turns into the branch to the entry.
pub open spec fn spec_kjit_prologue() -> Seq<A64Insn> {
    seq![
        A64Insn::StpGenStp64LdstpairPre { rt2: A64Reg { enc: 30, width: A64RegWidth::X64, reg31: A64Reg31Mode::Xzr }, rt: A64Reg { enc: 29, width: A64RegWidth::X64, reg31: A64Reg31Mode::Xzr }, mem: A64Mem::PreIndex { base: A64Reg { enc: 31, width: A64RegWidth::X64, reg31: A64Reg31Mode::Sp }, offset: A64Imm { raw: 104, bits: 7, scale: 3, signed: true } } },
        A64Insn::AddAddsubImmAdd64AddsubImm { sh: 0, imm12: A64Imm { raw: 0, bits: 12, scale: 0, signed: false }, rn: A64Reg { enc: 31, width: A64RegWidth::X64, reg31: A64Reg31Mode::Sp }, rd: A64Reg { enc: 29, width: A64RegWidth::X64, reg31: A64Reg31Mode::Xzr } },
        A64Insn::StrImmGenStr64LdstPos { rt: A64Reg { enc: 18, width: A64RegWidth::X64, reg31: A64Reg31Mode::Xzr }, mem: A64Mem::Offset { base: A64Reg { enc: 31, width: A64RegWidth::X64, reg31: A64Reg31Mode::Sp }, offset: A64Imm { raw: 11, bits: 12, scale: 3, signed: false } } },
        A64Insn::StpGenStp64LdstpairOff { rt2: A64Reg { enc: 20, width: A64RegWidth::X64, reg31: A64Reg31Mode::Xzr }, rt: A64Reg { enc: 19, width: A64RegWidth::X64, reg31: A64Reg31Mode::Xzr }, mem: A64Mem::Offset { base: A64Reg { enc: 31, width: A64RegWidth::X64, reg31: A64Reg31Mode::Sp }, offset: A64Imm { raw: 12, bits: 7, scale: 3, signed: true } } },
        A64Insn::StpGenStp64LdstpairOff { rt2: A64Reg { enc: 22, width: A64RegWidth::X64, reg31: A64Reg31Mode::Xzr }, rt: A64Reg { enc: 21, width: A64RegWidth::X64, reg31: A64Reg31Mode::Xzr }, mem: A64Mem::Offset { base: A64Reg { enc: 31, width: A64RegWidth::X64, reg31: A64Reg31Mode::Sp }, offset: A64Imm { raw: 14, bits: 7, scale: 3, signed: true } } },
        A64Insn::StpGenStp64LdstpairOff { rt2: A64Reg { enc: 24, width: A64RegWidth::X64, reg31: A64Reg31Mode::Xzr }, rt: A64Reg { enc: 23, width: A64RegWidth::X64, reg31: A64Reg31Mode::Xzr }, mem: A64Mem::Offset { base: A64Reg { enc: 31, width: A64RegWidth::X64, reg31: A64Reg31Mode::Sp }, offset: A64Imm { raw: 16, bits: 7, scale: 3, signed: true } } },
        A64Insn::StpGenStp64LdstpairOff { rt2: A64Reg { enc: 26, width: A64RegWidth::X64, reg31: A64Reg31Mode::Xzr }, rt: A64Reg { enc: 25, width: A64RegWidth::X64, reg31: A64Reg31Mode::Xzr }, mem: A64Mem::Offset { base: A64Reg { enc: 31, width: A64RegWidth::X64, reg31: A64Reg31Mode::Sp }, offset: A64Imm { raw: 18, bits: 7, scale: 3, signed: true } } },
        A64Insn::StpGenStp64LdstpairOff { rt2: A64Reg { enc: 28, width: A64RegWidth::X64, reg31: A64Reg31Mode::Xzr }, rt: A64Reg { enc: 27, width: A64RegWidth::X64, reg31: A64Reg31Mode::Xzr }, mem: A64Mem::Offset { base: A64Reg { enc: 31, width: A64RegWidth::X64, reg31: A64Reg31Mode::Sp }, offset: A64Imm { raw: 20, bits: 7, scale: 3, signed: true } } },
        A64Insn::OrrLogShiftOrr64LogShift { shift: 0, rm: A64Reg { enc: 0, width: A64RegWidth::X64, reg31: A64Reg31Mode::Xzr }, imm6: A64Imm { raw: 0, bits: 6, scale: 0, signed: false }, rn: A64Reg { enc: 31, width: A64RegWidth::X64, reg31: A64Reg31Mode::Xzr }, rd: A64Reg { enc: 16, width: A64RegWidth::X64, reg31: A64Reg31Mode::Xzr } },
        A64Insn::OrrLogShiftOrr64LogShift { shift: 0, rm: A64Reg { enc: 1, width: A64RegWidth::X64, reg31: A64Reg31Mode::Xzr }, imm6: A64Imm { raw: 0, bits: 6, scale: 0, signed: false }, rn: A64Reg { enc: 31, width: A64RegWidth::X64, reg31: A64Reg31Mode::Xzr }, rd: A64Reg { enc: 17, width: A64RegWidth::X64, reg31: A64Reg31Mode::Xzr } },
        A64Insn::StpGenStp64LdstpairOff { rt2: A64Reg { enc: 17, width: A64RegWidth::X64, reg31: A64Reg31Mode::Xzr }, rt: A64Reg { enc: 16, width: A64RegWidth::X64, reg31: A64Reg31Mode::Xzr }, mem: A64Mem::Offset { base: A64Reg { enc: 31, width: A64RegWidth::X64, reg31: A64Reg31Mode::Sp }, offset: A64Imm { raw: 22, bits: 7, scale: 3, signed: true } } },
        A64Insn::LdpGenLdp64LdstpairOff { rt2: A64Reg { enc: 1, width: A64RegWidth::X64, reg31: A64Reg31Mode::Xzr }, rt: A64Reg { enc: 0, width: A64RegWidth::X64, reg31: A64Reg31Mode::Xzr }, mem: A64Mem::Offset { base: A64Reg { enc: 16, width: A64RegWidth::X64, reg31: A64Reg31Mode::Xzr }, offset: A64Imm { raw: 0, bits: 7, scale: 3, signed: true } } },
        A64Insn::LdpGenLdp64LdstpairOff { rt2: A64Reg { enc: 3, width: A64RegWidth::X64, reg31: A64Reg31Mode::Xzr }, rt: A64Reg { enc: 2, width: A64RegWidth::X64, reg31: A64Reg31Mode::Xzr }, mem: A64Mem::Offset { base: A64Reg { enc: 16, width: A64RegWidth::X64, reg31: A64Reg31Mode::Xzr }, offset: A64Imm { raw: 2, bits: 7, scale: 3, signed: true } } },
        A64Insn::LdpGenLdp64LdstpairOff { rt2: A64Reg { enc: 5, width: A64RegWidth::X64, reg31: A64Reg31Mode::Xzr }, rt: A64Reg { enc: 4, width: A64RegWidth::X64, reg31: A64Reg31Mode::Xzr }, mem: A64Mem::Offset { base: A64Reg { enc: 16, width: A64RegWidth::X64, reg31: A64Reg31Mode::Xzr }, offset: A64Imm { raw: 4, bits: 7, scale: 3, signed: true } } },
        A64Insn::LdpGenLdp64LdstpairOff { rt2: A64Reg { enc: 7, width: A64RegWidth::X64, reg31: A64Reg31Mode::Xzr }, rt: A64Reg { enc: 6, width: A64RegWidth::X64, reg31: A64Reg31Mode::Xzr }, mem: A64Mem::Offset { base: A64Reg { enc: 16, width: A64RegWidth::X64, reg31: A64Reg31Mode::Xzr }, offset: A64Imm { raw: 6, bits: 7, scale: 3, signed: true } } },
        A64Insn::LdpGenLdp64LdstpairOff { rt2: A64Reg { enc: 9, width: A64RegWidth::X64, reg31: A64Reg31Mode::Xzr }, rt: A64Reg { enc: 8, width: A64RegWidth::X64, reg31: A64Reg31Mode::Xzr }, mem: A64Mem::Offset { base: A64Reg { enc: 16, width: A64RegWidth::X64, reg31: A64Reg31Mode::Xzr }, offset: A64Imm { raw: 8, bits: 7, scale: 3, signed: true } } },
        A64Insn::LdpGenLdp64LdstpairOff { rt2: A64Reg { enc: 11, width: A64RegWidth::X64, reg31: A64Reg31Mode::Xzr }, rt: A64Reg { enc: 10, width: A64RegWidth::X64, reg31: A64Reg31Mode::Xzr }, mem: A64Mem::Offset { base: A64Reg { enc: 16, width: A64RegWidth::X64, reg31: A64Reg31Mode::Xzr }, offset: A64Imm { raw: 10, bits: 7, scale: 3, signed: true } } },
        A64Insn::LdpGenLdp64LdstpairOff { rt2: A64Reg { enc: 13, width: A64RegWidth::X64, reg31: A64Reg31Mode::Xzr }, rt: A64Reg { enc: 12, width: A64RegWidth::X64, reg31: A64Reg31Mode::Xzr }, mem: A64Mem::Offset { base: A64Reg { enc: 16, width: A64RegWidth::X64, reg31: A64Reg31Mode::Xzr }, offset: A64Imm { raw: 12, bits: 7, scale: 3, signed: true } } },
        A64Insn::LdpGenLdp64LdstpairOff { rt2: A64Reg { enc: 15, width: A64RegWidth::X64, reg31: A64Reg31Mode::Xzr }, rt: A64Reg { enc: 14, width: A64RegWidth::X64, reg31: A64Reg31Mode::Xzr }, mem: A64Mem::Offset { base: A64Reg { enc: 16, width: A64RegWidth::X64, reg31: A64Reg31Mode::Xzr }, offset: A64Imm { raw: 14, bits: 7, scale: 3, signed: true } } },
        A64Insn::LdpGenLdp64LdstpairOff { rt2: A64Reg { enc: 19, width: A64RegWidth::X64, reg31: A64Reg31Mode::Xzr }, rt: A64Reg { enc: 18, width: A64RegWidth::X64, reg31: A64Reg31Mode::Xzr }, mem: A64Mem::Offset { base: A64Reg { enc: 16, width: A64RegWidth::X64, reg31: A64Reg31Mode::Xzr }, offset: A64Imm { raw: 18, bits: 7, scale: 3, signed: true } } },
        A64Insn::LdpGenLdp64LdstpairOff { rt2: A64Reg { enc: 21, width: A64RegWidth::X64, reg31: A64Reg31Mode::Xzr }, rt: A64Reg { enc: 20, width: A64RegWidth::X64, reg31: A64Reg31Mode::Xzr }, mem: A64Mem::Offset { base: A64Reg { enc: 16, width: A64RegWidth::X64, reg31: A64Reg31Mode::Xzr }, offset: A64Imm { raw: 20, bits: 7, scale: 3, signed: true } } },
        A64Insn::LdpGenLdp64LdstpairOff { rt2: A64Reg { enc: 23, width: A64RegWidth::X64, reg31: A64Reg31Mode::Xzr }, rt: A64Reg { enc: 22, width: A64RegWidth::X64, reg31: A64Reg31Mode::Xzr }, mem: A64Mem::Offset { base: A64Reg { enc: 16, width: A64RegWidth::X64, reg31: A64Reg31Mode::Xzr }, offset: A64Imm { raw: 22, bits: 7, scale: 3, signed: true } } },
        A64Insn::LdpGenLdp64LdstpairOff { rt2: A64Reg { enc: 25, width: A64RegWidth::X64, reg31: A64Reg31Mode::Xzr }, rt: A64Reg { enc: 24, width: A64RegWidth::X64, reg31: A64Reg31Mode::Xzr }, mem: A64Mem::Offset { base: A64Reg { enc: 16, width: A64RegWidth::X64, reg31: A64Reg31Mode::Xzr }, offset: A64Imm { raw: 24, bits: 7, scale: 3, signed: true } } },
        A64Insn::LdpGenLdp64LdstpairOff { rt2: A64Reg { enc: 27, width: A64RegWidth::X64, reg31: A64Reg31Mode::Xzr }, rt: A64Reg { enc: 26, width: A64RegWidth::X64, reg31: A64Reg31Mode::Xzr }, mem: A64Mem::Offset { base: A64Reg { enc: 16, width: A64RegWidth::X64, reg31: A64Reg31Mode::Xzr }, offset: A64Imm { raw: 26, bits: 7, scale: 3, signed: true } } },
        A64Insn::LdrImmGenLdr64LdstPos { rt: A64Reg { enc: 28, width: A64RegWidth::X64, reg31: A64Reg31Mode::Xzr }, mem: A64Mem::Offset { base: A64Reg { enc: 16, width: A64RegWidth::X64, reg31: A64Reg31Mode::Xzr }, offset: A64Imm { raw: 28, bits: 12, scale: 3, signed: false } } },
        A64Insn::LdrImmGenLdr64LdstPos { rt: A64Reg { enc: 30, width: A64RegWidth::X64, reg31: A64Reg31Mode::Xzr }, mem: A64Mem::Offset { base: A64Reg { enc: 16, width: A64RegWidth::X64, reg31: A64Reg31Mode::Xzr }, offset: A64Imm { raw: 30, bits: 12, scale: 3, signed: false } } },
        A64Insn::LdrImmGenLdr64LdstPos { rt: A64Reg { enc: 17, width: A64RegWidth::X64, reg31: A64Reg31Mode::Xzr }, mem: A64Mem::Offset { base: A64Reg { enc: 16, width: A64RegWidth::X64, reg31: A64Reg31Mode::Xzr }, offset: A64Imm { raw: 29, bits: 12, scale: 3, signed: false } } },
        A64Insn::StrImmGenStr64LdstPos { rt: A64Reg { enc: 17, width: A64RegWidth::X64, reg31: A64Reg31Mode::Xzr }, mem: A64Mem::Offset { base: A64Reg { enc: 31, width: A64RegWidth::X64, reg31: A64Reg31Mode::Sp }, offset: A64Imm { raw: 8, bits: 12, scale: 3, signed: false } } },
        A64Insn::LdrImmGenLdr64LdstPos { rt: A64Reg { enc: 17, width: A64RegWidth::X64, reg31: A64Reg31Mode::Xzr }, mem: A64Mem::Offset { base: A64Reg { enc: 16, width: A64RegWidth::X64, reg31: A64Reg31Mode::Xzr }, offset: A64Imm { raw: 31, bits: 12, scale: 3, signed: false } } },
        A64Insn::StrImmGenStr64LdstPos { rt: A64Reg { enc: 17, width: A64RegWidth::X64, reg31: A64Reg31Mode::Xzr }, mem: A64Mem::Offset { base: A64Reg { enc: 31, width: A64RegWidth::X64, reg31: A64Reg31Mode::Sp }, offset: A64Imm { raw: 9, bits: 12, scale: 3, signed: false } } },
        A64Insn::LdpGenLdp64LdstpairOff { rt2: A64Reg { enc: 17, width: A64RegWidth::X64, reg31: A64Reg31Mode::Xzr }, rt: A64Reg { enc: 16, width: A64RegWidth::X64, reg31: A64Reg31Mode::Xzr }, mem: A64Mem::Offset { base: A64Reg { enc: 16, width: A64RegWidth::X64, reg31: A64Reg31Mode::Xzr }, offset: A64Imm { raw: 16, bits: 7, scale: 3, signed: true } } },
        A64Insn::StpGenStp64LdstpairOff { rt2: A64Reg { enc: 13, width: A64RegWidth::X64, reg31: A64Reg31Mode::Xzr }, rt: A64Reg { enc: 12, width: A64RegWidth::X64, reg31: A64Reg31Mode::Xzr }, mem: A64Mem::Offset { base: A64Reg { enc: 31, width: A64RegWidth::X64, reg31: A64Reg31Mode::Sp }, offset: A64Imm { raw: 2, bits: 7, scale: 3, signed: true } } },
        A64Insn::StpGenStp64LdstpairOff { rt2: A64Reg { enc: 15, width: A64RegWidth::X64, reg31: A64Reg31Mode::Xzr }, rt: A64Reg { enc: 14, width: A64RegWidth::X64, reg31: A64Reg31Mode::Xzr }, mem: A64Mem::Offset { base: A64Reg { enc: 31, width: A64RegWidth::X64, reg31: A64Reg31Mode::Sp }, offset: A64Imm { raw: 4, bits: 7, scale: 3, signed: true } } },
        A64Insn::StpGenStp64LdstpairOff { rt2: A64Reg { enc: 17, width: A64RegWidth::X64, reg31: A64Reg31Mode::Xzr }, rt: A64Reg { enc: 16, width: A64RegWidth::X64, reg31: A64Reg31Mode::Xzr }, mem: A64Mem::Offset { base: A64Reg { enc: 31, width: A64RegWidth::X64, reg31: A64Reg31Mode::Sp }, offset: A64Imm { raw: 6, bits: 7, scale: 3, signed: true } } },
        A64Insn::LdpGenLdp64LdstpairOff { rt2: A64Reg { enc: 17, width: A64RegWidth::X64, reg31: A64Reg31Mode::Xzr }, rt: A64Reg { enc: 16, width: A64RegWidth::X64, reg31: A64Reg31Mode::Xzr }, mem: A64Mem::Offset { base: A64Reg { enc: 31, width: A64RegWidth::X64, reg31: A64Reg31Mode::Sp }, offset: A64Imm { raw: 8, bits: 7, scale: 3, signed: true } } },
        A64Insn::BUncondBOnlyBranchImm { imm26: A64Imm { raw: 0, bits: 26, scale: 2, signed: true } }
    ]
}

/// The fragment epilogue: stores the user registers back, passes the status
/// and parameters, restores the runtime's registers and returns.
pub open spec fn spec_kjit_epilogue() -> Seq<A64Insn> {
    seq![
        A64Insn::StpGenStp64LdstpairOff { rt2: A64Reg { enc: 17, width: A64RegWidth::X64, reg31: A64Reg31Mode::Xzr }, rt: A64Reg { enc: 16, width: A64RegWidth::X64, reg31: A64Reg31Mode::Xzr }, mem: A64Mem::Offset { base: A64Reg { enc: 31, width: A64RegWidth::X64, reg31: A64Reg31Mode::Sp }, offset: A64Imm { raw: 8, bits: 7, scale: 3, signed: true } } },
        A64Insn::LdpGenLdp64LdstpairOff { rt2: A64Reg { enc: 17, width: A64RegWidth::X64, reg31: A64Reg31Mode::Xzr }, rt: A64Reg { enc: 16, width: A64RegWidth::X64, reg31: A64Reg31Mode::Xzr }, mem: A64Mem::Offset { base: A64Reg { enc: 31, width: A64RegWidth::X64, reg31: A64Reg31Mode::Sp }, offset: A64Imm { raw: 22, bits: 7, scale: 3, signed: true } } },
        A64Insn::StpGenStp64LdstpairOff { rt2: A64Reg { enc: 11, width: A64RegWidth::X64, reg31: A64Reg31Mode::Xzr }, rt: A64Reg { enc: 10, width: A64RegWidth::X64, reg31: A64Reg31Mode::Xzr }, mem: A64Mem::Offset { base: A64Reg { enc: 17, width: A64RegWidth::X64, reg31: A64Reg31Mode::Xzr }, offset: A64Imm { raw: 0, bits: 7, scale: 3, signed: true } } },
        A64Insn::LdpGenLdp64LdstpairOff { rt2: A64Reg { enc: 15, width: A64RegWidth::X64, reg31: A64Reg31Mode::Xzr }, rt: A64Reg { enc: 14, width: A64RegWidth::X64, reg31: A64Reg31Mode::Xzr }, mem: A64Mem::Offset { base: A64Reg { enc: 31, width: A64RegWidth::X64, reg31: A64Reg31Mode::Sp }, offset: A64Imm { raw: 2, bits: 7, scale: 3, signed: true } } },
        A64Insn::StpGenStp64LdstpairOff { rt2: A64Reg { enc: 15, width: A64RegWidth::X64, reg31: A64Reg31Mode::Xzr }, rt: A64Reg { enc: 14, width: A64RegWidth::X64, reg31: A64Reg31Mode::Xzr }, mem: A64Mem::Offset { base: A64Reg { enc: 16, width: A64RegWidth::X64, reg31: A64Reg31Mode::Xzr }, offset: A64Imm { raw: 12, bits: 7, scale: 3, signed: true } } },
        A64Insn::LdpGenLdp64LdstpairOff { rt2: A64Reg { enc: 15, width: A64RegWidth::X64, reg31: A64Reg31Mode::Xzr }, rt: A64Reg { enc: 14, width: A64RegWidth::X64, reg31: A64Reg31Mode::Xzr }, mem: A64Mem::Offset { base: A64Reg { enc: 31, width: A64RegWidth::X64, reg31: A64Reg31Mode::Sp }, offset: A64Imm { raw: 4, bits: 7, scale: 3, signed: true } } },
        A64Insn::StpGenStp64LdstpairOff { rt2: A64Reg { enc: 15, width: A64RegWidth::X64, reg31: A64Reg31Mode::Xzr }, rt: A64Reg { enc: 14, width: A64RegWidth::X64, reg31: A64Reg31Mode::Xzr }, mem: A64Mem::Offset { base: A64Reg { enc: 16, width: A64RegWidth::X64, reg31: A64Reg31Mode::Xzr }, offset: A64Imm { raw: 14, bits: 7, scale: 3, signed: true } } },
        A64Insn::LdpGenLdp64LdstpairOff { rt2: A64Reg { enc: 15, width: A64RegWidth::X64, reg31: A64Reg31Mode::Xzr }, rt: A64Reg { enc: 14, width: A64RegWidth::X64, reg31: A64Reg31Mode::Xzr }, mem: A64Mem::Offset { base: A64Reg { enc: 31, width: A64RegWidth::X64, reg31: A64Reg31Mode::Sp }, offset: A64Imm { raw: 6, bits: 7, scale: 3, signed: true } } },
        A64Insn::StpGenStp64LdstpairOff { rt2: A64Reg { enc: 15, width: A64RegWidth::X64, reg31: A64Reg31Mode::Xzr }, rt: A64Reg { enc: 14, width: A64RegWidth::X64, reg31: A64Reg31Mode::Xzr }, mem: A64Mem::Offset { base: A64Reg { enc: 16, width: A64RegWidth::X64, reg31: A64Reg31Mode::Xzr }, offset: A64Imm { raw: 16, bits: 7, scale: 3, signed: true } } },
        A64Insn::LdrImmGenLdr64LdstPos { rt: A64Reg { enc: 14, width: A64RegWidth::X64, reg31: A64Reg31Mode::Xzr }, mem: A64Mem::Offset { base: A64Reg { enc: 31, width: A64RegWidth::X64, reg31: A64Reg31Mode::Sp }, offset: A64Imm { raw: 8, bits: 12, scale: 3, signed: false } } },
        A64Insn::StrImmGenStr64LdstPos { rt: A64Reg { enc: 14, width: A64RegWidth::X64, reg31: A64Reg31Mode::Xzr }, mem: A64Mem::Offset { base: A64Reg { enc: 16, width: A64RegWidth::X64, reg31: A64Reg31Mode::Xzr }, offset: A64Imm { raw: 29, bits: 12, scale: 3, signed: false } } },
        A64Insn::LdrImmGenLdr64LdstPos { rt: A64Reg { enc: 14, width: A64RegWidth::X64, reg31: A64Reg31Mode::Xzr }, mem: A64Mem::Offset { base: A64Reg { enc: 31, width: A64RegWidth::X64, reg31: A64Reg31Mode::Sp }, offset: A64Imm { raw: 9, bits: 12, scale: 3, signed: false } } },
        A64Insn::StrImmGenStr64LdstPos { rt: A64Reg { enc: 14, width: A64RegWidth::X64, reg31: A64Reg31Mode::Xzr }, mem: A64Mem::Offset { base: A64Reg { enc: 16, width: A64RegWidth::X64, reg31: A64Reg31Mode::Xzr }, offset: A64Imm { raw: 31, bits: 12, scale: 3, signed: false } } },
        A64Insn::StpGenStp64LdstpairOff { rt2: A64Reg { enc: 1, width: A64RegWidth::X64, reg31: A64Reg31Mode::Xzr }, rt: A64Reg { enc: 0, width: A64RegWidth::X64, reg31: A64Reg31Mode::Xzr }, mem: A64Mem::Offset { base: A64Reg { enc: 16, width: A64RegWidth::X64, reg31: A64Reg31Mode::Xzr }, offset: A64Imm { raw: 0, bits: 7, scale: 3, signed: true } } },
        A64Insn::StpGenStp64LdstpairOff { rt2: A64Reg { enc: 3, width: A64RegWidth::X64, reg31: A64Reg31Mode::Xzr }, rt: A64Reg { enc: 2, width: A64RegWidth::X64, reg31: A64Reg31Mode::Xzr }, mem: A64Mem::Offset { base: A64Reg { enc: 16, width: A64RegWidth::X64, reg31: A64Reg31Mode::Xzr }, offset: A64Imm { raw: 2, bits: 7, scale: 3, signed: true } } },
        A64Insn::StpGenStp64LdstpairOff { rt2: A64Reg { enc: 5, width: A64RegWidth::X64, reg31: A64Reg31Mode::Xzr }, rt: A64Reg { enc: 4, width: A64RegWidth::X64, reg31: A64Reg31Mode::Xzr }, mem: A64Mem::Offset { base: A64Reg { enc: 16, width: A64RegWidth::X64, reg31: A64Reg31Mode::Xzr }, offset: A64Imm { raw: 4, bits: 7, scale: 3, signed: true } } },
        A64Insn::StpGenStp64LdstpairOff { rt2: A64Reg { enc: 7, width: A64RegWidth::X64, reg31: A64Reg31Mode::Xzr }, rt: A64Reg { enc: 6, width: A64RegWidth::X64, reg31: A64Reg31Mode::Xzr }, mem: A64Mem::Offset { base: A64Reg { enc: 16, width: A64RegWidth::X64, reg31: A64Reg31Mode::Xzr }, offset: A64Imm { raw: 6, bits: 7, scale: 3, signed: true } } },
        A64Insn::StrImmGenStr64LdstPos { rt: A64Reg { enc: 8, width: A64RegWidth::X64, reg31: A64Reg31Mode::Xzr }, mem: A64Mem::Offset { base: A64Reg { enc: 16, width: A64RegWidth::X64, reg31: A64Reg31Mode::Xzr }, offset: A64Imm { raw: 8, bits: 12, scale: 3, signed: false } } },
        A64Insn::StpGenStp64LdstpairOff { rt2: A64Reg { enc: 19, width: A64RegWidth::X64, reg31: A64Reg31Mode::Xzr }, rt: A64Reg { enc: 18, width: A64RegWidth::X64, reg31: A64Reg31Mode::Xzr }, mem: A64Mem::Offset { base: A64Reg { enc: 16, width: A64RegWidth::X64, reg31: A64Reg31Mode::Xzr }, offset: A64Imm { raw: 18, bits: 7, scale: 3, signed: true } } },
        A64Insn::StpGenStp64LdstpairOff { rt2: A64Reg { enc: 21, width: A64RegWidth::X64, reg31: A64Reg31Mode::Xzr }, rt: A64Reg { enc: 20, width: A64RegWidth::X64, reg31: A64Reg31Mode::Xzr }, mem: A64Mem::Offset { base: A64Reg { enc: 16, width: A64RegWidth::X64, reg31: A64Reg31Mode::Xzr }, offset: A64Imm { raw: 20, bits: 7, scale: 3, signed: true } } },
        A64Insn::StpGenStp64LdstpairOff { rt2: A64Reg { enc: 23, width: A64RegWidth::X64, reg31: A64Reg31Mode::Xzr }, rt: A64Reg { enc: 22, width: A64RegWidth::X64, reg31: A64Reg31Mode::Xzr }, mem: A64Mem::Offset { base: A64Reg { enc: 16, width: A64RegWidth::X64, reg31: A64Reg31Mode::Xzr }, offset: A64Imm { raw: 22, bits: 7, scale: 3, signed: true } } },
        A64Insn::StpGenStp64LdstpairOff { rt2: A64Reg { enc: 25, width: A64RegWidth::X64, reg31: A64Reg31Mode::Xzr }, rt: A64Reg { enc: 24, width: A64RegWidth::X64, reg31: A64Reg31Mode::Xzr }, mem: A64Mem::Offset { base: A64Reg { enc: 16, width: A64RegWidth::X64, reg31: A64Reg31Mode::Xzr }, offset: A64Imm { raw: 24, bits: 7, scale: 3, signed: true } } },
        A64Insn::StpGenStp64LdstpairOff { rt2: A64Reg { enc: 27, width: A64RegWidth::X64, reg31: A64Reg31Mode::Xzr }, rt: A64Reg { enc: 26, width: A64RegWidth::X64, reg31: A64Reg31Mode::Xzr }, mem: A64Mem::Offset { base: A64Reg { enc: 16, width: A64RegWidth::X64, reg31: A64Reg31Mode::Xzr }, offset: A64Imm { raw: 26, bits: 7, scale: 3, signed: true } } },
        A64Insn::StrImmGenStr64LdstPos { rt: A64Reg { enc: 28, width: A64RegWidth::X64, reg31: A64Reg31Mode::Xzr }, mem: A64Mem::Offset { base: A64Reg { enc: 16, width: A64RegWidth::X64, reg31: A64Reg31Mode::Xzr }, offset: A64Imm { raw: 28, bits: 12, scale: 3, signed: false } } },
        A64Insn::StrImmGenStr64LdstPos { rt: A64Reg { enc: 30, width: A64RegWidth::X64, reg31: A64Reg31Mode::Xzr }, mem: A64Mem::Offset { base: A64Reg { enc: 16, width: A64RegWidth::X64, reg31: A64Reg31Mode::Xzr }, offset: A64Imm { raw: 30, bits: 12, scale: 3, signed: false } } },
        A64Insn::OrrLogShiftOrr64LogShift { shift: 0, rm: A64Reg { enc: 9, width: A64RegWidth::X64, reg31: A64Reg31Mode::Xzr }, imm6: A64Imm { raw: 0, bits: 6, scale: 0, signed: false }, rn: A64Reg { enc: 31, width: A64RegWidth::X64, reg31: A64Reg31Mode::Xzr }, rd: A64Reg { enc: 0, width: A64RegWidth::X64, reg31: A64Reg31Mode::Xzr } },
        A64Insn::LdrImmGenLdr64LdstPos { rt: A64Reg { enc: 18, width: A64RegWidth::X64, reg31: A64Reg31Mode::Xzr }, mem: A64Mem::Offset { base: A64Reg { enc: 31, width: A64RegWidth::X64, reg31: A64Reg31Mode::Sp }, offset: A64Imm { raw: 11, bits: 12, scale: 3, signed: false } } },
        A64Insn::LdpGenLdp64LdstpairOff { rt2: A64Reg { enc: 20, width: A64RegWidth::X64, reg31: A64Reg31Mode::Xzr }, rt: A64Reg { enc: 19, width: A64RegWidth::X64, reg31: A64Reg31Mode::Xzr }, mem: A64Mem::Offset { base: A64Reg { enc: 31, width: A64RegWidth::X64, reg31: A64Reg31Mode::Sp }, offset: A64Imm { raw: 12, bits: 7, scale: 3, signed: true } } },
        A64Insn::LdpGenLdp64LdstpairOff { rt2: A64Reg { enc: 22, width: A64RegWidth::X64, reg31: A64Reg31Mode::Xzr }, rt: A64Reg { enc: 21, width: A64RegWidth::X64, reg31: A64Reg31Mode::Xzr }, mem: A64Mem::Offset { base: A64Reg { enc: 31, width: A64RegWidth::X64, reg31: A64Reg31Mode::Sp }, offset: A64Imm { raw: 14, bits: 7, scale: 3, signed: true } } },
        A64Insn::LdpGenLdp64LdstpairOff { rt2: A64Reg { enc: 24, width: A64RegWidth::X64, reg31: A64Reg31Mode::Xzr }, rt: A64Reg { enc: 23, width: A64RegWidth::X64, reg31: A64Reg31Mode::Xzr }, mem: A64Mem::Offset { base: A64Reg { enc: 31, width: A64RegWidth::X64, reg31: A64Reg31Mode::Sp }, offset: A64Imm { raw: 16, bits: 7, scale: 3, signed: true } } },
        A64Insn::LdpGenLdp64LdstpairOff { rt2: A64Reg { enc: 26, width: A64RegWidth::X64, reg31: A64Reg31Mode::Xzr }, rt: A64Reg { enc: 25, width: A64RegWidth::X64, reg31: A64Reg31Mode::Xzr }, mem: A64Mem::Offset { base: A64Reg { enc: 31, width: A64RegWidth::X64, reg31: A64Reg31Mode::Sp }, offset: A64Imm { raw: 18, bits: 7, scale: 3, signed: true } } },
        A64Insn::LdpGenLdp64LdstpairOff { rt2: A64Reg { enc: 28, width: A64RegWidth::X64, reg31: A64Reg31Mode::Xzr }, rt: A64Reg { enc: 27, width: A64RegWidth::X64, reg31: A64Reg31Mode::Xzr }, mem: A64Mem::Offset { base: A64Reg { enc: 31, width: A64RegWidth::X64, reg31: A64Reg31Mode::Sp }, offset: A64Imm { raw: 20, bits: 7, scale: 3, signed: true } } },
        A64Insn::LdpGenLdp64LdstpairPost { rt2: A64Reg { enc: 30, width: A64RegWidth::X64, reg31: A64Reg31Mode::Xzr }, rt: A64Reg { enc: 29, width: A64RegWidth::X64, reg31: A64Reg31Mode::Xzr }, mem: A64Mem::PostIndex { base: A64Reg { enc: 31, width: A64RegWidth::X64, reg31: A64Reg31Mode::Sp }, offset: A64Imm { raw: 24, bits: 7, scale: 3, signed: true } } },
        A64Insn::RetRet64rBranchReg { rn: A64Reg { enc: 30, width: A64RegWidth::X64, reg31: A64Reg31Mode::Xzr } }
    ]
}

pub fn kjit_prologue() -> (r: Vec<A64Insn>)
    ensures
        r@ == spec_kjit_prologue(),
{
    vec![
        A64Insn::StpGenStp64LdstpairPre { rt2: x(30), rt: x(29), mem: mem_pre(sp(), ldstpair64_offset(-192)) },
        A64Insn::AddAddsubImmAdd64AddsubImm { sh: 0, imm12: uimm(0, 12), rn: sp(), rd: x(29) },
        A64Insn::StrImmGenStr64LdstPos { rt: x(18), mem: mem_off(sp(), ldst64_offset(88)) },
        A64Insn::StpGenStp64LdstpairOff { rt2: x(20), rt: x(19), mem: mem_off(sp(), ldstpair64_offset(96)) },
        A64Insn::StpGenStp64LdstpairOff { rt2: x(22), rt: x(21), mem: mem_off(sp(), ldstpair64_offset(112)) },
        A64Insn::StpGenStp64LdstpairOff { rt2: x(24), rt: x(23), mem: mem_off(sp(), ldstpair64_offset(128)) },
        A64Insn::StpGenStp64LdstpairOff { rt2: x(26), rt: x(25), mem: mem_off(sp(), ldstpair64_offset(144)) },
        A64Insn::StpGenStp64LdstpairOff { rt2: x(28), rt: x(27), mem: mem_off(sp(), ldstpair64_offset(160)) },
        A64Insn::OrrLogShiftOrr64LogShift { shift: 0, rm: x(0), imm6: uimm(0, 6), rn: xzr(), rd: x(16) },
        A64Insn::OrrLogShiftOrr64LogShift { shift: 0, rm: x(1), imm6: uimm(0, 6), rn: xzr(), rd: x(17) },
        A64Insn::StpGenStp64LdstpairOff { rt2: x(17), rt: x(16), mem: mem_off(sp(), ldstpair64_offset(176)) },
        A64Insn::LdpGenLdp64LdstpairOff { rt2: x(1), rt: x(0), mem: mem_off(x(16), ldstpair64_offset(0)) },
        A64Insn::LdpGenLdp64LdstpairOff { rt2: x(3), rt: x(2), mem: mem_off(x(16), ldstpair64_offset(16)) },
        A64Insn::LdpGenLdp64LdstpairOff { rt2: x(5), rt: x(4), mem: mem_off(x(16), ldstpair64_offset(32)) },
        A64Insn::LdpGenLdp64LdstpairOff { rt2: x(7), rt: x(6), mem: mem_off(x(16), ldstpair64_offset(48)) },
        A64Insn::LdpGenLdp64LdstpairOff { rt2: x(9), rt: x(8), mem: mem_off(x(16), ldstpair64_offset(64)) },
        A64Insn::LdpGenLdp64LdstpairOff { rt2: x(11), rt: x(10), mem: mem_off(x(16), ldstpair64_offset(80)) },
        A64Insn::LdpGenLdp64LdstpairOff { rt2: x(13), rt: x(12), mem: mem_off(x(16), ldstpair64_offset(96)) },
        A64Insn::LdpGenLdp64LdstpairOff { rt2: x(15), rt: x(14), mem: mem_off(x(16), ldstpair64_offset(112)) },
        A64Insn::LdpGenLdp64LdstpairOff { rt2: x(19), rt: x(18), mem: mem_off(x(16), ldstpair64_offset(144)) },
        A64Insn::LdpGenLdp64LdstpairOff { rt2: x(21), rt: x(20), mem: mem_off(x(16), ldstpair64_offset(160)) },
        A64Insn::LdpGenLdp64LdstpairOff { rt2: x(23), rt: x(22), mem: mem_off(x(16), ldstpair64_offset(176)) },
        A64Insn::LdpGenLdp64LdstpairOff { rt2: x(25), rt: x(24), mem: mem_off(x(16), ldstpair64_offset(192)) },
        A64Insn::LdpGenLdp64LdstpairOff { rt2: x(27), rt: x(26), mem: mem_off(x(16), ldstpair64_offset(208)) },
        A64Insn::LdrImmGenLdr64LdstPos { rt: x(28), mem: mem_off(x(16), ldst64_offset(224)) },
        A64Insn::LdrImmGenLdr64LdstPos { rt: x(30), mem: mem_off(x(16), ldst64_offset(240)) },
        A64Insn::LdrImmGenLdr64LdstPos { rt: x(17), mem: mem_off(x(16), ldst64_offset(232)) },
        A64Insn::StrImmGenStr64LdstPos { rt: x(17), mem: mem_off(sp(), ldst64_offset(64)) },
        A64Insn::LdrImmGenLdr64LdstPos { rt: x(17), mem: mem_off(x(16), ldst64_offset(248)) },
        A64Insn::StrImmGenStr64LdstPos { rt: x(17), mem: mem_off(sp(), ldst64_offset(72)) },
        A64Insn::LdpGenLdp64LdstpairOff { rt2: x(17), rt: x(16), mem: mem_off(x(16), ldstpair64_offset(128)) },
        A64Insn::StpGenStp64LdstpairOff { rt2: x(13), rt: x(12), mem: mem_off(sp(), ldstpair64_offset(16)) },
        A64Insn::StpGenStp64LdstpairOff { rt2: x(15), rt: x(14), mem: mem_off(sp(), ldstpair64_offset(32)) },
        A64Insn::StpGenStp64LdstpairOff { rt2: x(17), rt: x(16), mem: mem_off(sp(), ldstpair64_offset(48)) },
        A64Insn::LdpGenLdp64LdstpairOff { rt2: x(17), rt: x(16), mem: mem_off(sp(), ldstpair64_offset(64)) },
        A64Insn::BUncondBOnlyBranchImm { imm26: scaled_simm(0, 26, 2) }
    ]
}

pub fn kjit_epilogue() -> (r: Vec<A64Insn>)
    ensures
        r@ == spec_kjit_epilogue(),
{
    vec![
        A64Insn::StpGenStp64LdstpairOff { rt2: x(17), rt: x(16), mem: mem_off(sp(), ldstpair64_offset(64)) },
        A64Insn::LdpGenLdp64LdstpairOff { rt2: x(17), rt: x(16), mem: mem_off(sp(), ldstpair64_offset(176)) },
        A64Insn::StpGenStp64LdstpairOff { rt2: x(11), rt: x(10), mem: mem_off(x(17), ldstpair64_offset(0)) },
        A64Insn::LdpGenLdp64LdstpairOff { rt2: x(15), rt: x(14), mem: mem_off(sp(), ldstpair64_offset(16)) },
        A64Insn::StpGenStp64LdstpairOff { rt2: x(15), rt: x(14), mem: mem_off(x(16), ldstpair64_offset(96)) },
        A64Insn::LdpGenLdp64LdstpairOff { rt2: x(15), rt: x(14), mem: mem_off(sp(), ldstpair64_offset(32)) },
        A64Insn::StpGenStp64LdstpairOff { rt2: x(15), rt: x(14), mem: mem_off(x(16), ldstpair64_offset(112)) },
        A64Insn::LdpGenLdp64LdstpairOff { rt2: x(15), rt: x(14), mem: mem_off(sp(), ldstpair64_offset(48)) },
        A64Insn::StpGenStp64LdstpairOff { rt2: x(15), rt: x(14), mem: mem_off(x(16), ldstpair64_offset(128)) },
        A64Insn::LdrImmGenLdr64LdstPos { rt: x(14), mem: mem_off(sp(), ldst64_offset(64)) },
        A64Insn::StrImmGenStr64LdstPos { rt: x(14), mem: mem_off(x(16), ldst64_offset(232)) },
        A64Insn::LdrImmGenLdr64LdstPos { rt: x(14), mem: mem_off(sp(), ldst64_offset(72)) },
        A64Insn::StrImmGenStr64LdstPos { rt: x(14), mem: mem_off(x(16), ldst64_offset(248)) },
        A64Insn::StpGenStp64LdstpairOff { rt2: x(1), rt: x(0), mem: mem_off(x(16), ldstpair64_offset(0)) },
        A64Insn::StpGenStp64LdstpairOff { rt2: x(3), rt: x(2), mem: mem_off(x(16), ldstpair64_offset(16)) },
        A64Insn::StpGenStp64LdstpairOff { rt2: x(5), rt: x(4), mem: mem_off(x(16), ldstpair64_offset(32)) },
        A64Insn::StpGenStp64LdstpairOff { rt2: x(7), rt: x(6), mem: mem_off(x(16), ldstpair64_offset(48)) },
        A64Insn::StrImmGenStr64LdstPos { rt: x(8), mem: mem_off(x(16), ldst64_offset(64)) },
        A64Insn::StpGenStp64LdstpairOff { rt2: x(19), rt: x(18), mem: mem_off(x(16), ldstpair64_offset(144)) },
        A64Insn::StpGenStp64LdstpairOff { rt2: x(21), rt: x(20), mem: mem_off(x(16), ldstpair64_offset(160)) },
        A64Insn::StpGenStp64LdstpairOff { rt2: x(23), rt: x(22), mem: mem_off(x(16), ldstpair64_offset(176)) },
        A64Insn::StpGenStp64LdstpairOff { rt2: x(25), rt: x(24), mem: mem_off(x(16), ldstpair64_offset(192)) },
        A64Insn::StpGenStp64LdstpairOff { rt2: x(27), rt: x(26), mem: mem_off(x(16), ldstpair64_offset(208)) },
        A64Insn::StrImmGenStr64LdstPos { rt: x(28), mem: mem_off(x(16), ldst64_offset(224)) },
        A64Insn::StrImmGenStr64LdstPos { rt: x(30), mem: mem_off(x(16), ldst64_offset(240)) },
        A64Insn::OrrLogShiftOrr64LogShift { shift: 0, rm: x(9), imm6: uimm(0, 6), rn: xzr(), rd: x(0) },
        A64Insn::LdrImmGenLdr64LdstPos { rt: x(18), mem: mem_off(sp(), ldst64_offset(88)) },
        A64Insn::LdpGenLdp64LdstpairOff { rt2: x(20), rt: x(19), mem: mem_off(sp(), ldstpair64_offset(96)) },
        A64Insn::LdpGenLdp64LdstpairOff { rt2: x(22), rt: x(21), mem: mem_off(sp(), ldstpair64_offset(112)) },
        A64Insn::LdpGenLdp64LdstpairOff { rt2: x(24), rt: x(23), mem: mem_off(sp(), ldstpair64_offset(128)) },
        A64Insn::LdpGenLdp64LdstpairOff { rt2: x(26), rt: x(25), mem: mem_off(sp(), ldstpair64_offset(144)) },
        A64Insn::LdpGenLdp64LdstpairOff { rt2: x(28), rt: x(27), mem: mem_off(sp(), ldstpair64_offset(160)) },
        A64Insn::LdpGenLdp64LdstpairPost { rt2: x(30), rt: x(29), mem: mem_post(sp(), ldstpair64_offset(192)) },
        A64Insn::RetRet64rBranchReg { rn: x(30) }
    ]
}

/// The wrapper sequences have the lengths the layout relies on, and every
/// instruction in them can be encoded.
pub proof fn lemma_wrappers_encodable()
    ensures
        spec_kjit_prologue().len() == PROLOGUE_INSN_COUNT,
        spec_kjit_epilogue().len() == EPILOGUE_INSN_COUNT,
        forall|i: int| 0 <= i < spec_kjit_prologue().len() ==> (#[trigger] spec_kjit_prologue()[i]).spec_fits(),
        forall|i: int| 0 <= i < spec_kjit_epilogue().len() ==> (#[trigger] spec_kjit_epilogue()[i]).spec_fits(),
{
}

/// Appends the prologue.
pub fn append_prologue(out: &mut Vec<A64Insn>)
    ensures
        final(out)@ == old(out)@ + spec_kjit_prologue(),
{
    let mut insns = kjit_prologue();
    out.append(&mut insns);
}

/// Appends the epilogue.
pub fn append_epilogue(out: &mut Vec<A64Insn>)
    ensures
        final(out)@ == old(out)@ + spec_kjit_epilogue(),
{
    let mut insns = kjit_epilogue();
    out.append(&mut insns);
}

/// A fresh copy of the prologue.
pub fn copy_prologue() -> (r: Vec<A64Insn>)
    ensures
        r@ == spec_kjit_prologue(),
{
    kjit_prologue()
}

/// A fresh copy of the epilogue.
pub fn copy_epilogue() -> (r: Vec<A64Insn>)
    ensures
        r@ == spec_kjit_epilogue(),
{
    kjit_epilogue()
}

} // verus!
