//! A reference interpreter for original code: the meaning of each
//! instruction of the subset on a machine state, a stepper over a program
//! in memory, and a run to the first halt.
use vstd::prelude::*;

use super::model::{self, Flags, HaltReason, MachineState, MachineView};
use crate::shared::arm64::ir::{
    self, decode_word, pc_relative_target, read_le_word, wrapping_offset, A64Condition,
};
use crate::shared::arm64::{codec, A64Imm, A64Insn, A64Mem, A64Reg, DecodeError};
use crate::shared::trans::cfg::RuntimeExitReason;
use crate::shared::trans::rephrase::{self, RephrasedInsnKind};

verus! {

/// Why an instruction could not be executed.
#[derive(Clone, Copy, Debug, PartialEq, Eq, Structural)]
pub enum ExecError {
    /// A B.cond whose condition is outside the subset.
    UnsupportedCondition { cond: u8 },
    /// A pair load with writeback whose base is also a destination.
    WritebackPairOverlap,
    /// SVC cannot run inside a translated fragment.
    RawSvc,
    /// A field holds a value outside its range (a shift, a width, an
    /// offset), so the instruction has no meaning to run.
    FieldOutOfRange,
}

/// The memory operand's offset can be read as a number.
pub open spec fn offset_readable(insn: A64Insn) -> bool {
    match insn {
        A64Insn::LdrImmGenLdr32LdstPos { mem, .. }
        | A64Insn::LdrImmGenLdr64LdstPos { mem, .. }
        | A64Insn::StrImmGenStr32LdstPos { mem, .. }
        | A64Insn::StrImmGenStr64LdstPos { mem, .. }
        | A64Insn::LdrImmGenLdr32LdstImmpre { mem, .. }
        | A64Insn::LdrImmGenLdr64LdstImmpre { mem, .. }
        | A64Insn::StrImmGenStr32LdstImmpre { mem, .. }
        | A64Insn::StrImmGenStr64LdstImmpre { mem, .. }
        | A64Insn::LdrImmGenLdr32LdstImmpost { mem, .. }
        | A64Insn::LdrImmGenLdr64LdstImmpost { mem, .. }
        | A64Insn::StrImmGenStr32LdstImmpost { mem, .. }
        | A64Insn::StrImmGenStr64LdstImmpost { mem, .. }
        | A64Insn::LdpGenLdp64LdstpairPost { mem, .. }
        | A64Insn::LdpGenLdp64LdstpairPre { mem, .. }
        | A64Insn::LdpGenLdp64LdstpairOff { mem, .. }
        | A64Insn::StpGenStp64LdstpairPost { mem, .. }
        | A64Insn::StpGenStp64LdstpairPre { mem, .. }
        | A64Insn::StpGenStp64LdstpairOff { mem, .. } => mem.spec_offset_imm().readable(),
        _ => true,
    }
}

/// The instructions the interpreter takes: operands fit their fields and
/// memory offsets can be read.
pub open spec fn executable(insn: A64Insn) -> bool {
    insn.spec_fits() && offset_readable(insn)
}

/// Whether the interpreter takes `insn`.
pub fn is_executable(insn: A64Insn) -> (r: bool)
    ensures
        r == executable(insn),
{
    let fits = insn.encode().is_ok();
    let readable = match insn {
        A64Insn::LdrImmGenLdr32LdstPos { mem, .. }
        | A64Insn::LdrImmGenLdr64LdstPos { mem, .. }
        | A64Insn::StrImmGenStr32LdstPos { mem, .. }
        | A64Insn::StrImmGenStr64LdstPos { mem, .. }
        | A64Insn::LdrImmGenLdr32LdstImmpre { mem, .. }
        | A64Insn::LdrImmGenLdr64LdstImmpre { mem, .. }
        | A64Insn::StrImmGenStr32LdstImmpre { mem, .. }
        | A64Insn::StrImmGenStr64LdstImmpre { mem, .. }
        | A64Insn::LdrImmGenLdr32LdstImmpost { mem, .. }
        | A64Insn::LdrImmGenLdr64LdstImmpost { mem, .. }
        | A64Insn::StrImmGenStr32LdstImmpost { mem, .. }
        | A64Insn::StrImmGenStr64LdstImmpost { mem, .. }
        | A64Insn::LdpGenLdp64LdstpairPost { mem, .. }
        | A64Insn::LdpGenLdp64LdstpairPre { mem, .. }
        | A64Insn::LdpGenLdp64LdstpairOff { mem, .. }
        | A64Insn::StpGenStp64LdstpairPost { mem, .. }
        | A64Insn::StpGenStp64LdstpairPre { mem, .. }
        | A64Insn::StpGenStp64LdstpairOff { mem, .. } => {
            let off = mem.offset_imm();
            1 <= off.bits && off.scale <= 31
        },
        _ => true,
    };
    fits && readable
}

pub open spec fn low32(v: u64) -> u64 {
    v & 0xFFFF_FFFF
}

/// The low half of a word fits 32 bits.
pub proof fn lemma_low32_bound(v: u64)
    ensures
        low32(v) <= 0xFFFF_FFFF,
{
    assert(v & 0xFFFF_FFFF <= 0xFFFF_FFFF) by (bit_vector);
}

/// A register operand read at 32 or 64 bits.
pub open spec fn read_sized(s: MachineView, reg: A64Reg, w32: bool) -> u64 {
    if w32 {
        low32(s.reg(reg))
    } else {
        s.reg(reg)
    }
}

/// A register operand written at 32 bits (upper half cleared) or 64 bits.
pub open spec fn write_sized(s: MachineView, reg: A64Reg, v: u64, w32: bool) -> MachineView {
    if w32 {
        s.with_reg(reg, low32(v))
    } else {
        s.with_reg(reg, v)
    }
}

/// The value of an add/subtract immediate with shift code 0 or 1.
pub open spec fn add_sub_value(sh: u8, imm12: A64Imm) -> u64 {
    if sh == 0 {
        imm12.raw as u64
    } else {
        (imm12.raw * 4096) as u64
    }
}

/// The NZCV flags of `lhs - rhs = result` at 32 or 64 bits.
pub open spec fn sub_flags(lhs: u64, rhs: u64, result: u64, w32: bool) -> Flags {
    let mask: u64 = if w32 { 0xFFFF_FFFF } else { 0xFFFF_FFFF_FFFF_FFFF };
    let sign: u64 = if w32 { 0x8000_0000 } else { 0x8000_0000_0000_0000 };
    let l = lhs & mask;
    let r = rhs & mask;
    let res = result & mask;
    Flags { n: res & sign != 0, z: res == 0, c: l >= r, v: (l ^ r) & (l ^ res) & sign != 0 }
}

/// A shifted-register operand: LSL, LSR, ASR or ROR by `amount` (below 64).
pub open spec fn shifted(value: u64, shift: u8, amount: u64) -> u64 {
    if shift == 0 {
        value << amount
    } else if shift == 1 {
        value >> amount
    } else if shift == 2 {
        ((value as i64) >> amount) as u64
    } else if amount == 0 {
        value
    } else {
        (value >> amount) | (value << ((64 - amount) as u64))
    }
}

/// Whether a condition holds on the flags.
pub open spec fn condition_holds(c: A64Condition, f: Flags) -> bool {
    match c {
        A64Condition::Eq => f.z,
        A64Condition::Ne => !f.z,
        A64Condition::Ge => f.n == f.v,
        A64Condition::Lt => f.n != f.v,
        A64Condition::Gt => !f.z && f.n == f.v,
        A64Condition::Le => f.z || f.n != f.v,
        A64Condition::Al => true,
    }
}

/// The address a memory operand accesses, and the state after its base
/// writeback (pre-index writes the address, post-index base plus offset).
pub open spec fn mem_access(s: MachineView, mem: A64Mem) -> (u64, MachineView) {
    let base = s.reg(mem.spec_base());
    let off = mem.spec_offset_imm().spec_value();
    match mem {
        A64Mem::Offset { .. } => (ir::wrap_add(base, off), s),
        A64Mem::PreIndex { .. } => (
            ir::wrap_add(base, off),
            s.with_reg(mem.spec_base(), ir::wrap_add(base, off)),
        ),
        A64Mem::PostIndex { .. } => (base, s.with_reg(mem.spec_base(), ir::wrap_add(base, off))),
    }
}

pub open spec fn has_writeback(mem: A64Mem) -> bool {
    !(mem is Offset)
}

/// A 32- or 64-bit load into `rt`.
pub open spec fn load(s: MachineView, rt: A64Reg, mem: A64Mem, w32: bool) -> MachineView {
    let (addr, s1) = mem_access(s, mem);
    if w32 {
        s1.with_reg(rt, model::mem_u32(s1.mem, addr) as u64)
    } else {
        s1.with_reg(rt, model::mem_u64(s1.mem, addr))
    }
}

/// A 32- or 64-bit store of `rt`.
pub open spec fn store(s: MachineView, rt: A64Reg, mem: A64Mem, w32: bool) -> MachineView {
    let (addr, s1) = mem_access(s, mem);
    if w32 {
        s1.with_mem(model::store_le(s1.mem, addr, low32(s.reg(rt)), 4))
    } else {
        s1.with_mem(model::store_le(s1.mem, addr, s.reg(rt), 8))
    }
}

/// A pair load; refused when writeback would overwrite a destination.
pub open spec fn load_pair(s: MachineView, rt: A64Reg, rt2: A64Reg, mem: A64Mem) -> Result<
    MachineView,
    ExecError,
> {
    let base = mem.spec_base();
    if has_writeback(mem) && base.enc != 31 && (base.enc == rt.enc || base.enc == rt2.enc) {
        Err(ExecError::WritebackPairOverlap)
    } else {
        let (addr, s1) = mem_access(s, mem);
        Ok(
            s1.with_reg(rt, model::mem_u64(s1.mem, addr)).with_reg(
                rt2,
                model::mem_u64(s1.mem, ir::wrap_add(addr, 8)),
            ),
        )
    }
}

/// A pair store of the two registers as they were before writeback.
pub open spec fn store_pair(s: MachineView, rt: A64Reg, rt2: A64Reg, mem: A64Mem) -> MachineView {
    let (addr, s1) = mem_access(s, mem);
    s1.with_mem(
        model::store_le(model::store_le(s1.mem, addr, s.reg(rt), 8), ir::wrap_add(addr, 8), s.reg(rt2), 8),
    )
}

/// MOVZ: the immediate shifted into place, other bits zero.
pub open spec fn movz_value(imm16: A64Imm, hw: u8) -> u64 {
    ((imm16.raw as u64) << ((hw * 16) as u64))
}

/// MOVK: the old value with one 16-bit lane replaced.
pub open spec fn movk_value(old: u64, imm16: A64Imm, hw: u8) -> u64 {
    (old & !(0xFFFFu64 << ((hw * 16) as u64))) | movz_value(imm16, hw)
}

/// The meaning of one instruction at `pc`: the next pc and the new state,
/// or why it cannot run. A runtime exit instruction branches as the
/// hardware would.
pub open spec fn spec_execute(insn: A64Insn, pc: u64, s: MachineView) -> Result<(u64, MachineView), ExecError> {
    let next = (pc + 4) as u64;
    match insn {
        A64Insn::NopNopHiHints {} => Ok((next, s)),
        A64Insn::AdrAdrOnlyPcreladdr { rd, .. } | A64Insn::AdrpAdrpOnlyPcreladdr { rd, .. } => Ok(
            (next, s.with_reg(rd, insn.spec_pc_relative_address(pc)->0)),
        ),
        A64Insn::MovzMovz32Movewide { hw, imm16, rd } => Ok(
            (next, write_sized(s, rd, movz_value(imm16, hw), true)),
        ),
        A64Insn::MovzMovz64Movewide { hw, imm16, rd } => Ok(
            (next, write_sized(s, rd, movz_value(imm16, hw), false)),
        ),
        A64Insn::MovkMovk32Movewide { hw, imm16, rd } => Ok(
            (next, write_sized(s, rd, movk_value(read_sized(s, rd, true), imm16, hw), true)),
        ),
        A64Insn::MovkMovk64Movewide { hw, imm16, rd } => Ok(
            (next, write_sized(s, rd, movk_value(read_sized(s, rd, false), imm16, hw), false)),
        ),
        A64Insn::OrrLogShiftOrr64LogShift { shift, rm, imm6, rn, rd } => Ok(
            (next, s.with_reg(rd, s.reg(rn) | shifted(s.reg(rm), shift, imm6.raw as u64))),
        ),
        A64Insn::AddAddsubImmAdd32AddsubImm { sh, imm12, rn, rd } => Ok(
            (
                next,
                write_sized(
                    s,
                    rd,
                    vstd::wrapping::u64_specs::wrapping_add(read_sized(s, rn, true), add_sub_value(sh, imm12)),
                    true,
                ),
            ),
        ),
        A64Insn::AddAddsubImmAdd64AddsubImm { sh, imm12, rn, rd } => Ok(
            (next, s.with_reg(rd, vstd::wrapping::u64_specs::wrapping_add(s.reg(rn), add_sub_value(sh, imm12)))),
        ),
        A64Insn::SubAddsubImmSub32AddsubImm { sh, imm12, rn, rd } => Ok(
            (
                next,
                write_sized(
                    s,
                    rd,
                    vstd::wrapping::u64_specs::wrapping_sub(read_sized(s, rn, true), add_sub_value(sh, imm12)),
                    true,
                ),
            ),
        ),
        A64Insn::SubAddsubImmSub64AddsubImm { sh, imm12, rn, rd } => Ok(
            (next, s.with_reg(rd, vstd::wrapping::u64_specs::wrapping_sub(s.reg(rn), add_sub_value(sh, imm12)))),
        ),
        A64Insn::SubsAddsubImmSubs32sAddsubImm { sh, imm12, rn, rd } => {
            let lhs = read_sized(s, rn, true);
            let rhs = add_sub_value(sh, imm12);
            let res = vstd::wrapping::u64_specs::wrapping_sub(lhs, rhs);
            Ok((next, write_sized(s.with_flags(sub_flags(lhs, rhs, res, true)), rd, res, true)))
        },
        A64Insn::SubsAddsubImmSubs64sAddsubImm { sh, imm12, rn, rd } => {
            let lhs = s.reg(rn);
            let rhs = add_sub_value(sh, imm12);
            let res = vstd::wrapping::u64_specs::wrapping_sub(lhs, rhs);
            Ok((next, s.with_flags(sub_flags(lhs, rhs, res, false)).with_reg(rd, res)))
        },
        A64Insn::BUncondBOnlyBranchImm { imm26 } => Ok((ir::branch_target(pc, imm26.raw, 26), s)),
        A64Insn::BCondBOnlyCondbranch { imm19, cond } => match A64Condition::spec_from_bits(cond) {
            Some(c) => Ok(
                (
                    if condition_holds(c, s.flags) {
                        ir::branch_target(pc, imm19.raw, 19)
                    } else {
                        ir::wrap_add(pc, 4)
                    },
                    s,
                ),
            ),
            None => Err(ExecError::UnsupportedCondition { cond }),
        },
        A64Insn::CbzCbz32Compbranch { imm19, rt } => Ok(
            (
                if read_sized(s, rt, true) == 0 {
                    ir::branch_target(pc, imm19.raw, 19)
                } else {
                    ir::wrap_add(pc, 4)
                },
                s,
            ),
        ),
        A64Insn::CbzCbz64Compbranch { imm19, rt } => Ok(
            (
                if read_sized(s, rt, false) == 0 {
                    ir::branch_target(pc, imm19.raw, 19)
                } else {
                    ir::wrap_add(pc, 4)
                },
                s,
            ),
        ),
        A64Insn::CbnzCbnz32Compbranch { imm19, rt } => Ok(
            (
                if read_sized(s, rt, true) != 0 {
                    ir::branch_target(pc, imm19.raw, 19)
                } else {
                    ir::wrap_add(pc, 4)
                },
                s,
            ),
        ),
        A64Insn::CbnzCbnz64Compbranch { imm19, rt } => Ok(
            (
                if read_sized(s, rt, false) != 0 {
                    ir::branch_target(pc, imm19.raw, 19)
                } else {
                    ir::wrap_add(pc, 4)
                },
                s,
            ),
        ),
        A64Insn::TbzTbzOnlyTestbranch { b5, b40, imm14, rt } => Ok(
            (
                if (s.reg(rt) >> ((b5 * 32 + b40) as u64)) & 1 == 0 {
                    ir::branch_target(pc, imm14.raw, 14)
                } else {
                    ir::wrap_add(pc, 4)
                },
                s,
            ),
        ),
        A64Insn::TbnzTbnzOnlyTestbranch { b5, b40, imm14, rt } => Ok(
            (
                if (s.reg(rt) >> ((b5 * 32 + b40) as u64)) & 1 != 0 {
                    ir::branch_target(pc, imm14.raw, 14)
                } else {
                    ir::wrap_add(pc, 4)
                },
                s,
            ),
        ),
        A64Insn::LdrImmGenLdr32LdstPos { rt, mem }
        | A64Insn::LdrImmGenLdr32LdstImmpre { rt, mem }
        | A64Insn::LdrImmGenLdr32LdstImmpost { rt, mem } => Ok((next, load(s, rt, mem, true))),
        A64Insn::LdrImmGenLdr64LdstPos { rt, mem }
        | A64Insn::LdrImmGenLdr64LdstImmpre { rt, mem }
        | A64Insn::LdrImmGenLdr64LdstImmpost { rt, mem } => Ok((next, load(s, rt, mem, false))),
        A64Insn::StrImmGenStr32LdstPos { rt, mem }
        | A64Insn::StrImmGenStr32LdstImmpre { rt, mem }
        | A64Insn::StrImmGenStr32LdstImmpost { rt, mem } => Ok((next, store(s, rt, mem, true))),
        A64Insn::StrImmGenStr64LdstPos { rt, mem }
        | A64Insn::StrImmGenStr64LdstImmpre { rt, mem }
        | A64Insn::StrImmGenStr64LdstImmpost { rt, mem } => Ok((next, store(s, rt, mem, false))),
        A64Insn::LdpGenLdp64LdstpairPost { rt2, rt, mem }
        | A64Insn::LdpGenLdp64LdstpairPre { rt2, rt, mem }
        | A64Insn::LdpGenLdp64LdstpairOff { rt2, rt, mem } => match load_pair(s, rt, rt2, mem) {
            Ok(s1) => Ok((next, s1)),
            Err(e) => Err(e),
        },
        A64Insn::StpGenStp64LdstpairPost { rt2, rt, mem }
        | A64Insn::StpGenStp64LdstpairPre { rt2, rt, mem }
        | A64Insn::StpGenStp64LdstpairOff { rt2, rt, mem } => Ok((next, store_pair(s, rt, rt2, mem))),
        A64Insn::BlBlOnlyBranchImm { imm26 } => Ok(
            (ir::branch_target(pc, imm26.raw, 26), s.with_x(30, ir::wrap_add(pc, 4))),
        ),
        A64Insn::BlrBlr64BranchReg { rn } => Ok((s.reg(rn), s.with_x(30, ir::wrap_add(pc, 4)))),
        A64Insn::BrBr64BranchReg { rn } => Ok((s.reg(rn), s)),
        A64Insn::RetRet64rBranchReg { rn } => Ok((s.reg(rn), s)),
        A64Insn::SvcSvcExException { .. } => Err(ExecError::RawSvc),
    }
}

fn read_reg_sized(state: &MachineState, reg: A64Reg, w32: bool) -> (r: u64)
    ensures
        r == read_sized(state@, reg, w32),
{
    if w32 {
        state.read_reg(reg) & 0xFFFF_FFFF
    } else {
        state.read_reg(reg)
    }
}

fn write_reg_sized(state: &mut MachineState, reg: A64Reg, value: u64, w32: bool)
    ensures
        final(state)@ == write_sized(old(state)@, reg, value, w32),
{
    if w32 {
        state.write_reg(reg, value & 0xFFFF_FFFF);
    } else {
        state.write_reg(reg, value);
    }
}

fn update_sub_flags_sized(state: &mut MachineState, lhs: u64, rhs: u64, result: u64, w32: bool)
    ensures
        final(state)@ == old(state)@.with_flags(sub_flags(lhs, rhs, result, w32)),
{
    let mask: u64 = if w32 { 0xFFFF_FFFF } else { 0xFFFF_FFFF_FFFF_FFFF };
    let sign: u64 = if w32 { 0x8000_0000 } else { 0x8000_0000_0000_0000 };
    let l = lhs & mask;
    let r = rhs & mask;
    let res = result & mask;
    state.set_flags(Flags { n: res & sign != 0, z: res == 0, c: l >= r, v: (l ^ r) & (l ^ res) & sign != 0 });
}

fn shifted_reg64(value: u64, shift: u8, amount: u64) -> (r: u64)
    requires
        amount < 64,
    ensures
        r == shifted(value, shift, amount),
{
    if shift == 0 {
        value << amount
    } else if shift == 1 {
        value >> amount
    } else if shift == 2 {
        ((value as i64) >> amount) as u64
    } else if amount == 0 {
        value
    } else {
        (value >> amount) | (value << (64 - amount))
    }
}

fn eval_condition(condition: A64Condition, flags: Flags) -> (r: bool)
    ensures
        r == condition_holds(condition, flags),
{
    match condition {
        A64Condition::Eq => flags.z,
        A64Condition::Ne => !flags.z,
        A64Condition::Ge => flags.n == flags.v,
        A64Condition::Lt => flags.n != flags.v,
        A64Condition::Gt => !flags.z && flags.n == flags.v,
        A64Condition::Le => flags.z || flags.n != flags.v,
        A64Condition::Al => true,
    }
}

fn resolve_mem_addr(state: &mut MachineState, mem: A64Mem) -> (r: u64)
    requires
        mem.spec_offset_imm().readable(),
    ensures
        (r, final(state)@) == mem_access(old(state)@, mem),
{
    let base_reg = mem.base();
    let base = state.read_reg(base_reg);
    let offset = mem.offset_imm().value();
    match mem {
        A64Mem::Offset { .. } => wrapping_offset(base, offset),
        A64Mem::PreIndex { .. } => {
            let addr = wrapping_offset(base, offset);
            state.write_reg(base_reg, addr);
            addr
        },
        A64Mem::PostIndex { .. } => {
            state.write_reg(base_reg, wrapping_offset(base, offset));
            base
        },
    }
}

fn execute_load(state: &mut MachineState, rt: A64Reg, mem: A64Mem, w32: bool)
    requires
        mem.spec_offset_imm().readable(),
    ensures
        final(state)@ == load(old(state)@, rt, mem, w32),
{
    let addr = resolve_mem_addr(state, mem);
    if w32 {
        let v = state.read_u32(addr) as u64;
        state.write_reg(rt, v);
    } else {
        let v = state.read_u64(addr);
        state.write_reg(rt, v);
    }
}

fn execute_store(state: &mut MachineState, rt: A64Reg, mem: A64Mem, w32: bool)
    requires
        mem.spec_offset_imm().readable(),
    ensures
        final(state)@ == store(old(state)@, rt, mem, w32),
{
    let value = read_reg_sized(state, rt, w32);
    let addr = resolve_mem_addr(state, mem);
    proof {
        lemma_low32_bound(old(state)@.reg(rt));
    }
    if w32 {
        state.write_u32(addr, value as u32);
    } else {
        state.write_u64(addr, value);
    }
}

fn execute_ldp64(state: &mut MachineState, mem: A64Mem, rt: A64Reg, rt2: A64Reg) -> (r: Result<(), ExecError>)
    requires
        mem.spec_offset_imm().readable(),
    ensures
        match load_pair(old(state)@, rt, rt2, mem) {
            Ok(s1) => r is Ok && final(state)@ == s1,
            Err(e) => r == Err::<(), ExecError>(e) && final(state)@ == old(state)@,
        },
{
    let base = mem.base();
    let writeback = match mem {
        A64Mem::Offset { .. } => false,
        _ => true,
    };
    if writeback && base.enc() != 31 && (base.enc() == rt.enc() || base.enc() == rt2.enc()) {
        return Err(ExecError::WritebackPairOverlap);
    }
    let addr = resolve_mem_addr(state, mem);
    let first = state.read_u64(addr);
    let second = state.read_u64(wrapping_offset(addr, 8));
    state.write_reg(rt, first);
    state.write_reg(rt2, second);
    Ok(())
}

fn execute_stp64(state: &mut MachineState, mem: A64Mem, rt: A64Reg, rt2: A64Reg)
    requires
        mem.spec_offset_imm().readable(),
    ensures
        final(state)@ == store_pair(old(state)@, rt, rt2, mem),
{
    let first = state.read_reg(rt);
    let second = state.read_reg(rt2);
    let addr = resolve_mem_addr(state, mem);
    state.write_u64(addr, first);
    state.write_u64(wrapping_offset(addr, 8), second);
}

fn write_movz(state: &mut MachineState, rd: A64Reg, imm16: A64Imm, hw: u8, w32: bool)
    requires
        imm16.raw < 0x10000,
        hw < 4,
    ensures
        final(state)@ == write_sized(old(state)@, rd, movz_value(imm16, hw), w32),
{
    let shift = (hw * 16) as u64;
    write_reg_sized(state, rd, (imm16.raw() as u64) << shift, w32);
}

fn write_movk(state: &mut MachineState, rd: A64Reg, imm16: A64Imm, hw: u8, w32: bool)
    requires
        imm16.raw < 0x10000,
        hw < 4,
    ensures
        final(state)@ == write_sized(
            old(state)@,
            rd,
            movk_value(read_sized(old(state)@, rd, w32), imm16, hw),
            w32,
        ),
{
    let shift = (hw * 16) as u64;
    let old = read_reg_sized(state, rd, w32);
    let mask = !(0xFFFFu64 << shift);
    write_reg_sized(state, rd, (old & mask) | ((imm16.raw() as u64) << shift), w32);
}

/// Executes one instruction at `pc`: updates the state and returns the next
/// pc, as `spec_execute` says; refused, with the state left unchanged, where
/// a field lies outside its range or `spec_execute` refuses.
pub fn execute_insn(insn: A64Insn, pc: u64, state: &mut MachineState) -> (r: Result<u64, ExecError>)
    requires
        pc + 4 <= u64::MAX,
    ensures
        !executable(insn) ==> r == Err::<u64, ExecError>(ExecError::FieldOutOfRange) && final(state)@ == old(state)@,
        executable(insn) ==> match spec_execute(insn, pc, old(state)@) {
            Ok((next, s1)) => r == Ok::<u64, ExecError>(next) && final(state)@ == s1,
            Err(e) => r == Err::<u64, ExecError>(e) && final(state)@ == old(state)@,
        },
{
    if !is_executable(insn) {
        return Err(ExecError::FieldOutOfRange);
    }
    execute_in_range(insn, pc, state)
}

fn execute_in_range(insn: A64Insn, pc: u64, state: &mut MachineState) -> (r: Result<u64, ExecError>)
    requires
        executable(insn),
        pc + 4 <= u64::MAX,
    ensures
        match spec_execute(insn, pc, old(state)@) {
            Ok((next, s1)) => r == Ok::<u64, ExecError>(next) && final(state)@ == s1,
            Err(e) => r == Err::<u64, ExecError>(e) && final(state)@ == old(state)@,
        },
{
    match insn {
        A64Insn::NopNopHiHints {} => Ok(pc + 4),
        A64Insn::AdrAdrOnlyPcreladdr { rd, .. } | A64Insn::AdrpAdrpOnlyPcreladdr { rd, .. } => {
            match insn.pc_relative_address(pc) {
                Some(value) => {
                    state.write_reg(rd, value);
                    Ok(pc + 4)
                },
                None => Ok(pc + 4),
            }
        },
        A64Insn::MovzMovz32Movewide { hw, imm16, rd } => {
            write_movz(state, rd, imm16, hw, true);
            Ok(pc + 4)
        },
        A64Insn::MovzMovz64Movewide { hw, imm16, rd } => {
            write_movz(state, rd, imm16, hw, false);
            Ok(pc + 4)
        },
        A64Insn::MovkMovk32Movewide { hw, imm16, rd } => {
            write_movk(state, rd, imm16, hw, true);
            Ok(pc + 4)
        },
        A64Insn::MovkMovk64Movewide { hw, imm16, rd } => {
            write_movk(state, rd, imm16, hw, false);
            Ok(pc + 4)
        },
        A64Insn::OrrLogShiftOrr64LogShift { shift, rm, imm6, rn, rd } => {
            let shifted_value = shifted_reg64(state.read_reg(rm), shift, imm6.raw() as u64);
            let value = state.read_reg(rn) | shifted_value;
            state.write_reg(rd, value);
            Ok(pc + 4)
        },
        A64Insn::AddAddsubImmAdd32AddsubImm { sh, imm12, rn, rd } => {
            let imm = add_sub_imm_value(sh, imm12);
            let result = read_reg_sized(state, rn, true).wrapping_add(imm);
            write_reg_sized(state, rd, result, true);
            Ok(pc + 4)
        },
        A64Insn::AddAddsubImmAdd64AddsubImm { sh, imm12, rn, rd } => {
            let imm = add_sub_imm_value(sh, imm12);
            let result = state.read_reg(rn).wrapping_add(imm);
            state.write_reg(rd, result);
            Ok(pc + 4)
        },
        A64Insn::SubAddsubImmSub32AddsubImm { sh, imm12, rn, rd } => {
            let imm = add_sub_imm_value(sh, imm12);
            let result = read_reg_sized(state, rn, true).wrapping_sub(imm);
            write_reg_sized(state, rd, result, true);
            Ok(pc + 4)
        },
        A64Insn::SubAddsubImmSub64AddsubImm { sh, imm12, rn, rd } => {
            let imm = add_sub_imm_value(sh, imm12);
            let result = state.read_reg(rn).wrapping_sub(imm);
            state.write_reg(rd, result);
            Ok(pc + 4)
        },
        A64Insn::SubsAddsubImmSubs32sAddsubImm { sh, imm12, rn, rd } => {
            let lhs = read_reg_sized(state, rn, true);
            let rhs = add_sub_imm_value(sh, imm12);
            let result = lhs.wrapping_sub(rhs);
            update_sub_flags_sized(state, lhs, rhs, result, true);
            write_reg_sized(state, rd, result, true);
            Ok(pc + 4)
        },
        A64Insn::SubsAddsubImmSubs64sAddsubImm { sh, imm12, rn, rd } => {
            let lhs = state.read_reg(rn);
            let rhs = add_sub_imm_value(sh, imm12);
            let result = lhs.wrapping_sub(rhs);
            update_sub_flags_sized(state, lhs, rhs, result, false);
            state.write_reg(rd, result);
            Ok(pc + 4)
        },
        A64Insn::BUncondBOnlyBranchImm { imm26 } => Ok(pc_relative_target(pc, imm26.raw(), 26)),
        A64Insn::BCondBOnlyCondbranch { imm19, cond } => match A64Condition::from_bits(cond) {
            Some(c) => {
                if eval_condition(c, state.flags()) {
                    Ok(pc_relative_target(pc, imm19.raw(), 19))
                } else {
                    Ok(wrapping_offset(pc, 4))
                }
            },
            None => Err(ExecError::UnsupportedCondition { cond }),
        },
        A64Insn::CbzCbz32Compbranch { imm19, rt } => {
            if read_reg_sized(state, rt, true) == 0 {
                Ok(pc_relative_target(pc, imm19.raw(), 19))
            } else {
                Ok(wrapping_offset(pc, 4))
            }
        },
        A64Insn::CbzCbz64Compbranch { imm19, rt } => {
            if read_reg_sized(state, rt, false) == 0 {
                Ok(pc_relative_target(pc, imm19.raw(), 19))
            } else {
                Ok(wrapping_offset(pc, 4))
            }
        },
        A64Insn::CbnzCbnz32Compbranch { imm19, rt } => {
            if read_reg_sized(state, rt, true) != 0 {
                Ok(pc_relative_target(pc, imm19.raw(), 19))
            } else {
                Ok(wrapping_offset(pc, 4))
            }
        },
        A64Insn::CbnzCbnz64Compbranch { imm19, rt } => {
            if read_reg_sized(state, rt, false) != 0 {
                Ok(pc_relative_target(pc, imm19.raw(), 19))
            } else {
                Ok(wrapping_offset(pc, 4))
            }
        },
        A64Insn::TbzTbzOnlyTestbranch { b5, b40, imm14, rt } => {
            let bit = (b5 * 32 + b40) as u64;
            if (state.read_reg(rt) >> bit) & 1 == 0 {
                Ok(pc_relative_target(pc, imm14.raw(), 14))
            } else {
                Ok(wrapping_offset(pc, 4))
            }
        },
        A64Insn::TbnzTbnzOnlyTestbranch { b5, b40, imm14, rt } => {
            let bit = (b5 * 32 + b40) as u64;
            if (state.read_reg(rt) >> bit) & 1 != 0 {
                Ok(pc_relative_target(pc, imm14.raw(), 14))
            } else {
                Ok(wrapping_offset(pc, 4))
            }
        },
        A64Insn::LdrImmGenLdr32LdstPos { rt, mem }
        | A64Insn::LdrImmGenLdr32LdstImmpre { rt, mem }
        | A64Insn::LdrImmGenLdr32LdstImmpost { rt, mem } => {
            execute_load(state, rt, mem, true);
            Ok(pc + 4)
        },
        A64Insn::LdrImmGenLdr64LdstPos { rt, mem }
        | A64Insn::LdrImmGenLdr64LdstImmpre { rt, mem }
        | A64Insn::LdrImmGenLdr64LdstImmpost { rt, mem } => {
            execute_load(state, rt, mem, false);
            Ok(pc + 4)
        },
        A64Insn::StrImmGenStr32LdstPos { rt, mem }
        | A64Insn::StrImmGenStr32LdstImmpre { rt, mem }
        | A64Insn::StrImmGenStr32LdstImmpost { rt, mem } => {
            execute_store(state, rt, mem, true);
            Ok(pc + 4)
        },
        A64Insn::StrImmGenStr64LdstPos { rt, mem }
        | A64Insn::StrImmGenStr64LdstImmpre { rt, mem }
        | A64Insn::StrImmGenStr64LdstImmpost { rt, mem } => {
            execute_store(state, rt, mem, false);
            Ok(pc + 4)
        },
        A64Insn::LdpGenLdp64LdstpairPost { rt2, rt, mem }
        | A64Insn::LdpGenLdp64LdstpairPre { rt2, rt, mem }
        | A64Insn::LdpGenLdp64LdstpairOff { rt2, rt, mem } => {
            match execute_ldp64(state, mem, rt, rt2) {
                Ok(()) => Ok(pc + 4),
                Err(e) => Err(e),
            }
        },
        A64Insn::StpGenStp64LdstpairPost { rt2, rt, mem }
        | A64Insn::StpGenStp64LdstpairPre { rt2, rt, mem }
        | A64Insn::StpGenStp64LdstpairOff { rt2, rt, mem } => {
            execute_stp64(state, mem, rt, rt2);
            Ok(pc + 4)
        },
        A64Insn::BlBlOnlyBranchImm { imm26 } => {
            let target = pc_relative_target(pc, imm26.raw(), 26);
            state.write_x(30, wrapping_offset(pc, 4));
            Ok(target)
        },
        A64Insn::BlrBlr64BranchReg { rn } => {
            let target = state.read_reg(rn);
            state.write_x(30, wrapping_offset(pc, 4));
            Ok(target)
        },
        A64Insn::BrBr64BranchReg { rn } => Ok(state.read_reg(rn)),
        A64Insn::RetRet64rBranchReg { rn } => Ok(state.read_reg(rn)),
        A64Insn::SvcSvcExException { .. } => Err(ExecError::RawSvc),
    }
}

fn add_sub_imm_value(sh: u8, imm12: A64Imm) -> (r: u64)
    requires
        sh < 2,
        imm12.raw < 0x1000,
    ensures
        r == add_sub_value(sh, imm12),
{
    match A64Insn::add_sub_imm(sh, imm12) {
        Some(v) => v,
        None => 0,
    }
}

/// Why the stepper cannot go on.
#[derive(Clone, Copy, Debug, PartialEq, Eq, Structural)]
pub enum StepError {
    /// The program is not a whole number of words.
    ProgramLength,
    PcBeforeBase { pc: u64 },
    PcUnaligned { pc: u64 },
    Decode(DecodeError),
    Exec(ExecError),
    /// The stepper was asked to step after it had halted.
    StoppedWithoutHalt,
    /// A run went on for as many steps as a counter can hold.
    StepLimit,
}

/// A memory operand's offset is readable in every canonical form.
pub proof fn lemma_canonical_offset_readable(insn: A64Insn)
    requires
        insn.spec_is_canonical(),
    ensures
        offset_readable(insn),
{
    match insn {
        A64Insn::LdrImmGenLdr32LdstPos { .. } => {},
        A64Insn::LdrImmGenLdr64LdstPos { .. } => {},
        A64Insn::StrImmGenStr32LdstPos { .. } => {},
        A64Insn::StrImmGenStr64LdstPos { .. } => {},
        A64Insn::LdrImmGenLdr32LdstImmpre { .. } => {},
        A64Insn::LdrImmGenLdr64LdstImmpre { .. } => {},
        A64Insn::StrImmGenStr32LdstImmpre { .. } => {},
        A64Insn::StrImmGenStr64LdstImmpre { .. } => {},
        A64Insn::LdrImmGenLdr32LdstImmpost { .. } => {},
        A64Insn::LdrImmGenLdr64LdstImmpost { .. } => {},
        A64Insn::StrImmGenStr32LdstImmpost { .. } => {},
        A64Insn::StrImmGenStr64LdstImmpost { .. } => {},
        A64Insn::LdpGenLdp64LdstpairPost { .. } => {},
        A64Insn::LdpGenLdp64LdstpairPre { .. } => {},
        A64Insn::LdpGenLdp64LdstpairOff { .. } => {},
        A64Insn::StpGenStp64LdstpairPost { .. } => {},
        A64Insn::StpGenStp64LdstpairPre { .. } => {},
        A64Insn::StpGenStp64LdstpairOff { .. } => {},
        _ => {},
    }
}

/// What one step from `pc` does.
pub enum StepOutcome {
    Fail(StepError),
    /// `pc` is past the last instruction.
    FellOff,
    /// The instruction hands control to the runtime; calls have set the
    /// link register.
    Exit { reason: RuntimeExitReason, state: MachineView },
    Advance { next_pc: u64, state: MachineView },
}

/// The state after a runtime exit instruction: BL and BLR set the link register.
pub open spec fn exit_side_effect(insn: A64Insn, pc: u64, s: MachineView) -> MachineView {
    match insn {
        A64Insn::BlBlOnlyBranchImm { .. } | A64Insn::BlrBlr64BranchReg { .. } => s.with_x(
            30,
            ir::wrap_add(pc, 4),
        ),
        _ => s,
    }
}

/// One step of the program loaded at `base` from `pc`.
#[verifier::opaque]
pub open spec fn spec_step(program: Seq<u8>, base: u64, pc: u64, s: MachineView) -> StepOutcome {
    if pc < base {
        StepOutcome::Fail(StepError::PcBeforeBase { pc })
    } else if (pc - base) % 4 != 0 {
        StepOutcome::Fail(StepError::PcUnaligned { pc })
    } else if (pc - base) / 4 >= program.len() / 4 {
        StepOutcome::FellOff
    } else {
        let word = ir::le_word(program, pc - base);
        match codec::spec_decode_word(word) {
            None => StepOutcome::Fail(StepError::Decode(DecodeError::UnsupportedWord { pc, word })),
            Some(insn) => match insn.spec_runtime_exit_reason(pc) {
                Some(reason) => StepOutcome::Exit { reason, state: exit_side_effect(insn, pc, s) },
                None => match spec_execute(insn, pc, s) {
                    Ok((next_pc, s1)) => StepOutcome::Advance { next_pc, state: s1 },
                    Err(e) => StepOutcome::Fail(StepError::Exec(e)),
                },
            },
        }
    }
}

/// One step of the original program, as the stepper reports it.
#[derive(Debug, PartialEq, Eq)]
pub struct OriginalStep {
    pub pc: u64,
    pub next_pc: Option<u64>,
    pub executed: bool,
    pub runtime_exit: Option<RuntimeExitReason>,
    pub halt_reason: Option<HaltReason>,
    pub state: MachineState,
}

/// Steps through a program of little-endian words loaded at `base_pc`.
#[derive(Debug)]
pub struct OriginalStepper<'a> {
    program: &'a [u8],
    base_pc: u64,
    pc: u64,
    state: MachineState,
    stopped: bool,
}

impl<'a> OriginalStepper<'a> {
    pub closed spec fn spec_program(&self) -> Seq<u8> {
        self.program@
    }

    pub closed spec fn spec_base(&self) -> u64 {
        self.base_pc
    }

    pub closed spec fn spec_pc(&self) -> u64 {
        self.pc
    }

    pub closed spec fn spec_state(&self) -> MachineView {
        self.state@
    }

    pub closed spec fn spec_stopped(&self) -> bool {
        self.stopped
    }

    /// The program fits below the top of the address space.
    pub open spec fn wf(&self) -> bool {
        self.spec_base() + self.spec_program().len() <= u64::MAX
    }

    /// A stepper at `entry_pc`; refused when the program is not a whole
    /// number of words.
    pub fn new(program: &'a [u8], base_pc: u64, entry_pc: u64, initial_state: &MachineState) -> (r:
        Result<Self, StepError>)
        requires
            base_pc + program@.len() <= u64::MAX,
        ensures
            program@.len() % 4 != 0 ==> r == Err::<Self, StepError>(StepError::ProgramLength),
            program@.len() % 4 == 0 ==> (r matches Ok(st) && st.spec_program() == program@
                && st.spec_base() == base_pc && st.spec_pc() == entry_pc && st.spec_state()
                == initial_state@ && !st.spec_stopped() && st.wf()),
    {
        if program.len() % 4 != 0 {
            return Err(StepError::ProgramLength);
        }
        Ok(OriginalStepper { program, base_pc, pc: entry_pc, state: initial_state.copy(), stopped: false })
    }

    pub fn pc(&self) -> (r: u64)
        ensures
            r == self.spec_pc(),
    {
        self.pc
    }

    pub fn state(&self) -> (r: &MachineState)
        ensures
            r@ == self.spec_state(),
    {
        &self.state
    }

    /// Continues at `pc` after a halt (a runtime exit handled elsewhere).
    pub fn resume_at(&mut self, pc: u64)
        ensures
            final(self).spec_pc() == pc,
            !final(self).spec_stopped(),
            final(self).spec_program() == old(self).spec_program(),
            final(self).spec_base() == old(self).spec_base(),
            final(self).spec_state() == old(self).spec_state(),
    {
        self.pc = pc;
        self.stopped = false;
    }

    /// One step, as `spec_step` says; `None` once the stepper has halted.
    /// A failed step changes nothing.
    pub fn step(&mut self) -> (r: Result<Option<OriginalStep>, StepError>)
        requires
            old(self).wf(),
        ensures
            final(self).spec_program() == old(self).spec_program(),
            final(self).spec_base() == old(self).spec_base(),
            final(self).wf(),
            old(self).spec_stopped() ==> (r matches Ok(None) && final(self).spec_pc() == old(self).spec_pc()
                && final(self).spec_state() == old(self).spec_state() && final(self).spec_stopped()),
            !old(self).spec_stopped() ==> match spec_step(
                old(self).spec_program(),
                old(self).spec_base(),
                old(self).spec_pc(),
                old(self).spec_state(),
            ) {
                StepOutcome::Fail(e) => r == Err::<Option<OriginalStep>, StepError>(e)
                    && final(self).spec_pc() == old(self).spec_pc() && final(self).spec_state()
                    == old(self).spec_state() && !final(self).spec_stopped(),
                StepOutcome::FellOff => r matches Ok(Some(st)) && st.pc == old(self).spec_pc()
                    && st.next_pc is None && !st.executed && st.runtime_exit is None
                    && st.halt_reason == Some(HaltReason::FellOffEnd) && st.state@ == old(
                    self,
                ).spec_state() && final(self).spec_stopped() && final(self).spec_pc() == old(
                    self,
                ).spec_pc() && final(self).spec_state() == old(self).spec_state(),
                StepOutcome::Exit { reason, state } => r matches Ok(Some(st)) && st.pc == old(
                    self,
                ).spec_pc() && st.next_pc is None && st.executed && st.runtime_exit == Some(reason)
                    && st.halt_reason == Some(HaltReason::RuntimeExit { reason }) && st.state@
                    == state && final(self).spec_stopped() && final(self).spec_pc() == old(
                    self,
                ).spec_pc() && final(self).spec_state() == state,
                StepOutcome::Advance { next_pc, state } => r matches Ok(Some(st)) && st.pc == old(
                    self,
                ).spec_pc() && st.next_pc == Some(next_pc) && st.executed && st.runtime_exit is None
                    && st.halt_reason is None && st.state@ == state && !final(self).spec_stopped()
                    && final(self).spec_pc() == next_pc && final(self).spec_state() == state,
            },
    {
        proof {
            reveal(spec_step);
        }
        if self.stopped {
            return Ok(None);
        }
        if self.pc < self.base_pc {
            return Err(StepError::PcBeforeBase { pc: self.pc });
        }
        let offset = self.pc - self.base_pc;
        if offset % 4 != 0 {
            return Err(StepError::PcUnaligned { pc: self.pc });
        }
        let insn_index = offset / 4;
        if insn_index >= (self.program.len() / 4) as u64 {
            self.stopped = true;
            return Ok(
                Some(
                    OriginalStep {
                        pc: self.pc,
                        next_pc: None,
                        executed: false,
                        runtime_exit: None,
                        halt_reason: Some(HaltReason::FellOffEnd),
                        state: self.state.copy(),
                    },
                ),
            );
        }
        assert(insn_index * 4 + 4 <= self.program@.len()) by (nonlinear_arith)
            requires
                insn_index < self.program@.len() / 4,
        ;
        let word = read_le_word(self.program, (insn_index * 4) as usize);
        let decoded = match decode_word(word, self.pc) {
            Ok(d) => d,
            Err(e) => {
                return Err(StepError::Decode(e));
            },
        };
        proof {
            codec::lemma_decode_sound(word);
            lemma_canonical_offset_readable(decoded.inner);
        }
        let pc = self.pc;
        match decoded.inner.runtime_exit_reason(pc) {
            Some(reason) => {
                match decoded.inner {
                    A64Insn::BlBlOnlyBranchImm { .. } | A64Insn::BlrBlr64BranchReg { .. } => {
                        self.state.write_x(30, wrapping_offset(pc, 4));
                    },
                    _ => {},
                }
                self.stopped = true;
                return Ok(
                    Some(
                        OriginalStep {
                            pc,
                            next_pc: None,
                            executed: true,
                            runtime_exit: Some(reason),
                            halt_reason: Some(HaltReason::RuntimeExit { reason }),
                            state: self.state.copy(),
                        },
                    ),
                );
            },
            None => {},
        }
        match execute_insn(decoded.inner, pc, &mut self.state) {
            Ok(next_pc) => {
                self.pc = next_pc;
                Ok(
                    Some(
                        OriginalStep {
                            pc,
                            next_pc: Some(next_pc),
                            executed: true,
                            runtime_exit: None,
                            halt_reason: None,
                            state: self.state.copy(),
                        },
                    ),
                )
            },
            Err(e) => Err(StepError::Exec(e)),
        }
    }
}

/// How a run of original code ended.
#[derive(Debug, PartialEq, Eq)]
pub struct ExecutionResult {
    pub state: MachineState,
    pub halt_reason: HaltReason,
    /// The instructions executed, the halting runtime exit included.
    pub steps: usize,
}

/// Where a run stands after some number of stepper calls.
pub enum RunState {
    Running { pc: u64, state: MachineView, steps: nat },
    Halted { state: MachineView, halt: HaltReason, steps: nat },
    Failed(StepError),
}

/// The run of a program from `pc` after `fuel` stepper calls.
pub open spec fn spec_run(program: Seq<u8>, base: u64, pc: u64, s: MachineView, fuel: nat) -> RunState
    decreases fuel,
{
    if fuel == 0 {
        RunState::Running { pc, state: s, steps: 0 }
    } else {
        match spec_run(program, base, pc, s, (fuel - 1) as nat) {
            RunState::Running { pc: p, state: t, steps } => match spec_step(program, base, p, t) {
                StepOutcome::Fail(e) => RunState::Failed(e),
                StepOutcome::FellOff => RunState::Halted { state: t, halt: HaltReason::FellOffEnd, steps },
                StepOutcome::Exit { reason, state } => RunState::Halted {
                    state,
                    halt: HaltReason::RuntimeExit { reason },
                    steps: steps + 1,
                },
                StepOutcome::Advance { next_pc, state } => RunState::Running {
                    pc: next_pc,
                    state,
                    steps: steps + 1,
                },
            },
            other => other,
        }
    }
}

/// What a run that had `usize::MAX` stepper calls gives back: its halt, its
/// failure, or `StepLimit` where it is still running.
pub open spec fn run_gives(r: Result<ExecutionResult, StepError>, st: RunState) -> bool {
    match st {
        RunState::Running { .. } => r == Err::<ExecutionResult, StepError>(StepError::StepLimit),
        RunState::Halted { state, halt, steps } => r matches Ok(res) && res.state@ == state && res.halt_reason == halt
            && res.steps as nat == steps,
        RunState::Failed(e) => r == Err::<ExecutionResult, StepError>(e),
    }
}

/// A run that has halted or failed stays so with more stepper calls.
pub proof fn lemma_run_settled(program: Seq<u8>, base: u64, pc: u64, s: MachineView, f: nat, g: nat)
    requires
        f <= g,
        !(spec_run(program, base, pc, s, f) is Running),
    ensures
        spec_run(program, base, pc, s, g) == spec_run(program, base, pc, s, f),
    decreases g - f,
{
    if g > f {
        lemma_run_settled(program, base, pc, s, f, (g - 1) as nat);
    }
}

/// Runs the program loaded at `base_pc` from its first word until it halts.
pub fn execute_program(program: &[u8], base_pc: u64, initial_state: &MachineState) -> (r: Result<
    ExecutionResult,
    StepError,
>)
    requires
        base_pc + program@.len() <= u64::MAX,
    ensures
        program@.len() % 4 != 0 ==> r == Err::<ExecutionResult, StepError>(StepError::ProgramLength),
        program@.len() % 4 == 0 ==> run_gives(r, spec_run(program@, base_pc, base_pc, initial_state@, usize::MAX as nat)),
{
    execute_program_from(program, base_pc, base_pc, initial_state)
}

/// Runs the program loaded at `base_pc` from `entry_pc` until it halts: the
/// state it halts in, why, and how many instructions it executed.
pub fn execute_program_from(
    program: &[u8],
    base_pc: u64,
    entry_pc: u64,
    initial_state: &MachineState,
) -> (r: Result<ExecutionResult, StepError>)
    requires
        base_pc + program@.len() <= u64::MAX,
    ensures
        program@.len() % 4 != 0 ==> r == Err::<ExecutionResult, StepError>(StepError::ProgramLength),
        program@.len() % 4 == 0 ==> run_gives(r, spec_run(program@, base_pc, entry_pc, initial_state@, usize::MAX as nat)),
{
    let mut stepper = match OriginalStepper::new(program, base_pc, entry_pc, initial_state) {
        Ok(st) => st,
        Err(e) => {
            return Err(e);
        },
    };
    let mut steps: usize = 0;
    let mut fuel: usize = 0;
    loop
        invariant
            program@.len() % 4 == 0,
            stepper.wf(),
            !stepper.spec_stopped(),
            stepper.spec_program() == program@,
            stepper.spec_base() == base_pc,
            steps <= fuel,
            spec_run(program@, base_pc, entry_pc, initial_state@, fuel as nat) == (RunState::Running {
                pc: stepper.spec_pc(),
                state: stepper.spec_state(),
                steps: steps as nat,
            }),
        decreases usize::MAX - fuel,
    {
        if fuel == usize::MAX {
            return Err(StepError::StepLimit);
        }
        let ghost before = stepper;
        let step = match stepper.step() {
            Ok(Some(step)) => step,
            Ok(None) => {
                return Err(StepError::StoppedWithoutHalt);
            },
            Err(e) => {
                assert(spec_run(program@, base_pc, entry_pc, initial_state@, (fuel + 1) as nat)
                    == RunState::Failed(e));
                proof {
                    lemma_run_settled(program@, base_pc, entry_pc, initial_state@, (fuel + 1) as nat, usize::MAX as nat);
                }
                return Err(e);
            },
        };
        fuel = fuel + 1;
        if step.executed {
            steps = steps + 1;
        }
        match step.halt_reason {
            Some(halt_reason) => {
                let state = step.state;
                assert(spec_run(program@, base_pc, entry_pc, initial_state@, fuel as nat) == (
                RunState::Halted { state: state@, halt: halt_reason, steps: steps as nat }));
                proof {
                    lemma_run_settled(program@, base_pc, entry_pc, initial_state@, fuel as nat, usize::MAX as nat);
                }
                return Ok(ExecutionResult { state, halt_reason, steps });
            },
            None => {},
        }
    }
}

/// One MOVZ of the 64-bit form.
proof fn lemma_exec_movz64(pc: u64, hw: u8, imm16: A64Imm, rd: A64Reg, s: MachineView)
    ensures
        spec_execute(A64Insn::MovzMovz64Movewide { hw, imm16, rd }, pc, s) == Ok::<(u64, MachineView), ExecError>(
            ((pc + 4) as u64, s.with_reg(rd, movz_value(imm16, hw))),
        ),
{
}

/// One MOVK of the 64-bit form.
proof fn lemma_exec_movk64(pc: u64, hw: u8, imm16: A64Imm, rd: A64Reg, s: MachineView)
    ensures
        spec_execute(A64Insn::MovkMovk64Movewide { hw, imm16, rd }, pc, s) == Ok::<(u64, MachineView), ExecError>(
            ((pc + 4) as u64, s.with_reg(rd, movk_value(s.reg(rd), imm16, hw))),
        ),
{
}

/// The four moves that rephrasing writes for a 64-bit constant put exactly
/// that constant into their register, whatever it held, and change nothing
/// else.
#[verifier::rlimit(80)]
pub proof fn lemma_mov_imm64_sets_register(pc: u64, enc: u8, value: u64, kind: RephrasedInsnKind, s: MachineView)
    requires
        enc < 31,
        s.x.len() == 31,
    ensures
        ({
            let m = rephrase::spec_mov_imm64(pc, rephrase::xreg(enc), value, kind);
            let r0 = spec_execute(m[0].insn, pc, s);
            let r1 = spec_execute(m[1].insn, pc, r0->Ok_0.1);
            let r2 = spec_execute(m[2].insn, pc, r1->Ok_0.1);
            let r3 = spec_execute(m[3].insn, pc, r2->Ok_0.1);
            &&& r0 is Ok && r1 is Ok && r2 is Ok && r3 is Ok
            &&& r3->Ok_0.1 == s.with_reg(rephrase::xreg(enc), value)
        }),
{
    let rd = rephrase::xreg(enc);
    let a = (value >> 48u64) & 0xFFFFu64;
    let b = (value >> 32u64) & 0xFFFFu64;
    let c = (value >> 16u64) & 0xFFFFu64;
    let d = value & 0xFFFFu64;
    assert(a as u32 as u64 == a && b as u32 as u64 == b && c as u32 as u64 == c && d as u32 as u64 == d) by (bit_vector)
        requires
            a == (value >> 48u64) & 0xFFFFu64,
            b == (value >> 32u64) & 0xFFFFu64,
            c == (value >> 16u64) & 0xFFFFu64,
            d == value & 0xFFFFu64,
    ;
    let v1 = a << 48u64;
    let v2 = (v1 & !(0xFFFFu64 << 32u64)) | (b << 32u64);
    let v3 = (v2 & !(0xFFFFu64 << 16u64)) | (c << 16u64);
    let v4 = (v3 & !(0xFFFFu64 << 0u64)) | (d << 0u64);
    assert(v4 == value) by (bit_vector)
        requires
            a == (value >> 48u64) & 0xFFFFu64,
            b == (value >> 32u64) & 0xFFFFu64,
            c == (value >> 16u64) & 0xFFFFu64,
            d == value & 0xFFFFu64,
            v1 == a << 48u64,
            v2 == (v1 & !(0xFFFFu64 << 32u64)) | (b << 32u64),
            v3 == (v2 & !(0xFFFFu64 << 16u64)) | (c << 16u64),
            v4 == (v3 & !(0xFFFFu64 << 0u64)) | (d << 0u64),
    ;
    let m = rephrase::spec_mov_imm64(pc, rd, value, kind);
    let s1 = s.with_reg(rd, v1);
    let s2 = s1.with_reg(rd, v2);
    let s3 = s2.with_reg(rd, v3);
    let s4 = s3.with_reg(rd, v4);
    lemma_exec_movz64(pc, 3, rephrase::imm16(a as u32), rd, s);
    assert(movz_value(rephrase::imm16(a as u32), 3) == v1);
    lemma_exec_movk64(pc, 2, rephrase::imm16(b as u32), rd, s1);
    assert(s1.reg(rd) == v1);
    assert(movk_value(v1, rephrase::imm16(b as u32), 2) == v2);
    lemma_exec_movk64(pc, 1, rephrase::imm16(c as u32), rd, s2);
    assert(s2.reg(rd) == v2);
    assert(movk_value(v2, rephrase::imm16(c as u32), 1) == v3);
    lemma_exec_movk64(pc, 0, rephrase::imm16(d as u32), rd, s3);
    assert(s3.reg(rd) == v3);
    assert(movk_value(v3, rephrase::imm16(d as u32), 0) == v4);
    assert(s4.x =~= s.with_reg(rd, value).x);
}

} // verus!
