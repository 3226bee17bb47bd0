//! Rephrasing: every control transfer that leaves translated code (BL, BLR,
//! BR, RET, SVC) becomes a payload for the runtime and a branch to the exit
//! stub, and ADR/ADRP become absolute moves, so that the rest of the code can
//! be placed anywhere.
use vstd::prelude::*;

use crate::shared::abi::{RetStatus, ABI_LINK_REG, RET_PARAM0_REG, RET_PARAM1_REG, RET_STATUS_REG};
use crate::shared::arm64::ergo::{scaled_simm, uimm, x, xzr};
use crate::shared::arm64::ir;
use crate::shared::arm64::{A64Imm, A64Insn, A64Reg, A64Reg31Mode, A64RegWidth, IrInsn};
use crate::shared::platform::SharedAllocError;
use crate::shared::trans::arm64::DecodedInsn;
use crate::shared::trans::cfg::{leads_to, BasicBlock, BlockTerminator, Cfg, RuntimeExitReason};

verus! {

/// What a rephrased instruction is there for.
#[derive(Clone, Copy, Debug, PartialEq, Eq, Structural)]
pub enum RephrasedInsnKind {
    Original,
    UserSynthetic,
    RegVirtHelper,
    RuntimeExitPayload,
    RuntimeExitBranch,
}

impl RephrasedInsnKind {
    pub open spec fn spec_is_user_semantic(self) -> bool {
        self is Original || self is UserSynthetic
    }

    pub open spec fn spec_is_runtime_exit(self) -> bool {
        self is RuntimeExitPayload || self is RuntimeExitBranch
    }

    /// The instruction does what the user's code asked for.
    pub fn is_user_semantic(self) -> (r: bool)
        ensures
            r == self.spec_is_user_semantic(),
    {
        match self {
            RephrasedInsnKind::Original | RephrasedInsnKind::UserSynthetic => true,
            RephrasedInsnKind::RegVirtHelper | RephrasedInsnKind::RuntimeExitPayload
            | RephrasedInsnKind::RuntimeExitBranch => false,
        }
    }

    /// The instruction belongs to a hand-over to the runtime.
    pub fn is_runtime_exit(self) -> (r: bool)
        ensures
            r == self.spec_is_runtime_exit(),
    {
        match self {
            RephrasedInsnKind::RuntimeExitPayload | RephrasedInsnKind::RuntimeExitBranch => true,
            RephrasedInsnKind::Original | RephrasedInsnKind::UserSynthetic
            | RephrasedInsnKind::RegVirtHelper => false,
        }
    }

    pub fn is_runtime_exit_payload(self) -> (r: bool)
        ensures
            r == (self is RuntimeExitPayload),
    {
        match self {
            RephrasedInsnKind::RuntimeExitPayload => true,
            _ => false,
        }
    }

    pub fn is_runtime_exit_branch(self) -> (r: bool)
        ensures
            r == (self is RuntimeExitBranch),
    {
        match self {
            RephrasedInsnKind::RuntimeExitBranch => true,
            _ => false,
        }
    }
}

/// An instruction of rephrased code, with the original pc it stands for.
#[derive(Clone, Copy, Debug, PartialEq, Eq, Structural)]
pub struct RephrasedInsn {
    pub kind: RephrasedInsnKind,
    pub ori_pc: u64,
    pub insn: A64Insn,
}

impl RephrasedInsn {
    pub fn original(ori_pc: u64, insn: A64Insn) -> (r: Self)
        ensures
            r == (RephrasedInsn { kind: RephrasedInsnKind::Original, ori_pc, insn }),
    {
        RephrasedInsn { kind: RephrasedInsnKind::Original, ori_pc, insn }
    }

    pub fn user_synthetic(ori_pc: u64, insn: A64Insn) -> (r: Self)
        ensures
            r == (RephrasedInsn { kind: RephrasedInsnKind::UserSynthetic, ori_pc, insn }),
    {
        RephrasedInsn { kind: RephrasedInsnKind::UserSynthetic, ori_pc, insn }
    }

    /// Same as `user_synthetic`.
    pub fn synthetic(ori_pc: u64, insn: A64Insn) -> (r: Self)
        ensures
            r == (RephrasedInsn { kind: RephrasedInsnKind::UserSynthetic, ori_pc, insn }),
    {
        Self::user_synthetic(ori_pc, insn)
    }

    pub fn reg_virt_helper(ori_pc: u64, insn: A64Insn) -> (r: Self)
        ensures
            r == (RephrasedInsn { kind: RephrasedInsnKind::RegVirtHelper, ori_pc, insn }),
    {
        RephrasedInsn { kind: RephrasedInsnKind::RegVirtHelper, ori_pc, insn }
    }

    pub fn runtime_exit_payload(ori_pc: u64, insn: A64Insn) -> (r: Self)
        ensures
            r == (RephrasedInsn { kind: RephrasedInsnKind::RuntimeExitPayload, ori_pc, insn }),
    {
        RephrasedInsn { kind: RephrasedInsnKind::RuntimeExitPayload, ori_pc, insn }
    }

    pub fn runtime_exit_branch(ori_pc: u64, insn: A64Insn) -> (r: Self)
        ensures
            r == (RephrasedInsn { kind: RephrasedInsnKind::RuntimeExitBranch, ori_pc, insn }),
    {
        RephrasedInsn { kind: RephrasedInsnKind::RuntimeExitBranch, ori_pc, insn }
    }
}

/// A basic block after rephrasing, still over its original pc range
/// `[start_addr, end_addr)`, with the starts of the blocks that lead to it
/// (`prev`) and of those it leads to (`next`).
#[derive(Debug, PartialEq, Eq)]
pub struct RephrasedBlock {
    pub start_addr: u64,
    pub end_addr: u64,
    pub prev: Vec<u64>,
    pub next: Vec<u64>,
    pub insns: Vec<RephrasedInsn>,
}

/// A rephrased program: its blocks in order.
pub type RephrasedProgram = Vec<RephrasedBlock>;

/// The 64-bit register `enc`, with 31 read as the zero register.
pub open spec fn xreg(enc: u8) -> A64Reg {
    A64Reg { enc, width: A64RegWidth::X64, reg31: A64Reg31Mode::Xzr }
}

/// A 16-bit unsigned immediate.
pub open spec fn imm16(raw: u32) -> A64Imm {
    A64Imm { raw, bits: 16, scale: 0, signed: false }
}

/// MOVZ/MOVK x4 that put `value` into `rd`, highest half-word first.
pub open spec fn spec_mov_imm64(pc: u64, rd: A64Reg, value: u64, kind: RephrasedInsnKind) -> Seq<RephrasedInsn> {
    seq![
        RephrasedInsn { kind, ori_pc: pc, insn: A64Insn::MovzMovz64Movewide { hw: 3, imm16: imm16(((value >> 48u64) & 0xFFFFu64) as u32), rd } },
        RephrasedInsn { kind, ori_pc: pc, insn: A64Insn::MovkMovk64Movewide { hw: 2, imm16: imm16(((value >> 32u64) & 0xFFFFu64) as u32), rd } },
        RephrasedInsn { kind, ori_pc: pc, insn: A64Insn::MovkMovk64Movewide { hw: 1, imm16: imm16(((value >> 16u64) & 0xFFFFu64) as u32), rd } },
        RephrasedInsn { kind, ori_pc: pc, insn: A64Insn::MovkMovk64Movewide { hw: 0, imm16: imm16((value & 0xFFFFu64) as u32), rd } },
    ]
}

/// The payload move of register `src` into the first parameter register.
pub open spec fn spec_exit_move(pc: u64, src: u8) -> RephrasedInsn {
    RephrasedInsn {
        kind: RephrasedInsnKind::RuntimeExitPayload,
        ori_pc: pc,
        insn: A64Insn::OrrLogShiftOrr64LogShift {
            shift: 0,
            rm: xreg(src),
            imm6: A64Imm { raw: 0, bits: 6, scale: 0, signed: false },
            rn: xreg(31),
            rd: xreg(RET_PARAM0_REG),
        },
    }
}

/// The branch to the exit stub; its offset is filled in at layout.
pub open spec fn spec_exit_branch(pc: u64) -> RephrasedInsn {
    RephrasedInsn {
        kind: RephrasedInsnKind::RuntimeExitBranch,
        ori_pc: pc,
        insn: A64Insn::BUncondBOnlyBranchImm { imm26: A64Imm { raw: 0, bits: 26, scale: 2, signed: true } },
    }
}

/// What one instruction is rephrased into.
pub open spec fn spec_rephrase_insn(insn: IrInsn) -> Seq<RephrasedInsn> {
    let pc = insn.pc;
    let resume = ir::wrap_add(pc, 4);
    match insn.inner {
        A64Insn::AdrAdrOnlyPcreladdr { rd, .. } | A64Insn::AdrpAdrpOnlyPcreladdr { rd, .. } => spec_mov_imm64(
            pc,
            rd,
            insn.inner.spec_pc_relative_address(pc)->0,
            RephrasedInsnKind::UserSynthetic,
        ),
        A64Insn::BlBlOnlyBranchImm { imm26 } => spec_mov_imm64(pc, xreg(ABI_LINK_REG), resume, RephrasedInsnKind::UserSynthetic)
            + spec_mov_imm64(pc, xreg(RET_STATUS_REG), RetStatus::Bl.spec_as_reg(), RephrasedInsnKind::RuntimeExitPayload)
            + spec_mov_imm64(pc, xreg(RET_PARAM0_REG), ir::branch_target(pc, imm26.raw, 26), RephrasedInsnKind::RuntimeExitPayload)
            + spec_mov_imm64(pc, xreg(RET_PARAM1_REG), resume, RephrasedInsnKind::RuntimeExitPayload)
            + seq![spec_exit_branch(pc)],
        A64Insn::BlrBlr64BranchReg { rn } => seq![spec_exit_move(pc, rn.enc)]
            + spec_mov_imm64(pc, xreg(ABI_LINK_REG), resume, RephrasedInsnKind::UserSynthetic)
            + spec_mov_imm64(pc, xreg(RET_STATUS_REG), RetStatus::Blr.spec_as_reg(), RephrasedInsnKind::RuntimeExitPayload)
            + spec_mov_imm64(pc, xreg(RET_PARAM1_REG), resume, RephrasedInsnKind::RuntimeExitPayload)
            + seq![spec_exit_branch(pc)],
        A64Insn::BrBr64BranchReg { rn } => spec_mov_imm64(pc, xreg(RET_STATUS_REG), RetStatus::Br.spec_as_reg(), RephrasedInsnKind::RuntimeExitPayload)
            + seq![spec_exit_move(pc, rn.enc)]
            + spec_mov_imm64(pc, xreg(RET_PARAM1_REG), resume, RephrasedInsnKind::RuntimeExitPayload)
            + seq![spec_exit_branch(pc)],
        A64Insn::RetRet64rBranchReg { rn } => spec_mov_imm64(pc, xreg(RET_STATUS_REG), RetStatus::Ret.spec_as_reg(), RephrasedInsnKind::RuntimeExitPayload)
            + seq![spec_exit_move(pc, rn.enc)]
            + spec_mov_imm64(pc, xreg(RET_PARAM1_REG), resume, RephrasedInsnKind::RuntimeExitPayload)
            + seq![spec_exit_branch(pc)],
        A64Insn::SvcSvcExException { .. } => spec_mov_imm64(pc, xreg(RET_STATUS_REG), RetStatus::Svc.spec_as_reg(), RephrasedInsnKind::RuntimeExitPayload)
            + seq![spec_exit_move(pc, 8)]
            + spec_mov_imm64(pc, xreg(RET_PARAM1_REG), resume, RephrasedInsnKind::RuntimeExitPayload)
            + seq![spec_exit_branch(pc)],
        _ => seq![RephrasedInsn { kind: RephrasedInsnKind::Original, ori_pc: pc, insn: insn.inner }],
    }
}

fn push_mov_imm64(out: &mut Vec<RephrasedInsn>, original_pc: u64, rd: A64Reg, value: u64, kind: RephrasedInsnKind)
    ensures
        final(out)@ == old(out)@ + spec_mov_imm64(original_pc, rd, value, kind),
{
    out.push(RephrasedInsn {
        kind,
        ori_pc: original_pc,
        insn: A64Insn::MovzMovz64Movewide { hw: 3, imm16: uimm(((value >> 48) & 0xFFFF) as u32, 16), rd },
    });
    out.push(RephrasedInsn {
        kind,
        ori_pc: original_pc,
        insn: A64Insn::MovkMovk64Movewide { hw: 2, imm16: uimm(((value >> 32) & 0xFFFF) as u32, 16), rd },
    });
    out.push(RephrasedInsn {
        kind,
        ori_pc: original_pc,
        insn: A64Insn::MovkMovk64Movewide { hw: 1, imm16: uimm(((value >> 16) & 0xFFFF) as u32, 16), rd },
    });
    out.push(RephrasedInsn {
        kind,
        ori_pc: original_pc,
        insn: A64Insn::MovkMovk64Movewide { hw: 0, imm16: uimm((value & 0xFFFF) as u32, 16), rd },
    });
    assert(out@ =~= old(out)@ + spec_mov_imm64(original_pc, rd, value, kind));
}

fn push_exit_move(out: &mut Vec<RephrasedInsn>, original_pc: u64, src: u8)
    ensures
        final(out)@ == old(out)@.push(spec_exit_move(original_pc, src)),
{
    out.push(RephrasedInsn::runtime_exit_payload(
        original_pc,
        A64Insn::OrrLogShiftOrr64LogShift { shift: 0, rm: x(src), imm6: uimm(0, 6), rn: xzr(), rd: x(RET_PARAM0_REG) },
    ));
}

fn push_branch_to_stub(out: &mut Vec<RephrasedInsn>, original_pc: u64)
    ensures
        final(out)@ == old(out)@.push(spec_exit_branch(original_pc)),
{
    out.push(RephrasedInsn::runtime_exit_branch(
        original_pc,
        A64Insn::BUncondBOnlyBranchImm { imm26: scaled_simm(0, 26, 2) },
    ));
}

/// Rephrases one instruction. Never fails.
pub fn rephrase_insn(insn: IrInsn) -> (r: Result<Vec<RephrasedInsn>, SharedAllocError>)
    ensures
        r matches Ok(v) && v@ == spec_rephrase_insn(insn),
{
    let mut ret: Vec<RephrasedInsn> = Vec::with_capacity(10);
    let pc = insn.pc;
    match insn.inner.runtime_exit_reason(pc) {
        Some(RuntimeExitReason::Bl { target_pc, resume_pc }) => {
            push_mov_imm64(&mut ret, pc, x(ABI_LINK_REG), resume_pc, RephrasedInsnKind::UserSynthetic);
            push_mov_imm64(&mut ret, pc, x(RET_STATUS_REG), RetStatus::Bl.as_reg(), RephrasedInsnKind::RuntimeExitPayload);
            push_mov_imm64(&mut ret, pc, x(RET_PARAM0_REG), target_pc, RephrasedInsnKind::RuntimeExitPayload);
            push_mov_imm64(&mut ret, pc, x(RET_PARAM1_REG), resume_pc, RephrasedInsnKind::RuntimeExitPayload);
            push_branch_to_stub(&mut ret, pc);
        },
        Some(RuntimeExitReason::Blr { target_reg, resume_pc }) => {
            // The target is captured before the link register is written, so
            // that BLR x30 still calls the old x30.
            push_exit_move(&mut ret, pc, target_reg);
            push_mov_imm64(&mut ret, pc, x(ABI_LINK_REG), resume_pc, RephrasedInsnKind::UserSynthetic);
            push_mov_imm64(&mut ret, pc, x(RET_STATUS_REG), RetStatus::Blr.as_reg(), RephrasedInsnKind::RuntimeExitPayload);
            push_mov_imm64(&mut ret, pc, x(RET_PARAM1_REG), resume_pc, RephrasedInsnKind::RuntimeExitPayload);
            push_branch_to_stub(&mut ret, pc);
        },
        Some(RuntimeExitReason::Br { target_reg }) => {
            push_mov_imm64(&mut ret, pc, x(RET_STATUS_REG), RetStatus::Br.as_reg(), RephrasedInsnKind::RuntimeExitPayload);
            push_exit_move(&mut ret, pc, target_reg);
            push_mov_imm64(&mut ret, pc, x(RET_PARAM1_REG), pc.wrapping_add(4), RephrasedInsnKind::RuntimeExitPayload);
            push_branch_to_stub(&mut ret, pc);
        },
        Some(RuntimeExitReason::Ret { lr_reg }) => {
            push_mov_imm64(&mut ret, pc, x(RET_STATUS_REG), RetStatus::Ret.as_reg(), RephrasedInsnKind::RuntimeExitPayload);
            push_exit_move(&mut ret, pc, lr_reg);
            push_mov_imm64(&mut ret, pc, x(RET_PARAM1_REG), pc.wrapping_add(4), RephrasedInsnKind::RuntimeExitPayload);
            push_branch_to_stub(&mut ret, pc);
        },
        Some(RuntimeExitReason::Svc { resume_pc, .. }) => {
            push_mov_imm64(&mut ret, pc, x(RET_STATUS_REG), RetStatus::Svc.as_reg(), RephrasedInsnKind::RuntimeExitPayload);
            push_exit_move(&mut ret, pc, 8);
            push_mov_imm64(&mut ret, pc, x(RET_PARAM1_REG), resume_pc, RephrasedInsnKind::RuntimeExitPayload);
            push_branch_to_stub(&mut ret, pc);
        },
        _ => {
            match insn.inner.pc_relative_address(pc) {
                Some(value) => {
                    let rd = match insn.inner {
                        A64Insn::AdrAdrOnlyPcreladdr { rd, .. } => rd,
                        A64Insn::AdrpAdrpOnlyPcreladdr { rd, .. } => rd,
                        _ => x(31),
                    };
                    push_mov_imm64(&mut ret, pc, rd, value, RephrasedInsnKind::UserSynthetic);
                },
                None => {
                    ret.push(RephrasedInsn::original(pc, insn.inner));
                },
            }
        },
    }
    proof {
        ir::lemma_wrapping_add(pc, 4);
    }
    assert(ret@ =~= spec_rephrase_insn(insn));
    Ok(ret)
}

/// The block starts a terminator leads to.
pub open spec fn spec_successors(t: BlockTerminator) -> Seq<u64> {
    match t {
        BlockTerminator::Fallthrough { next_pc: Some(next) } => seq![next],
        BlockTerminator::Fallthrough { next_pc: None } => seq![],
        BlockTerminator::Branch { target_pc } => seq![target_pc],
        BlockTerminator::CondBranch { taken_pc, fallthrough_pc } => seq![taken_pc, fallthrough_pc],
        BlockTerminator::RuntimeExit { .. } => seq![],
    }
}


/// The starts of the blocks, in order, whose terminator leads to `pc`.
pub open spec fn spec_predecessors(blocks: Seq<BasicBlock>, pc: u64) -> Seq<u64>
    decreases blocks.len(),
{
    if blocks.len() == 0 {
        seq![]
    } else {
        let rest = spec_predecessors(blocks.drop_last(), pc);
        if leads_to(blocks.last().terminator, pc) {
            rest.push(blocks.last().start_addr)
        } else {
            rest
        }
    }
}

/// The instruction as the rephraser takes it.
pub open spec fn to_ir(d: DecodedInsn) -> IrInsn {
    IrInsn { pc: d.pc, word: d.word, inner: d.insn }
}

/// The rephrasings of `insns`, one after the other.
pub open spec fn spec_rephrase_all(insns: Seq<DecodedInsn>) -> Seq<RephrasedInsn>
    decreases insns.len(),
{
    if insns.len() == 0 {
        seq![]
    } else {
        spec_rephrase_all(insns.drop_last()) + spec_rephrase_insn(to_ir(insns.last()))
    }
}

/// What block `i` of `blocks` is rephrased into.
pub open spec fn rephrased_block_ok(blocks: Seq<BasicBlock>, i: int, r: RephrasedBlock) -> bool {
    &&& r.start_addr == blocks[i].start_addr
    &&& r.end_addr == blocks[i].end_addr
    &&& r.next@ == spec_successors(blocks[i].terminator)
    &&& r.prev@ == spec_predecessors(blocks, blocks[i].start_addr)
    &&& r.insns@ == spec_rephrase_all(blocks[i].insns@)
}

/// `out` is what rephrasing makes of `blocks`, block for block.
pub open spec fn rephrased_program_ok(blocks: Seq<BasicBlock>, out: Seq<RephrasedBlock>) -> bool {
    &&& out.len() == blocks.len()
    &&& forall|i: int| 0 <= i < out.len() ==> #[trigger] rephrased_block_ok(blocks, i, out[i])
}

pub(crate) fn successors(t: BlockTerminator) -> (r: Vec<u64>)
    ensures
        r@ == spec_successors(t),
{
    let mut out: Vec<u64> = Vec::new();
    match t {
        BlockTerminator::Fallthrough { next_pc: Some(next) } => {
            out.push(next);
        },
        BlockTerminator::Fallthrough { next_pc: None } => {},
        BlockTerminator::Branch { target_pc } => {
            out.push(target_pc);
        },
        BlockTerminator::CondBranch { taken_pc, fallthrough_pc } => {
            out.push(taken_pc);
            out.push(fallthrough_pc);
        },
        BlockTerminator::RuntimeExit { .. } => {},
    }
    assert(out@ =~= spec_successors(t));
    out
}

fn terminator_leads_to(t: BlockTerminator, pc: u64) -> (r: bool)
    ensures
        r == leads_to(t, pc),
{
    match t {
        BlockTerminator::Fallthrough { next_pc: Some(next) } => next == pc,
        BlockTerminator::Fallthrough { next_pc: None } => false,
        BlockTerminator::Branch { target_pc } => target_pc == pc,
        BlockTerminator::CondBranch { taken_pc, fallthrough_pc } => taken_pc == pc || fallthrough_pc == pc,
        BlockTerminator::RuntimeExit { .. } => false,
    }
}

pub(crate) fn predecessors(blocks: &Vec<BasicBlock>, pc: u64) -> (r: Vec<u64>)
    ensures
        r@ == spec_predecessors(blocks@, pc),
{
    let mut out: Vec<u64> = Vec::new();
    let mut j: usize = 0;
    while j < blocks.len()
        invariant
            j <= blocks@.len(),
            out@ == spec_predecessors(blocks@.take(j as int), pc),
        decreases blocks@.len() - j,
    {
        assert(blocks@.take(j as int + 1).drop_last() =~= blocks@.take(j as int));
        if terminator_leads_to(blocks[j].terminator, pc) {
            out.push(blocks[j].start_addr);
        }
        j = j + 1;
    }
    assert(blocks@.take(j as int) =~= blocks@);
    out
}

/// Rephrases every block of `cfg`, in order. Never fails.
pub fn rephrase(cfg: Cfg) -> (r: Result<Vec<RephrasedBlock>, SharedAllocError>)
    ensures
        r matches Ok(out) && rephrased_program_ok(cfg.blocks@, out@),
{
    let mut blocks: Vec<RephrasedBlock> = Vec::with_capacity(cfg.blocks.len());
    let mut i: usize = 0;
    while i < cfg.blocks.len()
        invariant
            i <= cfg.blocks@.len(),
            blocks@.len() == i,
            forall|k: int| 0 <= k < i ==> #[trigger] rephrased_block_ok(cfg.blocks@, k, blocks@[k]),
        decreases cfg.blocks@.len() - i,
    {
        let block = &cfg.blocks[i];
        let mut insns: Vec<RephrasedInsn> = Vec::new();
        let mut j: usize = 0;
        while j < block.insns.len()
            invariant
                j <= block.insns@.len(),
                insns@ == spec_rephrase_all(block.insns@.take(j as int)),
            decreases block.insns@.len() - j,
        {
            let d = block.insns[j];
            assert(block.insns@.take(j as int + 1).drop_last() =~= block.insns@.take(j as int));
            match rephrase_insn(IrInsn { pc: d.pc, word: d.word, inner: d.insn }) {
                Ok(mut v) => {
                    insns.append(&mut v);
                },
                Err(e) => {
                    return Err(e);
                },
            }
            j = j + 1;
        }
        assert(block.insns@.take(j as int) =~= block.insns@);
        let next = successors(block.terminator);
        let prev = predecessors(&cfg.blocks, block.start_addr);
        blocks.push(RephrasedBlock { start_addr: block.start_addr, end_addr: block.end_addr, prev, next, insns });
        i = i + 1;
    }
    Ok(blocks)
}

/// The instruction leaves translated code for the runtime.
pub open spec fn is_exit(insn: IrInsn) -> bool {
    insn.inner.spec_runtime_exit_reason(insn.pc) is Some
}

/// Every rephrased instruction stands for the pc of the instruction it came
/// from and is itself no runtime exit: a call, indirect branch, return or
/// supervisor call never survives rephrasing. Every one of them is either
/// user-semantic or part of a runtime exit.
pub proof fn lemma_no_raw_exit_survives(insn: IrInsn)
    ensures
        forall|i: int|
            0 <= i < spec_rephrase_insn(insn).len() ==> {
                let e = #[trigger] spec_rephrase_insn(insn)[i];
                &&& e.ori_pc == insn.pc
                &&& e.insn.spec_runtime_exit_reason(e.ori_pc) is None
                &&& (e.kind.spec_is_runtime_exit() || e.kind.spec_is_user_semantic())
            },
{
}

/// A runtime exit is rephrased into payload and user-synthetic instructions
/// followed by exactly one branch to the exit stub, the last instruction; any
/// other instruction yields no such branch.
pub proof fn lemma_one_exit_branch_last(insn: IrInsn)
    ensures
        forall|i: int|
            0 <= i < spec_rephrase_insn(insn).len() ==> ((#[trigger] spec_rephrase_insn(insn)[i]).kind is RuntimeExitBranch
                <==> (is_exit(insn) && i == spec_rephrase_insn(insn).len() - 1)),
        is_exit(insn) ==> forall|i: int|
            0 <= i < spec_rephrase_insn(insn).len() - 1 ==> ((#[trigger] spec_rephrase_insn(insn)[i]).kind is RuntimeExitPayload
                || spec_rephrase_insn(insn)[i].kind is UserSynthetic),
{
}

/// BL and BLR write the resume address into the link register with
/// user-semantic moves; every write of x30 they emit is one.
pub proof fn lemma_call_link_update_is_user_semantic(insn: IrInsn)
    requires
        insn.inner is BlBlOnlyBranchImm || insn.inner is BlrBlr64BranchReg,
    ensures
        exists|i: int|
            0 <= i < spec_rephrase_insn(insn).len() && (#[trigger] spec_rephrase_insn(insn)[i]).kind is UserSynthetic
                && writes_link(spec_rephrase_insn(insn)[i].insn),
        forall|i: int|
            0 <= i < spec_rephrase_insn(insn).len() && writes_link((#[trigger] spec_rephrase_insn(insn)[i]).insn)
                ==> spec_rephrase_insn(insn)[i].kind is UserSynthetic,
{
    let r = spec_rephrase_insn(insn);
    if insn.inner is BlBlOnlyBranchImm {
        assert(r[0].kind is UserSynthetic && writes_link(r[0].insn));
    } else {
        assert(r[1].kind is UserSynthetic && writes_link(r[1].insn));
    }
}

/// The instruction is a MOVZ or MOVK of x30.
pub open spec fn writes_link(i: A64Insn) -> bool {
    match i {
        A64Insn::MovzMovz64Movewide { rd, .. } => rd.enc == ABI_LINK_REG,
        A64Insn::MovkMovk64Movewide { rd, .. } => rd.enc == ABI_LINK_REG,
        _ => false,
    }
}

/// BLR captures its target register into the payload before anything else,
/// so that BLR x30 calls the old x30, and the link update follows.
pub proof fn lemma_blr_captures_target_first(insn: IrInsn, rn: A64Reg)
    requires
        insn.inner == (A64Insn::BlrBlr64BranchReg { rn }),
    ensures
        spec_rephrase_insn(insn)[0] == spec_exit_move(insn.pc, rn.enc),
        spec_rephrase_insn(insn)[1].kind is UserSynthetic,
{
}

/// ADR and ADRP become four user-synthetic moves of the address they compute.
pub proof fn lemma_pc_relative_becomes_moves(insn: IrInsn)
    requires
        insn.inner is AdrAdrOnlyPcreladdr || insn.inner is AdrpAdrpOnlyPcreladdr,
    ensures
        spec_rephrase_insn(insn).len() == 4,
        forall|i: int| 0 <= i < 4 ==> (#[trigger] spec_rephrase_insn(insn)[i]).kind is UserSynthetic,
{
}

/// Any other instruction is kept as it is.
pub proof fn lemma_other_insns_kept(insn: IrInsn)
    requires
        !is_exit(insn),
        insn.inner.spec_pc_relative_address(insn.pc) is None,
    ensures
        spec_rephrase_insn(insn) == seq![RephrasedInsn { kind: RephrasedInsnKind::Original, ori_pc: insn.pc, insn: insn.inner }],
{
}

/// The four half-words of a value each fit 16 bits.
proof fn lemma_lanes_fit(value: u64)
    ensures
        (((value >> 48u64) & 0xFFFFu64) as u32) < 0x10000,
        (((value >> 32u64) & 0xFFFFu64) as u32) < 0x10000,
        (((value >> 16u64) & 0xFFFFu64) as u32) < 0x10000,
        ((value & 0xFFFFu64) as u32) < 0x10000,
{
    assert((((value >> 48u64) & 0xFFFFu64) as u32) < 0x10000 && (((value >> 32u64) & 0xFFFFu64) as u32) < 0x10000
        && (((value >> 16u64) & 0xFFFFu64) as u32) < 0x10000 && ((value & 0xFFFFu64) as u32) < 0x10000) by (bit_vector);
}

/// Rephrasing an encodable instruction gives encodable instructions.
pub proof fn lemma_rephrase_insn_fits(insn: IrInsn)
    requires
        insn.inner.spec_fits(),
    ensures
        forall|k: int| 0 <= k < spec_rephrase_insn(insn).len() ==> (#[trigger] spec_rephrase_insn(insn)[k]).insn.spec_fits(),
{
    let pc = insn.pc;
    lemma_lanes_fit(ir::wrap_add(pc, 4));
    lemma_lanes_fit(0);
    lemma_lanes_fit(1);
    lemma_lanes_fit(2);
    lemma_lanes_fit(3);
    lemma_lanes_fit(4);
    match insn.inner {
        A64Insn::AdrAdrOnlyPcreladdr { .. } | A64Insn::AdrpAdrpOnlyPcreladdr { .. } => {
            lemma_lanes_fit(insn.inner.spec_pc_relative_address(pc)->0);
        },
        A64Insn::BlBlOnlyBranchImm { imm26 } => {
            lemma_lanes_fit(ir::branch_target(pc, imm26.raw, 26));
        },
        _ => {},
    }
}

/// Rephrasing encodable instructions gives encodable instructions.
pub proof fn lemma_rephrase_all_fits(insns: Seq<DecodedInsn>)
    requires
        forall|k: int| 0 <= k < insns.len() ==> (#[trigger] insns[k]).insn.spec_fits(),
    ensures
        forall|k: int| 0 <= k < spec_rephrase_all(insns).len() ==> (#[trigger] spec_rephrase_all(insns)[k]).insn.spec_fits(),
    decreases insns.len(),
{
    if insns.len() > 0 {
        let d = insns.drop_last();
        lemma_rephrase_all_fits(d);
        lemma_rephrase_insn_fits(to_ir(insns.last()));
        let a = spec_rephrase_all(d);
        let t = spec_rephrase_insn(to_ir(insns.last()));
        assert forall|k: int| 0 <= k < spec_rephrase_all(insns).len() implies (#[trigger] spec_rephrase_all(insns)[k]).insn.spec_fits() by {
            if k < a.len() {
                assert(spec_rephrase_all(insns)[k] == a[k]);
            } else {
                assert(spec_rephrase_all(insns)[k] == t[k - a.len()]);
            }
        }
    }
}

} // verus!
