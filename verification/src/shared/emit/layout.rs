//! Layout: rephrased code placed after the prologue and epilogue, with a
//! label for each original pc and every branch resolved to its place in the
//! fragment.
use vstd::prelude::*;

use crate::shared::abi::{
    append_epilogue, append_prologue, spec_kjit_epilogue, spec_kjit_prologue, lemma_wrappers_encodable,
    EPILOGUE_INSN_COUNT, EPILOGUE_LEN_BYTES, EPILOGUE_OFFSET, PROLOGUE_ENTRY_BRANCH_OFFSET,
    PROLOGUE_INSN_COUNT, PROLOGUE_LEN_BYTES,
};
use crate::shared::arm64::ir;
use crate::shared::arm64::{A64Imm, A64Insn, A64OperandRole, A64RewriteError};
use crate::shared::platform::SharedAllocError;
use crate::shared::trans::rephrase::{RephrasedBlock, RephrasedInsn, RephrasedInsnKind};

verus! {

/// The label of each original pc: the offset of its first instruction.
pub type LayoutVLabels = Vec<(u64, usize)>;

/// Laid-out code: the instructions, the offset at which the entry pc's code
/// begins, and the labels.
#[derive(Debug, PartialEq, Eq)]
pub struct ExecutionFragment {
    pub insns: Vec<A64Insn>,
    pub entry_offset: usize,
    pub vlabels: LayoutVLabels,
}

/// The offset of the first label for `pc`.
pub open spec fn find_label(vl: Seq<(u64, usize)>, pc: u64) -> Option<usize>
    decreases vl.len(),
{
    if vl.len() == 0 {
        None
    } else if vl[0].0 == pc {
        Some(vl[0].1)
    } else {
        find_label(vl.subrange(1, vl.len() as int), pc)
    }
}

fn find_vlabel(vlabels: &Vec<(u64, usize)>, original_pc: u64) -> (r: Option<usize>)
    ensures
        r == find_label(vlabels@, original_pc),
{
    let mut i: usize = 0;
    assert(vlabels@.subrange(0, vlabels@.len() as int) =~= vlabels@);
    while i < vlabels.len()
        invariant
            i <= vlabels@.len(),
            find_label(vlabels@, original_pc) == find_label(vlabels@.subrange(i as int, vlabels@.len() as int), original_pc),
        decreases vlabels@.len() - i,
    {
        let ghost rest = vlabels@.subrange(i as int, vlabels@.len() as int);
        assert(rest.subrange(1, rest.len() as int) =~= vlabels@.subrange(i as int + 1, vlabels@.len() as int));
        assert(rest[0] == vlabels@[i as int]);
        if vlabels[i].0 == original_pc {
            return Some(vlabels[i].1);
        }
        i = i + 1;
    }
    None
}

impl ExecutionFragment {
    /// The size of the code in bytes.
    pub fn len_bytes(&self) -> (r: usize)
        requires
            self.insns@.len() * 4 <= usize::MAX,
        ensures
            r == self.insns@.len() * 4,
    {
        self.insns.len() * 4
    }

    /// Where the code for `original_pc` begins, if it was laid out.
    pub fn offset_for_pc(&self, original_pc: u64) -> (r: Option<usize>)
        ensures
            r == find_label(self.vlabels@, original_pc),
    {
        find_vlabel(&self.vlabels, original_pc)
    }
}

/// Why a program could not be laid out.
#[derive(Clone, Copy, Debug, PartialEq, Eq)]
pub enum LayoutError {
    Alloc(SharedAllocError),
    EmptyProgram,
    MissingLabel { target_original_pc: u64 },
    BranchOutOfRange { insn_index: usize, target_original_pc: u64 },
    UnalignedBranchTarget { insn_index: usize, target_original_pc: u64 },
    UnsupportedBranchField { insn_index: usize, field: &'static str },
}

impl From<SharedAllocError> for LayoutError {
    fn from(err: SharedAllocError) -> (r: Self) {
        LayoutError::Alloc(err)
    }
}

impl vstd::std_specs::convert::FromSpecImpl<SharedAllocError> for LayoutError {
    open spec fn obeys_from_spec() -> bool {
        true
    }

    open spec fn from_spec(v: SharedAllocError) -> Self {
        LayoutError::Alloc(v)
    }
}

/// A branch of the original code, to be pointed at the label of its target.
#[derive(Clone, Copy, Debug, PartialEq, Eq, Structural)]
pub struct BranchReloc {
    pub insn_index: usize,
    pub target_original_pc: u64,
    pub kind: BranchRelocKind,
}

/// The branch forms that are relocated.
#[derive(Clone, Copy, Debug, PartialEq, Eq, Structural)]
pub enum BranchRelocKind {
    B,
    BCond,
    Bl,
    Cbz,
    Cbnz,
    Tbz,
    Tbnz,
}

impl BranchRelocKind {
    pub open spec fn spec_from_insn(insn: A64Insn) -> Option<BranchRelocKind> {
        match insn {
            A64Insn::BUncondBOnlyBranchImm { .. } => Some(BranchRelocKind::B),
            A64Insn::BCondBOnlyCondbranch { .. } => Some(BranchRelocKind::BCond),
            A64Insn::BlBlOnlyBranchImm { .. } => Some(BranchRelocKind::Bl),
            A64Insn::CbzCbz32Compbranch { .. } | A64Insn::CbzCbz64Compbranch { .. } => Some(BranchRelocKind::Cbz),
            A64Insn::CbnzCbnz32Compbranch { .. } | A64Insn::CbnzCbnz64Compbranch { .. } => Some(BranchRelocKind::Cbnz),
            A64Insn::TbzTbzOnlyTestbranch { .. } => Some(BranchRelocKind::Tbz),
            A64Insn::TbnzTbnzOnlyTestbranch { .. } => Some(BranchRelocKind::Tbnz),
            _ => None,
        }
    }

    pub fn from_insn(insn: A64Insn) -> (r: Option<BranchRelocKind>)
        ensures
            r == Self::spec_from_insn(insn),
    {
        match insn {
            A64Insn::BUncondBOnlyBranchImm { .. } => Some(BranchRelocKind::B),
            A64Insn::BCondBOnlyCondbranch { .. } => Some(BranchRelocKind::BCond),
            A64Insn::BlBlOnlyBranchImm { .. } => Some(BranchRelocKind::Bl),
            A64Insn::CbzCbz32Compbranch { .. } | A64Insn::CbzCbz64Compbranch { .. } => Some(BranchRelocKind::Cbz),
            A64Insn::CbnzCbnz32Compbranch { .. } | A64Insn::CbnzCbnz64Compbranch { .. } => Some(BranchRelocKind::Cbnz),
            A64Insn::TbzTbzOnlyTestbranch { .. } => Some(BranchRelocKind::Tbz),
            A64Insn::TbnzTbnzOnlyTestbranch { .. } => Some(BranchRelocKind::Tbnz),
            _ => None,
        }
    }
}

/// The first branch-target role: its field, scale and width.
pub open spec fn first_branch_role(roles: Seq<A64OperandRole>) -> Option<(&'static str, u8, u8)>
    decreases roles.len(),
{
    if roles.len() == 0 {
        None
    } else {
        match roles[0] {
            A64OperandRole::BranchTarget { field, scale, bits } => Some((field, scale, bits)),
            _ => first_branch_role(roles.subrange(1, roles.len() as int)),
        }
    }
}

fn branch_target_role(insn: A64Insn) -> (r: Option<(&'static str, u8, u8)>)
    ensures
        r == first_branch_role(insn.spec_roles()),
{
    let roles = insn.operand_roles();
    let ghost all = roles@;
    assert(all.subrange(0, all.len() as int) =~= all);
    let mut i: usize = 0;
    while i < roles.len()
        invariant
            i <= roles@.len(),
            all == roles@,
            all == insn.spec_roles(),
            first_branch_role(all) == first_branch_role(all.subrange(i as int, all.len() as int)),
        decreases roles@.len() - i,
    {
        let ghost rest = all.subrange(i as int, all.len() as int);
        assert(rest.subrange(1, rest.len() as int) =~= all.subrange(i as int + 1, all.len() as int));
        assert(rest[0] == roles@[i as int]);
        if let A64OperandRole::BranchTarget { field, scale, bits } = roles[i] {
            return Some((field, scale, bits));
        }
        i = i + 1;
    }
    None
}

/// The branch-target role of a form is that of its branch field, scaled by
/// four; forms without a branch field have none.
pub proof fn lemma_branch_role_shape(insn: A64Insn)
    ensures
        first_branch_role(insn.spec_roles()) == (if insn.spec_branch_imm() is Some {
            Some((insn.spec_branch_field(), 2u8, insn.spec_branch_bits()))
        } else {
            None::<(&'static str, u8, u8)>
        }),
{
    reveal_with_fuel(first_branch_role, 6);
}

/// The index of the first body instruction: after the prologue and the
/// epilogue.
pub open spec fn body_start() -> int {
    PROLOGUE_INSN_COUNT + EPILOGUE_INSN_COUNT
}

/// The instructions of all blocks, in order.
pub open spec fn spec_body(p: Seq<RephrasedBlock>) -> Seq<RephrasedInsn>
    decreases p.len(),
{
    if p.len() == 0 {
        seq![]
    } else {
        spec_body(p.drop_last()) + p.last().insns@
    }
}

/// The machine instructions of rephrased ones.
pub open spec fn insns_of(s: Seq<RephrasedInsn>) -> Seq<A64Insn> {
    s.map_values(|r: RephrasedInsn| r.insn)
}

/// The labels of the body `b`: one per original pc, at the offset of its
/// first instruction, in order of first appearance.
pub open spec fn spec_vlabels(b: Seq<RephrasedInsn>) -> Seq<(u64, usize)>
    decreases b.len(),
{
    if b.len() == 0 {
        seq![]
    } else {
        let prev = spec_vlabels(b.drop_last());
        let k = b.len() - 1;
        if find_label(prev, b[k].ori_pc) is None {
            prev.push((b[k].ori_pc, ((body_start() + k) * 4) as usize))
        } else {
            prev
        }
    }
}

/// The target of a branch at `pc` whose `bits`-bit field holds `encoded`
/// units of `2^scale` bytes.
pub open spec fn spec_reloc_target(pc: u64, encoded: u32, bits: u8, scale: u8) -> u64 {
    ir::wrap_add(pc, ir::sext(encoded, bits as nat) * vstd::arithmetic::power2::pow2(scale as nat))
}

/// The relocation an original instruction at fragment index `idx` needs:
/// none for a form without a branch field or one not relocated.
pub open spec fn spec_reloc_at(r: RephrasedInsn, idx: int) -> Result<Option<BranchReloc>, LayoutError> {
    if r.kind is Original {
        match first_branch_role(r.insn.spec_roles()) {
            None => Ok(None),
            Some((field, scale, bits)) => match r.insn.spec_branch_target_imm(field@) {
                None => Err(LayoutError::UnsupportedBranchField { insn_index: idx as usize, field }),
                Some(encoded) => match BranchRelocKind::spec_from_insn(r.insn) {
                    None => Ok(None),
                    Some(kind) => Ok(
                        Some(
                            BranchReloc {
                                insn_index: idx as usize,
                                target_original_pc: spec_reloc_target(r.ori_pc, encoded, bits, scale),
                                kind,
                            },
                        ),
                    ),
                },
            },
        }
    } else {
        Ok(None)
    }
}

/// The relocations of the body, in order; the first refusal if any.
pub open spec fn spec_relocs(b: Seq<RephrasedInsn>) -> Result<Seq<BranchReloc>, LayoutError>
    decreases b.len(),
{
    if b.len() == 0 {
        Ok(seq![])
    } else {
        match spec_relocs(b.drop_last()) {
            Err(e) => Err(e),
            Ok(rs) => match spec_reloc_at(b.last(), body_start() + b.len() - 1) {
                Err(e) => Err(e),
                Ok(None) => Ok(rs),
                Ok(Some(x)) => Ok(rs.push(x)),
            },
        }
    }
}

/// The fragment indices of the branches to the exit stub.
pub open spec fn spec_exit_indices(b: Seq<RephrasedInsn>) -> Seq<usize>
    decreases b.len(),
{
    if b.len() == 0 {
        seq![]
    } else if b.last().kind is RuntimeExitBranch {
        spec_exit_indices(b.drop_last()).push((body_start() + b.len() - 1) as usize)
    } else {
        spec_exit_indices(b.drop_last())
    }
}

/// The field value that makes a branch at byte `source` reach byte
/// `target`: the distance in units of `2^scale` bytes, as a `bits`-bit two's
/// complement number. Refused when the distance is not a whole number of
/// units or does not fit.
pub open spec fn spec_encode_branch_delta(
    source: usize,
    target: usize,
    scale: u8,
    bits: u8,
    insn_index: usize,
    target_original_pc: u64,
) -> Result<u32, LayoutError> {
    if bits == 0 || bits >= 32 || scale >= 32 {
        Err(LayoutError::BranchOutOfRange { insn_index, target_original_pc })
    } else {
        let delta = target - source;
        let mag = if delta >= 0 { delta } else { -delta };
        let align = vstd::arithmetic::power2::pow2(scale as nat) as int;
        if mag % align != 0 {
            Err(LayoutError::UnalignedBranchTarget { insn_index, target_original_pc })
        } else {
            let scaled = if delta >= 0 { mag / align } else { -(mag / align) };
            let half = vstd::arithmetic::power2::pow2((bits - 1) as nat) as int;
            if scaled < -half || scaled > half - 1 {
                Err(LayoutError::BranchOutOfRange { insn_index, target_original_pc })
            } else {
                Ok((if scaled >= 0 { scaled } else { scaled + 2 * half }) as u32)
            }
        }
    }
}

/// The instructions with the branch at `idx` pointed at byte `target`.
pub open spec fn spec_rewrite(insns: Seq<A64Insn>, idx: usize, target: usize, target_original_pc: u64) -> Result<Seq<A64Insn>, LayoutError> {
    if idx >= insns.len() {
        Err(LayoutError::BranchOutOfRange { insn_index: idx, target_original_pc })
    } else {
        match first_branch_role(insns[idx as int].spec_roles()) {
            None => Err(LayoutError::UnsupportedBranchField { insn_index: idx, field: "" }),
            Some((field, scale, bits)) => match spec_encode_branch_delta(
                (idx * 4) as usize,
                target,
                scale,
                bits,
                idx,
                target_original_pc,
            ) {
                Err(e) => Err(e),
                Ok(encoded) => match insns[idx as int].spec_set_branch_target_imm(field, encoded) {
                    Ok(n) => Ok(insns.update(idx as int, n)),
                    Err(A64RewriteError::UnsupportedField { field, .. }) => Err(
                        LayoutError::UnsupportedBranchField { insn_index: idx, field },
                    ),
                    Err(A64RewriteError::FieldOutOfRange { .. }) => Err(
                        LayoutError::BranchOutOfRange { insn_index: idx, target_original_pc },
                    ),
                },
            },
        }
    }
}

/// Every exit branch pointed at the epilogue, in order.
pub open spec fn spec_apply_exits(insns: Seq<A64Insn>, ex: Seq<usize>) -> Result<Seq<A64Insn>, LayoutError>
    decreases ex.len(),
{
    if ex.len() == 0 {
        Ok(insns)
    } else {
        match spec_rewrite(insns, ex[0], EPILOGUE_OFFSET, u64::MAX) {
            Err(e) => Err(e),
            Ok(n) => spec_apply_exits(n, ex.subrange(1, ex.len() as int)),
        }
    }
}

/// Every relocated branch pointed at the label of its target, in order.
pub open spec fn spec_apply_relocs(insns: Seq<A64Insn>, rs: Seq<BranchReloc>, vl: Seq<(u64, usize)>) -> Result<Seq<A64Insn>, LayoutError>
    decreases rs.len(),
{
    if rs.len() == 0 {
        Ok(insns)
    } else {
        match find_label(vl, rs[0].target_original_pc) {
            None => Err(LayoutError::MissingLabel { target_original_pc: rs[0].target_original_pc }),
            Some(off) => match spec_rewrite(insns, rs[0].insn_index, off, rs[0].target_original_pc) {
                Err(e) => Err(e),
                Ok(n) => spec_apply_relocs(n, rs.subrange(1, rs.len() as int), vl),
            },
        }
    }
}

/// The most body instructions a fragment can hold: its size in bytes must
/// fit a `usize`.
pub open spec fn body_fits(n: int) -> bool {
    (n + body_start()) * 4 <= usize::MAX
}

/// The layout of a program: the instructions, the entry offset and the
/// labels; or why there is none.
pub open spec fn spec_layout(p: Seq<RephrasedBlock>) -> Result<(Seq<A64Insn>, usize, Seq<(u64, usize)>), LayoutError> {
    let b = spec_body(p);
    let vl = spec_vlabels(b);
    let placed = spec_kjit_prologue() + spec_kjit_epilogue() + insns_of(b);
    if p.len() == 0 {
        Err(LayoutError::EmptyProgram)
    } else if !body_fits(b.len() as int) {
        Err(LayoutError::Alloc(SharedAllocError::Alloc))
    } else {
        match spec_relocs(b) {
            Err(e) => Err(e),
            Ok(rs) => match find_label(vl, p[0].start_addr) {
                None => Err(LayoutError::MissingLabel { target_original_pc: p[0].start_addr }),
                Some(entry) => match spec_rewrite(placed, (PROLOGUE_ENTRY_BRANCH_OFFSET / 4) as usize, entry, u64::MAX) {
                    Err(e) => Err(e),
                    Ok(i1) => match spec_apply_exits(i1, spec_exit_indices(b)) {
                        Err(e) => Err(e),
                        Ok(i2) => match spec_apply_relocs(i2, rs, vl) {
                            Err(e) => Err(e),
                            Ok(i3) => Ok((i3, entry, vl)),
                        },
                    },
                },
            },
        }
    }
}

fn encode_branch_delta(
    source_offset: usize,
    target_offset: usize,
    scale: u8,
    bits: u8,
    insn_index: usize,
    target_original_pc: u64,
) -> (r: Result<u32, LayoutError>)
    ensures
        r == spec_encode_branch_delta(source_offset, target_offset, scale, bits, insn_index, target_original_pc),
{
    if bits == 0 || bits >= 32 || scale >= 32 {
        return Err(LayoutError::BranchOutOfRange { insn_index, target_original_pc });
    }
    proof {
        vstd::arithmetic::power2::lemma2_to64();
        vstd::arithmetic::power2::lemma_pow2_pos(scale as nat);
        vstd::arithmetic::power2::lemma_pow2_pos((bits - 1) as nat);
        if scale < 31 {
            vstd::arithmetic::power2::lemma_pow2_strictly_increases(scale as nat, 31);
        }
        if bits - 1 < 31 {
            vstd::arithmetic::power2::lemma_pow2_strictly_increases((bits - 1) as nat, 31);
        }
        vstd::bits::lemma_u64_shl_is_mul(1, scale as u64);
        vstd::bits::lemma_u64_shl_is_mul(1, (bits - 1) as u64);
        vstd::arithmetic::power2::lemma_pow2_adds((bits - 1) as nat, 1);
    }
    let align: u64 = 1u64 << (scale as u64);
    let half: u64 = 1u64 << ((bits - 1) as u64);
    let neg = target_offset < source_offset;
    let mag: u64 = if neg {
        (source_offset - target_offset) as u64
    } else {
        (target_offset - source_offset) as u64
    };
    if mag % align != 0 {
        return Err(LayoutError::UnalignedBranchTarget { insn_index, target_original_pc });
    }
    let q = mag / align;
    if (!neg && q > half - 1) || (neg && q > half) {
        return Err(LayoutError::BranchOutOfRange { insn_index, target_original_pc });
    }
    if neg && q > 0 {
        Ok((2 * half - q) as u32)
    } else {
        Ok(q as u32)
    }
}

/// Points the branch at `insn_index` at byte `target_offset`.
fn rewrite_branch_to_offset(
    fragment: &mut ExecutionFragment,
    insn_index: usize,
    target_offset: usize,
    target_original_pc: u64,
) -> (r: Result<(), LayoutError>)
    requires
        old(fragment).insns@.len() * 4 <= usize::MAX,
    ensures
        final(fragment).entry_offset == old(fragment).entry_offset,
        final(fragment).vlabels@ == old(fragment).vlabels@,
        match spec_rewrite(old(fragment).insns@, insn_index, target_offset, target_original_pc) {
            Ok(n) => r is Ok && final(fragment).insns@ == n,
            Err(e) => r == Err::<(), LayoutError>(e),
        },
{
    if insn_index >= fragment.insns.len() {
        return Err(LayoutError::BranchOutOfRange { insn_index, target_original_pc });
    }
    let insn = fragment.insns[insn_index];
    let (field, scale, bits) = match branch_target_role(insn) {
        Some(role) => role,
        None => {
            return Err(LayoutError::UnsupportedBranchField { insn_index, field: "" });
        },
    };
    let encoded = match encode_branch_delta(insn_index * 4, target_offset, scale, bits, insn_index, target_original_pc) {
        Ok(v) => v,
        Err(e) => {
            return Err(e);
        },
    };
    match insn.set_branch_target_imm(field, encoded) {
        Ok(n) => {
            fragment.insns.set(insn_index, n);
            Ok(())
        },
        Err(A64RewriteError::UnsupportedField { field, .. }) => Err(
            LayoutError::UnsupportedBranchField { insn_index, field },
        ),
        Err(A64RewriteError::FieldOutOfRange { .. }) => Err(
            LayoutError::BranchOutOfRange { insn_index, target_original_pc },
        ),
    }
}

fn insert_vlabel_once(vlabels: &mut Vec<(u64, usize)>, original_pc: u64, output_offset: usize)
    ensures
        final(vlabels)@ == (if find_label(old(vlabels)@, original_pc) is None {
            old(vlabels)@.push((original_pc, output_offset))
        } else {
            old(vlabels)@
        }),
{
    if find_vlabel(vlabels, original_pc).is_none() {
        vlabels.push((original_pc, output_offset));
    }
}

fn reloc_target(pc: u64, encoded: u32, bits: u8, scale: u8) -> (r: u64)
    requires
        1 <= bits,
        scale == 2,
    ensures
        r == spec_reloc_target(pc, encoded, bits, scale),
{
    assert(vstd::arithmetic::power2::pow2(2) == 4) by {
        vstd::arithmetic::power2::lemma2_to64();
    }
    ir::pc_relative_target(pc, encoded, bits)
}

fn branch_reloc_for(insn: A64Insn, original_pc: u64, insn_index: usize) -> (r: Result<Option<BranchReloc>, LayoutError>)
    ensures
        r == spec_reloc_at(
            RephrasedInsn { kind: RephrasedInsnKind::Original, ori_pc: original_pc, insn },
            insn_index as int,
        ),
{
    proof {
        lemma_branch_role_shape(insn);
    }
    let (field, scale, bits) = match branch_target_role(insn) {
        Some(role) => role,
        None => {
            return Ok(None);
        },
    };
    let encoded = match insn.branch_target_imm(field) {
        Some(v) => v,
        None => {
            return Err(LayoutError::UnsupportedBranchField { insn_index, field });
        },
    };
    let kind = match BranchRelocKind::from_insn(insn) {
        Some(k) => k,
        None => {
            return Ok(None);
        },
    };
    Ok(Some(BranchReloc { insn_index, target_original_pc: reloc_target(original_pc, encoded, bits, scale), kind }))
}

proof fn lemma_body_step(p: Seq<RephrasedBlock>, i: int)
    requires
        0 <= i < p.len(),
    ensures
        spec_body(p.take(i + 1)) == spec_body(p.take(i)) + p[i].insns@,
{
    assert(p.take(i + 1).drop_last() =~= p.take(i));
}

/// The body of the first `k` blocks is a prefix of the whole body.
proof fn lemma_body_prefix(p: Seq<RephrasedBlock>, k: int)
    requires
        0 <= k <= p.len(),
    ensures
        spec_body(p.take(k)).len() <= spec_body(p).len(),
        spec_body(p.take(k)) == spec_body(p).take(spec_body(p.take(k)).len() as int),
    decreases p.len(),
{
    if k == p.len() {
        assert(p.take(k) =~= p);
        assert(spec_body(p).take(spec_body(p).len() as int) =~= spec_body(p));
    } else {
        let d = p.drop_last();
        assert(d.take(k) =~= p.take(k));
        lemma_body_prefix(d, k);
        assert(spec_body(p) == spec_body(d) + p.last().insns@);
        assert(spec_body(d) =~= spec_body(p).take(spec_body(d).len() as int));
        assert(spec_body(p.take(k)) =~= spec_body(p).take(spec_body(p.take(k)).len() as int));
    }
}

/// A refusal among the first `n` instructions is the refusal of the whole
/// body.
proof fn lemma_relocs_sticky(b: Seq<RephrasedInsn>, n: int)
    requires
        0 <= n <= b.len(),
        spec_relocs(b.take(n)) is Err,
    ensures
        spec_relocs(b) == spec_relocs(b.take(n)),
    decreases b.len(),
{
    if n == b.len() {
        assert(b.take(n) =~= b);
    } else {
        let d = b.drop_last();
        assert(d.take(n) =~= b.take(n));
        lemma_relocs_sticky(d, n);
    }
}

fn body_len(program: &Vec<RephrasedBlock>) -> (r: Option<usize>)
    ensures
        r matches Some(n) ==> n == spec_body(program@).len(),
        r is None ==> spec_body(program@).len() > usize::MAX,
{
    let mut acc: usize = 0;
    let mut i: usize = 0;
    assert(program@.take(0) =~= Seq::<RephrasedBlock>::empty());
    while i < program.len()
        invariant
            i <= program@.len(),
            acc == spec_body(program@.take(i as int)).len(),
        decreases program@.len() - i,
    {
        proof {
            lemma_body_step(program@, i as int);
        }
        let k = program[i].insns.len();
        if acc > usize::MAX - k {
            proof {
                lemma_body_prefix(program@, i as int + 1);
            }
            return None;
        }
        acc = acc + k;
        i = i + 1;
    }
    assert(program@.take(i as int) =~= program@);
    Some(acc)
}

/// Lays out a program: prologue, epilogue, then every block's code in order;
/// a label for each original pc; the prologue's entry branch pointed at the
/// entry pc's label, every exit branch at the epilogue, and every branch of
/// the original code at its target's label.
pub fn layout_program(program: Vec<RephrasedBlock>) -> (r: Result<ExecutionFragment, LayoutError>)
    ensures
        match spec_layout(program@) {
            Ok((insns, entry, vl)) => r matches Ok(f) && f.insns@ == insns && f.entry_offset == entry && f.vlabels@ == vl,
            Err(e) => r == Err::<ExecutionFragment, LayoutError>(e),
        },
{
    let ghost b = spec_body(program@);
    let count = body_len(&program);
    if program.len() == 0 {
        return Err(LayoutError::EmptyProgram);
    }
    let entry_pc = program[0].start_addr;
    let n = match count {
        Some(n) => n,
        None => {
            return Err(LayoutError::Alloc(SharedAllocError::Alloc));
        },
    };
    if n > usize::MAX / 4 - (PROLOGUE_INSN_COUNT + EPILOGUE_INSN_COUNT) {
        return Err(LayoutError::Alloc(SharedAllocError::Alloc));
    }
    proof {
        lemma_wrappers_encodable();
    }
    let mut insns: Vec<A64Insn> = Vec::new();
    append_prologue(&mut insns);
    append_epilogue(&mut insns);
    let mut vlabels: Vec<(u64, usize)> = Vec::new();
    let mut relocs: Vec<BranchReloc> = Vec::new();
    let mut exits: Vec<usize> = Vec::new();
    let ghost head = spec_kjit_prologue() + spec_kjit_epilogue();
    assert(program@.take(0) =~= Seq::<RephrasedBlock>::empty());
    assert(insns@ =~= head + insns_of(spec_body(program@.take(0))));
    let mut i: usize = 0;
    while i < program.len()
        invariant
            i <= program@.len(),
            b == spec_body(program@),
            body_fits(b.len() as int),
            program@.len() > 0,
            entry_pc == program@[0].start_addr,
            head.len() == body_start(),
            head == spec_kjit_prologue() + spec_kjit_epilogue(),
            spec_body(program@.take(i as int)) == b.take(spec_body(program@.take(i as int)).len() as int),
            spec_body(program@.take(i as int)).len() <= b.len(),
            insns@ == head + insns_of(spec_body(program@.take(i as int))),
            vlabels@ == spec_vlabels(spec_body(program@.take(i as int))),
            spec_relocs(spec_body(program@.take(i as int))) == Ok::<Seq<BranchReloc>, LayoutError>(relocs@),
            exits@ == spec_exit_indices(spec_body(program@.take(i as int))),
        decreases program@.len() - i,
    {
        let ghost pre = spec_body(program@.take(i as int));
        proof {
            lemma_body_step(program@, i as int);
            lemma_body_prefix(program@, i as int + 1);
        }
        let block_insns = &program[i].insns;
        assert(block_insns@.take(0) =~= Seq::<RephrasedInsn>::empty());
        assert(pre + block_insns@.take(0) =~= pre);
        let mut j: usize = 0;
        while j < block_insns.len()
            invariant
                j <= block_insns@.len(),
                i < program@.len(),
                block_insns@ == program@[i as int].insns@,
                b == spec_body(program@),
                body_fits(b.len() as int),
                head.len() == body_start(),
                pre == spec_body(program@.take(i as int)),
                spec_body(program@.take(i as int + 1)) == pre + block_insns@,
                spec_body(program@.take(i as int + 1)) == b.take(spec_body(program@.take(i as int + 1)).len() as int),
                spec_body(program@.take(i as int + 1)).len() <= b.len(),
                insns@ == head + insns_of(pre + block_insns@.take(j as int)),
                vlabels@ == spec_vlabels(pre + block_insns@.take(j as int)),
                spec_relocs(pre + block_insns@.take(j as int)) == Ok::<Seq<BranchReloc>, LayoutError>(relocs@),
                exits@ == spec_exit_indices(pre + block_insns@.take(j as int)),
            decreases block_insns@.len() - j,
        {
            let ghost done = pre + block_insns@.take(j as int);
            let ghost next = pre + block_insns@.take(j as int + 1);
            let rephrased = block_insns[j];
            assert(next =~= done.push(rephrased));
            assert(next.drop_last() =~= done);
            assert(next =~= b.take(next.len() as int));
            assert(insns_of(next) =~= insns_of(done).push(rephrased.insn));
            let insn_index = insns.len();
            let output_offset = insn_index * 4;
            insert_vlabel_once(&mut vlabels, rephrased.ori_pc, output_offset);
            if matches!(rephrased.kind, RephrasedInsnKind::Original) {
                match branch_reloc_for(rephrased.insn, rephrased.ori_pc, insn_index) {
                    Ok(Some(reloc)) => {
                        relocs.push(reloc);
                    },
                    Ok(None) => {},
                    Err(e) => {
                        proof {
                            lemma_relocs_sticky(b, next.len() as int);
                        }
                        return Err(e);
                    },
                }
            } else if matches!(rephrased.kind, RephrasedInsnKind::RuntimeExitBranch) {
                exits.push(insn_index);
            }
            insns.push(rephrased.insn);
            assert(insns@ =~= head + insns_of(next));
            j = j + 1;
        }
        assert(block_insns@.take(j as int) =~= block_insns@);
        i = i + 1;
    }
    assert(program@.take(i as int) =~= program@);
    let entry_offset = match find_vlabel(&vlabels, entry_pc) {
        Some(off) => off,
        None => {
            return Err(LayoutError::MissingLabel { target_original_pc: entry_pc });
        },
    };
    let mut fragment = ExecutionFragment { insns, entry_offset, vlabels };
    match rewrite_branch_to_offset(&mut fragment, PROLOGUE_ENTRY_BRANCH_OFFSET / 4, entry_offset, u64::MAX) {
        Ok(()) => {},
        Err(e) => {
            return Err(e);
        },
    }
    let ghost i1 = fragment.insns@;
    let ghost ex = exits@;
    assert(ex.subrange(0, ex.len() as int) =~= ex);
    let mut k: usize = 0;
    while k < exits.len()
        invariant
            k <= ex.len(),
            ex == exits@,
            b == spec_body(program@),
            program@.len() > 0,
            body_fits(b.len() as int),
            spec_relocs(b) == Ok::<Seq<BranchReloc>, LayoutError>(relocs@),
            find_label(spec_vlabels(b), program@[0].start_addr) == Some(entry_offset),
            spec_rewrite(spec_kjit_prologue() + spec_kjit_epilogue() + insns_of(b), (PROLOGUE_ENTRY_BRANCH_OFFSET / 4) as usize, entry_offset, u64::MAX) == Ok::<Seq<A64Insn>, LayoutError>(i1),
            spec_exit_indices(b) == exits@,

            fragment.insns@.len() == i1.len(),
            i1.len() * 4 <= usize::MAX,
            fragment.entry_offset == entry_offset,
            fragment.vlabels@ == spec_vlabels(b),
            spec_apply_exits(i1, ex) == spec_apply_exits(fragment.insns@, ex.subrange(k as int, ex.len() as int)),
        decreases ex.len() - k,
    {
        let ghost rest = ex.subrange(k as int, ex.len() as int);
        assert(rest.subrange(1, rest.len() as int) =~= ex.subrange(k as int + 1, ex.len() as int));
        assert(rest[0] == exits@[k as int]);
        match rewrite_branch_to_offset(&mut fragment, exits[k], EPILOGUE_OFFSET, u64::MAX) {
            Ok(()) => {},
            Err(e) => {
                return Err(e);
            },
        }
        k = k + 1;
    }
    assert(ex.subrange(k as int, ex.len() as int) =~= Seq::<usize>::empty());
    let ghost i2 = fragment.insns@;
    let ghost rs = relocs@;
    assert(rs.subrange(0, rs.len() as int) =~= rs);
    let mut m: usize = 0;
    while m < relocs.len()
        invariant
            m <= rs.len(),
            rs == relocs@,
            ex == exits@,
            spec_apply_exits(i1, ex) == Ok::<Seq<A64Insn>, LayoutError>(i2),
            b == spec_body(program@),
            program@.len() > 0,
            body_fits(b.len() as int),
            spec_relocs(b) == Ok::<Seq<BranchReloc>, LayoutError>(relocs@),
            find_label(spec_vlabels(b), program@[0].start_addr) == Some(entry_offset),
            spec_rewrite(spec_kjit_prologue() + spec_kjit_epilogue() + insns_of(b), (PROLOGUE_ENTRY_BRANCH_OFFSET / 4) as usize, entry_offset, u64::MAX) == Ok::<Seq<A64Insn>, LayoutError>(i1),
            spec_exit_indices(b) == exits@,

            fragment.insns@.len() == i1.len(),
            i1.len() * 4 <= usize::MAX,
            fragment.entry_offset == entry_offset,
            fragment.vlabels@ == spec_vlabels(b),
            spec_apply_relocs(i2, rs, spec_vlabels(b)) == spec_apply_relocs(
                fragment.insns@,
                rs.subrange(m as int, rs.len() as int),
                spec_vlabels(b),
            ),
        decreases rs.len() - m,
    {
        let ghost rest = rs.subrange(m as int, rs.len() as int);
        assert(rest.subrange(1, rest.len() as int) =~= rs.subrange(m as int + 1, rs.len() as int));
        let reloc = relocs[m];
        assert(rest[0] == reloc);
        let target_offset = match find_vlabel(&fragment.vlabels, reloc.target_original_pc) {
            Some(off) => off,
            None => {
                proof {
                    let err = LayoutError::MissingLabel { target_original_pc: reloc.target_original_pc };
                    assert(spec_apply_relocs(fragment.insns@, rest, spec_vlabels(b)) == Err::<Seq<A64Insn>, LayoutError>(err));
                    assert(spec_apply_relocs(i2, rs, spec_vlabels(b)) == Err::<Seq<A64Insn>, LayoutError>(err));
                }
                return Err(LayoutError::MissingLabel { target_original_pc: reloc.target_original_pc });
            },
        };
        let ghost before = fragment.insns@;
        match rewrite_branch_to_offset(&mut fragment, reloc.insn_index, target_offset, reloc.target_original_pc) {
            Ok(()) => {},
            Err(e) => {
                proof {
                    assert(spec_apply_relocs(before, rest, spec_vlabels(b)) == Err::<Seq<A64Insn>, LayoutError>(e));
                    assert(spec_apply_relocs(i2, rs, spec_vlabels(b)) == Err::<Seq<A64Insn>, LayoutError>(e));
                }
                return Err(e);
            },
        }
        m = m + 1;
    }
    assert(rs.subrange(m as int, rs.len() as int) =~= Seq::<BranchReloc>::empty());
    Ok(fragment)
}

/// An encoded branch distance decodes back to the distance: the field read
/// as a `bits`-bit two's complement number, times `2^scale`, is `target -
/// source`.
pub proof fn lemma_encoded_delta_reaches_target(
    source: usize,
    target: usize,
    scale: u8,
    bits: u8,
    insn_index: usize,
    target_original_pc: u64,
    encoded: u32,
)
    requires
        spec_encode_branch_delta(source, target, scale, bits, insn_index, target_original_pc) == Ok::<u32, LayoutError>(encoded),
    ensures
        ir::sext(encoded, bits as nat) * vstd::arithmetic::power2::pow2(scale as nat) == target - source,
{
    let delta = target - source;
    let mag = if delta >= 0 { delta } else { -delta };
    let align = vstd::arithmetic::power2::pow2(scale as nat) as int;
    let half = vstd::arithmetic::power2::pow2((bits - 1) as nat) as int;
    vstd::arithmetic::power2::lemma_pow2_pos(scale as nat);
    vstd::arithmetic::power2::lemma_pow2_pos((bits - 1) as nat);
    vstd::arithmetic::power2::lemma_pow2_adds((bits - 1) as nat, 1);
    vstd::arithmetic::power2::lemma2_to64();
    if bits < 32 {
        vstd::arithmetic::power2::lemma_pow2_strictly_increases(bits as nat, 32);
    }
    vstd::arithmetic::div_mod::lemma_fundamental_div_mod(mag, align);
    let q = mag / align;
    let scaled = if delta >= 0 { q } else { -q };
    assert(scaled * align == delta) by (nonlinear_arith)
        requires
            mag == align * q + mag % align,
            mag % align == 0,
            scaled == (if delta >= 0 { q } else { -q }),
            mag == (if delta >= 0 { delta } else { -delta }),
    ;
    let raw = if scaled >= 0 { scaled } else { scaled + 2 * half };
    assert(0 <= raw < 2 * half);
    assert(vstd::arithmetic::power2::pow2(bits as nat) == 2 * half);
    assert(encoded as int == raw);
    assert((encoded as int) % (vstd::arithmetic::power2::pow2(bits as nat) as int) == raw) by {
        vstd::arithmetic::div_mod::lemma_small_mod(raw as nat, vstd::arithmetic::power2::pow2(bits as nat));
    }
    assert(ir::sext(encoded, bits as nat) == scaled);
}

/// Label `lab` stands for instruction `k` of the body, the first with its pc.
pub open spec fn marks_first(b: Seq<RephrasedInsn>, lab: (u64, usize), k: int) -> bool {
    &&& 0 <= k < b.len()
    &&& b[k].ori_pc == lab.0
    &&& lab.1 == ((body_start() + k) * 4) as usize
    &&& forall|k2: int| 0 <= k2 < k ==> b[k2].ori_pc != lab.0
}

/// Some instruction of the body is the one label `lab` stands for.
pub open spec fn has_first(b: Seq<RephrasedInsn>, lab: (u64, usize)) -> bool {
    exists|k: int| #[trigger] marks_first(b, lab, k)
}

/// Each label stands for the first body instruction of its pc: its offset
/// is that instruction's byte offset in the fragment, and no earlier
/// instruction has the same pc. Every pc of the body has a label.
pub proof fn lemma_labels_mark_first_instruction(b: Seq<RephrasedInsn>)
    ensures
        forall|l: int| 0 <= l < spec_vlabels(b).len() ==> has_first(b, #[trigger] spec_vlabels(b)[l]),
        forall|k: int| 0 <= k < b.len() ==> find_label(spec_vlabels(b), #[trigger] b[k].ori_pc) is Some,
    decreases b.len(),
{
    if b.len() > 0 {
        let d = b.drop_last();
        lemma_labels_mark_first_instruction(d);
        let prev = spec_vlabels(d);
        let n = b.len() - 1;
        lemma_find_label_push(prev, b[n].ori_pc, ((body_start() + n) * 4) as usize);
        let ghost lab = ((body_start() + n) * 4) as usize;
        if find_label(prev, b[n].ori_pc) is None {
            assert(spec_vlabels(b) == prev.push((b[n].ori_pc, lab)));
            assert forall|k2: int| 0 <= k2 < n implies b[k2].ori_pc != b[n].ori_pc by {
                assert(b[k2] == d[k2]);
                assert(find_label(prev, d[k2].ori_pc) is Some);
            }
            assert(marks_first(b, (b[n].ori_pc, lab), n));
        } else {
            assert(spec_vlabels(b) == prev);
        }
        assert forall|l: int| 0 <= l < spec_vlabels(b).len() implies has_first(b, #[trigger] spec_vlabels(b)[l]) by {
            if l < prev.len() {
                assert(spec_vlabels(b)[l] == prev[l]);
                assert(prev[l] == spec_vlabels(d)[l]);
                assert(has_first(d, spec_vlabels(d)[l]));
                let k = choose|k: int| #[trigger] marks_first(d, spec_vlabels(d)[l], k);
                assert(forall|k2: int| 0 <= k2 <= k ==> b[k2] == d[k2]);
                assert(marks_first(b, spec_vlabels(b)[l], k));
            } else {
                assert(spec_vlabels(b)[l] == (b[n].ori_pc, lab));
                assert(marks_first(b, spec_vlabels(b)[l], n));
            }
        }
        assert forall|k: int| 0 <= k < b.len() implies find_label(spec_vlabels(b), #[trigger] b[k].ori_pc) is Some by {
            if k < n {
                assert(b[k] == d[k]);
                assert(find_label(prev, d[k].ori_pc) is Some);
            }
        }
    } else {
        assert(spec_vlabels(b).len() == 0);
    }
}

/// Appending a label keeps every earlier answer and answers for the new pc
/// when nothing did before.
proof fn lemma_find_label_push(vl: Seq<(u64, usize)>, pc: u64, off: usize)
    ensures
        forall|q: u64| find_label(vl, q) is Some ==> #[trigger] find_label(vl.push((pc, off)), q) == find_label(vl, q),
        find_label(vl, pc) is None ==> find_label(vl.push((pc, off)), pc) == Some(off),
    decreases vl.len(),
{
    let w = vl.push((pc, off));
    if vl.len() > 0 {
        let t = vl.subrange(1, vl.len() as int);
        lemma_find_label_push(t, pc, off);
        assert(w.subrange(1, w.len() as int) =~= t.push((pc, off)));
        assert(w[0] == vl[0]);
        assert forall|q: u64| find_label(vl, q) is Some implies #[trigger] find_label(w, q) == find_label(vl, q) by {
            if vl[0].0 != q {
                assert(find_label(vl, q) == find_label(t, q));
                assert(find_label(w, q) == find_label(t.push((pc, off)), q));
            }
        }
        if find_label(vl, pc) is None {
            assert(vl[0].0 != pc);
            assert(find_label(w, pc) == find_label(t.push((pc, off)), pc));
        }
    } else {
        assert(w.subrange(1, 1) =~= Seq::<(u64, usize)>::empty());
        assert(w[0] == (pc, off));
    }
}

/// Every instruction of the sequence can be encoded.
pub open spec fn all_fit(insns: Seq<A64Insn>) -> bool {
    forall|k: int| 0 <= k < insns.len() ==> (#[trigger] insns[k]).spec_fits()
}

/// Pointing a branch of an encodable sequence elsewhere keeps it encodable
/// and keeps its length.
proof fn lemma_rewrite_keeps_fit(insns: Seq<A64Insn>, idx: usize, target: usize, pc: u64)
    requires
        all_fit(insns),
        spec_rewrite(insns, idx, target, pc) is Ok,
    ensures
        all_fit(spec_rewrite(insns, idx, target, pc)->Ok_0),
        spec_rewrite(insns, idx, target, pc)->Ok_0.len() == insns.len(),
{
    let i = insns[idx as int];
    assert(i.spec_fits());
    lemma_branch_role_shape(i);
    let n = spec_rewrite(insns, idx, target, pc)->Ok_0;
    assert(n[idx as int].spec_fits());
    assert forall|k: int| 0 <= k < n.len() implies (#[trigger] n[k]).spec_fits() by {
        if k != idx {
            assert(n[k] == insns[k]);
        }
    }
}

proof fn lemma_apply_exits_keeps_fit(insns: Seq<A64Insn>, ex: Seq<usize>)
    requires
        all_fit(insns),
        spec_apply_exits(insns, ex) is Ok,
    ensures
        all_fit(spec_apply_exits(insns, ex)->Ok_0),
        spec_apply_exits(insns, ex)->Ok_0.len() == insns.len(),
    decreases ex.len(),
{
    if ex.len() > 0 {
        lemma_rewrite_keeps_fit(insns, ex[0], EPILOGUE_OFFSET, u64::MAX);
        lemma_apply_exits_keeps_fit(spec_rewrite(insns, ex[0], EPILOGUE_OFFSET, u64::MAX)->Ok_0, ex.subrange(1, ex.len() as int));
    }
}

proof fn lemma_apply_relocs_keeps_fit(insns: Seq<A64Insn>, rs: Seq<BranchReloc>, vl: Seq<(u64, usize)>)
    requires
        all_fit(insns),
        spec_apply_relocs(insns, rs, vl) is Ok,
    ensures
        all_fit(spec_apply_relocs(insns, rs, vl)->Ok_0),
        spec_apply_relocs(insns, rs, vl)->Ok_0.len() == insns.len(),
    decreases rs.len(),
{
    if rs.len() > 0 {
        let off = find_label(vl, rs[0].target_original_pc)->0;
        lemma_rewrite_keeps_fit(insns, rs[0].insn_index, off, rs[0].target_original_pc);
        lemma_apply_relocs_keeps_fit(
            spec_rewrite(insns, rs[0].insn_index, off, rs[0].target_original_pc)->Ok_0,
            rs.subrange(1, rs.len() as int),
            vl,
        );
    }
}

/// The body of blocks whose instructions all encode encodes.
proof fn lemma_body_fits(p: Seq<RephrasedBlock>)
    requires
        forall|i: int, k: int| 0 <= i < p.len() && 0 <= k < p[i].insns@.len() ==> (#[trigger] p[i].insns@[k]).insn.spec_fits(),
    ensures
        all_fit(insns_of(spec_body(p))),
    decreases p.len(),
{
    if p.len() > 0 {
        let d = p.drop_last();
        assert forall|i: int, k: int| 0 <= i < d.len() && 0 <= k < d[i].insns@.len() implies (#[trigger] d[i].insns@[k]).insn.spec_fits() by {
            assert(d[i] == p[i]);
        }
        lemma_body_fits(d);
        let a = spec_body(d);
        let t = p.last().insns@;
        assert forall|k: int| 0 <= k < insns_of(spec_body(p)).len() implies (#[trigger] insns_of(spec_body(p))[k]).spec_fits() by {
            if k < a.len() {
                assert(spec_body(p)[k] == a[k]);
                assert(insns_of(a)[k] == a[k].insn);
            } else {
                assert(spec_body(p)[k] == t[k - a.len()]);
                assert(p[p.len() - 1].insns@[k - a.len()] == t[k - a.len()]);
            }
        }
    }
}

/// A laid-out program whose instructions all encode is made only of
/// encodable instructions: the prologue and epilogue encode, and resolving
/// a branch keeps it encodable.
pub proof fn lemma_layout_encodable(p: Seq<RephrasedBlock>)
    requires
        forall|i: int, k: int| 0 <= i < p.len() && 0 <= k < p[i].insns@.len() ==> (#[trigger] p[i].insns@[k]).insn.spec_fits(),
    ensures
        spec_layout(p) matches Ok((insns, _, _)) ==> all_fit(insns),
{
    if spec_layout(p) is Ok {
        lemma_wrappers_encodable();
        lemma_body_fits(p);
        let b = spec_body(p);
        let head = spec_kjit_prologue() + spec_kjit_epilogue();
        let placed = head + insns_of(b);
        assert(all_fit(placed)) by {
            assert forall|k: int| 0 <= k < placed.len() implies (#[trigger] placed[k]).spec_fits() by {
                if k < spec_kjit_prologue().len() {
                    assert(placed[k] == spec_kjit_prologue()[k]);
                } else if k < head.len() {
                    assert(placed[k] == spec_kjit_epilogue()[k - spec_kjit_prologue().len()]);
                } else {
                    assert(placed[k] == insns_of(b)[k - head.len()]);
                }
            }
        }
        let entry = find_label(spec_vlabels(b), p[0].start_addr)->0;
        lemma_rewrite_keeps_fit(placed, (PROLOGUE_ENTRY_BRANCH_OFFSET / 4) as usize, entry, u64::MAX);
        let i1 = spec_rewrite(placed, (PROLOGUE_ENTRY_BRANCH_OFFSET / 4) as usize, entry, u64::MAX)->Ok_0;
        lemma_apply_exits_keeps_fit(i1, spec_exit_indices(b));
        let i2 = spec_apply_exits(i1, spec_exit_indices(b))->Ok_0;
        lemma_apply_relocs_keeps_fit(i2, spec_relocs(b)->Ok_0, spec_vlabels(b));
    }
}


/// A rewrite changes only the instruction it points.
proof fn lemma_rewrite_only_at(insns: Seq<A64Insn>, idx: usize, target: usize, pc: u64)
    requires
        spec_rewrite(insns, idx, target, pc) is Ok,
    ensures
        spec_rewrite(insns, idx, target, pc)->Ok_0.len() == insns.len(),
        forall|k: int| 0 <= k < insns.len() && k != idx ==> #[trigger] spec_rewrite(insns, idx, target, pc)->Ok_0[k] == insns[k],
{
}

/// Pointing the exit branches changes no instruction outside `ex`.
proof fn lemma_apply_exits_only_at(insns: Seq<A64Insn>, ex: Seq<usize>, k: int)
    requires
        spec_apply_exits(insns, ex) is Ok,
        0 <= k < insns.len(),
        forall|i: int| 0 <= i < ex.len() ==> ex[i] != k,
    ensures
        spec_apply_exits(insns, ex)->Ok_0.len() == insns.len(),
        spec_apply_exits(insns, ex)->Ok_0[k] == insns[k],
    decreases ex.len(),
{
    if ex.len() > 0 {
        lemma_rewrite_only_at(insns, ex[0], EPILOGUE_OFFSET, u64::MAX);
        let n = spec_rewrite(insns, ex[0], EPILOGUE_OFFSET, u64::MAX)->Ok_0;
        let rest = ex.subrange(1, ex.len() as int);
        assert forall|i: int| 0 <= i < rest.len() implies rest[i] != k by {
            assert(rest[i] == ex[i + 1]);
        }
        lemma_apply_exits_only_at(n, rest, k);
    }
}

/// Pointing the relocated branches changes no instruction they do not name.
proof fn lemma_apply_relocs_only_at(insns: Seq<A64Insn>, rs: Seq<BranchReloc>, vl: Seq<(u64, usize)>, k: int)
    requires
        spec_apply_relocs(insns, rs, vl) is Ok,
        0 <= k < insns.len(),
        forall|i: int| 0 <= i < rs.len() ==> rs[i].insn_index != k,
    ensures
        spec_apply_relocs(insns, rs, vl)->Ok_0.len() == insns.len(),
        spec_apply_relocs(insns, rs, vl)->Ok_0[k] == insns[k],
    decreases rs.len(),
{
    if rs.len() > 0 {
        let off = find_label(vl, rs[0].target_original_pc)->Some_0;
        lemma_rewrite_only_at(insns, rs[0].insn_index, off, rs[0].target_original_pc);
        let n = spec_rewrite(insns, rs[0].insn_index, off, rs[0].target_original_pc)->Ok_0;
        let rest = rs.subrange(1, rs.len() as int);
        assert forall|i: int| 0 <= i < rest.len() implies rest[i].insn_index != k by {
            assert(rest[i] == rs[i + 1]);
        }
        lemma_apply_relocs_only_at(n, rest, vl, k);
    }
}

/// Exit branches lie in the body.
proof fn lemma_exit_indices_in_body(b: Seq<RephrasedInsn>)
    requires
        body_fits(b.len() as int),
    ensures
        forall|i: int| 0 <= i < spec_exit_indices(b).len() ==> spec_exit_indices(b)[i] >= body_start(),
    decreases b.len(),
{
    if b.len() > 0 {
        lemma_exit_indices_in_body(b.drop_last());
        let prev = spec_exit_indices(b.drop_last());
        if b.last().kind is RuntimeExitBranch {
            let x = (body_start() + b.len() - 1) as usize;
            assert(x >= body_start());
            assert forall|i: int| 0 <= i < spec_exit_indices(b).len() implies spec_exit_indices(b)[i] >= body_start() by {
                if i < prev.len() {
                    assert(spec_exit_indices(b)[i] == prev[i]);
                }
            }
        }
    }
}

/// Relocated branches lie in the body.
proof fn lemma_relocs_in_body(b: Seq<RephrasedInsn>)
    requires
        spec_relocs(b) is Ok,
        body_fits(b.len() as int),
    ensures
        forall|i: int| 0 <= i < spec_relocs(b)->Ok_0.len() ==> spec_relocs(b)->Ok_0[i].insn_index >= body_start(),
    decreases b.len(),
{
    if b.len() > 0 {
        lemma_relocs_in_body(b.drop_last());
    }
}

/// After a layout, the prologue ends in a branch whose distance, read as the
/// processor reads it, leads from that branch to the entry offset.
pub proof fn lemma_prologue_branches_to_entry(p: Seq<RephrasedBlock>)
    requires
        spec_layout(p) is Ok,
    ensures
        spec_layout(p) matches Ok((insns, entry, vl)) && insns[(PROLOGUE_ENTRY_BRANCH_OFFSET / 4) as int] matches A64Insn::BUncondBOnlyBranchImm { imm26 }
            && ir::sext(imm26.raw, 26) * 4 == entry - PROLOGUE_ENTRY_BRANCH_OFFSET,
{
    let b = spec_body(p);
    let vl = spec_vlabels(b);
    let placed = spec_kjit_prologue() + spec_kjit_epilogue() + insns_of(b);
    let rs = spec_relocs(b)->Ok_0;
    let entry = find_label(vl, p[0].start_addr)->Some_0;
    let at: usize = (PROLOGUE_ENTRY_BRANCH_OFFSET / 4) as usize;
    assert(at == 35);
    let branch = A64Insn::BUncondBOnlyBranchImm { imm26: A64Imm { raw: 0, bits: 26, scale: 2, signed: true } };
    assert(placed[35] == spec_kjit_prologue()[35]);
    assert(spec_kjit_prologue()[35] == branch);
    lemma_branch_role_shape(branch);
    let enc = spec_encode_branch_delta(140, entry, 2, 26, 35, u64::MAX)->Ok_0;
    let i1 = spec_rewrite(placed, at, entry, u64::MAX)->Ok_0;
    assert(i1[35] == (A64Insn::BUncondBOnlyBranchImm { imm26: A64Imm { raw: enc, bits: 26, scale: 2, signed: true } }));
    lemma_encoded_delta_reaches_target(140, entry, 2, 26, 35, u64::MAX, enc);
    vstd::arithmetic::power2::lemma2_to64();
    lemma_rewrite_only_at(placed, at, entry, u64::MAX);
    let ex = spec_exit_indices(b);
    lemma_exit_indices_in_body(b);
    lemma_apply_exits_only_at(i1, ex, 35);
    let i2 = spec_apply_exits(i1, ex)->Ok_0;
    lemma_relocs_in_body(b);
    lemma_apply_relocs_only_at(i2, rs, vl, 35);
}

} // verus!
