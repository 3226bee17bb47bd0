//! What the condition codes mean after a compare: the flags that SUBS
//! sets, read by each condition, against the equality and signed order of
//! the operands, and a compare followed by a conditional branch.
use vstd::prelude::*;

use super::arm64::{condition_holds, spec_execute, sub_flags, ExecError};
use super::model::MachineView;
use crate::shared::arm64::ir::{self, A64Condition};
use crate::shared::arm64::{A64Imm, A64Insn, A64Reg, A64Reg31Mode, A64RegWidth};

verus! {

/// After a 64-bit compare of `a` with `b` (SUBS of `a - b`), EQ and NE test
/// whether the operands are equal, and GE, LT, GT and LE test their order as
/// signed numbers; in particular GT fails on equal operands.
pub proof fn lemma_conditions_after_compare64(a: u64, b: u64)
    ensures
        ({
            let f = sub_flags(a, b, vstd::wrapping::u64_specs::wrapping_sub(a, b), false);
            &&& condition_holds(A64Condition::Eq, f) <==> a == b
            &&& condition_holds(A64Condition::Ne, f) <==> a != b
            &&& condition_holds(A64Condition::Ge, f) <==> (a as i64) >= (b as i64)
            &&& condition_holds(A64Condition::Lt, f) <==> (a as i64) < (b as i64)
            &&& condition_holds(A64Condition::Gt, f) <==> (a as i64) > (b as i64)
            &&& condition_holds(A64Condition::Le, f) <==> (a as i64) <= (b as i64)
        }),
{
    let r = vstd::wrapping::u64_specs::wrapping_sub(a, b);
    assert(((r & 0xFFFF_FFFF_FFFF_FFFF == 0) <==> a == b) && ((((r & 0xFFFF_FFFF_FFFF_FFFF)
        & 0x8000_0000_0000_0000 != 0) == (((a & 0xFFFF_FFFF_FFFF_FFFF) ^ (b
        & 0xFFFF_FFFF_FFFF_FFFF)) & ((a & 0xFFFF_FFFF_FFFF_FFFF) ^ (r & 0xFFFF_FFFF_FFFF_FFFF))
        & 0x8000_0000_0000_0000 != 0)) <==> (a as i64) >= (b as i64)) && (((a as i64) == (b
        as i64)) <==> a == b)) by (bit_vector)
        requires
            r == (if a - b < 0 {
                (a - b + 0x1_0000_0000_0000_0000) as u64
            } else {
                (a - b) as u64
            }),
    ;
}

/// Whether condition `c` relates `a` to `b`: equality for EQ and NE, the
/// signed order for GE, LT, GT and LE, always for AL.
pub open spec fn signed_relation_holds(c: A64Condition, a: u64, b: u64) -> bool {
    match c {
        A64Condition::Eq => a == b,
        A64Condition::Ne => a != b,
        A64Condition::Ge => (a as i64) >= (b as i64),
        A64Condition::Lt => (a as i64) < (b as i64),
        A64Condition::Gt => (a as i64) > (b as i64),
        A64Condition::Le => (a as i64) <= (b as i64),
        A64Condition::Al => true,
    }
}

/// `cmp xn, #imm` followed by `b.<cond>`: the branch is taken exactly when
/// the condition relates the register's value to the immediate (B.GT when
/// it is greater as a signed number, B.EQ when they are equal, and so on);
/// otherwise execution falls through to the next instruction.
pub proof fn lemma_compare_then_branch(
    s: MachineView,
    rn: A64Reg,
    imm: u32,
    pc: u64,
    at: u64,
    imm19: A64Imm,
    cond: u8,
    c: A64Condition,
)
    requires
        imm < 0x1000,
        A64Condition::spec_from_bits(cond) == Some(c),
    ensures
        ({
            let compare = A64Insn::SubsAddsubImmSubs64sAddsubImm {
                sh: 0,
                imm12: A64Imm { raw: imm, bits: 12, scale: 0, signed: false },
                rn,
                rd: A64Reg { enc: 31, width: A64RegWidth::X64, reg31: A64Reg31Mode::Xzr },
            };
            let branch = A64Insn::BCondBOnlyCondbranch { imm19, cond };
            spec_execute(compare, pc, s) matches Ok((_, s1)) && spec_execute(branch, at, s1) == Ok::<(u64, MachineView), ExecError>(
                (
                    if signed_relation_holds(c, s.reg(rn), imm as u64) {
                        ir::branch_target(at, imm19.raw, 19)
                    } else {
                        ir::wrap_add(at, 4)
                    },
                    s1,
                ),
            )
        }),
{
    lemma_conditions_after_compare64(s.reg(rn), imm as u64);
}

/// After a 32-bit compare of `a` with `b` (SUBS on W registers), EQ and NE
/// test whether the operands are equal, and GE, LT, GT and LE test their
/// order as signed 32-bit numbers; in particular GT fails on equal operands.
pub proof fn lemma_conditions_after_compare32(a: u32, b: u32)
    ensures
        ({
            let f = sub_flags(
                a as u64,
                b as u64,
                vstd::wrapping::u64_specs::wrapping_sub(a as u64, b as u64),
                true,
            );
            &&& condition_holds(A64Condition::Eq, f) <==> a == b
            &&& condition_holds(A64Condition::Ne, f) <==> a != b
            &&& condition_holds(A64Condition::Ge, f) <==> (a as i32) >= (b as i32)
            &&& condition_holds(A64Condition::Lt, f) <==> (a as i32) < (b as i32)
            &&& condition_holds(A64Condition::Gt, f) <==> (a as i32) > (b as i32)
            &&& condition_holds(A64Condition::Le, f) <==> (a as i32) <= (b as i32)
        }),
{
    let x = a as u64;
    let y = b as u64;
    let r = vstd::wrapping::u64_specs::wrapping_sub(x, y);
    assert(((r & 0xFFFF_FFFF == 0) <==> a == b) && ((((r & 0xFFFF_FFFF) & 0x8000_0000 != 0) == (((x
        & 0xFFFF_FFFF) ^ (y & 0xFFFF_FFFF)) & ((x & 0xFFFF_FFFF) ^ (r & 0xFFFF_FFFF))
        & 0x8000_0000 != 0)) <==> (a as i32) >= (b as i32)) && (((a as i32) == (b as i32))
        <==> a == b)) by (bit_vector)
        requires
            x == a as u64,
            y == b as u64,
            r == (if x - y < 0 {
                (x - y + 0x1_0000_0000_0000_0000) as u64
            } else {
                (x - y) as u64
            }),
    ;
}

/// The next pc after executing `insn` at `pc` on `s`, when it runs.
pub open spec fn next_pc(insn: A64Insn, pc: u64, s: MachineView) -> u64 {
    match spec_execute(insn, pc, s) {
        Ok((n, _)) => n,
        Err(_) => pc,
    }
}

/// CBZ and CBNZ on the same register and offset go opposite ways: when one
/// branches the other falls through to the next instruction; on the zero
/// register CBZ always branches and CBNZ never does. The same holds of TBZ
/// and TBNZ on the same bit, where a zero value makes TBZ branch.
pub proof fn lemma_zero_tests_go_opposite_ways(s: MachineView, rt: A64Reg, imm19: A64Imm, b5: u8, b40: u8, imm14: A64Imm, pc: u64)
    ensures
        ({
            let taken = ir::branch_target(pc, imm19.raw, 19);
            let fall = ir::wrap_add(pc, 4);
            let cbz = next_pc(A64Insn::CbzCbz64Compbranch { imm19, rt }, pc, s);
            let cbnz = next_pc(A64Insn::CbnzCbnz64Compbranch { imm19, rt }, pc, s);
            &&& (cbz == taken && cbnz == fall) || (cbz == fall && cbnz == taken)
            &&& rt.enc == 31 && rt.reg31 == A64Reg31Mode::Xzr ==> cbz == taken && cbnz == fall
        }),
        ({
            let taken = ir::branch_target(pc, imm14.raw, 14);
            let fall = ir::wrap_add(pc, 4);
            let tbz = next_pc(A64Insn::TbzTbzOnlyTestbranch { b5, b40, imm14, rt }, pc, s);
            let tbnz = next_pc(A64Insn::TbnzTbnzOnlyTestbranch { b5, b40, imm14, rt }, pc, s);
            &&& (tbz == taken && tbnz == fall) || (tbz == fall && tbnz == taken)
            &&& s.reg(rt) == 0 ==> tbz == taken && tbnz == fall
        }),
{
    let sh = (b5 * 32 + b40) as u64;
    assert((0u64 >> sh) & 1 == 0) by (bit_vector);
}

} // verus!
