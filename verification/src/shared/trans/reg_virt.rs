//! Register checks over rephrased code: which registers translated code may
//! use as they are, and which uses are refused until their rewrites exist.
use vstd::prelude::*;

use crate::shared::abi::{
    REG_VIRT_SCRATCH_GPR_LIMIT, REG_VIRT_STABLE_MAPPED_X29_REG, REG_VIRT_STACK_BACKED_REG_END,
    REG_VIRT_STACK_BACKED_REG_START, RET_PARAM0_REG, RET_PARAM1_REG, RET_STATUS_REG,
};
use crate::shared::arm64::access::str_eq;
use crate::shared::arm64::{A64Insn, A64Mem, A64OperandRole, A64Reg, A64Reg31Mode, A64RegWidth};
use crate::shared::trans::rephrase::{RephrasedBlock, RephrasedInsn, RephrasedInsnKind};

verus! {

/// Why a rephrased program cannot run with its registers as they are.
#[derive(Clone, Copy, Debug, PartialEq, Eq)]
pub enum RegVirtError {
    UnexpectedRegVirtHelper { pc: u64 },
    MissingRegisterAccessor { pc: u64, insn: &'static str, field: &'static str },
    MissingRegisterSetter { pc: u64, insn: &'static str, field: &'static str },
    UnsupportedOperandRole { pc: u64, insn: &'static str, role: A64OperandRole },
    UnsupportedImplicitRegWrite { pc: u64, insn: &'static str, reg: u8, width: A64RegWidth },
    TooManyStackBackedRegs { pc: u64, insn: &'static str, limit: usize },
    StackBackedRewriteNotImplemented { pc: u64, insn: &'static str, reg: A64Reg },
    StableMappedRewriteNotImplemented { pc: u64, insn: &'static str, reg: A64Reg },
    RuntimeReservedRegNotPreserved { pc: u64, insn: &'static str, reg: A64Reg },
    UnsupportedStackBackedWriteWidth {
        pc: u64,
        insn: &'static str,
        field: &'static str,
        reg: A64Reg,
        width: A64RegWidth,
    },
    UnsupportedSpOperand { pc: u64, insn: &'static str, field: &'static str, reg: A64Reg },
    UnsupportedWritebackMemory { pc: u64, insn: &'static str },
    UnsupportedPairOp { pc: u64, insn: &'static str },
    UnsupportedRuntimeExitSource { pc: u64, insn: &'static str, field: &'static str, reg: A64Reg },
}

/// How translated code may use a register.
#[derive(Clone, Copy, Debug, PartialEq, Eq, Structural)]
pub enum RegClass {
    /// The zero register.
    Zero,
    /// Used as it is.
    Direct,
    /// Carries the status and parameters back to the runtime.
    RuntimeReserved,
    /// Kept in the stack frame while a fragment runs.
    StackBacked,
    /// x29, mapped to a fixed physical register.
    StableMapped,
    /// The stack pointer.
    Sp,
}

impl RegClass {
    pub open spec fn spec_is_direct(self) -> bool {
        self is Zero || self is Direct
    }

    pub fn is_direct(self) -> (r: bool)
        ensures
            r == self.spec_is_direct(),
    {
        match self {
            RegClass::Zero | RegClass::Direct => true,
            _ => false,
        }
    }
}

/// x9, x10 or x11: the registers of the runtime return channel.
pub open spec fn spec_is_runtime_return_reg(reg: A64Reg) -> bool {
    reg.enc == RET_STATUS_REG || reg.enc == RET_PARAM0_REG || reg.enc == RET_PARAM1_REG
}

pub fn is_runtime_return_reg(reg: A64Reg) -> (r: bool)
    ensures
        r == spec_is_runtime_return_reg(reg),
{
    reg.enc == RET_STATUS_REG || reg.enc == RET_PARAM0_REG || reg.enc == RET_PARAM1_REG
}

/// Register 31 read as the zero register.
pub open spec fn spec_is_zero_reg(reg: A64Reg) -> bool {
    reg.enc == 31 && reg.reg31 != A64Reg31Mode::Sp
}

pub fn is_zero_reg(reg: A64Reg) -> (r: bool)
    ensures
        r == spec_is_zero_reg(reg),
{
    reg.enc == 31 && !matches!(reg.reg31, A64Reg31Mode::Sp)
}

pub open spec fn spec_classify_reg(reg: A64Reg) -> RegClass {
    if reg.enc == 31 {
        if reg.reg31 == A64Reg31Mode::Sp {
            RegClass::Sp
        } else {
            RegClass::Zero
        }
    } else if spec_is_runtime_return_reg(reg) {
        RegClass::RuntimeReserved
    } else if REG_VIRT_STACK_BACKED_REG_START <= reg.enc <= REG_VIRT_STACK_BACKED_REG_END {
        RegClass::StackBacked
    } else if reg.enc == REG_VIRT_STABLE_MAPPED_X29_REG {
        RegClass::StableMapped
    } else {
        RegClass::Direct
    }
}

/// The class of a register operand.
pub fn classify_reg(reg: A64Reg) -> (r: RegClass)
    ensures
        r == spec_classify_reg(reg),
{
    if reg.enc == 31 {
        if matches!(reg.reg31, A64Reg31Mode::Sp) {
            return RegClass::Sp;
        }
        return RegClass::Zero;
    }
    if is_runtime_return_reg(reg) {
        return RegClass::RuntimeReserved;
    }
    if REG_VIRT_STACK_BACKED_REG_START <= reg.enc && reg.enc <= REG_VIRT_STACK_BACKED_REG_END {
        return RegClass::StackBacked;
    }
    if reg.enc == REG_VIRT_STABLE_MAPPED_X29_REG {
        return RegClass::StableMapped;
    }
    RegClass::Direct
}

/// What the checks of one instruction have seen so far.
pub struct AccessView {
    pub pc: u64,
    pub insn: &'static str,
    /// The distinct stack-backed register numbers, in the order first seen.
    pub stack_backed: Seq<u8>,
    pub stack_backed_rewrite_required: Option<A64Reg>,
    pub runtime_reserved: Option<A64Reg>,
    pub stable_mapped: Option<A64Reg>,
}

/// The register uses of one instruction that need more than a direct use.
pub struct AccessSummary {
    pc: u64,
    insn: &'static str,
    stack_backed: [u8; REG_VIRT_SCRATCH_GPR_LIMIT],
    stack_backed_len: usize,
    stack_backed_rewrite_required: Option<A64Reg>,
    runtime_reserved: Option<A64Reg>,
    stable_mapped: Option<A64Reg>,
}

/// The view with the stack-backed register `reg` recorded: unchanged when
/// it is there already, refused when the scratch registers are all taken.
pub open spec fn spec_add_stack_backed(a: AccessView, reg: A64Reg) -> Result<AccessView, RegVirtError> {
    if a.stack_backed.contains(reg.enc) {
        Ok(a)
    } else if a.stack_backed.len() >= REG_VIRT_SCRATCH_GPR_LIMIT {
        Err(RegVirtError::TooManyStackBackedRegs { pc: a.pc, insn: a.insn, limit: REG_VIRT_SCRATCH_GPR_LIMIT })
    } else {
        Ok(AccessView { stack_backed: a.stack_backed.push(reg.enc), ..a })
    }
}

/// The first register recorded in a slot stays.
pub open spec fn first_of(slot: Option<A64Reg>, reg: A64Reg) -> Option<A64Reg> {
    if slot is None {
        Some(reg)
    } else {
        slot
    }
}

/// The first refused use: a return-channel register, then a stack-backed
/// register that needs a rewrite, then x29.
pub open spec fn spec_reject_unimplemented(a: AccessView) -> Result<(), RegVirtError> {
    match a.runtime_reserved {
        Some(reg) => Err(RegVirtError::RuntimeReservedRegNotPreserved { pc: a.pc, insn: a.insn, reg }),
        None => match a.stack_backed_rewrite_required {
            Some(reg) => Err(RegVirtError::StackBackedRewriteNotImplemented { pc: a.pc, insn: a.insn, reg }),
            None => match a.stable_mapped {
                Some(reg) => Err(RegVirtError::StableMappedRewriteNotImplemented { pc: a.pc, insn: a.insn, reg }),
                None => Ok(()),
            },
        },
    }
}

impl AccessSummary {
    #[verifier::type_invariant]
    spec fn inv(self) -> bool {
        self.stack_backed_len <= REG_VIRT_SCRATCH_GPR_LIMIT
    }

    pub closed spec fn view(self) -> AccessView {
        AccessView {
            pc: self.pc,
            insn: self.insn,
            stack_backed: self.stack_backed@.take(self.stack_backed_len as int),
            stack_backed_rewrite_required: self.stack_backed_rewrite_required,
            runtime_reserved: self.runtime_reserved,
            stable_mapped: self.stable_mapped,
        }
    }

    /// Nothing seen yet for the instruction `insn` at `pc`.
    pub fn new(pc: u64, insn: &'static str) -> (r: Self)
        ensures
            r.view() == (AccessView {
                pc,
                insn,
                stack_backed: seq![],
                stack_backed_rewrite_required: None,
                runtime_reserved: None,
                stable_mapped: None,
            }),
    {
        let r = AccessSummary {
            pc,
            insn,
            stack_backed: [0u8, 0u8, 0u8, 0u8],
            stack_backed_len: 0,
            stack_backed_rewrite_required: None,
            runtime_reserved: None,
            stable_mapped: None,
        };
        assert(r.view().stack_backed =~= seq![]);
        r
    }

    /// Records a stack-backed register; refused when a fifth distinct one
    /// comes, since only four scratch registers can hold them.
    pub fn add_stack_backed(&mut self, reg: A64Reg) -> (r: Result<(), RegVirtError>)
        ensures
            match spec_add_stack_backed(old(self).view(), reg) {
                Ok(v) => r is Ok && final(self).view() == v,
                Err(e) => r == Err::<(), RegVirtError>(e) && final(self).view() == old(self).view(),
            },
    {
        proof {
            use_type_invariant(&*self);
        }
        let ghost seen = self.view().stack_backed;
        let mut i: usize = 0;
        while i < self.stack_backed_len
            invariant
                self.stack_backed_len <= REG_VIRT_SCRATCH_GPR_LIMIT,
                i <= self.stack_backed_len,
                seen == self.stack_backed@.take(self.stack_backed_len as int),
                forall|k: int| 0 <= k < i ==> seen[k] != reg.enc,
            decreases self.stack_backed_len - i,
        {
            if self.stack_backed[i] == reg.enc {
                assert(seen[i as int] == reg.enc);
                return Ok(());
            }
            i = i + 1;
        }
        assert(!seen.contains(reg.enc));
        if self.stack_backed_len == REG_VIRT_SCRATCH_GPR_LIMIT {
            return Err(
                RegVirtError::TooManyStackBackedRegs { pc: self.pc, insn: self.insn, limit: REG_VIRT_SCRATCH_GPR_LIMIT },
            );
        }
        let n = self.stack_backed_len;
        self.stack_backed[n] = reg.enc;
        self.stack_backed_len = n + 1;
        assert(self.view().stack_backed =~= seen.push(reg.enc));
        Ok(())
    }

    pub fn add_stack_backed_rewrite_required(&mut self, reg: A64Reg)
        ensures
            final(self).view() == (AccessView {
                stack_backed_rewrite_required: first_of(old(self).view().stack_backed_rewrite_required, reg),
                ..old(self).view()
            }),
    {
        proof {
            use_type_invariant(&*self);
        }
        if self.stack_backed_rewrite_required.is_none() {
            self.stack_backed_rewrite_required = Some(reg);
        }
    }

    pub fn add_runtime_reserved(&mut self, reg: A64Reg)
        ensures
            final(self).view() == (AccessView {
                runtime_reserved: first_of(old(self).view().runtime_reserved, reg),
                ..old(self).view()
            }),
    {
        proof {
            use_type_invariant(&*self);
        }
        if self.runtime_reserved.is_none() {
            self.runtime_reserved = Some(reg);
        }
    }

    pub fn add_stable_mapped(&mut self, reg: A64Reg)
        ensures
            final(self).view() == (AccessView {
                stable_mapped: first_of(old(self).view().stable_mapped, reg),
                ..old(self).view()
            }),
    {
        proof {
            use_type_invariant(&*self);
        }
        if self.stable_mapped.is_none() {
            self.stable_mapped = Some(reg);
        }
    }

    /// Refuses the instruction when it uses a register whose rewrite does
    /// not exist yet.
    pub fn reject_unimplemented_virtual_regs(self) -> (r: Result<(), RegVirtError>)
        ensures
            r == spec_reject_unimplemented(self.view()),
    {
        if let Some(reg) = self.runtime_reserved {
            return Err(RegVirtError::RuntimeReservedRegNotPreserved { pc: self.pc, insn: self.insn, reg });
        }
        if let Some(reg) = self.stack_backed_rewrite_required {
            return Err(RegVirtError::StackBackedRewriteNotImplemented { pc: self.pc, insn: self.insn, reg });
        }
        if let Some(reg) = self.stable_mapped {
            return Err(RegVirtError::StableMappedRewriteNotImplemented { pc: self.pc, insn: self.insn, reg });
        }
        Ok(())
    }
}

/// The register in `field`, or the error for a form without such a field.
pub open spec fn spec_require_reg(r: RephrasedInsn, field: &'static str) -> Result<A64Reg, RegVirtError> {
    match r.insn.spec_get_reg(field@) {
        Some(reg) => Ok(reg),
        None => Err(RegVirtError::MissingRegisterAccessor { pc: r.ori_pc, insn: r.insn.spec_key(), field }),
    }
}

/// The field can be rewritten to hold `reg`.
pub open spec fn spec_require_setter(r: RephrasedInsn, field: &'static str, reg: A64Reg) -> Result<(), RegVirtError> {
    if r.insn.spec_set_reg(field, reg) is Ok {
        Ok(())
    } else {
        Err(RegVirtError::MissingRegisterSetter { pc: r.ori_pc, insn: r.insn.spec_key(), field })
    }
}

/// One register operand of user code, read (`is_write` false) or written.
pub open spec fn spec_user_reg(
    r: RephrasedInsn,
    a: AccessView,
    field: &'static str,
    reg: A64Reg,
    width: A64RegWidth,
    is_write: bool,
) -> Result<AccessView, RegVirtError> {
    match spec_classify_reg(reg) {
        RegClass::Zero | RegClass::Direct => Ok(a),
        RegClass::Sp => Err(RegVirtError::UnsupportedSpOperand { pc: r.ori_pc, insn: r.insn.spec_key(), field, reg }),
        RegClass::RuntimeReserved => Ok(AccessView { runtime_reserved: first_of(a.runtime_reserved, reg), ..a }),
        RegClass::StableMapped => Ok(AccessView { stable_mapped: first_of(a.stable_mapped, reg), ..a }),
        RegClass::StackBacked => match spec_add_stack_backed(a, reg) {
            Err(e) => Err(e),
            Ok(b) => if is_write && width != A64RegWidth::X64 {
                Err(
                    RegVirtError::UnsupportedStackBackedWriteWidth {
                        pc: r.ori_pc,
                        insn: r.insn.spec_key(),
                        field,
                        reg,
                        width,
                    },
                )
            } else if is_write || reg.enc >= 16 {
                Ok(
                    AccessView {
                        stack_backed_rewrite_required: first_of(b.stack_backed_rewrite_required, reg),
                        ..b
                    },
                )
            } else {
                Ok(b)
            },
        },
    }
}

/// One operand role of user code.
pub open spec fn spec_user_role(r: RephrasedInsn, role: A64OperandRole, a: AccessView) -> Result<AccessView, RegVirtError> {
    match role {
        A64OperandRole::RegRead { field, width } => match spec_require_reg(r, field) {
            Err(e) => Err(e),
            Ok(reg) => spec_user_reg(r, a, field, reg, width, false),
        },
        A64OperandRole::RegWrite { field, width } | A64OperandRole::RegReadWrite { field, width } => match spec_require_reg(r, field) {
            Err(e) => Err(e),
            Ok(reg) => match spec_require_setter(r, field, reg) {
                Err(e) => Err(e),
                Ok(_) => spec_user_reg(r, a, field, reg, width, true),
            },
        },
        A64OperandRole::ImplicitRegWrite { reg, width } => Err(
            RegVirtError::UnsupportedImplicitRegWrite { pc: r.ori_pc, insn: r.insn.spec_key(), reg, width },
        ),
        A64OperandRole::MemBase { field } => match spec_require_reg(r, field) {
            Err(e) => Err(e),
            Ok(reg) => spec_user_reg(r, a, field, reg, A64RegWidth::X64, false),
        },
        _ => Ok(a),
    }
}

/// The roles in order, stopping at the first refusal.
pub open spec fn spec_user_roles(r: RephrasedInsn, roles: Seq<A64OperandRole>, a: AccessView) -> Result<AccessView, RegVirtError>
    decreases roles.len(),
{
    if roles.len() == 0 {
        Ok(a)
    } else {
        match spec_user_role(r, roles[0], a) {
            Err(e) => Err(e),
            Ok(b) => spec_user_roles(r, roles.subrange(1, roles.len() as int), b),
        }
    }
}

pub open spec fn spec_is_pair_op(insn: A64Insn) -> bool {
    ||| insn is LdpGenLdp64LdstpairPost
    ||| insn is LdpGenLdp64LdstpairPre
    ||| insn is LdpGenLdp64LdstpairOff
    ||| insn is StpGenStp64LdstpairPost
    ||| insn is StpGenStp64LdstpairPre
    ||| insn is StpGenStp64LdstpairOff
}

pub open spec fn spec_is_writeback_memory_op(insn: A64Insn) -> bool {
    ||| insn is LdrImmGenLdr32LdstImmpost
    ||| insn is LdrImmGenLdr64LdstImmpost
    ||| insn is LdrImmGenLdr32LdstImmpre
    ||| insn is LdrImmGenLdr64LdstImmpre
    ||| insn is StrImmGenStr32LdstImmpost
    ||| insn is StrImmGenStr64LdstImmpost
    ||| insn is StrImmGenStr32LdstImmpre
    ||| insn is StrImmGenStr64LdstImmpre
}

pub open spec fn empty_view(pc: u64, insn: &'static str) -> AccessView {
    AccessView {
        pc,
        insn,
        stack_backed: seq![],
        stack_backed_rewrite_required: None,
        runtime_reserved: None,
        stable_mapped: None,
    }
}

/// The check of an instruction of user code: pair and writeback memory
/// forms are refused outright; then each operand in role order; then the
/// uses that still need a rewrite.
pub open spec fn spec_validate_user_semantic(r: RephrasedInsn) -> Result<(), RegVirtError> {
    if spec_is_pair_op(r.insn) {
        Err(RegVirtError::UnsupportedPairOp { pc: r.ori_pc, insn: r.insn.spec_key() })
    } else if spec_is_writeback_memory_op(r.insn) {
        Err(RegVirtError::UnsupportedWritebackMemory { pc: r.ori_pc, insn: r.insn.spec_key() })
    } else {
        match spec_user_roles(r, r.insn.spec_roles(), empty_view(r.ori_pc, r.insn.spec_key())) {
            Err(e) => Err(e),
            Ok(a) => spec_reject_unimplemented(a),
        }
    }
}

/// The role writes the field named `field`.
pub open spec fn role_writes(role: A64OperandRole, field: Seq<char>) -> bool {
    match role {
        A64OperandRole::RegWrite { field: f, .. } => f@ == field,
        A64OperandRole::RegReadWrite { field: f, .. } => f@ == field,
        _ => false,
    }
}

pub open spec fn spec_field_has_write_role(insn: A64Insn, field: Seq<char>) -> bool {
    exists|i: int| 0 <= i < insn.spec_roles().len() && role_writes(#[trigger] insn.spec_roles()[i], field)
}

/// A return-channel register that the payload instruction writes.
pub open spec fn spec_owned_by_payload(insn: A64Insn, field: &'static str, reg: A64Reg) -> bool {
    spec_is_runtime_return_reg(reg) && spec_field_has_write_role(insn, field@)
}

/// One operand role of a runtime-exit payload instruction: what it reads
/// must be a direct register, or a return-channel register it writes.
pub open spec fn spec_payload_role(r: RephrasedInsn, role: A64OperandRole) -> Result<(), RegVirtError> {
    match role {
        A64OperandRole::RegRead { field, .. } => match spec_require_reg(r, field) {
            Err(e) => Err(e),
            Ok(reg) => if spec_owned_by_payload(r.insn, field, reg) || spec_is_zero_reg(reg) {
                Ok(())
            } else if !spec_classify_reg(reg).spec_is_direct() {
                Err(RegVirtError::UnsupportedRuntimeExitSource { pc: r.ori_pc, insn: r.insn.spec_key(), field, reg })
            } else {
                Ok(())
            },
        },
        A64OperandRole::RegReadWrite { field, .. } => match spec_require_reg(r, field) {
            Err(e) => Err(e),
            Ok(reg) => if !spec_owned_by_payload(r.insn, field, reg) {
                Err(RegVirtError::UnsupportedRuntimeExitSource { pc: r.ori_pc, insn: r.insn.spec_key(), field, reg })
            } else {
                Ok(())
            },
        },
        A64OperandRole::RegWrite { field, .. } => match spec_require_reg(r, field) {
            Err(e) => Err(e),
            Ok(_) => Ok(()),
        },
        A64OperandRole::ImplicitRegWrite { reg, width } => Err(
            RegVirtError::UnsupportedImplicitRegWrite { pc: r.ori_pc, insn: r.insn.spec_key(), reg, width },
        ),
        A64OperandRole::MemBase { field } => match spec_require_reg(r, field) {
            Err(e) => Err(e),
            Ok(reg) => if !spec_classify_reg(reg).spec_is_direct() {
                Err(RegVirtError::UnsupportedRuntimeExitSource { pc: r.ori_pc, insn: r.insn.spec_key(), field, reg })
            } else {
                Ok(())
            },
        },
        _ => Ok(()),
    }
}

pub open spec fn spec_payload_roles(r: RephrasedInsn, roles: Seq<A64OperandRole>) -> Result<(), RegVirtError>
    decreases roles.len(),
{
    if roles.len() == 0 {
        Ok(())
    } else {
        match spec_payload_role(r, roles[0]) {
            Err(e) => Err(e),
            Ok(_) => spec_payload_roles(r, roles.subrange(1, roles.len() as int)),
        }
    }
}

/// The check of one rephrased instruction, by what it is there for.
pub open spec fn spec_validate_insn(r: RephrasedInsn) -> Result<(), RegVirtError> {
    if r.kind.spec_is_user_semantic() {
        spec_validate_user_semantic(r)
    } else {
        match r.kind {
            RephrasedInsnKind::RuntimeExitPayload => spec_payload_roles(r, r.insn.spec_roles()),
            RephrasedInsnKind::RuntimeExitBranch => Ok(()),
            _ => Err(RegVirtError::UnexpectedRegVirtHelper { pc: r.ori_pc }),
        }
    }
}

/// The memory operand of a load or store form, if the form has one.
pub open spec fn memory_operand(insn: A64Insn) -> Option<A64Mem> {
    match insn {
        A64Insn::LdrImmGenLdr32LdstImmpost { mem, .. } => Some(mem),
        A64Insn::LdrImmGenLdr64LdstImmpost { mem, .. } => Some(mem),
        A64Insn::LdrImmGenLdr32LdstImmpre { mem, .. } => Some(mem),
        A64Insn::LdrImmGenLdr64LdstImmpre { mem, .. } => Some(mem),
        A64Insn::LdrImmGenLdr32LdstPos { mem, .. } => Some(mem),
        A64Insn::LdrImmGenLdr64LdstPos { mem, .. } => Some(mem),
        A64Insn::StrImmGenStr32LdstImmpost { mem, .. } => Some(mem),
        A64Insn::StrImmGenStr64LdstImmpost { mem, .. } => Some(mem),
        A64Insn::StrImmGenStr32LdstImmpre { mem, .. } => Some(mem),
        A64Insn::StrImmGenStr64LdstImmpre { mem, .. } => Some(mem),
        A64Insn::StrImmGenStr32LdstPos { mem, .. } => Some(mem),
        A64Insn::StrImmGenStr64LdstPos { mem, .. } => Some(mem),
        A64Insn::LdpGenLdp64LdstpairPost { mem, .. } => Some(mem),
        A64Insn::LdpGenLdp64LdstpairPre { mem, .. } => Some(mem),
        A64Insn::LdpGenLdp64LdstpairOff { mem, .. } => Some(mem),
        A64Insn::StpGenStp64LdstpairPost { mem, .. } => Some(mem),
        A64Insn::StpGenStp64LdstpairPre { mem, .. } => Some(mem),
        A64Insn::StpGenStp64LdstpairOff { mem, .. } => Some(mem),
        _ => None,
    }
}

/// Every instruction of user code whose form writes its base register back
/// (a pre- or post-indexed memory operand) is refused at its pc: pair forms
/// as pair operations, all others as writeback memory.
pub proof fn lemma_writeback_forms_refused(r: RephrasedInsn)
    requires
        r.kind.spec_is_user_semantic(),
        memory_operand(r.insn.spec_canon()) matches Some(m) && !(m is Offset),
    ensures
        spec_validate_insn(r) is Err,
        spec_validate_insn(r) == Err::<(), RegVirtError>(
            RegVirtError::UnsupportedPairOp { pc: r.ori_pc, insn: r.insn.spec_key() },
        ) || spec_validate_insn(r) == Err::<(), RegVirtError>(
            RegVirtError::UnsupportedWritebackMemory { pc: r.ori_pc, insn: r.insn.spec_key() },
        ),
        !spec_is_pair_op(r.insn) ==> spec_validate_insn(r) == Err::<(), RegVirtError>(
            RegVirtError::UnsupportedWritebackMemory { pc: r.ori_pc, insn: r.insn.spec_key() },
        ),
{
}

/// Every load or store pair in user code is refused at its pc as a pair
/// operation, whatever its addressing mode.
pub proof fn lemma_pair_forms_refused(r: RephrasedInsn)
    requires
        r.kind.spec_is_user_semantic(),
        r.insn is LdpGenLdp64LdstpairOff || r.insn is LdpGenLdp64LdstpairPre || r.insn is LdpGenLdp64LdstpairPost
            || r.insn is StpGenStp64LdstpairOff || r.insn is StpGenStp64LdstpairPre
            || r.insn is StpGenStp64LdstpairPost,
    ensures
        spec_validate_insn(r) == Err::<(), RegVirtError>(
            RegVirtError::UnsupportedPairOp { pc: r.ori_pc, insn: r.insn.spec_key() },
        ),
{
}

/// The instructions in order, stopping at the first refusal.
pub open spec fn spec_validate_insns(s: Seq<RephrasedInsn>) -> Result<(), RegVirtError>
    decreases s.len(),
{
    if s.len() == 0 {
        Ok(())
    } else {
        match spec_validate_insn(s[0]) {
            Err(e) => Err(e),
            Ok(_) => spec_validate_insns(s.subrange(1, s.len() as int)),
        }
    }
}

/// The blocks in order, stopping at the first refusal.
pub open spec fn spec_validate_blocks(blocks: Seq<RephrasedBlock>) -> Result<(), RegVirtError>
    decreases blocks.len(),
{
    if blocks.len() == 0 {
        Ok(())
    } else {
        match spec_validate_insns(blocks[0].insns@) {
            Err(e) => Err(e),
            Ok(_) => spec_validate_blocks(blocks.subrange(1, blocks.len() as int)),
        }
    }
}

fn require_reg(rephrased: RephrasedInsn, field: &'static str) -> (r: Result<A64Reg, RegVirtError>)
    ensures
        r == spec_require_reg(rephrased, field),
{
    match rephrased.insn.get_reg(field) {
        Some(reg) => Ok(reg),
        None => Err(RegVirtError::MissingRegisterAccessor { pc: rephrased.ori_pc, insn: rephrased.insn.key(), field }),
    }
}

fn require_setter(rephrased: RephrasedInsn, field: &'static str, reg: A64Reg) -> (r: Result<(), RegVirtError>)
    ensures
        r == spec_require_setter(rephrased, field, reg),
{
    match rephrased.insn.set_reg(field, reg) {
        Ok(_) => Ok(()),
        Err(_) => Err(RegVirtError::MissingRegisterSetter { pc: rephrased.ori_pc, insn: rephrased.insn.key(), field }),
    }
}

fn validate_user_reg(
    rephrased: RephrasedInsn,
    access: &mut AccessSummary,
    field: &'static str,
    reg: A64Reg,
    width: A64RegWidth,
    is_write: bool,
) -> (r: Result<(), RegVirtError>)
    ensures
        match spec_user_reg(rephrased, old(access).view(), field, reg, width, is_write) {
            Ok(v) => r is Ok && final(access).view() == v,
            Err(e) => r == Err::<(), RegVirtError>(e),
        },
{
    match classify_reg(reg) {
        RegClass::Zero | RegClass::Direct => Ok(()),
        RegClass::Sp => Err(RegVirtError::UnsupportedSpOperand { pc: rephrased.ori_pc, insn: rephrased.insn.key(), field, reg }),
        RegClass::RuntimeReserved => {
            access.add_runtime_reserved(reg);
            Ok(())
        },
        RegClass::StableMapped => {
            access.add_stable_mapped(reg);
            Ok(())
        },
        RegClass::StackBacked => {
            match access.add_stack_backed(reg) {
                Ok(()) => {},
                Err(e) => {
                    return Err(e);
                },
            }
            if is_write && !matches!(width, A64RegWidth::X64) {
                return Err(
                    RegVirtError::UnsupportedStackBackedWriteWidth {
                        pc: rephrased.ori_pc,
                        insn: rephrased.insn.key(),
                        field,
                        reg,
                        width,
                    },
                );
            }
            if is_write || reg.enc >= 16 {
                access.add_stack_backed_rewrite_required(reg);
            }
            Ok(())
        },
    }
}

fn user_role(rephrased: RephrasedInsn, access: &mut AccessSummary, role: A64OperandRole) -> (r: Result<(), RegVirtError>)
    ensures
        match spec_user_role(rephrased, role, old(access).view()) {
            Ok(v) => r is Ok && final(access).view() == v,
            Err(e) => r == Err::<(), RegVirtError>(e),
        },
{
    match role {
        A64OperandRole::RegRead { field, width } => match require_reg(rephrased, field) {
            Err(e) => Err(e),
            Ok(reg) => validate_user_reg(rephrased, access, field, reg, width, false),
        },
        A64OperandRole::RegWrite { field, width } | A64OperandRole::RegReadWrite { field, width } => {
            match require_reg(rephrased, field) {
                Err(e) => Err(e),
                Ok(reg) => match require_setter(rephrased, field, reg) {
                    Err(e) => Err(e),
                    Ok(()) => validate_user_reg(rephrased, access, field, reg, width, true),
                },
            }
        },
        A64OperandRole::ImplicitRegWrite { reg, width } => Err(
            RegVirtError::UnsupportedImplicitRegWrite { pc: rephrased.ori_pc, insn: rephrased.insn.key(), reg, width },
        ),
        A64OperandRole::MemBase { field } => match require_reg(rephrased, field) {
            Err(e) => Err(e),
            Ok(reg) => validate_user_reg(rephrased, access, field, reg, A64RegWidth::X64, false),
        },
        _ => Ok(()),
    }
}

fn is_pair_op(insn: A64Insn) -> (r: bool)
    ensures
        r == spec_is_pair_op(insn),
{
    matches!(
        insn,
        A64Insn::LdpGenLdp64LdstpairPost { .. } | A64Insn::LdpGenLdp64LdstpairPre { .. }
        | A64Insn::LdpGenLdp64LdstpairOff { .. } | A64Insn::StpGenStp64LdstpairPost { .. }
        | A64Insn::StpGenStp64LdstpairPre { .. } | A64Insn::StpGenStp64LdstpairOff { .. }
    )
}

fn is_writeback_memory_op(insn: A64Insn) -> (r: bool)
    ensures
        r == spec_is_writeback_memory_op(insn),
{
    matches!(
        insn,
        A64Insn::LdrImmGenLdr32LdstImmpost { .. } | A64Insn::LdrImmGenLdr64LdstImmpost { .. }
        | A64Insn::LdrImmGenLdr32LdstImmpre { .. } | A64Insn::LdrImmGenLdr64LdstImmpre { .. }
        | A64Insn::StrImmGenStr32LdstImmpost { .. } | A64Insn::StrImmGenStr64LdstImmpost { .. }
        | A64Insn::StrImmGenStr32LdstImmpre { .. } | A64Insn::StrImmGenStr64LdstImmpre { .. }
    )
}

fn validate_user_semantic(rephrased: RephrasedInsn) -> (r: Result<(), RegVirtError>)
    ensures
        r == spec_validate_user_semantic(rephrased),
{
    let insn = rephrased.insn;
    let insn_key = insn.key();
    if is_pair_op(insn) {
        return Err(RegVirtError::UnsupportedPairOp { pc: rephrased.ori_pc, insn: insn_key });
    }
    if is_writeback_memory_op(insn) {
        return Err(RegVirtError::UnsupportedWritebackMemory { pc: rephrased.ori_pc, insn: insn_key });
    }
    let mut access = AccessSummary::new(rephrased.ori_pc, insn_key);
    let roles = insn.operand_roles();
    let ghost all = roles@;
    assert(all.subrange(0, all.len() as int) =~= all);
    let mut i: usize = 0;
    while i < roles.len()
        invariant
            i <= roles@.len(),
            all == roles@,
            all == insn.spec_roles(),
            insn == rephrased.insn,
            insn_key == insn.spec_key(),
            !spec_is_pair_op(insn),
            !spec_is_writeback_memory_op(insn),
            spec_user_roles(rephrased, all, empty_view(rephrased.ori_pc, insn_key)) == spec_user_roles(
                rephrased,
                all.subrange(i as int, all.len() as int),
                access.view(),
            ),
        decreases roles@.len() - i,
    {
        let ghost rest = all.subrange(i as int, all.len() as int);
        assert(rest.subrange(1, rest.len() as int) =~= all.subrange(i as int + 1, all.len() as int));
        let ghost before = access.view();
        assert(rest[0] == roles@[i as int]);
        match user_role(rephrased, &mut access, roles[i]) {
            Ok(()) => {},
            Err(e) => {
                assert(spec_user_roles(rephrased, rest, before) == Err::<AccessView, RegVirtError>(e));
                return Err(e);
            },
        }
        i = i + 1;
    }
    assert(all.subrange(i as int, all.len() as int) =~= Seq::<A64OperandRole>::empty());
    access.reject_unimplemented_virtual_regs()
}

fn field_has_write_role(insn: A64Insn, field: &'static str) -> (r: bool)
    ensures
        r == spec_field_has_write_role(insn, field@),
{
    let roles = insn.operand_roles();
    let mut i: usize = 0;
    while i < roles.len()
        invariant
            i <= roles@.len(),
            roles@ == insn.spec_roles(),
            forall|k: int| 0 <= k < i ==> !role_writes(#[trigger] roles@[k], field@),
        decreases roles@.len() - i,
    {
        let hit = match roles[i] {
            A64OperandRole::RegWrite { field: f, .. } => str_eq(f, field),
            A64OperandRole::RegReadWrite { field: f, .. } => str_eq(f, field),
            _ => false,
        };
        if hit {
            assert(role_writes(roles@[i as int], field@));
            return true;
        }
        i = i + 1;
    }
    false
}

fn runtime_field_is_owned_by_payload(insn: A64Insn, field: &'static str, reg: A64Reg) -> (r: bool)
    ensures
        r == spec_owned_by_payload(insn, field, reg),
{
    is_runtime_return_reg(reg) && field_has_write_role(insn, field)
}

fn payload_role(rephrased: RephrasedInsn, role: A64OperandRole) -> (r: Result<(), RegVirtError>)
    ensures
        r == spec_payload_role(rephrased, role),
{
    let insn = rephrased.insn;
    match role {
        A64OperandRole::RegRead { field, .. } => {
            let reg = match require_reg(rephrased, field) {
                Ok(reg) => reg,
                Err(e) => {
                    return Err(e);
                },
            };
            if runtime_field_is_owned_by_payload(insn, field, reg) || is_zero_reg(reg) {
                return Ok(());
            }
            if !classify_reg(reg).is_direct() {
                return Err(RegVirtError::UnsupportedRuntimeExitSource { pc: rephrased.ori_pc, insn: insn.key(), field, reg });
            }
            Ok(())
        },
        A64OperandRole::RegReadWrite { field, .. } => {
            let reg = match require_reg(rephrased, field) {
                Ok(reg) => reg,
                Err(e) => {
                    return Err(e);
                },
            };
            if !runtime_field_is_owned_by_payload(insn, field, reg) {
                return Err(RegVirtError::UnsupportedRuntimeExitSource { pc: rephrased.ori_pc, insn: insn.key(), field, reg });
            }
            Ok(())
        },
        A64OperandRole::RegWrite { field, .. } => match require_reg(rephrased, field) {
            Ok(_) => Ok(()),
            Err(e) => Err(e),
        },
        A64OperandRole::ImplicitRegWrite { reg, width } => Err(
            RegVirtError::UnsupportedImplicitRegWrite { pc: rephrased.ori_pc, insn: insn.key(), reg, width },
        ),
        A64OperandRole::MemBase { field } => {
            let reg = match require_reg(rephrased, field) {
                Ok(reg) => reg,
                Err(e) => {
                    return Err(e);
                },
            };
            if !classify_reg(reg).is_direct() {
                return Err(RegVirtError::UnsupportedRuntimeExitSource { pc: rephrased.ori_pc, insn: insn.key(), field, reg });
            }
            Ok(())
        },
        _ => Ok(()),
    }
}

fn validate_runtime_exit_payload(rephrased: RephrasedInsn) -> (r: Result<(), RegVirtError>)
    ensures
        r == spec_payload_roles(rephrased, rephrased.insn.spec_roles()),
{
    let roles = rephrased.insn.operand_roles();
    let ghost all = roles@;
    assert(all.subrange(0, all.len() as int) =~= all);
    let mut i: usize = 0;
    while i < roles.len()
        invariant
            i <= roles@.len(),
            all == roles@,
            all == rephrased.insn.spec_roles(),
            spec_payload_roles(rephrased, all) == spec_payload_roles(rephrased, all.subrange(i as int, all.len() as int)),
        decreases roles@.len() - i,
    {
        let ghost rest = all.subrange(i as int, all.len() as int);
        assert(rest.subrange(1, rest.len() as int) =~= all.subrange(i as int + 1, all.len() as int));
        match payload_role(rephrased, roles[i]) {
            Ok(()) => {},
            Err(e) => {
                return Err(e);
            },
        }
        i = i + 1;
    }
    assert(all.subrange(i as int, all.len() as int) =~= Seq::<A64OperandRole>::empty());
    Ok(())
}

/// Checks one rephrased instruction.
pub fn validate_insn(rephrased: RephrasedInsn) -> (r: Result<(), RegVirtError>)
    ensures
        r == spec_validate_insn(rephrased),
{
    if rephrased.kind.is_user_semantic() {
        return validate_user_semantic(rephrased);
    }
    match rephrased.kind {
        RephrasedInsnKind::RuntimeExitPayload => validate_runtime_exit_payload(rephrased),
        RephrasedInsnKind::RuntimeExitBranch => Ok(()),
        _ => Err(RegVirtError::UnexpectedRegVirtHelper { pc: rephrased.ori_pc }),
    }
}

/// Checks every instruction of every block, in order; the first refusal is
/// the answer.
pub fn validate_program(program: &Vec<RephrasedBlock>) -> (r: Result<(), RegVirtError>)
    ensures
        r == spec_validate_blocks(program@),
{
    assert(program@.subrange(0, program@.len() as int) =~= program@);
    let mut i: usize = 0;
    while i < program.len()
        invariant
            i <= program@.len(),
            spec_validate_blocks(program@) == spec_validate_blocks(program@.subrange(i as int, program@.len() as int)),
        decreases program@.len() - i,
    {
        let ghost rest = program@.subrange(i as int, program@.len() as int);
        assert(rest.subrange(1, rest.len() as int) =~= program@.subrange(i as int + 1, program@.len() as int));
        let insns = &program[i].insns;
        assert(rest[0] == program@[i as int]);
        assert(insns@.subrange(0, insns@.len() as int) =~= insns@);
        let mut j: usize = 0;
        while j < insns.len()
            invariant
                j <= insns@.len(),
                i < program@.len(),
                insns@ == program@[i as int].insns@,
                rest == program@.subrange(i as int, program@.len() as int),
                spec_validate_blocks(program@) == spec_validate_blocks(rest),
                spec_validate_insns(insns@) == spec_validate_insns(insns@.subrange(j as int, insns@.len() as int)),
            decreases insns@.len() - j,
        {
            let ghost irest = insns@.subrange(j as int, insns@.len() as int);
            assert(irest.subrange(1, irest.len() as int) =~= insns@.subrange(j as int + 1, insns@.len() as int));
            assert(irest[0] == insns@[j as int]);
            match validate_insn(insns[j]) {
                Ok(()) => {},
                Err(e) => {
                    assert(spec_validate_insns(insns@) == Err::<(), RegVirtError>(e));
                    assert(spec_validate_blocks(rest) == Err::<(), RegVirtError>(e));
                    return Err(e);
                },
            }
            j = j + 1;
        }
        assert(insns@.subrange(j as int, insns@.len() as int) =~= Seq::<RephrasedInsn>::empty());
        i = i + 1;
    }
    assert(program@.subrange(i as int, program@.len() as int) =~= Seq::<RephrasedBlock>::empty());
    Ok(())
}

/// Hands the program back when every register use in it can stand as it
/// is; otherwise the first refusal.
pub fn virtualize_registers(program: Vec<RephrasedBlock>) -> (r: Result<Vec<RephrasedBlock>, RegVirtError>)
    ensures
        match spec_validate_blocks(program@) {
            Ok(_) => r matches Ok(p) && p@ == program@,
            Err(e) => r == Err::<Vec<RephrasedBlock>, RegVirtError>(e),
        },
{
    match validate_program(&program) {
        Ok(()) => Ok(program),
        Err(e) => Err(e),
    }
}

} // verus!
