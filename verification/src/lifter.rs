//! The decisions of the kernel-side lifting loop. Lifted code runs until it
//! returns to the loop with a status; the loop then decides where the code
//! resumes, which exits to patch, what the user's link register becomes,
//! and when control goes back to user space. Running the code, serving the
//! system call, translating new code and patching the page are the
//! caller's work.
use vstd::prelude::*;

use crate::shared::abi::RetStatus;
use crate::shared::utils::vlabel::{self, VLabels};

verus! {

/// After this many returns in one session, control goes back to user space.
pub const LOOP_LIMIT: usize = 2000;

/// The bit that marks a kernel address.
pub const KERNEL_ADDRESS_BIT: u64 = 0x8000_0000_0000_0000;

/// One return from lifted code.
#[derive(Clone, Copy, Debug, PartialEq, Eq, Structural)]
pub struct LiftReturn {
    /// The status register.
    pub ret_val: u64,
    /// The first extra parameter: the target of the exit.
    pub imm_param: u64,
    /// The address of the branch that left the code.
    pub b_insn_addr: u64,
    /// The returns so far in this session, this one included.
    pub cnt: usize,
}

/// Why the loop cannot go on; the lifter stops there.
#[derive(Clone, Copy, Debug, PartialEq, Eq, Structural)]
pub enum LiftFault {
    SvcResumeUnknown,
    UnsupportedBlrAddress,
    UnsupportedBrAddress,
    UnknownKernelReturn,
    InvalidStatus,
    UserLrUnknown,
}

/// Rewrite the exit at byte `at` of the page into a call of `target`.
#[derive(Clone, Copy, Debug, PartialEq, Eq, Structural)]
pub struct LinkPatch {
    pub at: usize,
    pub target: usize,
}

/// What the loop does after one return.
#[derive(Clone, Copy, Debug, PartialEq, Eq, Structural)]
pub struct LiftDecision {
    /// Serve the system call first.
    pub syscall: bool,
    /// Point the prologue's entry branch at this page offset.
    pub entry_offset: Option<usize>,
    /// Turn the exit into a direct call.
    pub link_patch: Option<LinkPatch>,
    /// The new value of the user's link register.
    pub user_lr: Option<u64>,
    /// Leave the loop and return to user space at this pc.
    pub exit_pc: Option<u64>,
    /// The lifting of this path failed.
    pub failed: bool,
}

/// The next step of the loop.
#[derive(Clone, Copy, Debug, PartialEq, Eq, Structural)]
pub enum LiftStep {
    Decided(LiftDecision),
    /// Translate the code at `target`, then call `lift_after_translation`.
    Translate { target: u64 },
    Fault(LiftFault),
}

/// The inputs on which the loop's address arithmetic stays in range: the
/// exit lies in the page, and a kernel return address lies at or above it.
pub open spec fn lift_return_ok(ret: LiftReturn, base: u64) -> bool {
    &&& base <= ret.b_insn_addr
    &&& ret.b_insn_addr + 4 <= u64::MAX
    &&& ret.b_insn_addr - base + 4 <= usize::MAX
    &&& RetStatus::spec_from_reg(ret.ret_val) == RetStatus::Ret && ret.imm_param & KERNEL_ADDRESS_BIT != 0 ==> (
    base <= ret.imm_param && ret.imm_param - base <= usize::MAX)
}

pub open spec fn exit_offset(ret: LiftReturn, base: u64) -> usize {
    (ret.b_insn_addr - base) as usize
}

pub open spec fn nothing() -> LiftDecision {
    LiftDecision { syscall: false, entry_offset: None, link_patch: None, user_lr: None, exit_pc: None, failed: false }
}

/// Continue at `target`; leave for `pc` once the session has run long
/// enough.
pub open spec fn continue_at(ret: LiftReturn, target: usize, pc: u64) -> LiftDecision {
    LiftDecision {
        entry_offset: Some(target),
        exit_pc: if ret.cnt >= LOOP_LIMIT {
            Some(pc)
        } else {
            None
        },
        ..nothing()
    }
}

/// Give up on the path: return to user space at the exit's target.
pub open spec fn give_up(ret: LiftReturn) -> LiftDecision {
    LiftDecision { exit_pc: Some(ret.imm_param), failed: true, ..nothing() }
}

/// A call sets the user's link register to just after the exit in the page.
pub open spec fn with_link(d: LiftDecision, ret: LiftReturn) -> LiftDecision {
    LiftDecision { user_lr: Some((ret.b_insn_addr + 4) as u64), ..d }
}

/// Where the code for a target that is now translated, at page offset
/// `target`, takes the loop; `None` when the translation failed.
pub open spec fn spec_after_translation(ret: LiftReturn, base: u64, translated: Option<usize>) -> LiftDecision {
    let status = RetStatus::spec_from_reg(ret.ret_val);
    match translated {
        None => if status == RetStatus::Bl || status == RetStatus::Blr {
            with_link(give_up(ret), ret)
        } else {
            give_up(ret)
        },
        Some(t) => {
            let d = continue_at(ret, t, ret.imm_param);
            if status == RetStatus::Bl {
                with_link(LiftDecision { link_patch: Some(LinkPatch { at: exit_offset(ret, base), target: t }), ..d }, ret)
            } else if status == RetStatus::Blr {
                with_link(d, ret)
            } else {
                d
            }
        },
    }
}

/// What one return from lifted code leads to. A system call is served and
/// the code resumes after the exit. A call, indirect branch or return to a
/// laid-out pc continues there (a direct call is patched to stay in the
/// page); to another pc it asks for a translation, unless a loop was found,
/// in which case calls and branches give up and a return goes back to user
/// space. A return to a kernel address resumes at that page offset.
pub open spec fn spec_lift_step(ret: LiftReturn, vl: Seq<vlabel::VLabel>, found_loop: bool, base: u64) -> LiftStep {
    let status = RetStatus::spec_from_reg(ret.ret_val);
    let imm = ret.imm_param;
    let b_off = exit_offset(ret, base);
    let user = imm & KERNEL_ADDRESS_BIT == 0;
    match status {
        RetStatus::Svc => {
            let resume = (b_off + 4) as usize;
            let d = LiftDecision { syscall: true, entry_offset: Some(resume), ..nothing() };
            if ret.cnt >= LOOP_LIMIT {
                match vlabel::first_pc(vl, resume) {
                    Some(a) => LiftStep::Decided(LiftDecision { exit_pc: Some(a), ..d }),
                    None => LiftStep::Fault(LiftFault::SvcResumeUnknown),
                }
            } else {
                LiftStep::Decided(d)
            }
        },
        RetStatus::Bl => match vlabel::first_offset(vl, imm) {
            Some(t) => LiftStep::Decided(spec_after_translation(ret, base, Some(t))),
            None => if !found_loop {
                LiftStep::Translate { target: imm }
            } else {
                LiftStep::Decided(spec_after_translation(ret, base, None))
            },
        },
        RetStatus::Blr | RetStatus::Br => if !user {
            LiftStep::Fault(
                if status == RetStatus::Blr {
                    LiftFault::UnsupportedBlrAddress
                } else {
                    LiftFault::UnsupportedBrAddress
                },
            )
        } else {
            match vlabel::first_offset(vl, imm) {
                Some(t) => LiftStep::Decided(spec_after_translation(ret, base, Some(t))),
                None => if !found_loop {
                    LiftStep::Translate { target: imm }
                } else {
                    LiftStep::Decided(spec_after_translation(ret, base, None))
                },
            }
        },
        RetStatus::Ret => if user {
            match vlabel::first_offset(vl, imm) {
                Some(t) => LiftStep::Decided(spec_after_translation(ret, base, Some(t))),
                None => if found_loop {
                    LiftStep::Decided(LiftDecision { exit_pc: Some(imm), ..nothing() })
                } else {
                    LiftStep::Translate { target: imm }
                },
            }
        } else {
            let target = (imm - base) as usize;
            match vlabel::first_pc(vl, target) {
                Some(resume) => LiftStep::Decided(continue_at(ret, target, resume)),
                None => LiftStep::Fault(LiftFault::UnknownKernelReturn),
            }
        },
        _ => LiftStep::Fault(LiftFault::InvalidStatus),
    }
}

/// Only a call (BL or BLR) sets the user's link register, to the address
/// just after the exit; after a BR, a RET or a system call the decision
/// leaves it alone. This holds of the decision after a translation and of
/// every decision of a step.
pub proof fn lemma_only_calls_set_link(
    ret: LiftReturn,
    vl: Seq<vlabel::VLabel>,
    found_loop: bool,
    base: u64,
    translated: Option<usize>,
)
    ensures
        ({
            let status = RetStatus::spec_from_reg(ret.ret_val);
            let call = status == RetStatus::Bl || status == RetStatus::Blr;
            let d = spec_after_translation(ret, base, translated);
            &&& d.user_lr is Some <==> call
            &&& d.user_lr matches Some(lr) ==> lr == (ret.b_insn_addr + 4) as u64
            &&& spec_lift_step(ret, vl, found_loop, base) matches LiftStep::Decided(e) ==> {
                &&& e.user_lr is Some <==> call
                &&& e.user_lr matches Some(lr) ==> lr == (ret.b_insn_addr + 4) as u64
            }
        }),
{
}

/// Only a direct call (BL) is patched into a call within the page, and the
/// patch rewrites that call's own exit; only a system call asks for the
/// system call to be served, and it resumes at the instruction after its
/// exit; a status that names no exit kind is refused.
pub proof fn lemma_step_patches_and_syscalls(ret: LiftReturn, vl: Seq<vlabel::VLabel>, found_loop: bool, base: u64)
    ensures
        ({
            let status = RetStatus::spec_from_reg(ret.ret_val);
            let step = spec_lift_step(ret, vl, found_loop, base);
            &&& step matches LiftStep::Decided(d) ==> {
                &&& d.link_patch matches Some(p) ==> status == RetStatus::Bl && p.at == exit_offset(ret, base)
                &&& d.syscall <==> status == RetStatus::Svc
                &&& status == RetStatus::Svc ==> d.entry_offset == Some((exit_offset(ret, base) + 4) as usize)
            }
            &&& !(status == RetStatus::Svc || status == RetStatus::Bl || status == RetStatus::Blr
                || status == RetStatus::Br || status == RetStatus::Ret) ==> step == LiftStep::Fault(
                LiftFault::InvalidStatus,
            )
        }),
{
}

fn continue_at_exec(ret: LiftReturn, target: usize, pc: u64) -> (r: LiftDecision)
    ensures
        r == continue_at(ret, target, pc),
{
    LiftDecision {
        syscall: false,
        entry_offset: Some(target),
        link_patch: None,
        user_lr: None,
        exit_pc: if ret.cnt >= LOOP_LIMIT {
            Some(pc)
        } else {
            None
        },
        failed: false,
    }
}

/// The decision once the code at the exit's target was translated to page
/// offset `translated`, or could not be (`None`).
pub fn lift_after_translation(ret: LiftReturn, base: u64, translated: Option<usize>) -> (r: LiftDecision)
    requires
        lift_return_ok(ret, base),
    ensures
        r == spec_after_translation(ret, base, translated),
{
    let status = RetStatus::from_reg(ret.ret_val);
    let call = status == RetStatus::Bl || status == RetStatus::Blr;
    let link = ret.b_insn_addr + 4;
    match translated {
        None => LiftDecision {
            syscall: false,
            entry_offset: None,
            link_patch: None,
            user_lr: if call {
                Some(link)
            } else {
                None
            },
            exit_pc: Some(ret.imm_param),
            failed: true,
        },
        Some(t) => {
            let d = continue_at_exec(ret, t, ret.imm_param);
            if status == RetStatus::Bl {
                let at = (ret.b_insn_addr - base) as usize;
                LiftDecision { link_patch: Some(LinkPatch { at, target: t }), user_lr: Some(link), ..d }
            } else if status == RetStatus::Blr {
                LiftDecision { user_lr: Some(link), ..d }
            } else {
                d
            }
        },
    }
}

/// The decision after one return from lifted code, as `spec_lift_step`
/// says; `labels` ties original pcs to page offsets.
pub fn lift_step(ret: LiftReturn, labels: &VLabels, found_loop: bool, base: u64) -> (r: LiftStep)
    requires
        lift_return_ok(ret, base),
    ensures
        r == spec_lift_step(ret, labels.view(), found_loop, base),
{
    let status = RetStatus::from_reg(ret.ret_val);
    let imm = ret.imm_param;
    let b_off = (ret.b_insn_addr - base) as usize;
    let user = imm & KERNEL_ADDRESS_BIT == 0;
    match status {
        RetStatus::Svc => {
            let resume = b_off + 4;
            let d = LiftDecision {
                syscall: true,
                entry_offset: Some(resume),
                link_patch: None,
                user_lr: None,
                exit_pc: None,
                failed: false,
            };
            if ret.cnt >= LOOP_LIMIT {
                match labels.pc_for_offset(resume) {
                    Some(a) => LiftStep::Decided(LiftDecision { exit_pc: Some(a), ..d }),
                    None => LiftStep::Fault(LiftFault::SvcResumeUnknown),
                }
            } else {
                LiftStep::Decided(d)
            }
        },
        RetStatus::Bl => match labels.offset_for_pc(imm) {
            Some(t) => LiftStep::Decided(lift_after_translation(ret, base, Some(t))),
            None => if !found_loop {
                LiftStep::Translate { target: imm }
            } else {
                LiftStep::Decided(lift_after_translation(ret, base, None))
            },
        },
        RetStatus::Blr | RetStatus::Br => {
            if !user {
                LiftStep::Fault(
                    if status == RetStatus::Blr {
                        LiftFault::UnsupportedBlrAddress
                    } else {
                        LiftFault::UnsupportedBrAddress
                    },
                )
            } else {
                match labels.offset_for_pc(imm) {
                    Some(t) => LiftStep::Decided(lift_after_translation(ret, base, Some(t))),
                    None => if !found_loop {
                        LiftStep::Translate { target: imm }
                    } else {
                        LiftStep::Decided(lift_after_translation(ret, base, None))
                    },
                }
            }
        },
        RetStatus::Ret => {
            if user {
                match labels.offset_for_pc(imm) {
                    Some(t) => LiftStep::Decided(lift_after_translation(ret, base, Some(t))),
                    None => if found_loop {
                        LiftStep::Decided(
                            LiftDecision {
                                syscall: false,
                                entry_offset: None,
                                link_patch: None,
                                user_lr: None,
                                exit_pc: Some(imm),
                                failed: false,
                            },
                        )
                    } else {
                        LiftStep::Translate { target: imm }
                    },
                }
            } else {
                let target = (imm - base) as usize;
                match labels.pc_for_offset(target) {
                    Some(resume) => LiftStep::Decided(continue_at_exec(ret, target, resume)),
                    None => LiftStep::Fault(LiftFault::UnknownKernelReturn),
                }
            }
        },
        _ => LiftStep::Fault(LiftFault::InvalidStatus),
    }
}

/// The user's link register when the session ends: a kernel address in the
/// page is mapped back to the original pc laid out there.
pub open spec fn spec_user_link(lr: u64, vl: Seq<vlabel::VLabel>, base: u64) -> Result<u64, LiftFault> {
    if lr & KERNEL_ADDRESS_BIT != 0 {
        match vlabel::first_pc(vl, (lr - base) as usize) {
            Some(u) => Ok(u),
            None => Err(LiftFault::UserLrUnknown),
        }
    } else {
        Ok(lr)
    }
}

/// The user's link register to leave in place when the session ends.
pub fn user_link(lr: u64, labels: &VLabels, base: u64) -> (r: Result<u64, LiftFault>)
    requires
        lr & KERNEL_ADDRESS_BIT != 0 ==> base <= lr && lr - base <= usize::MAX,
    ensures
        r == spec_user_link(lr, labels.view(), base),
{
    if lr & KERNEL_ADDRESS_BIT != 0 {
        match labels.pc_for_offset((lr - base) as usize) {
            Some(u) => Ok(u),
            None => Err(LiftFault::UserLrUnknown),
        }
    } else {
        Ok(lr)
    }
}

} // verus!
