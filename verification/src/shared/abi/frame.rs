//! The layout of the runtime frame that the prologue builds on the stack.
use vstd::prelude::*;

use super::regs::{REG_VIRT_STACK_BACKED_REG_END, REG_VIRT_STACK_BACKED_REG_START};

verus! {

pub const RUNTIME_FRAME_SIZE_BYTES: u32 = 192;

pub const RUNTIME_FRAME_PT_REGS_PTR_OFFSET: u32 = 176;

pub const REG_VIRT_STACK_BACKED_FRAME_OFFSET_START: u32 = 16;

pub const REG_VIRT_STACK_BACKED_FRAME_SLOT_SIZE: u32 = 8;

pub const PT_REGS_GPR_SLOT_SIZE: u32 = 8;

/// The frame offset of the slot that backs a stack-backed register.
pub fn reg_virt_stack_backed_slot_offset(reg: u8) -> (r: Option<u32>)
    ensures
        REG_VIRT_STACK_BACKED_REG_START <= reg <= REG_VIRT_STACK_BACKED_REG_END ==> r == Some(
            (REG_VIRT_STACK_BACKED_FRAME_OFFSET_START + (reg - REG_VIRT_STACK_BACKED_REG_START)
                * REG_VIRT_STACK_BACKED_FRAME_SLOT_SIZE) as u32,
        ),
        !(REG_VIRT_STACK_BACKED_REG_START <= reg <= REG_VIRT_STACK_BACKED_REG_END) ==> r is None,
{
    if reg < REG_VIRT_STACK_BACKED_REG_START || reg > REG_VIRT_STACK_BACKED_REG_END {
        return None;
    }
    Some(
        REG_VIRT_STACK_BACKED_FRAME_OFFSET_START + ((reg - REG_VIRT_STACK_BACKED_REG_START) as u32)
            * REG_VIRT_STACK_BACKED_FRAME_SLOT_SIZE,
    )
}

/// The offset of general register `reg` in the saved register block.
pub fn pt_regs_x_slot_offset(reg: u8) -> (r: Option<u32>)
    ensures
        reg < 31 ==> r == Some((reg * PT_REGS_GPR_SLOT_SIZE) as u32),
        reg >= 31 ==> r is None,
{
    if reg >= 31 {
        return None;
    }
    Some((reg as u32) * PT_REGS_GPR_SLOT_SIZE)
}

} // verus!
