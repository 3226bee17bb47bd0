//! Register assignments of the runtime calling convention.
use vstd::prelude::*;

verus! {

pub const ABI_PT_REGS_ARG_REG: u8 = 0;

pub const ABI_EXTRA_PARAMS_ARG_REG: u8 = 1;

pub const ABI_LINK_REG: u8 = 30;

pub const RET_STATUS_REG: u8 = 9;

pub const RET_PARAM0_REG: u8 = 10;

pub const RET_PARAM1_REG: u8 = 11;

pub const REG_VIRT_SCRATCH_GPR_LIMIT: usize = 4;

pub const REG_VIRT_SCRATCH_GPR_START: u8 = 12;

pub const REG_VIRT_SCRATCH_GPR_END: u8 = 15;

pub const REG_VIRT_STACK_BACKED_REG_START: u8 = 12;

pub const REG_VIRT_STACK_BACKED_REG_END: u8 = 17;

pub const REG_VIRT_STABLE_MAPPED_X29_REG: u8 = 29;

pub const REG_VIRT_STABLE_MAPPED_X29_PHYS_REG: u8 = 16;

pub const REG_VIRT_STABLE_MAPPED_SP_PHYS_REG: u8 = 17;

/// The scratch register with the given index, for indices below the limit.
pub fn reg_virt_scratch_gpr(index: usize) -> (r: Option<u8>)
    ensures
        index < REG_VIRT_SCRATCH_GPR_LIMIT ==> r == Some((REG_VIRT_SCRATCH_GPR_START + index) as u8),
        index >= REG_VIRT_SCRATCH_GPR_LIMIT ==> r is None,
{
    if index >= REG_VIRT_SCRATCH_GPR_LIMIT {
        return None;
    }
    Some(REG_VIRT_SCRATCH_GPR_START + index as u8)
}

} // verus!
