//! What a translation is asked for, and where its code comes from.
use vstd::prelude::*;

use crate::shared::arm64::ir;

verus! {

/// What started a translation.
#[derive(Clone, Copy, Debug, PartialEq, Eq, Structural)]
pub enum TranslationTrigger {
    Manual,
    HotSvc,
    BranchDiscovery { source_pc: u64 },
}

/// The user registers at the time of the request.
#[derive(Clone, Copy, Debug, PartialEq, Eq)]
pub struct RegisterSnapshot {
    pub x: [u64; 31],
    pub sp: u64,
    pub pc: u64,
    pub pstate: u64,
}

/// A request to translate the code reachable from `entry_pc`.
#[derive(Clone, Copy, Debug, PartialEq, Eq)]
pub struct TranslationRequest {
    pub entry_pc: u64,
    pub trigger: TranslationTrigger,
    pub regs: Option<RegisterSnapshot>,
}

/// A code read outside the mapped text.
#[derive(Clone, Copy, Debug, PartialEq, Eq, Structural)]
pub enum CodeReadError {
    Unmapped { pc: u64, len: usize },
}

/// `bytes` are the code bytes at `pc`, `pc + 1`, ... (addresses wrap).
pub open spec fn reads_code(code: Map<u64, u8>, pc: u64, bytes: Seq<u8>) -> bool {
    forall|i: int|
        0 <= i < bytes.len() ==> code.contains_key(#[trigger] ir::wrap_add(pc, i)) && bytes[i]
            == code[ir::wrap_add(pc, i)]
}

/// Where the code to translate is read from.
pub trait CodeProvider {
    /// The code bytes the provider holds, by address.
    spec fn spec_code(self) -> Map<u64, u8>;

    /// Fills `dst` with the code bytes from `pc` on. When it succeeds, every
    /// byte read is the code byte at its address.
    fn read_exact(&self, pc: u64, dst: &mut [u8]) -> (r: Result<(), CodeReadError>)
        ensures
            final(dst)@.len() == old(dst)@.len(),
            r is Ok ==> reads_code(self.spec_code(), pc, final(dst)@),
    ;
}

} // verus!
