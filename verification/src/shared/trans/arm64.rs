//! Decoded instructions as the translation pipeline carries them.
use vstd::prelude::*;

use crate::shared::arm64::{codec, A64Insn};
use crate::shared::platform::SharedAllocError;

verus! {

/// An instruction of the subset with the address it was read from and its word.
#[derive(Clone, Copy, Debug, PartialEq, Eq, Structural)]
pub struct DecodedInsn {
    pub pc: u64,
    pub word: u32,
    pub insn: A64Insn,
}

#[derive(Clone, Copy, Debug, PartialEq, Eq, Structural)]
pub enum DecodeError {
    UnsupportedWord { pc: u64, word: u32 },
    Alloc(SharedAllocError),
}

/// What decoding `word` at `pc` gives.
pub open spec fn spec_decode(word: u32, pc: u64) -> Result<DecodedInsn, DecodeError> {
    match codec::spec_decode_word(word) {
        Some(insn) => Ok(DecodedInsn { pc, word, insn }),
        None => Err(DecodeError::UnsupportedWord { pc, word }),
    }
}

/// Decodes the word at `pc`; refused exactly when it is the word of no
/// instruction of the subset.
pub fn decode_word(word: u32, pc: u64) -> (r: Result<DecodedInsn, DecodeError>)
    ensures
        r == spec_decode(word, pc),
        r matches Ok(d) ==> d.insn.spec_fits() && d.insn.spec_is_canonical() && d.insn.spec_word() == word,
{
    match A64Insn::decode(word) {
        Some(insn) => Ok(DecodedInsn { pc, word, insn }),
        None => Err(DecodeError::UnsupportedWord { pc, word }),
    }
}

} // verus!
