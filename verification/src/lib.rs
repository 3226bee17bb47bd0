//! A verified model of an AArch64 user-code translator: instruction
//! encoding and decoding, a reference interpreter, control-flow discovery,
//! rephrasing of control transfers into runtime exits, register
//! virtualization checks and fragment layout.
pub mod assem;
pub mod harness;
pub mod lifter;
pub mod shared;
pub mod specgen;
pub mod utils;

use vstd::prelude::*;

verus! {

} // verus!
