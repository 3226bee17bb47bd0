//! The A64 instruction subset: operands, forms, encoding and decoding, and
//! the facts about branches and addresses that the translator reads off a
//! decoded instruction.
pub mod types;
pub mod fields;
pub mod insn;
pub mod codec;
pub mod access;
pub mod ergo;
pub mod ir;

pub use access::{A64RegField, A64RewriteError};
pub use insn::{A64EncodeError, A64Insn, A64OperandRole};
pub use ir::{
    decode_program, decode_word, A64Condition, DecodeError, IrInsn,
};
pub use types::{A64Imm, A64Mem, A64Reg, A64Reg31Mode, A64RegWidth};
