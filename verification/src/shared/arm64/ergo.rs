//! Short constructors for operands, for writing instruction sequences by hand.
use vstd::prelude::*;

use super::types::{A64Imm, A64Mem, A64Reg, A64Reg31Mode, A64RegWidth};

verus! {

pub fn x(reg: u8) -> (r: A64Reg)
    ensures
        r == (A64Reg { enc: reg, width: A64RegWidth::X64, reg31: A64Reg31Mode::Xzr }),
{
    A64Reg::x(reg)
}

pub fn w(reg: u8) -> (r: A64Reg)
    ensures
        r == (A64Reg { enc: reg, width: A64RegWidth::W32, reg31: A64Reg31Mode::Xzr }),
{
    A64Reg::w(reg)
}

pub fn xzr() -> (r: A64Reg)
    ensures
        r == (A64Reg { enc: 31, width: A64RegWidth::X64, reg31: A64Reg31Mode::Xzr }),
{
    A64Reg::x(31)
}

pub fn wzr() -> (r: A64Reg)
    ensures
        r == (A64Reg { enc: 31, width: A64RegWidth::W32, reg31: A64Reg31Mode::Xzr }),
{
    A64Reg::w(31)
}

pub fn sp() -> (r: A64Reg)
    ensures
        r == (A64Reg { enc: 31, width: A64RegWidth::X64, reg31: A64Reg31Mode::Sp }),
{
    A64Reg::x_sp(31)
}

pub fn wsp() -> (r: A64Reg)
    ensures
        r == (A64Reg { enc: 31, width: A64RegWidth::W32, reg31: A64Reg31Mode::Sp }),
{
    A64Reg::w_sp(31)
}

pub fn uimm(raw: u32, bits: u8) -> (r: A64Imm)
    ensures
        r == (A64Imm { raw, bits, scale: 0, signed: false }),
{
    A64Imm::unsigned(raw, bits)
}

pub fn simm(raw: u32, bits: u8) -> (r: A64Imm)
    ensures
        r == (A64Imm { raw, bits, scale: 0, signed: true }),
{
    A64Imm::signed(raw, bits)
}

pub fn scaled_uimm(raw: u32, bits: u8, scale: u8) -> (r: A64Imm)
    ensures
        r == (A64Imm { raw, bits, scale, signed: false }),
{
    A64Imm::scaled_unsigned(raw, bits, scale)
}

pub fn scaled_simm(raw: u32, bits: u8, scale: u8) -> (r: A64Imm)
    ensures
        r == (A64Imm { raw, bits, scale, signed: true }),
{
    A64Imm::scaled_signed(raw, bits, scale)
}

/// The unsigned 12-bit immediate, scaled by 8, of a 64-bit load or store at
/// `offset_bytes` (the remainder below 8 is dropped).
pub fn ldst64_offset(offset_bytes: u32) -> (r: A64Imm)
    ensures
        r == (A64Imm { raw: offset_bytes / 8, bits: 12, scale: 3, signed: false }),
{
    scaled_uimm(offset_bytes / 8, 12, 3)
}

/// `x / 8` rounded toward zero.
pub open spec fn div8_toward_zero(x: int) -> int {
    if x >= 0 {
        x / 8
    } else {
        -((-x) / 8)
    }
}

/// The signed 7-bit immediate, scaled by 8, of a 64-bit pair load or store at
/// `offset_bytes`: the quotient by 8, rounded toward zero, kept to its low
/// seven bits (two's complement).
pub fn ldstpair64_offset(offset_bytes: i32) -> (r: A64Imm)
    ensures
        r == (A64Imm {
            raw: (div8_toward_zero(offset_bytes as int) % 128) as u32,
            bits: 7,
            scale: 3,
            signed: true,
        }),
{
    let wide = offset_bytes as i64;
    let scaled: i64 = if wide >= 0 {
        wide / 8
    } else {
        -((-wide) / 8)
    };
    let biased = (scaled + 0x1000_0000) as u32;
    assert(biased as int % 128 == scaled as int % 128);
    scaled_simm(biased % 128, 7, 3)
}

pub fn mem_off(base: A64Reg, offset: A64Imm) -> (r: A64Mem)
    ensures
        r == (A64Mem::Offset { base, offset }),
{
    A64Mem::offset(base, offset)
}

pub fn mem_pre(base: A64Reg, offset: A64Imm) -> (r: A64Mem)
    ensures
        r == (A64Mem::PreIndex { base, offset }),
{
    A64Mem::pre_index(base, offset)
}

pub fn mem_post(base: A64Reg, offset: A64Imm) -> (r: A64Mem)
    ensures
        r == (A64Mem::PostIndex { base, offset }),
{
    A64Mem::post_index(base, offset)
}

} // verus!
