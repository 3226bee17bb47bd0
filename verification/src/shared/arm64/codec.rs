//! Decoding of instruction words into the A64 subset, and the two laws that
//! tie decoding to encoding.
use vstd::prelude::*;

use super::fields;
use super::insn::A64Insn;
use super::types::{A64Imm, A64Mem, A64Reg, A64Reg31Mode, A64RegWidth};

verus! {

/// The form a word decodes to, if any: the top byte and a few more fixed
/// bits select the form, and the operand fields are read from their places.
pub open spec fn spec_decode_word(w: u32) -> Option<A64Insn> {
    let top = w >> 24;
    if w == 0xD503201F {
        Some(A64Insn::NopNopHiHints {})
    } else if top == 0x10 || top == 0x30 || top == 0x50 || top == 0x70 {
        Some(A64Insn::AdrAdrOnlyPcreladdr { immlo: A64Imm { raw: ((w >> 29) & 0x3), bits: 2, scale: 0, signed: false }, immhi: A64Imm { raw: ((w >> 5) & 0x7FFFF), bits: 19, scale: 0, signed: false }, rd: A64Reg { enc: (w & 0x1F) as u8, width: A64RegWidth::X64, reg31: A64Reg31Mode::Xzr } })
    } else if top == 0x90 || top == 0xB0 || top == 0xD0 || top == 0xF0 {
        Some(A64Insn::AdrpAdrpOnlyPcreladdr { immlo: A64Imm { raw: ((w >> 29) & 0x3), bits: 2, scale: 0, signed: false }, immhi: A64Imm { raw: ((w >> 5) & 0x7FFFF), bits: 19, scale: 0, signed: false }, rd: A64Reg { enc: (w & 0x1F) as u8, width: A64RegWidth::X64, reg31: A64Reg31Mode::Xzr } })
    } else if (top == 0x11 && (w >> 23) & 1 == 0) {
        Some(A64Insn::AddAddsubImmAdd32AddsubImm { sh: ((w >> 22) & 0x1) as u8, imm12: A64Imm { raw: ((w >> 10) & 0xFFF), bits: 12, scale: 0, signed: false }, rn: A64Reg { enc: ((w >> 5) & 0x1F) as u8, width: A64RegWidth::W32, reg31: A64Reg31Mode::Sp }, rd: A64Reg { enc: (w & 0x1F) as u8, width: A64RegWidth::W32, reg31: A64Reg31Mode::Sp } })
    } else if (top == 0x91 && (w >> 23) & 1 == 0) {
        Some(A64Insn::AddAddsubImmAdd64AddsubImm { sh: ((w >> 22) & 0x1) as u8, imm12: A64Imm { raw: ((w >> 10) & 0xFFF), bits: 12, scale: 0, signed: false }, rn: A64Reg { enc: ((w >> 5) & 0x1F) as u8, width: A64RegWidth::X64, reg31: A64Reg31Mode::Sp }, rd: A64Reg { enc: (w & 0x1F) as u8, width: A64RegWidth::X64, reg31: A64Reg31Mode::Sp } })
    } else if (top == 0x51 && (w >> 23) & 1 == 0) {
        Some(A64Insn::SubAddsubImmSub32AddsubImm { sh: ((w >> 22) & 0x1) as u8, imm12: A64Imm { raw: ((w >> 10) & 0xFFF), bits: 12, scale: 0, signed: false }, rn: A64Reg { enc: ((w >> 5) & 0x1F) as u8, width: A64RegWidth::W32, reg31: A64Reg31Mode::Sp }, rd: A64Reg { enc: (w & 0x1F) as u8, width: A64RegWidth::W32, reg31: A64Reg31Mode::Sp } })
    } else if (top == 0xD1 && (w >> 23) & 1 == 0) {
        Some(A64Insn::SubAddsubImmSub64AddsubImm { sh: ((w >> 22) & 0x1) as u8, imm12: A64Imm { raw: ((w >> 10) & 0xFFF), bits: 12, scale: 0, signed: false }, rn: A64Reg { enc: ((w >> 5) & 0x1F) as u8, width: A64RegWidth::X64, reg31: A64Reg31Mode::Sp }, rd: A64Reg { enc: (w & 0x1F) as u8, width: A64RegWidth::X64, reg31: A64Reg31Mode::Sp } })
    } else if (top == 0x71 && (w >> 23) & 1 == 0) {
        Some(A64Insn::SubsAddsubImmSubs32sAddsubImm { sh: ((w >> 22) & 0x1) as u8, imm12: A64Imm { raw: ((w >> 10) & 0xFFF), bits: 12, scale: 0, signed: false }, rn: A64Reg { enc: ((w >> 5) & 0x1F) as u8, width: A64RegWidth::W32, reg31: A64Reg31Mode::Sp }, rd: A64Reg { enc: (w & 0x1F) as u8, width: A64RegWidth::W32, reg31: A64Reg31Mode::Xzr } })
    } else if (top == 0xF1 && (w >> 23) & 1 == 0) {
        Some(A64Insn::SubsAddsubImmSubs64sAddsubImm { sh: ((w >> 22) & 0x1) as u8, imm12: A64Imm { raw: ((w >> 10) & 0xFFF), bits: 12, scale: 0, signed: false }, rn: A64Reg { enc: ((w >> 5) & 0x1F) as u8, width: A64RegWidth::X64, reg31: A64Reg31Mode::Sp }, rd: A64Reg { enc: (w & 0x1F) as u8, width: A64RegWidth::X64, reg31: A64Reg31Mode::Xzr } })
    } else if (0x14 <= top && top <= 0x17) {
        Some(A64Insn::BUncondBOnlyBranchImm { imm26: A64Imm { raw: (w & 0x3FFFFFF), bits: 26, scale: 2, signed: true } })
    } else if (0x94 <= top && top <= 0x97) {
        Some(A64Insn::BlBlOnlyBranchImm { imm26: A64Imm { raw: (w & 0x3FFFFFF), bits: 26, scale: 2, signed: true } })
    } else if (top == 0x54 && (w >> 4) & 1 == 0) {
        Some(A64Insn::BCondBOnlyCondbranch { imm19: A64Imm { raw: ((w >> 5) & 0x7FFFF), bits: 19, scale: 2, signed: true }, cond: (w & 0xF) as u8 })
    } else if top == 0x34 {
        Some(A64Insn::CbzCbz32Compbranch { imm19: A64Imm { raw: ((w >> 5) & 0x7FFFF), bits: 19, scale: 2, signed: true }, rt: A64Reg { enc: (w & 0x1F) as u8, width: A64RegWidth::W32, reg31: A64Reg31Mode::Xzr } })
    } else if top == 0xB4 {
        Some(A64Insn::CbzCbz64Compbranch { imm19: A64Imm { raw: ((w >> 5) & 0x7FFFF), bits: 19, scale: 2, signed: true }, rt: A64Reg { enc: (w & 0x1F) as u8, width: A64RegWidth::X64, reg31: A64Reg31Mode::Xzr } })
    } else if top == 0x35 {
        Some(A64Insn::CbnzCbnz32Compbranch { imm19: A64Imm { raw: ((w >> 5) & 0x7FFFF), bits: 19, scale: 2, signed: true }, rt: A64Reg { enc: (w & 0x1F) as u8, width: A64RegWidth::W32, reg31: A64Reg31Mode::Xzr } })
    } else if top == 0xB5 {
        Some(A64Insn::CbnzCbnz64Compbranch { imm19: A64Imm { raw: ((w >> 5) & 0x7FFFF), bits: 19, scale: 2, signed: true }, rt: A64Reg { enc: (w & 0x1F) as u8, width: A64RegWidth::X64, reg31: A64Reg31Mode::Xzr } })
    } else if (top == 0x52 && (w >> 23) & 1 == 1) {
        Some(A64Insn::MovzMovz32Movewide { hw: ((w >> 21) & 0x3) as u8, imm16: A64Imm { raw: ((w >> 5) & 0xFFFF), bits: 16, scale: 0, signed: false }, rd: A64Reg { enc: (w & 0x1F) as u8, width: A64RegWidth::W32, reg31: A64Reg31Mode::Xzr } })
    } else if (top == 0xD2 && (w >> 23) & 1 == 1) {
        Some(A64Insn::MovzMovz64Movewide { hw: ((w >> 21) & 0x3) as u8, imm16: A64Imm { raw: ((w >> 5) & 0xFFFF), bits: 16, scale: 0, signed: false }, rd: A64Reg { enc: (w & 0x1F) as u8, width: A64RegWidth::X64, reg31: A64Reg31Mode::Xzr } })
    } else if (top == 0x72 && (w >> 23) & 1 == 1) {
        Some(A64Insn::MovkMovk32Movewide { hw: ((w >> 21) & 0x3) as u8, imm16: A64Imm { raw: ((w >> 5) & 0xFFFF), bits: 16, scale: 0, signed: false }, rd: A64Reg { enc: (w & 0x1F) as u8, width: A64RegWidth::W32, reg31: A64Reg31Mode::Xzr } })
    } else if (top == 0xF2 && (w >> 23) & 1 == 1) {
        Some(A64Insn::MovkMovk64Movewide { hw: ((w >> 21) & 0x3) as u8, imm16: A64Imm { raw: ((w >> 5) & 0xFFFF), bits: 16, scale: 0, signed: false }, rd: A64Reg { enc: (w & 0x1F) as u8, width: A64RegWidth::X64, reg31: A64Reg31Mode::Xzr } })
    } else if (top == 0xAA && (w >> 21) & 1 == 0) {
        Some(A64Insn::OrrLogShiftOrr64LogShift { shift: ((w >> 22) & 0x3) as u8, rm: A64Reg { enc: ((w >> 16) & 0x1F) as u8, width: A64RegWidth::X64, reg31: A64Reg31Mode::Xzr }, imm6: A64Imm { raw: ((w >> 10) & 0x3F), bits: 6, scale: 0, signed: false }, rn: A64Reg { enc: ((w >> 5) & 0x1F) as u8, width: A64RegWidth::X64, reg31: A64Reg31Mode::Xzr }, rd: A64Reg { enc: (w & 0x1F) as u8, width: A64RegWidth::X64, reg31: A64Reg31Mode::Xzr } })
    } else if (top == 0x36 || top == 0xB6) {
        Some(A64Insn::TbzTbzOnlyTestbranch { b5: ((w >> 31) & 0x1) as u8, b40: ((w >> 19) & 0x1F) as u8, imm14: A64Imm { raw: ((w >> 5) & 0x3FFF), bits: 14, scale: 2, signed: true }, rt: A64Reg { enc: (w & 0x1F) as u8, width: A64RegWidth::Unknown, reg31: A64Reg31Mode::Xzr } })
    } else if (top == 0x37 || top == 0xB7) {
        Some(A64Insn::TbnzTbnzOnlyTestbranch { b5: ((w >> 31) & 0x1) as u8, b40: ((w >> 19) & 0x1F) as u8, imm14: A64Imm { raw: ((w >> 5) & 0x3FFF), bits: 14, scale: 2, signed: true }, rt: A64Reg { enc: (w & 0x1F) as u8, width: A64RegWidth::Unknown, reg31: A64Reg31Mode::Xzr } })
    } else if (top == 0xB8 && (w >> 21) & 1 == 0 && (w >> 22) & 3 == 1 && (w >> 10) & 3 == 1) {
        Some(A64Insn::LdrImmGenLdr32LdstImmpost { rt: A64Reg { enc: (w & 0x1F) as u8, width: A64RegWidth::W32, reg31: A64Reg31Mode::Xzr }, mem: A64Mem::PostIndex { base: A64Reg { enc: ((w >> 5) & 0x1F) as u8, width: A64RegWidth::X64, reg31: A64Reg31Mode::Sp }, offset: A64Imm { raw: ((w >> 12) & 0x1FF), bits: 9, scale: 0, signed: true } } })
    } else if (top == 0xF8 && (w >> 21) & 1 == 0 && (w >> 22) & 3 == 1 && (w >> 10) & 3 == 1) {
        Some(A64Insn::LdrImmGenLdr64LdstImmpost { rt: A64Reg { enc: (w & 0x1F) as u8, width: A64RegWidth::X64, reg31: A64Reg31Mode::Xzr }, mem: A64Mem::PostIndex { base: A64Reg { enc: ((w >> 5) & 0x1F) as u8, width: A64RegWidth::X64, reg31: A64Reg31Mode::Sp }, offset: A64Imm { raw: ((w >> 12) & 0x1FF), bits: 9, scale: 0, signed: true } } })
    } else if (top == 0xB8 && (w >> 21) & 1 == 0 && (w >> 22) & 3 == 1 && (w >> 10) & 3 == 3) {
        Some(A64Insn::LdrImmGenLdr32LdstImmpre { rt: A64Reg { enc: (w & 0x1F) as u8, width: A64RegWidth::W32, reg31: A64Reg31Mode::Xzr }, mem: A64Mem::PreIndex { base: A64Reg { enc: ((w >> 5) & 0x1F) as u8, width: A64RegWidth::X64, reg31: A64Reg31Mode::Sp }, offset: A64Imm { raw: ((w >> 12) & 0x1FF), bits: 9, scale: 0, signed: true } } })
    } else if (top == 0xF8 && (w >> 21) & 1 == 0 && (w >> 22) & 3 == 1 && (w >> 10) & 3 == 3) {
        Some(A64Insn::LdrImmGenLdr64LdstImmpre { rt: A64Reg { enc: (w & 0x1F) as u8, width: A64RegWidth::X64, reg31: A64Reg31Mode::Xzr }, mem: A64Mem::PreIndex { base: A64Reg { enc: ((w >> 5) & 0x1F) as u8, width: A64RegWidth::X64, reg31: A64Reg31Mode::Sp }, offset: A64Imm { raw: ((w >> 12) & 0x1FF), bits: 9, scale: 0, signed: true } } })
    } else if (top == 0xB9 && (w >> 22) & 3 == 1) {
        Some(A64Insn::LdrImmGenLdr32LdstPos { rt: A64Reg { enc: (w & 0x1F) as u8, width: A64RegWidth::W32, reg31: A64Reg31Mode::Xzr }, mem: A64Mem::Offset { base: A64Reg { enc: ((w >> 5) & 0x1F) as u8, width: A64RegWidth::X64, reg31: A64Reg31Mode::Sp }, offset: A64Imm { raw: ((w >> 10) & 0xFFF), bits: 12, scale: 2, signed: false } } })
    } else if (top == 0xF9 && (w >> 22) & 3 == 1) {
        Some(A64Insn::LdrImmGenLdr64LdstPos { rt: A64Reg { enc: (w & 0x1F) as u8, width: A64RegWidth::X64, reg31: A64Reg31Mode::Xzr }, mem: A64Mem::Offset { base: A64Reg { enc: ((w >> 5) & 0x1F) as u8, width: A64RegWidth::X64, reg31: A64Reg31Mode::Sp }, offset: A64Imm { raw: ((w >> 10) & 0xFFF), bits: 12, scale: 3, signed: false } } })
    } else if (top == 0xB8 && (w >> 21) & 1 == 0 && (w >> 22) & 3 == 0 && (w >> 10) & 3 == 1) {
        Some(A64Insn::StrImmGenStr32LdstImmpost { rt: A64Reg { enc: (w & 0x1F) as u8, width: A64RegWidth::W32, reg31: A64Reg31Mode::Xzr }, mem: A64Mem::PostIndex { base: A64Reg { enc: ((w >> 5) & 0x1F) as u8, width: A64RegWidth::X64, reg31: A64Reg31Mode::Sp }, offset: A64Imm { raw: ((w >> 12) & 0x1FF), bits: 9, scale: 0, signed: true } } })
    } else if (top == 0xF8 && (w >> 21) & 1 == 0 && (w >> 22) & 3 == 0 && (w >> 10) & 3 == 1) {
        Some(A64Insn::StrImmGenStr64LdstImmpost { rt: A64Reg { enc: (w & 0x1F) as u8, width: A64RegWidth::X64, reg31: A64Reg31Mode::Xzr }, mem: A64Mem::PostIndex { base: A64Reg { enc: ((w >> 5) & 0x1F) as u8, width: A64RegWidth::X64, reg31: A64Reg31Mode::Sp }, offset: A64Imm { raw: ((w >> 12) & 0x1FF), bits: 9, scale: 0, signed: true } } })
    } else if (top == 0xB8 && (w >> 21) & 1 == 0 && (w >> 22) & 3 == 0 && (w >> 10) & 3 == 3) {
        Some(A64Insn::StrImmGenStr32LdstImmpre { rt: A64Reg { enc: (w & 0x1F) as u8, width: A64RegWidth::W32, reg31: A64Reg31Mode::Xzr }, mem: A64Mem::PreIndex { base: A64Reg { enc: ((w >> 5) & 0x1F) as u8, width: A64RegWidth::X64, reg31: A64Reg31Mode::Sp }, offset: A64Imm { raw: ((w >> 12) & 0x1FF), bits: 9, scale: 0, signed: true } } })
    } else if (top == 0xF8 && (w >> 21) & 1 == 0 && (w >> 22) & 3 == 0 && (w >> 10) & 3 == 3) {
        Some(A64Insn::StrImmGenStr64LdstImmpre { rt: A64Reg { enc: (w & 0x1F) as u8, width: A64RegWidth::X64, reg31: A64Reg31Mode::Xzr }, mem: A64Mem::PreIndex { base: A64Reg { enc: ((w >> 5) & 0x1F) as u8, width: A64RegWidth::X64, reg31: A64Reg31Mode::Sp }, offset: A64Imm { raw: ((w >> 12) & 0x1FF), bits: 9, scale: 0, signed: true } } })
    } else if (top == 0xB9 && (w >> 22) & 3 == 0) {
        Some(A64Insn::StrImmGenStr32LdstPos { rt: A64Reg { enc: (w & 0x1F) as u8, width: A64RegWidth::W32, reg31: A64Reg31Mode::Xzr }, mem: A64Mem::Offset { base: A64Reg { enc: ((w >> 5) & 0x1F) as u8, width: A64RegWidth::X64, reg31: A64Reg31Mode::Sp }, offset: A64Imm { raw: ((w >> 10) & 0xFFF), bits: 12, scale: 2, signed: false } } })
    } else if (top == 0xF9 && (w >> 22) & 3 == 0) {
        Some(A64Insn::StrImmGenStr64LdstPos { rt: A64Reg { enc: (w & 0x1F) as u8, width: A64RegWidth::X64, reg31: A64Reg31Mode::Xzr }, mem: A64Mem::Offset { base: A64Reg { enc: ((w >> 5) & 0x1F) as u8, width: A64RegWidth::X64, reg31: A64Reg31Mode::Sp }, offset: A64Imm { raw: ((w >> 10) & 0xFFF), bits: 12, scale: 3, signed: false } } })
    } else if (top == 0xA8 && (w >> 22) & 3 == 3) {
        Some(A64Insn::LdpGenLdp64LdstpairPost { rt2: A64Reg { enc: ((w >> 10) & 0x1F) as u8, width: A64RegWidth::X64, reg31: A64Reg31Mode::Xzr }, rt: A64Reg { enc: (w & 0x1F) as u8, width: A64RegWidth::X64, reg31: A64Reg31Mode::Xzr }, mem: A64Mem::PostIndex { base: A64Reg { enc: ((w >> 5) & 0x1F) as u8, width: A64RegWidth::X64, reg31: A64Reg31Mode::Sp }, offset: A64Imm { raw: ((w >> 15) & 0x7F), bits: 7, scale: 3, signed: true } } })
    } else if (top == 0xA9 && (w >> 22) & 3 == 3) {
        Some(A64Insn::LdpGenLdp64LdstpairPre { rt2: A64Reg { enc: ((w >> 10) & 0x1F) as u8, width: A64RegWidth::X64, reg31: A64Reg31Mode::Xzr }, rt: A64Reg { enc: (w & 0x1F) as u8, width: A64RegWidth::X64, reg31: A64Reg31Mode::Xzr }, mem: A64Mem::PreIndex { base: A64Reg { enc: ((w >> 5) & 0x1F) as u8, width: A64RegWidth::X64, reg31: A64Reg31Mode::Sp }, offset: A64Imm { raw: ((w >> 15) & 0x7F), bits: 7, scale: 3, signed: true } } })
    } else if (top == 0xA9 && (w >> 22) & 3 == 1) {
        Some(A64Insn::LdpGenLdp64LdstpairOff { rt2: A64Reg { enc: ((w >> 10) & 0x1F) as u8, width: A64RegWidth::X64, reg31: A64Reg31Mode::Xzr }, rt: A64Reg { enc: (w & 0x1F) as u8, width: A64RegWidth::X64, reg31: A64Reg31Mode::Xzr }, mem: A64Mem::Offset { base: A64Reg { enc: ((w >> 5) & 0x1F) as u8, width: A64RegWidth::X64, reg31: A64Reg31Mode::Sp }, offset: A64Imm { raw: ((w >> 15) & 0x7F), bits: 7, scale: 3, signed: true } } })
    } else if (top == 0xA8 && (w >> 22) & 3 == 2) {
        Some(A64Insn::StpGenStp64LdstpairPost { rt2: A64Reg { enc: ((w >> 10) & 0x1F) as u8, width: A64RegWidth::X64, reg31: A64Reg31Mode::Xzr }, rt: A64Reg { enc: (w & 0x1F) as u8, width: A64RegWidth::X64, reg31: A64Reg31Mode::Xzr }, mem: A64Mem::PostIndex { base: A64Reg { enc: ((w >> 5) & 0x1F) as u8, width: A64RegWidth::X64, reg31: A64Reg31Mode::Sp }, offset: A64Imm { raw: ((w >> 15) & 0x7F), bits: 7, scale: 3, signed: true } } })
    } else if (top == 0xA9 && (w >> 22) & 3 == 2) {
        Some(A64Insn::StpGenStp64LdstpairPre { rt2: A64Reg { enc: ((w >> 10) & 0x1F) as u8, width: A64RegWidth::X64, reg31: A64Reg31Mode::Xzr }, rt: A64Reg { enc: (w & 0x1F) as u8, width: A64RegWidth::X64, reg31: A64Reg31Mode::Xzr }, mem: A64Mem::PreIndex { base: A64Reg { enc: ((w >> 5) & 0x1F) as u8, width: A64RegWidth::X64, reg31: A64Reg31Mode::Sp }, offset: A64Imm { raw: ((w >> 15) & 0x7F), bits: 7, scale: 3, signed: true } } })
    } else if (top == 0xA9 && (w >> 22) & 3 == 0) {
        Some(A64Insn::StpGenStp64LdstpairOff { rt2: A64Reg { enc: ((w >> 10) & 0x1F) as u8, width: A64RegWidth::X64, reg31: A64Reg31Mode::Xzr }, rt: A64Reg { enc: (w & 0x1F) as u8, width: A64RegWidth::X64, reg31: A64Reg31Mode::Xzr }, mem: A64Mem::Offset { base: A64Reg { enc: ((w >> 5) & 0x1F) as u8, width: A64RegWidth::X64, reg31: A64Reg31Mode::Sp }, offset: A64Imm { raw: ((w >> 15) & 0x7F), bits: 7, scale: 3, signed: true } } })
    } else if (top == 0xD6 && w >> 10 == 0x3587C0 && w & 0x1F == 0) {
        Some(A64Insn::BrBr64BranchReg { rn: A64Reg { enc: ((w >> 5) & 0x1F) as u8, width: A64RegWidth::X64, reg31: A64Reg31Mode::Xzr } })
    } else if (top == 0xD6 && w >> 10 == 0x358FC0 && w & 0x1F == 0) {
        Some(A64Insn::BlrBlr64BranchReg { rn: A64Reg { enc: ((w >> 5) & 0x1F) as u8, width: A64RegWidth::X64, reg31: A64Reg31Mode::Xzr } })
    } else if (top == 0xD6 && w >> 10 == 0x3597C0 && w & 0x1F == 0) {
        Some(A64Insn::RetRet64rBranchReg { rn: A64Reg { enc: ((w >> 5) & 0x1F) as u8, width: A64RegWidth::X64, reg31: A64Reg31Mode::Xzr } })
    } else if (top == 0xD4 && (w >> 21) & 7 == 0 && w & 0x1F == 1) {
        Some(A64Insn::SvcSvcExException { imm16: A64Imm { raw: ((w >> 5) & 0xFFFF), bits: 16, scale: 0, signed: false } })
    } else {
        None
    }
}

impl A64Insn {
    /// Decodes a word of the subset. A word that decodes is the encoding of
    /// the instruction returned, which is in canonical form; a word that does
    /// not decode is the encoding of no instruction of the subset.
    pub fn decode(w: u32) -> (r: Option<A64Insn>)
        ensures
            r == spec_decode_word(w),
            r matches Some(i) ==> i.spec_fits() && i.spec_is_canonical() && i.spec_word() == w,
            r is None ==> forall|i: A64Insn| i.spec_fits() ==> i.spec_word() != w,
    {
        proof {
            lemma_decode_sound(w);
            assert forall|i: A64Insn| i.spec_fits() implies i.spec_word() != w || spec_decode_word(w) is Some by {
                lemma_decode_complete(i);
            }
        }
        let top = w >> 24;
        if w == 0xD503201F {
            Some(A64Insn::NopNopHiHints {})
        } else if top == 0x10 || top == 0x30 || top == 0x50 || top == 0x70 {
            Some(A64Insn::AdrAdrOnlyPcreladdr { immlo: A64Imm { raw: ((w >> 29) & 0x3), bits: 2, scale: 0, signed: false }, immhi: A64Imm { raw: ((w >> 5) & 0x7FFFF), bits: 19, scale: 0, signed: false }, rd: A64Reg { enc: (w & 0x1F) as u8, width: A64RegWidth::X64, reg31: A64Reg31Mode::Xzr } })
        } else if top == 0x90 || top == 0xB0 || top == 0xD0 || top == 0xF0 {
            Some(A64Insn::AdrpAdrpOnlyPcreladdr { immlo: A64Imm { raw: ((w >> 29) & 0x3), bits: 2, scale: 0, signed: false }, immhi: A64Imm { raw: ((w >> 5) & 0x7FFFF), bits: 19, scale: 0, signed: false }, rd: A64Reg { enc: (w & 0x1F) as u8, width: A64RegWidth::X64, reg31: A64Reg31Mode::Xzr } })
        } else if (top == 0x11 && (w >> 23) & 1 == 0) {
            Some(A64Insn::AddAddsubImmAdd32AddsubImm { sh: ((w >> 22) & 0x1) as u8, imm12: A64Imm { raw: ((w >> 10) & 0xFFF), bits: 12, scale: 0, signed: false }, rn: A64Reg { enc: ((w >> 5) & 0x1F) as u8, width: A64RegWidth::W32, reg31: A64Reg31Mode::Sp }, rd: A64Reg { enc: (w & 0x1F) as u8, width: A64RegWidth::W32, reg31: A64Reg31Mode::Sp } })
        } else if (top == 0x91 && (w >> 23) & 1 == 0) {
            Some(A64Insn::AddAddsubImmAdd64AddsubImm { sh: ((w >> 22) & 0x1) as u8, imm12: A64Imm { raw: ((w >> 10) & 0xFFF), bits: 12, scale: 0, signed: false }, rn: A64Reg { enc: ((w >> 5) & 0x1F) as u8, width: A64RegWidth::X64, reg31: A64Reg31Mode::Sp }, rd: A64Reg { enc: (w & 0x1F) as u8, width: A64RegWidth::X64, reg31: A64Reg31Mode::Sp } })
        } else if (top == 0x51 && (w >> 23) & 1 == 0) {
            Some(A64Insn::SubAddsubImmSub32AddsubImm { sh: ((w >> 22) & 0x1) as u8, imm12: A64Imm { raw: ((w >> 10) & 0xFFF), bits: 12, scale: 0, signed: false }, rn: A64Reg { enc: ((w >> 5) & 0x1F) as u8, width: A64RegWidth::W32, reg31: A64Reg31Mode::Sp }, rd: A64Reg { enc: (w & 0x1F) as u8, width: A64RegWidth::W32, reg31: A64Reg31Mode::Sp } })
        } else if (top == 0xD1 && (w >> 23) & 1 == 0) {
            Some(A64Insn::SubAddsubImmSub64AddsubImm { sh: ((w >> 22) & 0x1) as u8, imm12: A64Imm { raw: ((w >> 10) & 0xFFF), bits: 12, scale: 0, signed: false }, rn: A64Reg { enc: ((w >> 5) & 0x1F) as u8, width: A64RegWidth::X64, reg31: A64Reg31Mode::Sp }, rd: A64Reg { enc: (w & 0x1F) as u8, width: A64RegWidth::X64, reg31: A64Reg31Mode::Sp } })
        } else if (top == 0x71 && (w >> 23) & 1 == 0) {
            Some(A64Insn::SubsAddsubImmSubs32sAddsubImm { sh: ((w >> 22) & 0x1) as u8, imm12: A64Imm { raw: ((w >> 10) & 0xFFF), bits: 12, scale: 0, signed: false }, rn: A64Reg { enc: ((w >> 5) & 0x1F) as u8, width: A64RegWidth::W32, reg31: A64Reg31Mode::Sp }, rd: A64Reg { enc: (w & 0x1F) as u8, width: A64RegWidth::W32, reg31: A64Reg31Mode::Xzr } })
        } else if (top == 0xF1 && (w >> 23) & 1 == 0) {
            Some(A64Insn::SubsAddsubImmSubs64sAddsubImm { sh: ((w >> 22) & 0x1) as u8, imm12: A64Imm { raw: ((w >> 10) & 0xFFF), bits: 12, scale: 0, signed: false }, rn: A64Reg { enc: ((w >> 5) & 0x1F) as u8, width: A64RegWidth::X64, reg31: A64Reg31Mode::Sp }, rd: A64Reg { enc: (w & 0x1F) as u8, width: A64RegWidth::X64, reg31: A64Reg31Mode::Xzr } })
        } else if (0x14 <= top && top <= 0x17) {
            Some(A64Insn::BUncondBOnlyBranchImm { imm26: A64Imm { raw: (w & 0x3FFFFFF), bits: 26, scale: 2, signed: true } })
        } else if (0x94 <= top && top <= 0x97) {
            Some(A64Insn::BlBlOnlyBranchImm { imm26: A64Imm { raw: (w & 0x3FFFFFF), bits: 26, scale: 2, signed: true } })
        } else if (top == 0x54 && (w >> 4) & 1 == 0) {
            Some(A64Insn::BCondBOnlyCondbranch { imm19: A64Imm { raw: ((w >> 5) & 0x7FFFF), bits: 19, scale: 2, signed: true }, cond: (w & 0xF) as u8 })
        } else if top == 0x34 {
            Some(A64Insn::CbzCbz32Compbranch { imm19: A64Imm { raw: ((w >> 5) & 0x7FFFF), bits: 19, scale: 2, signed: true }, rt: A64Reg { enc: (w & 0x1F) as u8, width: A64RegWidth::W32, reg31: A64Reg31Mode::Xzr } })
        } else if top == 0xB4 {
            Some(A64Insn::CbzCbz64Compbranch { imm19: A64Imm { raw: ((w >> 5) & 0x7FFFF), bits: 19, scale: 2, signed: true }, rt: A64Reg { enc: (w & 0x1F) as u8, width: A64RegWidth::X64, reg31: A64Reg31Mode::Xzr } })
        } else if top == 0x35 {
            Some(A64Insn::CbnzCbnz32Compbranch { imm19: A64Imm { raw: ((w >> 5) & 0x7FFFF), bits: 19, scale: 2, signed: true }, rt: A64Reg { enc: (w & 0x1F) as u8, width: A64RegWidth::W32, reg31: A64Reg31Mode::Xzr } })
        } else if top == 0xB5 {
            Some(A64Insn::CbnzCbnz64Compbranch { imm19: A64Imm { raw: ((w >> 5) & 0x7FFFF), bits: 19, scale: 2, signed: true }, rt: A64Reg { enc: (w & 0x1F) as u8, width: A64RegWidth::X64, reg31: A64Reg31Mode::Xzr } })
        } else if (top == 0x52 && (w >> 23) & 1 == 1) {
            Some(A64Insn::MovzMovz32Movewide { hw: ((w >> 21) & 0x3) as u8, imm16: A64Imm { raw: ((w >> 5) & 0xFFFF), bits: 16, scale: 0, signed: false }, rd: A64Reg { enc: (w & 0x1F) as u8, width: A64RegWidth::W32, reg31: A64Reg31Mode::Xzr } })
        } else if (top == 0xD2 && (w >> 23) & 1 == 1) {
            Some(A64Insn::MovzMovz64Movewide { hw: ((w >> 21) & 0x3) as u8, imm16: A64Imm { raw: ((w >> 5) & 0xFFFF), bits: 16, scale: 0, signed: false }, rd: A64Reg { enc: (w & 0x1F) as u8, width: A64RegWidth::X64, reg31: A64Reg31Mode::Xzr } })
        } else if (top == 0x72 && (w >> 23) & 1 == 1) {
            Some(A64Insn::MovkMovk32Movewide { hw: ((w >> 21) & 0x3) as u8, imm16: A64Imm { raw: ((w >> 5) & 0xFFFF), bits: 16, scale: 0, signed: false }, rd: A64Reg { enc: (w & 0x1F) as u8, width: A64RegWidth::W32, reg31: A64Reg31Mode::Xzr } })
        } else if (top == 0xF2 && (w >> 23) & 1 == 1) {
            Some(A64Insn::MovkMovk64Movewide { hw: ((w >> 21) & 0x3) as u8, imm16: A64Imm { raw: ((w >> 5) & 0xFFFF), bits: 16, scale: 0, signed: false }, rd: A64Reg { enc: (w & 0x1F) as u8, width: A64RegWidth::X64, reg31: A64Reg31Mode::Xzr } })
        } else if (top == 0xAA && (w >> 21) & 1 == 0) {
            Some(A64Insn::OrrLogShiftOrr64LogShift { shift: ((w >> 22) & 0x3) as u8, rm: A64Reg { enc: ((w >> 16) & 0x1F) as u8, width: A64RegWidth::X64, reg31: A64Reg31Mode::Xzr }, imm6: A64Imm { raw: ((w >> 10) & 0x3F), bits: 6, scale: 0, signed: false }, rn: A64Reg { enc: ((w >> 5) & 0x1F) as u8, width: A64RegWidth::X64, reg31: A64Reg31Mode::Xzr }, rd: A64Reg { enc: (w & 0x1F) as u8, width: A64RegWidth::X64, reg31: A64Reg31Mode::Xzr } })
        } else if (top == 0x36 || top == 0xB6) {
            Some(A64Insn::TbzTbzOnlyTestbranch { b5: ((w >> 31) & 0x1) as u8, b40: ((w >> 19) & 0x1F) as u8, imm14: A64Imm { raw: ((w >> 5) & 0x3FFF), bits: 14, scale: 2, signed: true }, rt: A64Reg { enc: (w & 0x1F) as u8, width: A64RegWidth::Unknown, reg31: A64Reg31Mode::Xzr } })
        } else if (top == 0x37 || top == 0xB7) {
            Some(A64Insn::TbnzTbnzOnlyTestbranch { b5: ((w >> 31) & 0x1) as u8, b40: ((w >> 19) & 0x1F) as u8, imm14: A64Imm { raw: ((w >> 5) & 0x3FFF), bits: 14, scale: 2, signed: true }, rt: A64Reg { enc: (w & 0x1F) as u8, width: A64RegWidth::Unknown, reg31: A64Reg31Mode::Xzr } })
        } else if (top == 0xB8 && (w >> 21) & 1 == 0 && (w >> 22) & 3 == 1 && (w >> 10) & 3 == 1) {
            Some(A64Insn::LdrImmGenLdr32LdstImmpost { rt: A64Reg { enc: (w & 0x1F) as u8, width: A64RegWidth::W32, reg31: A64Reg31Mode::Xzr }, mem: A64Mem::PostIndex { base: A64Reg { enc: ((w >> 5) & 0x1F) as u8, width: A64RegWidth::X64, reg31: A64Reg31Mode::Sp }, offset: A64Imm { raw: ((w >> 12) & 0x1FF), bits: 9, scale: 0, signed: true } } })
        } else if (top == 0xF8 && (w >> 21) & 1 == 0 && (w >> 22) & 3 == 1 && (w >> 10) & 3 == 1) {
            Some(A64Insn::LdrImmGenLdr64LdstImmpost { rt: A64Reg { enc: (w & 0x1F) as u8, width: A64RegWidth::X64, reg31: A64Reg31Mode::Xzr }, mem: A64Mem::PostIndex { base: A64Reg { enc: ((w >> 5) & 0x1F) as u8, width: A64RegWidth::X64, reg31: A64Reg31Mode::Sp }, offset: A64Imm { raw: ((w >> 12) & 0x1FF), bits: 9, scale: 0, signed: true } } })
        } else if (top == 0xB8 && (w >> 21) & 1 == 0 && (w >> 22) & 3 == 1 && (w >> 10) & 3 == 3) {
            Some(A64Insn::LdrImmGenLdr32LdstImmpre { rt: A64Reg { enc: (w & 0x1F) as u8, width: A64RegWidth::W32, reg31: A64Reg31Mode::Xzr }, mem: A64Mem::PreIndex { base: A64Reg { enc: ((w >> 5) & 0x1F) as u8, width: A64RegWidth::X64, reg31: A64Reg31Mode::Sp }, offset: A64Imm { raw: ((w >> 12) & 0x1FF), bits: 9, scale: 0, signed: true } } })
        } else if (top == 0xF8 && (w >> 21) & 1 == 0 && (w >> 22) & 3 == 1 && (w >> 10) & 3 == 3) {
            Some(A64Insn::LdrImmGenLdr64LdstImmpre { rt: A64Reg { enc: (w & 0x1F) as u8, width: A64RegWidth::X64, reg31: A64Reg31Mode::Xzr }, mem: A64Mem::PreIndex { base: A64Reg { enc: ((w >> 5) & 0x1F) as u8, width: A64RegWidth::X64, reg31: A64Reg31Mode::Sp }, offset: A64Imm { raw: ((w >> 12) & 0x1FF), bits: 9, scale: 0, signed: true } } })
        } else if (top == 0xB9 && (w >> 22) & 3 == 1) {
            Some(A64Insn::LdrImmGenLdr32LdstPos { rt: A64Reg { enc: (w & 0x1F) as u8, width: A64RegWidth::W32, reg31: A64Reg31Mode::Xzr }, mem: A64Mem::Offset { base: A64Reg { enc: ((w >> 5) & 0x1F) as u8, width: A64RegWidth::X64, reg31: A64Reg31Mode::Sp }, offset: A64Imm { raw: ((w >> 10) & 0xFFF), bits: 12, scale: 2, signed: false } } })
        } else if (top == 0xF9 && (w >> 22) & 3 == 1) {
            Some(A64Insn::LdrImmGenLdr64LdstPos { rt: A64Reg { enc: (w & 0x1F) as u8, width: A64RegWidth::X64, reg31: A64Reg31Mode::Xzr }, mem: A64Mem::Offset { base: A64Reg { enc: ((w >> 5) & 0x1F) as u8, width: A64RegWidth::X64, reg31: A64Reg31Mode::Sp }, offset: A64Imm { raw: ((w >> 10) & 0xFFF), bits: 12, scale: 3, signed: false } } })
        } else if (top == 0xB8 && (w >> 21) & 1 == 0 && (w >> 22) & 3 == 0 && (w >> 10) & 3 == 1) {
            Some(A64Insn::StrImmGenStr32LdstImmpost { rt: A64Reg { enc: (w & 0x1F) as u8, width: A64RegWidth::W32, reg31: A64Reg31Mode::Xzr }, mem: A64Mem::PostIndex { base: A64Reg { enc: ((w >> 5) & 0x1F) as u8, width: A64RegWidth::X64, reg31: A64Reg31Mode::Sp }, offset: A64Imm { raw: ((w >> 12) & 0x1FF), bits: 9, scale: 0, signed: true } } })
        } else if (top == 0xF8 && (w >> 21) & 1 == 0 && (w >> 22) & 3 == 0 && (w >> 10) & 3 == 1) {
            Some(A64Insn::StrImmGenStr64LdstImmpost { rt: A64Reg { enc: (w & 0x1F) as u8, width: A64RegWidth::X64, reg31: A64Reg31Mode::Xzr }, mem: A64Mem::PostIndex { base: A64Reg { enc: ((w >> 5) & 0x1F) as u8, width: A64RegWidth::X64, reg31: A64Reg31Mode::Sp }, offset: A64Imm { raw: ((w >> 12) & 0x1FF), bits: 9, scale: 0, signed: true } } })
        } else if (top == 0xB8 && (w >> 21) & 1 == 0 && (w >> 22) & 3 == 0 && (w >> 10) & 3 == 3) {
            Some(A64Insn::StrImmGenStr32LdstImmpre { rt: A64Reg { enc: (w & 0x1F) as u8, width: A64RegWidth::W32, reg31: A64Reg31Mode::Xzr }, mem: A64Mem::PreIndex { base: A64Reg { enc: ((w >> 5) & 0x1F) as u8, width: A64RegWidth::X64, reg31: A64Reg31Mode::Sp }, offset: A64Imm { raw: ((w >> 12) & 0x1FF), bits: 9, scale: 0, signed: true } } })
        } else if (top == 0xF8 && (w >> 21) & 1 == 0 && (w >> 22) & 3 == 0 && (w >> 10) & 3 == 3) {
            Some(A64Insn::StrImmGenStr64LdstImmpre { rt: A64Reg { enc: (w & 0x1F) as u8, width: A64RegWidth::X64, reg31: A64Reg31Mode::Xzr }, mem: A64Mem::PreIndex { base: A64Reg { enc: ((w >> 5) & 0x1F) as u8, width: A64RegWidth::X64, reg31: A64Reg31Mode::Sp }, offset: A64Imm { raw: ((w >> 12) & 0x1FF), bits: 9, scale: 0, signed: true } } })
        } else if (top == 0xB9 && (w >> 22) & 3 == 0) {
            Some(A64Insn::StrImmGenStr32LdstPos { rt: A64Reg { enc: (w & 0x1F) as u8, width: A64RegWidth::W32, reg31: A64Reg31Mode::Xzr }, mem: A64Mem::Offset { base: A64Reg { enc: ((w >> 5) & 0x1F) as u8, width: A64RegWidth::X64, reg31: A64Reg31Mode::Sp }, offset: A64Imm { raw: ((w >> 10) & 0xFFF), bits: 12, scale: 2, signed: false } } })
        } else if (top == 0xF9 && (w >> 22) & 3 == 0) {
            Some(A64Insn::StrImmGenStr64LdstPos { rt: A64Reg { enc: (w & 0x1F) as u8, width: A64RegWidth::X64, reg31: A64Reg31Mode::Xzr }, mem: A64Mem::Offset { base: A64Reg { enc: ((w >> 5) & 0x1F) as u8, width: A64RegWidth::X64, reg31: A64Reg31Mode::Sp }, offset: A64Imm { raw: ((w >> 10) & 0xFFF), bits: 12, scale: 3, signed: false } } })
        } else if (top == 0xA8 && (w >> 22) & 3 == 3) {
            Some(A64Insn::LdpGenLdp64LdstpairPost { rt2: A64Reg { enc: ((w >> 10) & 0x1F) as u8, width: A64RegWidth::X64, reg31: A64Reg31Mode::Xzr }, rt: A64Reg { enc: (w & 0x1F) as u8, width: A64RegWidth::X64, reg31: A64Reg31Mode::Xzr }, mem: A64Mem::PostIndex { base: A64Reg { enc: ((w >> 5) & 0x1F) as u8, width: A64RegWidth::X64, reg31: A64Reg31Mode::Sp }, offset: A64Imm { raw: ((w >> 15) & 0x7F), bits: 7, scale: 3, signed: true } } })
        } else if (top == 0xA9 && (w >> 22) & 3 == 3) {
            Some(A64Insn::LdpGenLdp64LdstpairPre { rt2: A64Reg { enc: ((w >> 10) & 0x1F) as u8, width: A64RegWidth::X64, reg31: A64Reg31Mode::Xzr }, rt: A64Reg { enc: (w & 0x1F) as u8, width: A64RegWidth::X64, reg31: A64Reg31Mode::Xzr }, mem: A64Mem::PreIndex { base: A64Reg { enc: ((w >> 5) & 0x1F) as u8, width: A64RegWidth::X64, reg31: A64Reg31Mode::Sp }, offset: A64Imm { raw: ((w >> 15) & 0x7F), bits: 7, scale: 3, signed: true } } })
        } else if (top == 0xA9 && (w >> 22) & 3 == 1) {
            Some(A64Insn::LdpGenLdp64LdstpairOff { rt2: A64Reg { enc: ((w >> 10) & 0x1F) as u8, width: A64RegWidth::X64, reg31: A64Reg31Mode::Xzr }, rt: A64Reg { enc: (w & 0x1F) as u8, width: A64RegWidth::X64, reg31: A64Reg31Mode::Xzr }, mem: A64Mem::Offset { base: A64Reg { enc: ((w >> 5) & 0x1F) as u8, width: A64RegWidth::X64, reg31: A64Reg31Mode::Sp }, offset: A64Imm { raw: ((w >> 15) & 0x7F), bits: 7, scale: 3, signed: true } } })
        } else if (top == 0xA8 && (w >> 22) & 3 == 2) {
            Some(A64Insn::StpGenStp64LdstpairPost { rt2: A64Reg { enc: ((w >> 10) & 0x1F) as u8, width: A64RegWidth::X64, reg31: A64Reg31Mode::Xzr }, rt: A64Reg { enc: (w & 0x1F) as u8, width: A64RegWidth::X64, reg31: A64Reg31Mode::Xzr }, mem: A64Mem::PostIndex { base: A64Reg { enc: ((w >> 5) & 0x1F) as u8, width: A64RegWidth::X64, reg31: A64Reg31Mode::Sp }, offset: A64Imm { raw: ((w >> 15) & 0x7F), bits: 7, scale: 3, signed: true } } })
        } else if (top == 0xA9 && (w >> 22) & 3 == 2) {
            Some(A64Insn::StpGenStp64LdstpairPre { rt2: A64Reg { enc: ((w >> 10) & 0x1F) as u8, width: A64RegWidth::X64, reg31: A64Reg31Mode::Xzr }, rt: A64Reg { enc: (w & 0x1F) as u8, width: A64RegWidth::X64, reg31: A64Reg31Mode::Xzr }, mem: A64Mem::PreIndex { base: A64Reg { enc: ((w >> 5) & 0x1F) as u8, width: A64RegWidth::X64, reg31: A64Reg31Mode::Sp }, offset: A64Imm { raw: ((w >> 15) & 0x7F), bits: 7, scale: 3, signed: true } } })
        } else if (top == 0xA9 && (w >> 22) & 3 == 0) {
            Some(A64Insn::StpGenStp64LdstpairOff { rt2: A64Reg { enc: ((w >> 10) & 0x1F) as u8, width: A64RegWidth::X64, reg31: A64Reg31Mode::Xzr }, rt: A64Reg { enc: (w & 0x1F) as u8, width: A64RegWidth::X64, reg31: A64Reg31Mode::Xzr }, mem: A64Mem::Offset { base: A64Reg { enc: ((w >> 5) & 0x1F) as u8, width: A64RegWidth::X64, reg31: A64Reg31Mode::Sp }, offset: A64Imm { raw: ((w >> 15) & 0x7F), bits: 7, scale: 3, signed: true } } })
        } else if (top == 0xD6 && w >> 10 == 0x3587C0 && w & 0x1F == 0) {
            Some(A64Insn::BrBr64BranchReg { rn: A64Reg { enc: ((w >> 5) & 0x1F) as u8, width: A64RegWidth::X64, reg31: A64Reg31Mode::Xzr } })
        } else if (top == 0xD6 && w >> 10 == 0x358FC0 && w & 0x1F == 0) {
            Some(A64Insn::BlrBlr64BranchReg { rn: A64Reg { enc: ((w >> 5) & 0x1F) as u8, width: A64RegWidth::X64, reg31: A64Reg31Mode::Xzr } })
        } else if (top == 0xD6 && w >> 10 == 0x3597C0 && w & 0x1F == 0) {
            Some(A64Insn::RetRet64rBranchReg { rn: A64Reg { enc: ((w >> 5) & 0x1F) as u8, width: A64RegWidth::X64, reg31: A64Reg31Mode::Xzr } })
        } else if (top == 0xD4 && (w >> 21) & 7 == 0 && w & 0x1F == 1) {
            Some(A64Insn::SvcSvcExException { imm16: A64Imm { raw: ((w >> 5) & 0xFFFF), bits: 16, scale: 0, signed: false } })
        } else {
            None
        }
    }
}

/// Decoding the word of an instruction whose operands fit gives back the
/// instruction, in canonical form.
pub proof fn lemma_decode_complete(i: A64Insn)
    requires
        i.spec_fits(),
    ensures
        spec_decode_word(i.spec_word()) == Some(i.spec_canon()),
{
    fields::lemma_nop_top();
    match i {
        A64Insn::AdrAdrOnlyPcreladdr { immlo, immhi, rd } => {
            fields::lemma_pcrel_fields(0, immlo.raw, immhi.raw, (rd.enc as u32));
        },
        A64Insn::AdrpAdrpOnlyPcreladdr { immlo, immhi, rd } => {
            fields::lemma_pcrel_fields(1, immlo.raw, immhi.raw, (rd.enc as u32));
        },
        A64Insn::AddAddsubImmAdd32AddsubImm { sh, imm12, rn, rd } => {
            fields::lemma_addsub_fields(0x11, (sh as u32), imm12.raw, (rn.enc as u32), (rd.enc as u32));
        },
        A64Insn::AddAddsubImmAdd64AddsubImm { sh, imm12, rn, rd } => {
            fields::lemma_addsub_fields(0x91, (sh as u32), imm12.raw, (rn.enc as u32), (rd.enc as u32));
        },
        A64Insn::SubAddsubImmSub32AddsubImm { sh, imm12, rn, rd } => {
            fields::lemma_addsub_fields(0x51, (sh as u32), imm12.raw, (rn.enc as u32), (rd.enc as u32));
        },
        A64Insn::SubAddsubImmSub64AddsubImm { sh, imm12, rn, rd } => {
            fields::lemma_addsub_fields(0xD1, (sh as u32), imm12.raw, (rn.enc as u32), (rd.enc as u32));
        },
        A64Insn::SubsAddsubImmSubs32sAddsubImm { sh, imm12, rn, rd } => {
            fields::lemma_addsub_fields(0x71, (sh as u32), imm12.raw, (rn.enc as u32), (rd.enc as u32));
        },
        A64Insn::SubsAddsubImmSubs64sAddsubImm { sh, imm12, rn, rd } => {
            fields::lemma_addsub_fields(0xF1, (sh as u32), imm12.raw, (rn.enc as u32), (rd.enc as u32));
        },
        A64Insn::BUncondBOnlyBranchImm { imm26 } => {
            fields::lemma_bimm_fields(0x5, imm26.raw);
        },
        A64Insn::BlBlOnlyBranchImm { imm26 } => {
            fields::lemma_bimm_fields(0x25, imm26.raw);
        },
        A64Insn::BCondBOnlyCondbranch { imm19, cond } => {
            fields::lemma_bcond_fields(imm19.raw, (cond as u32));
        },
        A64Insn::CbzCbz32Compbranch { imm19, rt } => {
            fields::lemma_cb_fields(0x34, imm19.raw, (rt.enc as u32));
        },
        A64Insn::CbzCbz64Compbranch { imm19, rt } => {
            fields::lemma_cb_fields(0xB4, imm19.raw, (rt.enc as u32));
        },
        A64Insn::CbnzCbnz32Compbranch { imm19, rt } => {
            fields::lemma_cb_fields(0x35, imm19.raw, (rt.enc as u32));
        },
        A64Insn::CbnzCbnz64Compbranch { imm19, rt } => {
            fields::lemma_cb_fields(0xB5, imm19.raw, (rt.enc as u32));
        },
        A64Insn::MovzMovz32Movewide { hw, imm16, rd } => {
            fields::lemma_movw_fields(0x52, (hw as u32), imm16.raw, (rd.enc as u32));
        },
        A64Insn::MovzMovz64Movewide { hw, imm16, rd } => {
            fields::lemma_movw_fields(0xD2, (hw as u32), imm16.raw, (rd.enc as u32));
        },
        A64Insn::MovkMovk32Movewide { hw, imm16, rd } => {
            fields::lemma_movw_fields(0x72, (hw as u32), imm16.raw, (rd.enc as u32));
        },
        A64Insn::MovkMovk64Movewide { hw, imm16, rd } => {
            fields::lemma_movw_fields(0xF2, (hw as u32), imm16.raw, (rd.enc as u32));
        },
        A64Insn::OrrLogShiftOrr64LogShift { shift, rm, imm6, rn, rd } => {
            fields::lemma_logsh_fields(0xAA, (shift as u32), (rm.enc as u32), imm6.raw, (rn.enc as u32), (rd.enc as u32));
        },
        A64Insn::TbzTbzOnlyTestbranch { b5, b40, imm14, rt } => {
            fields::lemma_tb_fields((b5 as u32), 0x36, (b40 as u32), imm14.raw, (rt.enc as u32));
        },
        A64Insn::TbnzTbnzOnlyTestbranch { b5, b40, imm14, rt } => {
            fields::lemma_tb_fields((b5 as u32), 0x37, (b40 as u32), imm14.raw, (rt.enc as u32));
        },
        A64Insn::LdrImmGenLdr32LdstImmpost { rt, mem } => {
            fields::lemma_ldst9_fields(0xB8, 1, mem.spec_offset_imm().raw, 1, (mem.spec_base().enc as u32), (rt.enc as u32));
        },
        A64Insn::LdrImmGenLdr64LdstImmpost { rt, mem } => {
            fields::lemma_ldst9_fields(0xF8, 1, mem.spec_offset_imm().raw, 1, (mem.spec_base().enc as u32), (rt.enc as u32));
        },
        A64Insn::LdrImmGenLdr32LdstImmpre { rt, mem } => {
            fields::lemma_ldst9_fields(0xB8, 1, mem.spec_offset_imm().raw, 3, (mem.spec_base().enc as u32), (rt.enc as u32));
        },
        A64Insn::LdrImmGenLdr64LdstImmpre { rt, mem } => {
            fields::lemma_ldst9_fields(0xF8, 1, mem.spec_offset_imm().raw, 3, (mem.spec_base().enc as u32), (rt.enc as u32));
        },
        A64Insn::LdrImmGenLdr32LdstPos { rt, mem } => {
            fields::lemma_ldstpos_fields(0xB9, 1, mem.spec_offset_imm().raw, (mem.spec_base().enc as u32), (rt.enc as u32));
        },
        A64Insn::LdrImmGenLdr64LdstPos { rt, mem } => {
            fields::lemma_ldstpos_fields(0xF9, 1, mem.spec_offset_imm().raw, (mem.spec_base().enc as u32), (rt.enc as u32));
        },
        A64Insn::StrImmGenStr32LdstImmpost { rt, mem } => {
            fields::lemma_ldst9_fields(0xB8, 0, mem.spec_offset_imm().raw, 1, (mem.spec_base().enc as u32), (rt.enc as u32));
        },
        A64Insn::StrImmGenStr64LdstImmpost { rt, mem } => {
            fields::lemma_ldst9_fields(0xF8, 0, mem.spec_offset_imm().raw, 1, (mem.spec_base().enc as u32), (rt.enc as u32));
        },
        A64Insn::StrImmGenStr32LdstImmpre { rt, mem } => {
            fields::lemma_ldst9_fields(0xB8, 0, mem.spec_offset_imm().raw, 3, (mem.spec_base().enc as u32), (rt.enc as u32));
        },
        A64Insn::StrImmGenStr64LdstImmpre { rt, mem } => {
            fields::lemma_ldst9_fields(0xF8, 0, mem.spec_offset_imm().raw, 3, (mem.spec_base().enc as u32), (rt.enc as u32));
        },
        A64Insn::StrImmGenStr32LdstPos { rt, mem } => {
            fields::lemma_ldstpos_fields(0xB9, 0, mem.spec_offset_imm().raw, (mem.spec_base().enc as u32), (rt.enc as u32));
        },
        A64Insn::StrImmGenStr64LdstPos { rt, mem } => {
            fields::lemma_ldstpos_fields(0xF9, 0, mem.spec_offset_imm().raw, (mem.spec_base().enc as u32), (rt.enc as u32));
        },
        A64Insn::LdpGenLdp64LdstpairPost { rt2, rt, mem } => {
            fields::lemma_pair_fields(0xA8, 3, mem.spec_offset_imm().raw, (rt2.enc as u32), (mem.spec_base().enc as u32), (rt.enc as u32));
        },
        A64Insn::LdpGenLdp64LdstpairPre { rt2, rt, mem } => {
            fields::lemma_pair_fields(0xA9, 3, mem.spec_offset_imm().raw, (rt2.enc as u32), (mem.spec_base().enc as u32), (rt.enc as u32));
        },
        A64Insn::LdpGenLdp64LdstpairOff { rt2, rt, mem } => {
            fields::lemma_pair_fields(0xA9, 1, mem.spec_offset_imm().raw, (rt2.enc as u32), (mem.spec_base().enc as u32), (rt.enc as u32));
        },
        A64Insn::StpGenStp64LdstpairPost { rt2, rt, mem } => {
            fields::lemma_pair_fields(0xA8, 2, mem.spec_offset_imm().raw, (rt2.enc as u32), (mem.spec_base().enc as u32), (rt.enc as u32));
        },
        A64Insn::StpGenStp64LdstpairPre { rt2, rt, mem } => {
            fields::lemma_pair_fields(0xA9, 2, mem.spec_offset_imm().raw, (rt2.enc as u32), (mem.spec_base().enc as u32), (rt.enc as u32));
        },
        A64Insn::StpGenStp64LdstpairOff { rt2, rt, mem } => {
            fields::lemma_pair_fields(0xA9, 0, mem.spec_offset_imm().raw, (rt2.enc as u32), (mem.spec_base().enc as u32), (rt.enc as u32));
        },
        A64Insn::NopNopHiHints {} => {},
        A64Insn::BrBr64BranchReg { rn } => {
            fields::lemma_breg_fields(0x3587C0, (rn.enc as u32));
        },
        A64Insn::BlrBlr64BranchReg { rn } => {
            fields::lemma_breg_fields(0x358FC0, (rn.enc as u32));
        },
        A64Insn::RetRet64rBranchReg { rn } => {
            fields::lemma_breg_fields(0x3597C0, (rn.enc as u32));
        },
        A64Insn::SvcSvcExException { imm16 } => {
            fields::lemma_svc_fields(imm16.raw);
        },
    }
}

/// A word that decodes is the word of the instruction it decodes to, and that
/// instruction fits and is canonical.
#[verifier::rlimit(100)]
#[verifier::spinoff_prover]
pub proof fn lemma_decode_sound(w: u32)
    ensures
        spec_decode_word(w) matches Some(i) ==> i.spec_fits() && i.spec_is_canonical() && i.spec_word() == w,
{
    let top = w >> 24;
    if w == 0xD503201F {
    } else if top == 0x10 || top == 0x30 || top == 0x50 || top == 0x70 {
        fields::lemma_pcrel_word(w, 0);
    } else if top == 0x90 || top == 0xB0 || top == 0xD0 || top == 0xF0 {
        fields::lemma_pcrel_word(w, 1);
    } else if (top == 0x11 && (w >> 23) & 1 == 0) {
        fields::lemma_addsub_word(w, 0x11);
    } else if (top == 0x91 && (w >> 23) & 1 == 0) {
        fields::lemma_addsub_word(w, 0x91);
    } else if (top == 0x51 && (w >> 23) & 1 == 0) {
        fields::lemma_addsub_word(w, 0x51);
    } else if (top == 0xD1 && (w >> 23) & 1 == 0) {
        fields::lemma_addsub_word(w, 0xD1);
    } else if (top == 0x71 && (w >> 23) & 1 == 0) {
        fields::lemma_addsub_word(w, 0x71);
    } else if (top == 0xF1 && (w >> 23) & 1 == 0) {
        fields::lemma_addsub_word(w, 0xF1);
    } else if (0x14 <= top && top <= 0x17) {
        fields::lemma_bimm_word(w, 0x5);
    } else if (0x94 <= top && top <= 0x97) {
        fields::lemma_bimm_word(w, 0x25);
    } else if (top == 0x54 && (w >> 4) & 1 == 0) {
        fields::lemma_bcond_word(w);
    } else if top == 0x34 {
        fields::lemma_cb_word(w, 0x34);
    } else if top == 0xB4 {
        fields::lemma_cb_word(w, 0xB4);
    } else if top == 0x35 {
        fields::lemma_cb_word(w, 0x35);
    } else if top == 0xB5 {
        fields::lemma_cb_word(w, 0xB5);
    } else if (top == 0x52 && (w >> 23) & 1 == 1) {
        fields::lemma_movw_word(w, 0x52);
    } else if (top == 0xD2 && (w >> 23) & 1 == 1) {
        fields::lemma_movw_word(w, 0xD2);
    } else if (top == 0x72 && (w >> 23) & 1 == 1) {
        fields::lemma_movw_word(w, 0x72);
    } else if (top == 0xF2 && (w >> 23) & 1 == 1) {
        fields::lemma_movw_word(w, 0xF2);
    } else if (top == 0xAA && (w >> 21) & 1 == 0) {
        fields::lemma_logsh_word(w, 0xAA);
    } else if (top == 0x36 || top == 0xB6) {
        fields::lemma_tb_word(w, 0x36);
    } else if (top == 0x37 || top == 0xB7) {
        fields::lemma_tb_word(w, 0x37);
    } else if (top == 0xB8 && (w >> 21) & 1 == 0 && (w >> 22) & 3 == 1 && (w >> 10) & 3 == 1) {
        fields::lemma_ldst9_word(w, 0xB8, 1, 1);
    } else if (top == 0xF8 && (w >> 21) & 1 == 0 && (w >> 22) & 3 == 1 && (w >> 10) & 3 == 1) {
        fields::lemma_ldst9_word(w, 0xF8, 1, 1);
    } else if (top == 0xB8 && (w >> 21) & 1 == 0 && (w >> 22) & 3 == 1 && (w >> 10) & 3 == 3) {
        fields::lemma_ldst9_word(w, 0xB8, 1, 3);
    } else if (top == 0xF8 && (w >> 21) & 1 == 0 && (w >> 22) & 3 == 1 && (w >> 10) & 3 == 3) {
        fields::lemma_ldst9_word(w, 0xF8, 1, 3);
    } else if (top == 0xB9 && (w >> 22) & 3 == 1) {
        fields::lemma_ldstpos_word(w, 0xB9, 1);
    } else if (top == 0xF9 && (w >> 22) & 3 == 1) {
        fields::lemma_ldstpos_word(w, 0xF9, 1);
    } else if (top == 0xB8 && (w >> 21) & 1 == 0 && (w >> 22) & 3 == 0 && (w >> 10) & 3 == 1) {
        fields::lemma_ldst9_word(w, 0xB8, 0, 1);
    } else if (top == 0xF8 && (w >> 21) & 1 == 0 && (w >> 22) & 3 == 0 && (w >> 10) & 3 == 1) {
        fields::lemma_ldst9_word(w, 0xF8, 0, 1);
    } else if (top == 0xB8 && (w >> 21) & 1 == 0 && (w >> 22) & 3 == 0 && (w >> 10) & 3 == 3) {
        fields::lemma_ldst9_word(w, 0xB8, 0, 3);
    } else if (top == 0xF8 && (w >> 21) & 1 == 0 && (w >> 22) & 3 == 0 && (w >> 10) & 3 == 3) {
        fields::lemma_ldst9_word(w, 0xF8, 0, 3);
    } else if (top == 0xB9 && (w >> 22) & 3 == 0) {
        fields::lemma_ldstpos_word(w, 0xB9, 0);
    } else if (top == 0xF9 && (w >> 22) & 3 == 0) {
        fields::lemma_ldstpos_word(w, 0xF9, 0);
    } else if (top == 0xA8 && (w >> 22) & 3 == 3) {
        fields::lemma_pair_word(w, 0xA8, 3);
    } else if (top == 0xA9 && (w >> 22) & 3 == 3) {
        fields::lemma_pair_word(w, 0xA9, 3);
    } else if (top == 0xA9 && (w >> 22) & 3 == 1) {
        fields::lemma_pair_word(w, 0xA9, 1);
    } else if (top == 0xA8 && (w >> 22) & 3 == 2) {
        fields::lemma_pair_word(w, 0xA8, 2);
    } else if (top == 0xA9 && (w >> 22) & 3 == 2) {
        fields::lemma_pair_word(w, 0xA9, 2);
    } else if (top == 0xA9 && (w >> 22) & 3 == 0) {
        fields::lemma_pair_word(w, 0xA9, 0);
    } else if (top == 0xD6 && w >> 10 == 0x3587C0 && w & 0x1F == 0) {
        fields::lemma_breg_word(w, 0x3587C0);
    } else if (top == 0xD6 && w >> 10 == 0x358FC0 && w & 0x1F == 0) {
        fields::lemma_breg_word(w, 0x358FC0);
    } else if (top == 0xD6 && w >> 10 == 0x3597C0 && w & 0x1F == 0) {
        fields::lemma_breg_word(w, 0x3597C0);
    } else if (top == 0xD4 && (w >> 21) & 7 == 0 && w & 0x1F == 1) {
        fields::lemma_svc_word(w);
    }
}

} // verus!
