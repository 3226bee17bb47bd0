//! Bit layouts of the instruction shapes of the A64 subset: how the fixed
//! bits and the operand fields of each shape are packed into a 32-bit word,
//! and the facts that let a word be taken apart again.
use vstd::prelude::*;

verus! {

/// PC-relative address (ADR, ADRP): `op` at bit 31, `immlo` at 29, `immhi` at 5, `Rd` at 0.
pub open spec fn pack_pcrel(op: u32, immlo: u32, immhi: u32, rd: u32) -> u32 {
    (op << 31) | (immlo << 29) | 0x1000_0000u32 | (immhi << 5) | rd
}

/// Packs the word of shape `pcrel`.
pub fn pack_pcrel_word(op: u32, immlo: u32, immhi: u32, rd: u32) -> (w: u32)
    ensures
        w == pack_pcrel(op, immlo, immhi, rd),
{
    (op << 31) | (immlo << 29) | 0x1000_0000u32 | (immhi << 5) | rd
}

/// The fixed bits and operand fields of a packed `pcrel` word read back.
pub proof fn lemma_pcrel_fields(op: u32, immlo: u32, immhi: u32, rd: u32)
    requires
        op < 2,
        immlo < 0x4,
        immhi < 0x80000,
        rd < 0x20,
    ensures
        ({
            let w = pack_pcrel(op, immlo, immhi, rd);
            &&& w >> 24 == op * 128 + immlo * 32 + 16
            &&& ((w >> 29) & 0x3) == immlo
            &&& ((w >> 5) & 0x7FFFF) == immhi
            &&& (w & 0x1F) == rd
        }),
{
    let w = pack_pcrel(op, immlo, immhi, rd);
    assert({
        &&& w >> 24 == op * 128 + immlo * 32 + 16
        &&& ((w >> 29) & 0x3) == immlo
        &&& ((w >> 5) & 0x7FFFF) == immhi
        &&& (w & 0x1F) == rd
    }) by (bit_vector)
        requires
            w == (op << 31) | (immlo << 29) | 0x1000_0000u32 | (immhi << 5) | rd,
            op < 2,
            immlo < 0x4,
            immhi < 0x80000,
            rd < 0x20,
    ;
}

/// A word whose fixed bits are those of shape `pcrel` is the packing of its own fields.
pub proof fn lemma_pcrel_word(w: u32, op: u32)
    requires
        (op == 0 && (w >> 24 == 0x10 || w >> 24 == 0x30 || w >> 24 == 0x50 || w >> 24 == 0x70)) || (op == 1 && (w >> 24 == 0x90 || w >> 24 == 0xB0 || w >> 24 == 0xD0 || w >> 24 == 0xF0)),
    ensures
        w == pack_pcrel(op, ((w >> 29) & 0x3), ((w >> 5) & 0x7FFFF), (w & 0x1F)),
        ((w >> 29) & 0x3) < 0x4,
        ((w >> 5) & 0x7FFFF) < 0x80000,
        (w & 0x1F) < 0x20,
{
    assert({
        &&& w == (op << 31) | (((w >> 29) & 0x3) << 29) | 0x1000_0000u32 | (((w >> 5) & 0x7FFFF) << 5) | (w & 0x1F)
        &&& ((w >> 29) & 0x3) < 0x4
        &&& ((w >> 5) & 0x7FFFF) < 0x80000
        &&& (w & 0x1F) < 0x20
    }) by (bit_vector)
        requires
            (op == 0 && (w >> 24 == 0x10 || w >> 24 == 0x30 || w >> 24 == 0x50 || w >> 24 == 0x70)) || (op == 1 && (w >> 24 == 0x90 || w >> 24 == 0xB0 || w >> 24 == 0xD0 || w >> 24 == 0xF0)),
    ;
}

/// Add/subtract immediate: top byte, `sh` at 22, `imm12` at 10, `Rn` at 5, `Rd` at 0.
pub open spec fn pack_addsub(top: u32, sh: u32, imm12: u32, rn: u32, rd: u32) -> u32 {
    (top << 24) | (sh << 22) | (imm12 << 10) | (rn << 5) | rd
}

/// Packs the word of shape `addsub`.
pub fn pack_addsub_word(top: u32, sh: u32, imm12: u32, rn: u32, rd: u32) -> (w: u32)
    ensures
        w == pack_addsub(top, sh, imm12, rn, rd),
{
    (top << 24) | (sh << 22) | (imm12 << 10) | (rn << 5) | rd
}

/// The fixed bits and operand fields of a packed `addsub` word read back.
pub proof fn lemma_addsub_fields(top: u32, sh: u32, imm12: u32, rn: u32, rd: u32)
    requires
        top < 256,
        sh < 0x2,
        imm12 < 0x1000,
        rn < 0x20,
        rd < 0x20,
    ensures
        ({
            let w = pack_addsub(top, sh, imm12, rn, rd);
            &&& w >> 24 == top
            &&& (w >> 23) & 1 == 0
            &&& ((w >> 22) & 0x1) == sh
            &&& ((w >> 10) & 0xFFF) == imm12
            &&& ((w >> 5) & 0x1F) == rn
            &&& (w & 0x1F) == rd
        }),
{
    let w = pack_addsub(top, sh, imm12, rn, rd);
    assert({
        &&& w >> 24 == top
        &&& (w >> 23) & 1 == 0
        &&& ((w >> 22) & 0x1) == sh
        &&& ((w >> 10) & 0xFFF) == imm12
        &&& ((w >> 5) & 0x1F) == rn
        &&& (w & 0x1F) == rd
    }) by (bit_vector)
        requires
            w == (top << 24) | (sh << 22) | (imm12 << 10) | (rn << 5) | rd,
            top < 256,
            sh < 0x2,
            imm12 < 0x1000,
            rn < 0x20,
            rd < 0x20,
    ;
}

/// A word whose fixed bits are those of shape `addsub` is the packing of its own fields.
pub proof fn lemma_addsub_word(w: u32, top: u32)
    requires
        w >> 24 == top && (w >> 23) & 1 == 0,
    ensures
        w == pack_addsub(top, ((w >> 22) & 0x1), ((w >> 10) & 0xFFF), ((w >> 5) & 0x1F), (w & 0x1F)),
        ((w >> 22) & 0x1) < 0x2,
        ((w >> 10) & 0xFFF) < 0x1000,
        ((w >> 5) & 0x1F) < 0x20,
        (w & 0x1F) < 0x20,
{
    assert({
        &&& w == (top << 24) | (((w >> 22) & 0x1) << 22) | (((w >> 10) & 0xFFF) << 10) | (((w >> 5) & 0x1F) << 5) | (w & 0x1F)
        &&& ((w >> 22) & 0x1) < 0x2
        &&& ((w >> 10) & 0xFFF) < 0x1000
        &&& ((w >> 5) & 0x1F) < 0x20
        &&& (w & 0x1F) < 0x20
    }) by (bit_vector)
        requires
            w >> 24 == top && (w >> 23) & 1 == 0,
    ;
}

/// Unconditional branch immediate (B, BL): six opcode bits, `imm26` at 0.
pub open spec fn pack_bimm(op6: u32, imm26: u32) -> u32 {
    (op6 << 26) | imm26
}

/// Packs the word of shape `bimm`.
pub fn pack_bimm_word(op6: u32, imm26: u32) -> (w: u32)
    ensures
        w == pack_bimm(op6, imm26),
{
    (op6 << 26) | imm26
}

/// The fixed bits and operand fields of a packed `bimm` word read back.
pub proof fn lemma_bimm_fields(op6: u32, imm26: u32)
    requires
        op6 < 64,
        imm26 < 0x4000000,
    ensures
        ({
            let w = pack_bimm(op6, imm26);
            &&& op6 * 4 <= w >> 24
            &&& w >> 24 <= op6 * 4 + 3
            &&& (w & 0x3FFFFFF) == imm26
        }),
{
    let w = pack_bimm(op6, imm26);
    assert({
        &&& op6 * 4 <= w >> 24
        &&& w >> 24 <= op6 * 4 + 3
        &&& (w & 0x3FFFFFF) == imm26
    }) by (bit_vector)
        requires
            w == (op6 << 26) | imm26,
            op6 < 64,
            imm26 < 0x4000000,
    ;
}

/// A word whose fixed bits are those of shape `bimm` is the packing of its own fields.
pub proof fn lemma_bimm_word(w: u32, op6: u32)
    requires
        op6 < 64 && op6 * 4 <= w >> 24 && w >> 24 <= op6 * 4 + 3,
    ensures
        w == pack_bimm(op6, (w & 0x3FFFFFF)),
        (w & 0x3FFFFFF) < 0x4000000,
{
    assert({
        &&& w == (op6 << 26) | (w & 0x3FFFFFF)
        &&& (w & 0x3FFFFFF) < 0x4000000
    }) by (bit_vector)
        requires
            op6 < 64 && op6 * 4 <= w >> 24 && w >> 24 <= op6 * 4 + 3,
    ;
}

/// Conditional branch: `imm19` at 5, `cond` at 0.
pub open spec fn pack_bcond(imm19: u32, cond: u32) -> u32 {
    0x5400_0000u32 | (imm19 << 5) | cond
}

/// Packs the word of shape `bcond`.
pub fn pack_bcond_word(imm19: u32, cond: u32) -> (w: u32)
    ensures
        w == pack_bcond(imm19, cond),
{
    0x5400_0000u32 | (imm19 << 5) | cond
}

/// The fixed bits and operand fields of a packed `bcond` word read back.
pub proof fn lemma_bcond_fields(imm19: u32, cond: u32)
    requires
        imm19 < 0x80000,
        cond < 0x10,
    ensures
        ({
            let w = pack_bcond(imm19, cond);
            &&& w >> 24 == 0x54
            &&& (w >> 4) & 1 == 0
            &&& ((w >> 5) & 0x7FFFF) == imm19
            &&& (w & 0xF) == cond
        }),
{
    let w = pack_bcond(imm19, cond);
    assert({
        &&& w >> 24 == 0x54
        &&& (w >> 4) & 1 == 0
        &&& ((w >> 5) & 0x7FFFF) == imm19
        &&& (w & 0xF) == cond
    }) by (bit_vector)
        requires
            w == 0x5400_0000u32 | (imm19 << 5) | cond,
            imm19 < 0x80000,
            cond < 0x10,
    ;
}

/// A word whose fixed bits are those of shape `bcond` is the packing of its own fields.
pub proof fn lemma_bcond_word(w: u32)
    requires
        w >> 24 == 0x54 && (w >> 4) & 1 == 0,
    ensures
        w == pack_bcond(((w >> 5) & 0x7FFFF), (w & 0xF)),
        ((w >> 5) & 0x7FFFF) < 0x80000,
        (w & 0xF) < 0x10,
{
    assert({
        &&& w == 0x5400_0000u32 | (((w >> 5) & 0x7FFFF) << 5) | (w & 0xF)
        &&& ((w >> 5) & 0x7FFFF) < 0x80000
        &&& (w & 0xF) < 0x10
    }) by (bit_vector)
        requires
            w >> 24 == 0x54 && (w >> 4) & 1 == 0,
    ;
}

/// Compare and branch (CBZ, CBNZ): top byte, `imm19` at 5, `Rt` at 0.
pub open spec fn pack_cb(top: u32, imm19: u32, rt: u32) -> u32 {
    (top << 24) | (imm19 << 5) | rt
}

/// Packs the word of shape `cb`.
pub fn pack_cb_word(top: u32, imm19: u32, rt: u32) -> (w: u32)
    ensures
        w == pack_cb(top, imm19, rt),
{
    (top << 24) | (imm19 << 5) | rt
}

/// The fixed bits and operand fields of a packed `cb` word read back.
pub proof fn lemma_cb_fields(top: u32, imm19: u32, rt: u32)
    requires
        top < 256,
        imm19 < 0x80000,
        rt < 0x20,
    ensures
        ({
            let w = pack_cb(top, imm19, rt);
            &&& w >> 24 == top
            &&& ((w >> 5) & 0x7FFFF) == imm19
            &&& (w & 0x1F) == rt
        }),
{
    let w = pack_cb(top, imm19, rt);
    assert({
        &&& w >> 24 == top
        &&& ((w >> 5) & 0x7FFFF) == imm19
        &&& (w & 0x1F) == rt
    }) by (bit_vector)
        requires
            w == (top << 24) | (imm19 << 5) | rt,
            top < 256,
            imm19 < 0x80000,
            rt < 0x20,
    ;
}

/// A word whose fixed bits are those of shape `cb` is the packing of its own fields.
pub proof fn lemma_cb_word(w: u32, top: u32)
    requires
        w >> 24 == top,
    ensures
        w == pack_cb(top, ((w >> 5) & 0x7FFFF), (w & 0x1F)),
        ((w >> 5) & 0x7FFFF) < 0x80000,
        (w & 0x1F) < 0x20,
{
    assert({
        &&& w == (top << 24) | (((w >> 5) & 0x7FFFF) << 5) | (w & 0x1F)
        &&& ((w >> 5) & 0x7FFFF) < 0x80000
        &&& (w & 0x1F) < 0x20
    }) by (bit_vector)
        requires
            w >> 24 == top,
    ;
}

/// Move wide immediate (MOVZ, MOVK): top byte, bit 23 set, `hw` at 21, `imm16` at 5, `Rd` at 0.
pub open spec fn pack_movw(top: u32, hw: u32, imm16: u32, rd: u32) -> u32 {
    (top << 24) | 0x80_0000u32 | (hw << 21) | (imm16 << 5) | rd
}

/// Packs the word of shape `movw`.
pub fn pack_movw_word(top: u32, hw: u32, imm16: u32, rd: u32) -> (w: u32)
    ensures
        w == pack_movw(top, hw, imm16, rd),
{
    (top << 24) | 0x80_0000u32 | (hw << 21) | (imm16 << 5) | rd
}

/// The fixed bits and operand fields of a packed `movw` word read back.
pub proof fn lemma_movw_fields(top: u32, hw: u32, imm16: u32, rd: u32)
    requires
        top < 256,
        hw < 0x4,
        imm16 < 0x10000,
        rd < 0x20,
    ensures
        ({
            let w = pack_movw(top, hw, imm16, rd);
            &&& w >> 24 == top
            &&& (w >> 23) & 1 == 1
            &&& ((w >> 21) & 0x3) == hw
            &&& ((w >> 5) & 0xFFFF) == imm16
            &&& (w & 0x1F) == rd
        }),
{
    let w = pack_movw(top, hw, imm16, rd);
    assert({
        &&& w >> 24 == top
        &&& (w >> 23) & 1 == 1
        &&& ((w >> 21) & 0x3) == hw
        &&& ((w >> 5) & 0xFFFF) == imm16
        &&& (w & 0x1F) == rd
    }) by (bit_vector)
        requires
            w == (top << 24) | 0x80_0000u32 | (hw << 21) | (imm16 << 5) | rd,
            top < 256,
            hw < 0x4,
            imm16 < 0x10000,
            rd < 0x20,
    ;
}

/// A word whose fixed bits are those of shape `movw` is the packing of its own fields.
pub proof fn lemma_movw_word(w: u32, top: u32)
    requires
        w >> 24 == top && (w >> 23) & 1 == 1,
    ensures
        w == pack_movw(top, ((w >> 21) & 0x3), ((w >> 5) & 0xFFFF), (w & 0x1F)),
        ((w >> 21) & 0x3) < 0x4,
        ((w >> 5) & 0xFFFF) < 0x10000,
        (w & 0x1F) < 0x20,
{
    assert({
        &&& w == (top << 24) | 0x80_0000u32 | (((w >> 21) & 0x3) << 21) | (((w >> 5) & 0xFFFF) << 5) | (w & 0x1F)
        &&& ((w >> 21) & 0x3) < 0x4
        &&& ((w >> 5) & 0xFFFF) < 0x10000
        &&& (w & 0x1F) < 0x20
    }) by (bit_vector)
        requires
            w >> 24 == top && (w >> 23) & 1 == 1,
    ;
}

/// Logical shifted register (ORR): top byte, `shift` at 22, `Rm` at 16, `imm6` at 10, `Rn` at 5, `Rd` at 0.
pub open spec fn pack_logsh(top: u32, shift: u32, rm: u32, imm6: u32, rn: u32, rd: u32) -> u32 {
    (top << 24) | (shift << 22) | (rm << 16) | (imm6 << 10) | (rn << 5) | rd
}

/// Packs the word of shape `logsh`.
pub fn pack_logsh_word(top: u32, shift: u32, rm: u32, imm6: u32, rn: u32, rd: u32) -> (w: u32)
    ensures
        w == pack_logsh(top, shift, rm, imm6, rn, rd),
{
    (top << 24) | (shift << 22) | (rm << 16) | (imm6 << 10) | (rn << 5) | rd
}

/// The fixed bits and operand fields of a packed `logsh` word read back.
pub proof fn lemma_logsh_fields(top: u32, shift: u32, rm: u32, imm6: u32, rn: u32, rd: u32)
    requires
        top < 256,
        shift < 0x4,
        rm < 0x20,
        imm6 < 0x40,
        rn < 0x20,
        rd < 0x20,
    ensures
        ({
            let w = pack_logsh(top, shift, rm, imm6, rn, rd);
            &&& w >> 24 == top
            &&& (w >> 21) & 1 == 0
            &&& ((w >> 22) & 0x3) == shift
            &&& ((w >> 16) & 0x1F) == rm
            &&& ((w >> 10) & 0x3F) == imm6
            &&& ((w >> 5) & 0x1F) == rn
            &&& (w & 0x1F) == rd
        }),
{
    let w = pack_logsh(top, shift, rm, imm6, rn, rd);
    assert({
        &&& w >> 24 == top
        &&& (w >> 21) & 1 == 0
        &&& ((w >> 22) & 0x3) == shift
        &&& ((w >> 16) & 0x1F) == rm
        &&& ((w >> 10) & 0x3F) == imm6
        &&& ((w >> 5) & 0x1F) == rn
        &&& (w & 0x1F) == rd
    }) by (bit_vector)
        requires
            w == (top << 24) | (shift << 22) | (rm << 16) | (imm6 << 10) | (rn << 5) | rd,
            top < 256,
            shift < 0x4,
            rm < 0x20,
            imm6 < 0x40,
            rn < 0x20,
            rd < 0x20,
    ;
}

/// A word whose fixed bits are those of shape `logsh` is the packing of its own fields.
pub proof fn lemma_logsh_word(w: u32, top: u32)
    requires
        w >> 24 == top && (w >> 21) & 1 == 0,
    ensures
        w == pack_logsh(top, ((w >> 22) & 0x3), ((w >> 16) & 0x1F), ((w >> 10) & 0x3F), ((w >> 5) & 0x1F), (w & 0x1F)),
        ((w >> 22) & 0x3) < 0x4,
        ((w >> 16) & 0x1F) < 0x20,
        ((w >> 10) & 0x3F) < 0x40,
        ((w >> 5) & 0x1F) < 0x20,
        (w & 0x1F) < 0x20,
{
    assert({
        &&& w == (top << 24) | (((w >> 22) & 0x3) << 22) | (((w >> 16) & 0x1F) << 16) | (((w >> 10) & 0x3F) << 10) | (((w >> 5) & 0x1F) << 5) | (w & 0x1F)
        &&& ((w >> 22) & 0x3) < 0x4
        &&& ((w >> 16) & 0x1F) < 0x20
        &&& ((w >> 10) & 0x3F) < 0x40
        &&& ((w >> 5) & 0x1F) < 0x20
        &&& (w & 0x1F) < 0x20
    }) by (bit_vector)
        requires
            w >> 24 == top && (w >> 21) & 1 == 0,
    ;
}

/// Test bit and branch (TBZ, TBNZ): `b5` at 31, opcode byte, `b40` at 19, `imm14` at 5, `Rt` at 0.
pub open spec fn pack_tb(b5: u32, op7: u32, b40: u32, imm14: u32, rt: u32) -> u32 {
    (b5 << 31) | (op7 << 24) | (b40 << 19) | (imm14 << 5) | rt
}

/// Packs the word of shape `tb`.
pub fn pack_tb_word(b5: u32, op7: u32, b40: u32, imm14: u32, rt: u32) -> (w: u32)
    ensures
        w == pack_tb(b5, op7, b40, imm14, rt),
{
    (b5 << 31) | (op7 << 24) | (b40 << 19) | (imm14 << 5) | rt
}

/// The fixed bits and operand fields of a packed `tb` word read back.
pub proof fn lemma_tb_fields(b5: u32, op7: u32, b40: u32, imm14: u32, rt: u32)
    requires
        op7 < 128,
        b5 < 0x2,
        b40 < 0x20,
        imm14 < 0x4000,
        rt < 0x20,
    ensures
        ({
            let w = pack_tb(b5, op7, b40, imm14, rt);
            &&& w >> 24 == b5 * 128 + op7
            &&& ((w >> 31) & 0x1) == b5
            &&& ((w >> 19) & 0x1F) == b40
            &&& ((w >> 5) & 0x3FFF) == imm14
            &&& (w & 0x1F) == rt
        }),
{
    let w = pack_tb(b5, op7, b40, imm14, rt);
    assert({
        &&& w >> 24 == b5 * 128 + op7
        &&& ((w >> 31) & 0x1) == b5
        &&& ((w >> 19) & 0x1F) == b40
        &&& ((w >> 5) & 0x3FFF) == imm14
        &&& (w & 0x1F) == rt
    }) by (bit_vector)
        requires
            w == (b5 << 31) | (op7 << 24) | (b40 << 19) | (imm14 << 5) | rt,
            op7 < 128,
            b5 < 0x2,
            b40 < 0x20,
            imm14 < 0x4000,
            rt < 0x20,
    ;
}

/// A word whose fixed bits are those of shape `tb` is the packing of its own fields.
pub proof fn lemma_tb_word(w: u32, op7: u32)
    requires
        op7 < 128 && (w >> 24 == op7 || w >> 24 == op7 + 128),
    ensures
        w == pack_tb(((w >> 31) & 0x1), op7, ((w >> 19) & 0x1F), ((w >> 5) & 0x3FFF), (w & 0x1F)),
        ((w >> 31) & 0x1) < 0x2,
        ((w >> 19) & 0x1F) < 0x20,
        ((w >> 5) & 0x3FFF) < 0x4000,
        (w & 0x1F) < 0x20,
{
    assert({
        &&& w == (((w >> 31) & 0x1) << 31) | (op7 << 24) | (((w >> 19) & 0x1F) << 19) | (((w >> 5) & 0x3FFF) << 5) | (w & 0x1F)
        &&& ((w >> 31) & 0x1) < 0x2
        &&& ((w >> 19) & 0x1F) < 0x20
        &&& ((w >> 5) & 0x3FFF) < 0x4000
        &&& (w & 0x1F) < 0x20
    }) by (bit_vector)
        requires
            op7 < 128 && (w >> 24 == op7 || w >> 24 == op7 + 128),
    ;
}

/// Load/store register with a 9-bit index (pre/post): top byte, `opc` at 22, `imm9` at 12, mode at 10, `Rn` at 5, `Rt` at 0.
pub open spec fn pack_ldst9(top: u32, opc: u32, imm9: u32, mode: u32, rn: u32, rt: u32) -> u32 {
    (top << 24) | (opc << 22) | (imm9 << 12) | (mode << 10) | (rn << 5) | rt
}

/// Packs the word of shape `ldst9`.
pub fn pack_ldst9_word(top: u32, opc: u32, imm9: u32, mode: u32, rn: u32, rt: u32) -> (w: u32)
    ensures
        w == pack_ldst9(top, opc, imm9, mode, rn, rt),
{
    (top << 24) | (opc << 22) | (imm9 << 12) | (mode << 10) | (rn << 5) | rt
}

/// The fixed bits and operand fields of a packed `ldst9` word read back.
pub proof fn lemma_ldst9_fields(top: u32, opc: u32, imm9: u32, mode: u32, rn: u32, rt: u32)
    requires
        top < 256,
        opc < 4,
        mode < 4,
        imm9 < 0x200,
        rn < 0x20,
        rt < 0x20,
    ensures
        ({
            let w = pack_ldst9(top, opc, imm9, mode, rn, rt);
            &&& w >> 24 == top
            &&& (w >> 21) & 1 == 0
            &&& (w >> 22) & 3 == opc
            &&& (w >> 10) & 3 == mode
            &&& ((w >> 12) & 0x1FF) == imm9
            &&& ((w >> 5) & 0x1F) == rn
            &&& (w & 0x1F) == rt
        }),
{
    let w = pack_ldst9(top, opc, imm9, mode, rn, rt);
    assert({
        &&& w >> 24 == top
        &&& (w >> 21) & 1 == 0
        &&& (w >> 22) & 3 == opc
        &&& (w >> 10) & 3 == mode
        &&& ((w >> 12) & 0x1FF) == imm9
        &&& ((w >> 5) & 0x1F) == rn
        &&& (w & 0x1F) == rt
    }) by (bit_vector)
        requires
            w == (top << 24) | (opc << 22) | (imm9 << 12) | (mode << 10) | (rn << 5) | rt,
            top < 256,
            opc < 4,
            mode < 4,
            imm9 < 0x200,
            rn < 0x20,
            rt < 0x20,
    ;
}

/// A word whose fixed bits are those of shape `ldst9` is the packing of its own fields.
pub proof fn lemma_ldst9_word(w: u32, top: u32, opc: u32, mode: u32)
    requires
        w >> 24 == top && (w >> 21) & 1 == 0 && (w >> 22) & 3 == opc && (w >> 10) & 3 == mode,
    ensures
        w == pack_ldst9(top, opc, ((w >> 12) & 0x1FF), mode, ((w >> 5) & 0x1F), (w & 0x1F)),
        ((w >> 12) & 0x1FF) < 0x200,
        ((w >> 5) & 0x1F) < 0x20,
        (w & 0x1F) < 0x20,
{
    assert({
        &&& w == (top << 24) | (opc << 22) | (((w >> 12) & 0x1FF) << 12) | (mode << 10) | (((w >> 5) & 0x1F) << 5) | (w & 0x1F)
        &&& ((w >> 12) & 0x1FF) < 0x200
        &&& ((w >> 5) & 0x1F) < 0x20
        &&& (w & 0x1F) < 0x20
    }) by (bit_vector)
        requires
            w >> 24 == top && (w >> 21) & 1 == 0 && (w >> 22) & 3 == opc && (w >> 10) & 3 == mode,
    ;
}

/// Load/store register, unsigned offset: top byte, `opc` at 22, `imm12` at 10, `Rn` at 5, `Rt` at 0.
pub open spec fn pack_ldstpos(top: u32, opc: u32, imm12: u32, rn: u32, rt: u32) -> u32 {
    (top << 24) | (opc << 22) | (imm12 << 10) | (rn << 5) | rt
}

/// Packs the word of shape `ldstpos`.
pub fn pack_ldstpos_word(top: u32, opc: u32, imm12: u32, rn: u32, rt: u32) -> (w: u32)
    ensures
        w == pack_ldstpos(top, opc, imm12, rn, rt),
{
    (top << 24) | (opc << 22) | (imm12 << 10) | (rn << 5) | rt
}

/// The fixed bits and operand fields of a packed `ldstpos` word read back.
pub proof fn lemma_ldstpos_fields(top: u32, opc: u32, imm12: u32, rn: u32, rt: u32)
    requires
        top < 256,
        opc < 4,
        imm12 < 0x1000,
        rn < 0x20,
        rt < 0x20,
    ensures
        ({
            let w = pack_ldstpos(top, opc, imm12, rn, rt);
            &&& w >> 24 == top
            &&& (w >> 22) & 3 == opc
            &&& ((w >> 10) & 0xFFF) == imm12
            &&& ((w >> 5) & 0x1F) == rn
            &&& (w & 0x1F) == rt
        }),
{
    let w = pack_ldstpos(top, opc, imm12, rn, rt);
    assert({
        &&& w >> 24 == top
        &&& (w >> 22) & 3 == opc
        &&& ((w >> 10) & 0xFFF) == imm12
        &&& ((w >> 5) & 0x1F) == rn
        &&& (w & 0x1F) == rt
    }) by (bit_vector)
        requires
            w == (top << 24) | (opc << 22) | (imm12 << 10) | (rn << 5) | rt,
            top < 256,
            opc < 4,
            imm12 < 0x1000,
            rn < 0x20,
            rt < 0x20,
    ;
}

/// A word whose fixed bits are those of shape `ldstpos` is the packing of its own fields.
pub proof fn lemma_ldstpos_word(w: u32, top: u32, opc: u32)
    requires
        w >> 24 == top && (w >> 22) & 3 == opc,
    ensures
        w == pack_ldstpos(top, opc, ((w >> 10) & 0xFFF), ((w >> 5) & 0x1F), (w & 0x1F)),
        ((w >> 10) & 0xFFF) < 0x1000,
        ((w >> 5) & 0x1F) < 0x20,
        (w & 0x1F) < 0x20,
{
    assert({
        &&& w == (top << 24) | (opc << 22) | (((w >> 10) & 0xFFF) << 10) | (((w >> 5) & 0x1F) << 5) | (w & 0x1F)
        &&& ((w >> 10) & 0xFFF) < 0x1000
        &&& ((w >> 5) & 0x1F) < 0x20
        &&& (w & 0x1F) < 0x20
    }) by (bit_vector)
        requires
            w >> 24 == top && (w >> 22) & 3 == opc,
    ;
}

/// Load/store pair: top byte, `opc` at 22, `imm7` at 15, `Rt2` at 10, `Rn` at 5, `Rt` at 0.
pub open spec fn pack_pair(top: u32, opc: u32, imm7: u32, rt2: u32, rn: u32, rt: u32) -> u32 {
    (top << 24) | (opc << 22) | (imm7 << 15) | (rt2 << 10) | (rn << 5) | rt
}

/// Packs the word of shape `pair`.
pub fn pack_pair_word(top: u32, opc: u32, imm7: u32, rt2: u32, rn: u32, rt: u32) -> (w: u32)
    ensures
        w == pack_pair(top, opc, imm7, rt2, rn, rt),
{
    (top << 24) | (opc << 22) | (imm7 << 15) | (rt2 << 10) | (rn << 5) | rt
}

/// The fixed bits and operand fields of a packed `pair` word read back.
pub proof fn lemma_pair_fields(top: u32, opc: u32, imm7: u32, rt2: u32, rn: u32, rt: u32)
    requires
        top < 256,
        opc < 4,
        imm7 < 0x80,
        rt2 < 0x20,
        rn < 0x20,
        rt < 0x20,
    ensures
        ({
            let w = pack_pair(top, opc, imm7, rt2, rn, rt);
            &&& w >> 24 == top
            &&& (w >> 22) & 3 == opc
            &&& ((w >> 15) & 0x7F) == imm7
            &&& ((w >> 10) & 0x1F) == rt2
            &&& ((w >> 5) & 0x1F) == rn
            &&& (w & 0x1F) == rt
        }),
{
    let w = pack_pair(top, opc, imm7, rt2, rn, rt);
    assert({
        &&& w >> 24 == top
        &&& (w >> 22) & 3 == opc
        &&& ((w >> 15) & 0x7F) == imm7
        &&& ((w >> 10) & 0x1F) == rt2
        &&& ((w >> 5) & 0x1F) == rn
        &&& (w & 0x1F) == rt
    }) by (bit_vector)
        requires
            w == (top << 24) | (opc << 22) | (imm7 << 15) | (rt2 << 10) | (rn << 5) | rt,
            top < 256,
            opc < 4,
            imm7 < 0x80,
            rt2 < 0x20,
            rn < 0x20,
            rt < 0x20,
    ;
}

/// A word whose fixed bits are those of shape `pair` is the packing of its own fields.
pub proof fn lemma_pair_word(w: u32, top: u32, opc: u32)
    requires
        w >> 24 == top && (w >> 22) & 3 == opc,
    ensures
        w == pack_pair(top, opc, ((w >> 15) & 0x7F), ((w >> 10) & 0x1F), ((w >> 5) & 0x1F), (w & 0x1F)),
        ((w >> 15) & 0x7F) < 0x80,
        ((w >> 10) & 0x1F) < 0x20,
        ((w >> 5) & 0x1F) < 0x20,
        (w & 0x1F) < 0x20,
{
    assert({
        &&& w == (top << 24) | (opc << 22) | (((w >> 15) & 0x7F) << 15) | (((w >> 10) & 0x1F) << 10) | (((w >> 5) & 0x1F) << 5) | (w & 0x1F)
        &&& ((w >> 15) & 0x7F) < 0x80
        &&& ((w >> 10) & 0x1F) < 0x20
        &&& ((w >> 5) & 0x1F) < 0x20
        &&& (w & 0x1F) < 0x20
    }) by (bit_vector)
        requires
            w >> 24 == top && (w >> 22) & 3 == opc,
    ;
}

/// Branch to register (BR, BLR, RET): bits 31..10 fixed, `Rn` at 5, bits 4..0 clear.
pub open spec fn pack_breg(hi: u32, rn: u32) -> u32 {
    (hi << 10) | (rn << 5)
}

/// Packs the word of shape `breg`.
pub fn pack_breg_word(hi: u32, rn: u32) -> (w: u32)
    ensures
        w == pack_breg(hi, rn),
{
    (hi << 10) | (rn << 5)
}

/// The fixed bits and operand fields of a packed `breg` word read back.
pub proof fn lemma_breg_fields(hi: u32, rn: u32)
    requires
        hi < 0x40_0000,
        rn < 0x20,
    ensures
        ({
            let w = pack_breg(hi, rn);
            &&& w >> 10 == hi
            &&& w & 0x1F == 0
            &&& w >> 24 == hi / 0x4000
            &&& ((w >> 5) & 0x1F) == rn
        }),
{
    let w = pack_breg(hi, rn);
    assert({
        &&& w >> 10 == hi
        &&& w & 0x1F == 0
        &&& w >> 24 == hi / 0x4000
        &&& ((w >> 5) & 0x1F) == rn
    }) by (bit_vector)
        requires
            w == (hi << 10) | (rn << 5),
            hi < 0x40_0000,
            rn < 0x20,
    ;
}

/// A word whose fixed bits are those of shape `breg` is the packing of its own fields.
pub proof fn lemma_breg_word(w: u32, hi: u32)
    requires
        w >> 10 == hi && w & 0x1F == 0,
    ensures
        w == pack_breg(hi, ((w >> 5) & 0x1F)),
        ((w >> 5) & 0x1F) < 0x20,
{
    assert({
        &&& w == (hi << 10) | (((w >> 5) & 0x1F) << 5)
        &&& ((w >> 5) & 0x1F) < 0x20
    }) by (bit_vector)
        requires
            w >> 10 == hi && w & 0x1F == 0,
    ;
}

/// Supervisor call: `imm16` at 5.
pub open spec fn pack_svc(imm16: u32) -> u32 {
    0xD400_0001u32 | (imm16 << 5)
}

/// Packs the word of shape `svc`.
pub fn pack_svc_word(imm16: u32) -> (w: u32)
    ensures
        w == pack_svc(imm16),
{
    0xD400_0001u32 | (imm16 << 5)
}

/// The fixed bits and operand fields of a packed `svc` word read back.
pub proof fn lemma_svc_fields(imm16: u32)
    requires
        imm16 < 0x10000,
    ensures
        ({
            let w = pack_svc(imm16);
            &&& w >> 24 == 0xD4
            &&& (w >> 21) & 7 == 0
            &&& w & 0x1F == 1
            &&& ((w >> 5) & 0xFFFF) == imm16
        }),
{
    let w = pack_svc(imm16);
    assert({
        &&& w >> 24 == 0xD4
        &&& (w >> 21) & 7 == 0
        &&& w & 0x1F == 1
        &&& ((w >> 5) & 0xFFFF) == imm16
    }) by (bit_vector)
        requires
            w == 0xD400_0001u32 | (imm16 << 5),
            imm16 < 0x10000,
    ;
}

/// A word whose fixed bits are those of shape `svc` is the packing of its own fields.
pub proof fn lemma_svc_word(w: u32)
    requires
        w >> 24 == 0xD4 && (w >> 21) & 7 == 0 && w & 0x1F == 1,
    ensures
        w == pack_svc(((w >> 5) & 0xFFFF)),
        ((w >> 5) & 0xFFFF) < 0x10000,
{
    assert({
        &&& w == 0xD400_0001u32 | (((w >> 5) & 0xFFFF) << 5)
        &&& ((w >> 5) & 0xFFFF) < 0x10000
    }) by (bit_vector)
        requires
            w >> 24 == 0xD4 && (w >> 21) & 7 == 0 && w & 0x1F == 1,
    ;
}

/// The top byte of the NOP word.
pub proof fn lemma_nop_top()
    ensures
        0xD503_201Fu32 >> 24 == 0xD5,
{
    assert(0xD503_201Fu32 >> 24 == 0xD5) by (bit_vector);
}

} // verus!
