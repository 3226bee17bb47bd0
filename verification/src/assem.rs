//! A direct A64 assembler for the translator's code templates: registers as
//! the disassembler numbers them, condition and shift codes, a template
//! instruction set with its aliases, and the little-endian bytes of each
//! instruction.
use vstd::prelude::*;

use crate::shared::arm64::{codec, fields, A64Imm, A64Insn, A64Reg, A64Reg31Mode, A64RegWidth};

verus! {

/// A register operand.
#[derive(Clone, Copy, Debug, PartialEq, Eq, Structural)]
#[allow(non_camel_case_types)]
pub enum Reg {
    X(u8),
    W(u8),
    B(u8),
    D(u8),
    Q(u8),
    H(u8),
    P(u8),
    S(u8),
    V(u8),
    SP,
    INV,
}

impl Reg {
    /// The 64-bit view of a 32-bit register; anything else unchanged.
    pub fn to_x_reg(self) -> (r: Self)
        ensures
            r == (match self {
                Reg::W(n) => Reg::X(n),
                _ => self,
            }),
    {
        match self {
            Reg::W(w_reg) => Reg::X(w_reg),
            _ => self,
        }
    }

    /// The 32-bit view of a 64-bit register; anything else unchanged.
    pub fn to_w_reg(self) -> (r: Self)
        ensures
            r == (match self {
                Reg::X(n) => Reg::W(n),
                _ => self,
            }),
    {
        match self {
            Reg::X(x_reg) => Reg::W(x_reg),
            _ => self,
        }
    }

    pub fn is_w(self) -> (r: bool)
        ensures
            r == (self is W),
    {
        matches!(self, Reg::W(_))
    }

    /// The register has a 5-bit encoding here: general, D and Q registers,
    /// SP, or the invalid register (which encodes as 0).
    pub open spec fn spec_encodable(self) -> bool {
        !(self is B || self is H || self is P || self is S || self is V)
    }
}

/// The 5-bit field of a register: its number, 31 for SP, and 0 for the
/// invalid register or a number above 31.
pub open spec fn spec_reg_bits(r: Reg) -> u32 {
    match r {
        Reg::X(n) | Reg::W(n) | Reg::D(n) | Reg::Q(n) => if n <= 31 {
            n as u32
        } else {
            0
        },
        Reg::SP => 31,
        _ => 0,
    }
}

pub fn reg_bits(r: Reg) -> (v: u32)
    requires
        r.spec_encodable(),
    ensures
        v == spec_reg_bits(r),
        v <= 31,
{
    match r {
        Reg::X(n) | Reg::W(n) | Reg::D(n) | Reg::Q(n) => if n <= 31 {
            n as u32
        } else {
            0
        },
        Reg::SP => 31,
        _ => 0,
    }
}

/// The size bit of an instruction whose first register is `r`: clear for a
/// 32-bit register.
pub open spec fn spec_sf(r: Reg, bit: u32) -> u32 {
    if r is W {
        0
    } else {
        bit
    }
}

fn sf(r: Reg, bit: u32) -> (v: u32)
    ensures
        v == spec_sf(r, bit),
{
    if r.is_w() {
        0
    } else {
        bit
    }
}

/// The register the disassembler's register number stands for.
pub open spec fn spec_reg_from_code(v: u32) -> Reg {
    if v == 0 {
        Reg::INV
    } else if v == 2 {
        Reg::X(29)
    } else if v == 3 {
        Reg::X(30)
    } else if v == 5 {
        Reg::SP
    } else if v == 8 {
        Reg::W(31)
    } else if v == 9 {
        Reg::X(31)
    } else if 11 <= v <= 42 {
        Reg::B((v - 11) as u8)
    } else if 43 <= v <= 74 {
        Reg::D((v - 43) as u8)
    } else if 75 <= v <= 106 {
        Reg::H((v - 75) as u8)
    } else if 107 <= v <= 122 {
        Reg::P((v - 107) as u8)
    } else if 123 <= v <= 154 {
        Reg::Q((v - 123) as u8)
    } else if 155 <= v <= 186 {
        Reg::S((v - 155) as u8)
    } else if 187 <= v <= 217 {
        Reg::W((v - 187) as u8)
    } else if 218 <= v <= 246 {
        Reg::X((v - 218) as u8)
    } else if 310 <= v <= 341 {
        Reg::V((v - 310) as u8)
    } else {
        Reg::INV
    }
}

impl From<u32> for Reg {
    /// The register of a disassembler register number; unknown numbers give
    /// the invalid register.
    fn from(value: u32) -> (r: Self) {
        if value == 0 {
            Reg::INV
        } else if value == 2 {
            Reg::X(29)
        } else if value == 3 {
            Reg::X(30)
        } else if value == 5 {
            Reg::SP
        } else if value == 8 {
            Reg::W(31)
        } else if value == 9 {
            Reg::X(31)
        } else if 11 <= value && value <= 42 {
            Reg::B((value - 11) as u8)
        } else if 43 <= value && value <= 74 {
            Reg::D((value - 43) as u8)
        } else if 75 <= value && value <= 106 {
            Reg::H((value - 75) as u8)
        } else if 107 <= value && value <= 122 {
            Reg::P((value - 107) as u8)
        } else if 123 <= value && value <= 154 {
            Reg::Q((value - 123) as u8)
        } else if 155 <= value && value <= 186 {
            Reg::S((value - 155) as u8)
        } else if 187 <= value && value <= 217 {
            Reg::W((value - 187) as u8)
        } else if 218 <= value && value <= 246 {
            Reg::X((value - 218) as u8)
        } else if 310 <= value && value <= 341 {
            Reg::V((value - 310) as u8)
        } else {
            Reg::INV
        }
    }
}

impl vstd::std_specs::convert::FromSpecImpl<u32> for Reg {
    open spec fn obeys_from_spec() -> bool {
        true
    }

    open spec fn from_spec(v: u32) -> Self {
        spec_reg_from_code(v)
    }
}

/// The register of a small number: x0 to x31, then SP at 32.
pub open spec fn spec_reg_from_index(v: u8) -> Reg {
    if v <= 31 {
        Reg::X(v)
    } else if v == 32 {
        Reg::SP
    } else {
        Reg::INV
    }
}

impl From<u8> for Reg {
    fn from(value: u8) -> (r: Self) {
        if value <= 31 {
            Reg::X(value)
        } else if value == 32 {
            Reg::SP
        } else {
            Reg::INV
        }
    }
}

impl vstd::std_specs::convert::FromSpecImpl<u8> for Reg {
    open spec fn obeys_from_spec() -> bool {
        true
    }

    open spec fn from_spec(v: u8) -> Self {
        spec_reg_from_index(v)
    }
}

/// The one-bit mask of a general register for the runtime: bit n for xn or
/// wn, bit 32 for SP, none for anything else.
pub open spec fn spec_reg_mask(r: Reg) -> u64 {
    match r {
        Reg::X(n) | Reg::W(n) => if n <= 31 {
            vstd::arithmetic::power2::pow2(n as nat) as u64
        } else {
            0
        },
        Reg::SP => 0x1_0000_0000,
        _ => 0,
    }
}

impl From<Reg> for u64 {
    fn from(value: Reg) -> (r: u64) {
        match value {
            Reg::X(n) | Reg::W(n) => if n <= 31 {
                proof {
                    vstd::arithmetic::power2::lemma2_to64();
                    vstd::arithmetic::power2::lemma_pow2_strictly_increases(n as nat, 64);
                    vstd::bits::lemma_u64_shl_is_mul(1, n as u64);
                }
                1u64 << (n as u64)
            } else {
                0
            },
            Reg::SP => 0x1_0000_0000,
            _ => 0,
        }
    }
}

impl vstd::std_specs::convert::FromSpecImpl<Reg> for u64 {
    open spec fn obeys_from_spec() -> bool {
        true
    }

    open spec fn from_spec(v: Reg) -> u64 {
        spec_reg_mask(v)
    }
}

/// The register a one-bit mask names: xn for bit n, SP for bit 32; the
/// invalid register for any other value.
pub open spec fn spec_reg_from_mask(v: u64) -> Reg {
    if v == 0x1_0000_0000 {
        Reg::SP
    } else if exists|n: u8| n <= 31 && v == vstd::arithmetic::power2::pow2(n as nat) {
        Reg::X(choose|n: u8| n <= 31 && v == vstd::arithmetic::power2::pow2(n as nat))
    } else {
        Reg::INV
    }
}

impl From<u64> for Reg {
    fn from(value: u64) -> (r: Self) {
        if value == 0x1_0000_0000 {
            return Reg::SP;
        }
        let mut n: u8 = 0;
        let mut bit: u64 = 1;
        proof {
            vstd::arithmetic::power2::lemma2_to64();
        }
        while n <= 31
            invariant
                n <= 32,
                value != 0x1_0000_0000,
                bit == vstd::arithmetic::power2::pow2(n as nat),
                forall|k: u8| k < n ==> value != vstd::arithmetic::power2::pow2(k as nat),
            decreases 32 - n,
        {
            if value == bit {
                proof {
                    lemma_pow2_injective_u8(n);
                    assert(exists|k: u8| k <= 31 && value == vstd::arithmetic::power2::pow2(k as nat));
                    let m = choose|k: u8| k <= 31 && value == vstd::arithmetic::power2::pow2(k as nat);
                    assert(m == n);
                }
                return Reg::X(n);
            }
            proof {
                vstd::arithmetic::power2::lemma2_to64();
                vstd::arithmetic::power2::lemma_pow2_unfold(n as nat + 1);
                vstd::arithmetic::power2::lemma_pow2_strictly_increases(n as nat + 1, 33);
            }
            bit = bit * 2;
            n = n + 1;
        }
        Reg::INV
    }
}

/// Distinct small exponents give distinct powers of two.
proof fn lemma_pow2_injective_u8(n: u8)
    ensures
        forall|k: u8| k != n ==> vstd::arithmetic::power2::pow2(k as nat) != vstd::arithmetic::power2::pow2(n as nat),
{
    assert forall|k: u8| k != n implies vstd::arithmetic::power2::pow2(k as nat) != vstd::arithmetic::power2::pow2(n as nat) by {
        if k < n {
            vstd::arithmetic::power2::lemma_pow2_strictly_increases(k as nat, n as nat);
        } else {
            vstd::arithmetic::power2::lemma_pow2_strictly_increases(n as nat, k as nat);
        }
    }
}

impl vstd::std_specs::convert::FromSpecImpl<u64> for Reg {
    open spec fn obeys_from_spec() -> bool {
        true
    }

    open spec fn from_spec(v: u64) -> Self {
        spec_reg_from_mask(v)
    }
}

/// A condition code.
#[derive(Clone, Copy, Debug, PartialEq, Eq, Structural)]
#[allow(non_camel_case_types)]
pub enum Cond {
    EQ,
    NE,
    CS,
    CC,
    MI,
    PL,
    VS,
    VC,
    HI,
    LS,
    GE,
    LT,
    GT,
    LE,
    AL,
    NV,
}

/// The 4-bit field of a condition.
pub open spec fn spec_cond_bits(c: Cond) -> u32 {
    match c {
        Cond::EQ => 0,
        Cond::NE => 1,
        Cond::CS => 2,
        Cond::CC => 3,
        Cond::MI => 4,
        Cond::PL => 5,
        Cond::VS => 6,
        Cond::VC => 7,
        Cond::HI => 8,
        Cond::LS => 9,
        Cond::GE => 10,
        Cond::LT => 11,
        Cond::GT => 12,
        Cond::LE => 13,
        Cond::AL => 14,
        Cond::NV => 15,
    }
}

pub fn cond_bits(c: Cond) -> (v: u32)
    ensures
        v == spec_cond_bits(c),
{
    match c {
        Cond::EQ => 0,
        Cond::NE => 1,
        Cond::CS => 2,
        Cond::CC => 3,
        Cond::MI => 4,
        Cond::PL => 5,
        Cond::VS => 6,
        Cond::VC => 7,
        Cond::HI => 8,
        Cond::LS => 9,
        Cond::GE => 10,
        Cond::LT => 11,
        Cond::GT => 12,
        Cond::LE => 13,
        Cond::AL => 14,
        Cond::NV => 15,
    }
}

/// The condition of a disassembler condition number (1 for EQ up to 16 for
/// NV); any other number gives NV.
pub open spec fn spec_cond_from_code(v: u32) -> Cond {
    if v == 1 {
        Cond::EQ
    } else if v == 2 {
        Cond::NE
    } else if v == 3 {
        Cond::CS
    } else if v == 4 {
        Cond::CC
    } else if v == 5 {
        Cond::MI
    } else if v == 6 {
        Cond::PL
    } else if v == 7 {
        Cond::VS
    } else if v == 8 {
        Cond::VC
    } else if v == 9 {
        Cond::HI
    } else if v == 10 {
        Cond::LS
    } else if v == 11 {
        Cond::GE
    } else if v == 12 {
        Cond::LT
    } else if v == 13 {
        Cond::GT
    } else if v == 14 {
        Cond::LE
    } else if v == 15 {
        Cond::AL
    } else {
        Cond::NV
    }
}

impl From<u32> for Cond {
    fn from(value: u32) -> (r: Self) {
        match value {
            1 => Cond::EQ,
            2 => Cond::NE,
            3 => Cond::CS,
            4 => Cond::CC,
            5 => Cond::MI,
            6 => Cond::PL,
            7 => Cond::VS,
            8 => Cond::VC,
            9 => Cond::HI,
            10 => Cond::LS,
            11 => Cond::GE,
            12 => Cond::LT,
            13 => Cond::GT,
            14 => Cond::LE,
            15 => Cond::AL,
            _ => Cond::NV,
        }
    }
}

impl vstd::std_specs::convert::FromSpecImpl<u32> for Cond {
    open spec fn obeys_from_spec() -> bool {
        true
    }

    open spec fn from_spec(v: u32) -> Self {
        spec_cond_from_code(v)
    }
}

/// The opposite condition: the one that holds exactly when this one does
/// not, whose field is this one's with its low bit flipped.
pub open spec fn spec_cond_inverse(c: Cond) -> Cond {
    match c {
        Cond::EQ => Cond::NE,
        Cond::NE => Cond::EQ,
        Cond::CS => Cond::CC,
        Cond::CC => Cond::CS,
        Cond::MI => Cond::PL,
        Cond::PL => Cond::MI,
        Cond::VS => Cond::VC,
        Cond::VC => Cond::VS,
        Cond::HI => Cond::LS,
        Cond::LS => Cond::HI,
        Cond::GE => Cond::LT,
        Cond::LT => Cond::GE,
        Cond::GT => Cond::LE,
        Cond::LE => Cond::GT,
        Cond::AL => Cond::NV,
        Cond::NV => Cond::AL,
    }
}

pub fn cond_inverse(c: Cond) -> (r: Cond)
    ensures
        r == spec_cond_inverse(c),
        spec_cond_bits(r) == spec_cond_bits(c) ^ 1,
{
    let r = match c {
        Cond::EQ => Cond::NE,
        Cond::NE => Cond::EQ,
        Cond::CS => Cond::CC,
        Cond::CC => Cond::CS,
        Cond::MI => Cond::PL,
        Cond::PL => Cond::MI,
        Cond::VS => Cond::VC,
        Cond::VC => Cond::VS,
        Cond::HI => Cond::LS,
        Cond::LS => Cond::HI,
        Cond::GE => Cond::LT,
        Cond::LT => Cond::GE,
        Cond::GT => Cond::LE,
        Cond::LE => Cond::GT,
        Cond::AL => Cond::NV,
        Cond::NV => Cond::AL,
    };
    proof {
        let a = spec_cond_bits(c);
        let b = spec_cond_bits(r);
        assert(b == a ^ 1) by (bit_vector)
            requires
                a < 16,
                (a == 0 && b == 1) || (a == 1 && b == 0) || (a == 2 && b == 3) || (a == 3 && b == 2) || (a == 4 && b == 5)
                    || (a == 5 && b == 4) || (a == 6 && b == 7) || (a == 7 && b == 6) || (a == 8 && b == 9) || (a == 9
                    && b == 8) || (a == 10 && b == 11) || (a == 11 && b == 10) || (a == 12 && b == 13) || (a == 13 && b
                    == 12) || (a == 14 && b == 15) || (a == 15 && b == 14),
        ;
    }
    r
}

impl Cond {
    /// The opposite condition.
    pub fn inverse(self) -> (r: Self)
        ensures
            r == spec_cond_inverse(self),
            spec_cond_bits(r) == spec_cond_bits(self) ^ 1,
    {
        cond_inverse(self)
    }
}

/// Taking the opposite condition twice gives the condition back.
pub proof fn lemma_cond_inverse_involution(c: Cond)
    ensures
        spec_cond_inverse(spec_cond_inverse(c)) == c,
{
}

/// How a memory operand updates its base.
#[derive(Clone, Copy, Debug, PartialEq, Eq, Structural)]
pub enum MemAccCls {
    PstIndex,
    PreIndex,
    Offset,
}

/// A shift kind.
#[derive(Clone, Copy, Debug, PartialEq, Eq, Structural)]
#[allow(non_camel_case_types)]
pub enum ShiftCls {
    INV,
    LSL,
    MSL,
    LSR,
    ASR,
    ROR,
}

/// The code of a shift kind (the low two bits are the shift field).
pub open spec fn spec_shift_bits(s: ShiftCls) -> u32 {
    match s {
        ShiftCls::INV => 8,
        ShiftCls::LSL => 0,
        ShiftCls::MSL => 4,
        ShiftCls::LSR => 1,
        ShiftCls::ASR => 2,
        ShiftCls::ROR => 3,
    }
}

pub fn shift_bits(s: ShiftCls) -> (v: u32)
    ensures
        v == spec_shift_bits(s),
{
    match s {
        ShiftCls::INV => 8,
        ShiftCls::LSL => 0,
        ShiftCls::MSL => 4,
        ShiftCls::LSR => 1,
        ShiftCls::ASR => 2,
        ShiftCls::ROR => 3,
    }
}

/// The shift kind of a disassembler shift number; unknown numbers give INV.
pub open spec fn spec_shift_from_code(v: u32) -> ShiftCls {
    if v == 1 {
        ShiftCls::LSL
    } else if v == 2 {
        ShiftCls::MSL
    } else if v == 3 {
        ShiftCls::LSR
    } else if v == 4 {
        ShiftCls::ASR
    } else if v == 5 {
        ShiftCls::ROR
    } else {
        ShiftCls::INV
    }
}

impl From<u32> for ShiftCls {
    fn from(value: u32) -> (r: Self) {
        match value {
            1 => ShiftCls::LSL,
            2 => ShiftCls::MSL,
            3 => ShiftCls::LSR,
            4 => ShiftCls::ASR,
            5 => ShiftCls::ROR,
            _ => ShiftCls::INV,
        }
    }
}

impl vstd::std_specs::convert::FromSpecImpl<u32> for ShiftCls {
    open spec fn obeys_from_spec() -> bool {
        true
    }

    open spec fn from_spec(v: u32) -> Self {
        spec_shift_from_code(v)
    }
}

/// A system register, by the code the disassembler gives it.
#[derive(Clone, Copy, Debug, PartialEq, Eq, Structural)]
pub struct SysReg {
    pub code: u32,
}

/// A memory operand: base, index register (INV for an immediate offset),
/// offset in bytes, and how the base is updated.
pub type Mem = (Reg, Reg, u32, MemAccCls);

/// A shift operand: kind and amount.
pub type Shift = (ShiftCls, u8);

/// A template instruction, by mnemonic and operand shape.
#[derive(Clone, Copy, Debug, PartialEq, Eq)]
#[allow(non_camel_case_types)]
pub enum TInsn {
    ADD_RRI(Reg, Reg, u32),
    ADD_RRR(Reg, Reg, Reg),
    ADDS_RRR(Reg, Reg, Reg),
    ADR_RI(Reg, u32),
    ADRP_RI(Reg, u32),
    AND_RRR(Reg, Reg, Reg),
    ANDS_RRRF(Reg, Reg, Reg, Shift),
    ANDS_RRI(Reg, Reg, u32),
    B_I(u32),
    BC_IC(u32, Cond),
    BL_I(u32),
    BLR_R(Reg),
    BR_R(Reg),
    CAS_RRM(Reg, Reg, Mem),
    CBNZ_RI(Reg, u32),
    CBZ_RI(Reg, u32),
    CMN_RR(Reg, Reg),
    CMP_RI(Reg, u32),
    CMP_RR(Reg, Reg),
    CINC_RRC(Reg, Reg, Cond),
    CNEG_RRC(Reg, Reg, Cond),
    CSEL_RRRC(Reg, Reg, Reg, Cond),
    CSET_RC(Reg, Cond),
    CSINC_RRRC(Reg, Reg, Reg, Cond),
    CSINV_RRRC(Reg, Reg, Reg, Cond),
    CSNEG_RRRC(Reg, Reg, Reg, Cond),
    EOR_RRR(Reg, Reg, Reg),
    LDP_RRM(Reg, Reg, Mem),
    LDR_RM(Reg, Mem),
    LDRB_RM(Reg, Mem),
    LDRH_RM(Reg, Mem),
    LDTRB_RM(Reg, Mem),
    LDTRH_RM(Reg, Mem),
    LDUR_RM(Reg, Mem),
    LSL_RRR(Reg, Reg, Reg),
    LSR_RRR(Reg, Reg, Reg),
    MADD_RRRR(Reg, Reg, Reg, Reg),
    MOV_RI(Reg, u32),
    MOV_RR(Reg, Reg),
    MOVK_RIF(Reg, u32, Shift),
    MOVZ_RIF(Reg, u32, Shift),
    MRS_RS(Reg, SysReg),
    MSR_SR(SysReg, Reg),
    MUL_RRR(Reg, Reg, Reg),
    NEG_RR(Reg, Reg),
    NOP,
    ORR_RRR(Reg, Reg, Reg),
    RET_R(Reg),
    ROR_RRR(Reg, Reg, Reg),
    STLXR_RRM(Reg, Reg, Mem),
    STP_RRM(Reg, Reg, Mem),
    STR_RM(Reg, Mem),
    STRB_RM(Reg, Mem),
    STRH_RM(Reg, Mem),
    STUR_RM(Reg, Mem),
    STXR_RRR(Reg, Reg, Reg),
    SUB_RRI(Reg, Reg, u32),
    SUB_RRR(Reg, Reg, Reg),
    SUBS_RRI(Reg, Reg, u32),
    SUBS_RRR(Reg, Reg, Reg),
    SVC_I(u32),
    TBNZ_RII(Reg, u32, u32),
    TBZ_RII(Reg, u32, u32),
    TST_RI(Reg, u32),
}

/// The byte offset of a pair or register load/store scaled by its access
/// size: by 4 for a 32-bit register, by 8 otherwise.
pub open spec fn spec_pair_scaled(r: Reg, i: u32) -> u32 {
    if r is W {
        i >> 2u32
    } else {
        i >> 3u32
    }
}

fn pair_scaled(r: Reg, i: u32) -> (v: u32)
    ensures
        v == spec_pair_scaled(r, i),
{
    if r.is_w() {
        i >> 2u32
    } else {
        i >> 3u32
    }
}

/// Every register operand of the instruction has an encoding.
pub open spec fn spec_insn_encodable(insn: TInsn) -> bool {
    match insn {
        TInsn::ADD_RRI(a0, a1, _) => a0.spec_encodable() && a1.spec_encodable(),
        TInsn::ADD_RRR(a0, a1, a2) => a0.spec_encodable() && a1.spec_encodable() && a2.spec_encodable(),
        TInsn::ADDS_RRR(a0, a1, a2) => a0.spec_encodable() && a1.spec_encodable() && a2.spec_encodable(),
        TInsn::ADR_RI(a0, _) => a0.spec_encodable(),
        TInsn::ADRP_RI(a0, _) => a0.spec_encodable(),
        TInsn::AND_RRR(a0, a1, a2) => a0.spec_encodable() && a1.spec_encodable() && a2.spec_encodable(),
        TInsn::ANDS_RRRF(a0, a1, a2, _) => a0.spec_encodable() && a1.spec_encodable() && a2.spec_encodable(),
        TInsn::ANDS_RRI(a0, a1, _) => a0.spec_encodable() && a1.spec_encodable(),
        TInsn::B_I(_) => true,
        TInsn::BC_IC(_, _) => true,
        TInsn::BL_I(_) => true,
        TInsn::BLR_R(a0) => a0.spec_encodable(),
        TInsn::BR_R(a0) => a0.spec_encodable(),
        TInsn::CAS_RRM(a0, a1, a2) => a0.spec_encodable() && a1.spec_encodable() && a2.0.spec_encodable() && a2.1.spec_encodable(),
        TInsn::CBNZ_RI(a0, _) => a0.spec_encodable(),
        TInsn::CBZ_RI(a0, _) => a0.spec_encodable(),
        TInsn::CMN_RR(a0, a1) => a0.spec_encodable() && a1.spec_encodable(),
        TInsn::CMP_RI(a0, _) => a0.spec_encodable(),
        TInsn::CMP_RR(a0, a1) => a0.spec_encodable() && a1.spec_encodable(),
        TInsn::CINC_RRC(a0, a1, _) => a0.spec_encodable() && a1.spec_encodable(),
        TInsn::CNEG_RRC(a0, a1, _) => a0.spec_encodable() && a1.spec_encodable(),
        TInsn::CSEL_RRRC(a0, a1, a2, _) => a0.spec_encodable() && a1.spec_encodable() && a2.spec_encodable(),
        TInsn::CSET_RC(a0, _) => a0.spec_encodable(),
        TInsn::CSINC_RRRC(a0, a1, a2, _) => a0.spec_encodable() && a1.spec_encodable() && a2.spec_encodable(),
        TInsn::CSINV_RRRC(a0, a1, a2, _) => a0.spec_encodable() && a1.spec_encodable() && a2.spec_encodable(),
        TInsn::CSNEG_RRRC(a0, a1, a2, _) => a0.spec_encodable() && a1.spec_encodable() && a2.spec_encodable(),
        TInsn::EOR_RRR(a0, a1, a2) => a0.spec_encodable() && a1.spec_encodable() && a2.spec_encodable(),
        TInsn::LDP_RRM(a0, a1, a2) => a0.spec_encodable() && a1.spec_encodable() && a2.0.spec_encodable() && a2.1.spec_encodable(),
        TInsn::LDR_RM(a0, a1) => a0.spec_encodable() && a1.0.spec_encodable() && a1.1.spec_encodable(),
        TInsn::LDRB_RM(a0, a1) => a0.spec_encodable() && a1.0.spec_encodable() && a1.1.spec_encodable(),
        TInsn::LDRH_RM(a0, a1) => a0.spec_encodable() && a1.0.spec_encodable() && a1.1.spec_encodable(),
        TInsn::LDTRB_RM(a0, a1) => a0.spec_encodable() && a1.0.spec_encodable() && a1.1.spec_encodable(),
        TInsn::LDTRH_RM(a0, a1) => a0.spec_encodable() && a1.0.spec_encodable() && a1.1.spec_encodable(),
        TInsn::LDUR_RM(a0, a1) => a0.spec_encodable() && a1.0.spec_encodable() && a1.1.spec_encodable(),
        TInsn::LSL_RRR(a0, a1, a2) => a0.spec_encodable() && a1.spec_encodable() && a2.spec_encodable(),
        TInsn::LSR_RRR(a0, a1, a2) => a0.spec_encodable() && a1.spec_encodable() && a2.spec_encodable(),
        TInsn::MADD_RRRR(a0, a1, a2, a3) => a0.spec_encodable() && a1.spec_encodable() && a2.spec_encodable() && a3.spec_encodable(),
        TInsn::MOV_RI(a0, _) => a0.spec_encodable(),
        TInsn::MOV_RR(a0, a1) => a0.spec_encodable() && a1.spec_encodable(),
        TInsn::MOVK_RIF(a0, _, _) => a0.spec_encodable(),
        TInsn::MOVZ_RIF(a0, _, _) => a0.spec_encodable(),
        TInsn::MRS_RS(a0, _) => a0.spec_encodable(),
        TInsn::MSR_SR(_, a1) => a1.spec_encodable(),
        TInsn::MUL_RRR(a0, a1, a2) => a0.spec_encodable() && a1.spec_encodable() && a2.spec_encodable(),
        TInsn::NEG_RR(a0, a1) => a0.spec_encodable() && a1.spec_encodable(),
        TInsn::NOP => true,
        TInsn::ORR_RRR(a0, a1, a2) => a0.spec_encodable() && a1.spec_encodable() && a2.spec_encodable(),
        TInsn::RET_R(a0) => a0.spec_encodable(),
        TInsn::ROR_RRR(a0, a1, a2) => a0.spec_encodable() && a1.spec_encodable() && a2.spec_encodable(),
        TInsn::STLXR_RRM(a0, a1, a2) => a0.spec_encodable() && a1.spec_encodable() && a2.0.spec_encodable() && a2.1.spec_encodable(),
        TInsn::STP_RRM(a0, a1, a2) => a0.spec_encodable() && a1.spec_encodable() && a2.0.spec_encodable() && a2.1.spec_encodable(),
        TInsn::STR_RM(a0, a1) => a0.spec_encodable() && a1.0.spec_encodable() && a1.1.spec_encodable(),
        TInsn::STRB_RM(a0, a1) => a0.spec_encodable() && a1.0.spec_encodable() && a1.1.spec_encodable(),
        TInsn::STRH_RM(a0, a1) => a0.spec_encodable() && a1.0.spec_encodable() && a1.1.spec_encodable(),
        TInsn::STUR_RM(a0, a1) => a0.spec_encodable() && a1.0.spec_encodable() && a1.1.spec_encodable(),
        TInsn::STXR_RRR(a0, a1, a2) => a0.spec_encodable() && a1.spec_encodable() && a2.spec_encodable(),
        TInsn::SUB_RRI(a0, a1, _) => a0.spec_encodable() && a1.spec_encodable(),
        TInsn::SUB_RRR(a0, a1, a2) => a0.spec_encodable() && a1.spec_encodable() && a2.spec_encodable(),
        TInsn::SUBS_RRI(a0, a1, _) => a0.spec_encodable() && a1.spec_encodable(),
        TInsn::SUBS_RRR(a0, a1, a2) => a0.spec_encodable() && a1.spec_encodable() && a2.spec_encodable(),
        TInsn::SVC_I(_) => true,
        TInsn::TBNZ_RII(a0, _, _) => a0.spec_encodable(),
        TInsn::TBZ_RII(a0, _, _) => a0.spec_encodable(),
        TInsn::TST_RI(a0, _) => a0.spec_encodable(),
    }
}

/// An alias written as the instruction it stands for.
pub open spec fn spec_expand(insn: TInsn) -> TInsn {
    match insn {
        TInsn::CMN_RR(r0, r1) => if r0 is W { TInsn::ADDS_RRR(Reg::W(31), r0, r1) } else { TInsn::ADDS_RRR(Reg::X(31), r0, r1) },
        TInsn::CMP_RI(r0, i0) => if r0 is W { TInsn::SUBS_RRI(Reg::W(31), r0, i0) } else { TInsn::SUBS_RRI(Reg::X(31), r0, i0) },
        TInsn::CMP_RR(r0, r1) => if r0 is W { TInsn::SUBS_RRR(Reg::W(31), r0, r1) } else { TInsn::SUBS_RRR(Reg::X(31), r0, r1) },
        TInsn::CINC_RRC(r0, r1, c0) => TInsn::CSINC_RRRC(r0, r1, r1, spec_cond_inverse(c0)),
        TInsn::CNEG_RRC(r0, r1, c0) => TInsn::CSNEG_RRRC(r0, r1, r1, spec_cond_inverse(c0)),
        TInsn::CSET_RC(r0, c0) => TInsn::CSINC_RRRC(r0, Reg::X(31), Reg::X(31), spec_cond_inverse(c0)),
        TInsn::MOV_RI(r0, i0) => TInsn::MOVZ_RIF(r0, i0, (ShiftCls::LSL, 0u8)),
        TInsn::MOV_RR(r0, r1) => if r0 == Reg::SP || r1 == Reg::SP { TInsn::ADD_RRI(r0, r1, 0u32) } else { TInsn::ORR_RRR(r0, Reg::X(31), r1) },
        TInsn::MUL_RRR(r0, r1, r2) => TInsn::MADD_RRRR(r0, r1, r2, Reg::X(31)),
        TInsn::NEG_RR(r0, r1) => TInsn::SUB_RRR(r0, Reg::X(31), r1),
        TInsn::TST_RI(r0, i0) => if r0 is W { TInsn::ANDS_RRI(Reg::W(31), r0, i0) } else { TInsn::ANDS_RRI(Reg::X(31), r0, i0) },
        _ => insn,
    }
}

pub fn expand(insn: TInsn) -> (r: TInsn)
    ensures
        r == spec_expand(insn),
{
    match insn {
        TInsn::CMN_RR(r0, r1) => if r0.is_w() { TInsn::ADDS_RRR(Reg::W(31), r0, r1) } else { TInsn::ADDS_RRR(Reg::X(31), r0, r1) },
        TInsn::CMP_RI(r0, i0) => if r0.is_w() { TInsn::SUBS_RRI(Reg::W(31), r0, i0) } else { TInsn::SUBS_RRI(Reg::X(31), r0, i0) },
        TInsn::CMP_RR(r0, r1) => if r0.is_w() { TInsn::SUBS_RRR(Reg::W(31), r0, r1) } else { TInsn::SUBS_RRR(Reg::X(31), r0, r1) },
        TInsn::CINC_RRC(r0, r1, c0) => TInsn::CSINC_RRRC(r0, r1, r1, cond_inverse(c0)),
        TInsn::CNEG_RRC(r0, r1, c0) => TInsn::CSNEG_RRRC(r0, r1, r1, cond_inverse(c0)),
        TInsn::CSET_RC(r0, c0) => TInsn::CSINC_RRRC(r0, Reg::X(31), Reg::X(31), cond_inverse(c0)),
        TInsn::MOV_RI(r0, i0) => TInsn::MOVZ_RIF(r0, i0, (ShiftCls::LSL, 0u8)),
        TInsn::MOV_RR(r0, r1) => if matches!(r0, Reg::SP) || matches!(r1, Reg::SP) { TInsn::ADD_RRI(r0, r1, 0u32) } else { TInsn::ORR_RRR(r0, Reg::X(31), r1) },
        TInsn::MUL_RRR(r0, r1, r2) => TInsn::MADD_RRRR(r0, r1, r2, Reg::X(31)),
        TInsn::NEG_RR(r0, r1) => TInsn::SUB_RRR(r0, Reg::X(31), r1),
        TInsn::TST_RI(r0, i0) => if r0.is_w() { TInsn::ANDS_RRI(Reg::W(31), r0, i0) } else { TInsn::ANDS_RRI(Reg::X(31), r0, i0) },
        _ => insn,
    }
}

/// The word of an instruction that is no alias; none for a register-offset
/// load or store that is not a plain offset, or an unprivileged load that
/// is not one.
pub open spec fn spec_word(insn: TInsn) -> Option<u32> {
    match insn {
        TInsn::ADD_RRI(r0, r1, i0) => Some(0x1100_0000u32 | spec_sf(r0, 0x8000_0000u32) | spec_reg_bits(r0) | (spec_reg_bits(r1) << 5u32) | ((i0 & 0xFFFu32) << 10u32)),
        TInsn::ADD_RRR(r0, r1, r2) => Some(0x0B00_0000u32 | spec_sf(r0, 0x8000_0000u32) | spec_reg_bits(r0) | (spec_reg_bits(r1) << 5u32) | (spec_reg_bits(r2) << 16u32)),
        TInsn::ADDS_RRR(r0, r1, r2) => Some(0x2B00_0000u32 | spec_sf(r0, 0x8000_0000u32) | spec_reg_bits(r0) | (spec_reg_bits(r1) << 5u32) | (spec_reg_bits(r2) << 16u32)),
        TInsn::ADR_RI(r0, i0) => Some(0x1000_0000u32 | spec_sf(r0, 0u32) | spec_reg_bits(r0) | ((((i0 >> 2u32) & 0x7FFFFu32) << 5u32) | ((i0 & 0b11u32) << 29u32))),
        TInsn::ADRP_RI(r0, i0) => Some(0x9000_0000u32 | spec_sf(r0, 0u32) | spec_reg_bits(r0) | ((((i0 >> 14u32) & 0x7FFFFu32) << 5u32) | (((i0 >> 12u32) & 0b11u32) << 29u32))),
        TInsn::AND_RRR(r0, r1, r2) => Some(0x0A00_0000u32 | spec_sf(r0, 0x8000_0000u32) | spec_reg_bits(r0) | (spec_reg_bits(r1) << 5u32) | (spec_reg_bits(r2) << 16u32)),
        TInsn::ANDS_RRRF(r0, r1, r2, sft) => Some(0x6A00_0000u32 | spec_sf(r0, 0x8000_0000u32) | spec_reg_bits(r0) | (spec_reg_bits(r1) << 5u32) | (spec_reg_bits(r2) << 16u32) | ((spec_shift_bits(sft.0) & 0b11u32) << 22u32) | (((sft.1 & 0x3Fu8) as u32) << 10u32)),
        TInsn::ANDS_RRI(r0, r1, i0) => Some(0x7200_0000u32 | spec_sf(r0, 0x8000_0000u32) | spec_reg_bits(r0) | (spec_reg_bits(r1) << 5u32) | ((i0 & 0xFFFu32) << 10u32)),
        TInsn::B_I(i0) => Some(0x1400_0000u32 | ((i0 >> 2u32) & 0x03FF_FFFFu32)),
        TInsn::BC_IC(i0, c0) => Some(0x5400_0000u32 | (((i0 >> 2u32) & 0x0007_FFFFu32) << 5u32) | spec_cond_bits(c0)),
        TInsn::BL_I(i0) => Some(0x9400_0000u32 | ((i0 >> 2u32) & 0x03FF_FFFFu32)),
        TInsn::BLR_R(r0) => Some(0xD63F_0000u32 | spec_sf(r0, 0u32) | (spec_reg_bits(r0) << 5u32)),
        TInsn::BR_R(r0) => Some(0xD61F_0000u32 | spec_sf(r0, 0u32) | (spec_reg_bits(r0) << 5u32)),
        TInsn::CAS_RRM(r0, r1, m) => Some(0x88A0_7C00u32 | spec_sf(r0, 0x4000_0000u32) | (spec_reg_bits(r0) << 16u32) | spec_reg_bits(r1) | (spec_reg_bits(m.0) << 5u32)),
        TInsn::CBNZ_RI(r0, i0) => Some(0x3500_0000u32 | spec_sf(r0, 0x8000_0000u32) | spec_reg_bits(r0) | (((i0 >> 2u32) & 0x7FFFFu32) << 5u32)),
        TInsn::CBZ_RI(r0, i0) => Some(0x3400_0000u32 | spec_sf(r0, 0x8000_0000u32) | spec_reg_bits(r0) | (((i0 >> 2u32) & 0x7FFFFu32) << 5u32)),
        TInsn::CSEL_RRRC(r0, r1, r2, c0) => Some(0x1A80_0000u32 | spec_sf(r0, 0x8000_0000u32) | spec_reg_bits(r0) | (spec_reg_bits(r1) << 5u32) | (spec_reg_bits(r2) << 16u32) | (spec_cond_bits(c0) << 12u32)),
        TInsn::CSINC_RRRC(r0, r1, r2, c0) => Some(0x1A80_0400u32 | spec_sf(r0, 0x8000_0000u32) | spec_reg_bits(r0) | (spec_reg_bits(r1) << 5u32) | (spec_reg_bits(r2) << 16u32) | (spec_cond_bits(c0) << 12u32)),
        TInsn::CSINV_RRRC(r0, r1, r2, c0) => Some(0x5A80_0000u32 | spec_sf(r0, 0x8000_0000u32) | spec_reg_bits(r0) | (spec_reg_bits(r1) << 5u32) | (spec_reg_bits(r2) << 16u32) | (spec_cond_bits(c0) << 12u32)),
        TInsn::CSNEG_RRRC(r0, r1, r2, c0) => Some(0x5A80_0400u32 | spec_sf(r0, 0x8000_0000u32) | spec_reg_bits(r0) | (spec_reg_bits(r1) << 5u32) | (spec_reg_bits(r2) << 16u32) | (spec_cond_bits(c0) << 12u32)),
        TInsn::EOR_RRR(r0, r1, r2) => Some(0x4A00_0000u32 | spec_sf(r0, 0x8000_0000u32) | spec_reg_bits(r0) | (spec_reg_bits(r1) << 5u32) | (spec_reg_bits(r2) << 16u32)),
        TInsn::LDP_RRM(r0, r1, m) => match m.3 {
            MemAccCls::PstIndex => Some(0x28C0_0000u32 | spec_sf(r0, 0x8000_0000u32) | spec_reg_bits(r0) | (spec_reg_bits(r1) << 10u32) | (spec_reg_bits(m.0) << 5u32) | ((spec_pair_scaled(r0, m.2) & 0x7Fu32) << 15u32)),
            MemAccCls::PreIndex => Some(0x29C0_0000u32 | spec_sf(r0, 0x8000_0000u32) | spec_reg_bits(r0) | (spec_reg_bits(r1) << 10u32) | (spec_reg_bits(m.0) << 5u32) | ((spec_pair_scaled(r0, m.2) & 0x7Fu32) << 15u32)),
            MemAccCls::Offset => Some(0x2940_0000u32 | spec_sf(r0, 0x8000_0000u32) | spec_reg_bits(r0) | (spec_reg_bits(r1) << 10u32) | (spec_reg_bits(m.0) << 5u32) | ((spec_pair_scaled(r0, m.2) & 0x7Fu32) << 15u32)),
        },
        TInsn::LDR_RM(r0, m) => if m.1 == Reg::INV {
            match m.3 {
                MemAccCls::PstIndex => Some(0xB840_0400u32 | spec_sf(r0, 0x4000_0000u32) | spec_reg_bits(r0) | (spec_reg_bits(m.0) << 5u32) | ((spec_pair_scaled(r0, m.2) & 0x1FFu32) << 12u32)),
                MemAccCls::PreIndex => Some(0xB840_0C00u32 | spec_sf(r0, 0x4000_0000u32) | spec_reg_bits(r0) | (spec_reg_bits(m.0) << 5u32) | ((spec_pair_scaled(r0, m.2) & 0x1FFu32) << 12u32)),
                MemAccCls::Offset => Some(0xB940_0000u32 | spec_sf(r0, 0x4000_0000u32) | spec_reg_bits(r0) | (spec_reg_bits(m.0) << 5u32) | ((spec_pair_scaled(r0, m.2) & 0xFFFu32) << 10u32)),
            }
        } else {
            match m.3 {
                MemAccCls::Offset => Some(0xB860_0800u32 | spec_sf(r0, 0x4000_0000u32) | spec_reg_bits(r0) | (spec_reg_bits(m.0) << 5u32) | (spec_reg_bits(m.1) << 16u32)),
                _ => None,
            }
        },
        TInsn::LDRB_RM(r0, m) => match m.3 {
            MemAccCls::PstIndex => Some(0x3840_0400u32 | spec_sf(r0, 0u32) | spec_reg_bits(r0) | (spec_reg_bits(m.0) << 5u32) | ((m.2 & 0x1FFu32) << 12u32)),
            MemAccCls::PreIndex => Some(0x3840_0C00u32 | spec_sf(r0, 0u32) | spec_reg_bits(r0) | (spec_reg_bits(m.0) << 5u32) | ((m.2 & 0x1FFu32) << 12u32)),
            MemAccCls::Offset => Some(0x3940_0000u32 | spec_sf(r0, 0u32) | spec_reg_bits(r0) | (spec_reg_bits(m.0) << 5u32) | ((m.2 & 0xFFFu32) << 10u32)),
        },
        TInsn::LDRH_RM(r0, m) => match m.3 {
            MemAccCls::PstIndex => Some(0x7840_0400u32 | spec_sf(r0, 0u32) | spec_reg_bits(r0) | (spec_reg_bits(m.0) << 5u32) | ((m.2 & 0x1FFu32) << 12u32)),
            MemAccCls::PreIndex => Some(0x7840_0C00u32 | spec_sf(r0, 0u32) | spec_reg_bits(r0) | (spec_reg_bits(m.0) << 5u32) | ((m.2 & 0x1FFu32) << 12u32)),
            MemAccCls::Offset => Some(0x7940_0000u32 | spec_sf(r0, 0u32) | spec_reg_bits(r0) | (spec_reg_bits(m.0) << 5u32) | (((m.2 >> 1u32) & 0xFFFu32) << 10u32)),
        },
        TInsn::LDTRB_RM(r0, m) => match m.3 {
            MemAccCls::Offset => Some(0x3840_0800u32 | spec_sf(r0, 0u32) | spec_reg_bits(r0) | (spec_reg_bits(m.0) << 5u32) | ((m.2 & 0x1FFu32) << 12u32)),
            _ => None,
        },
        TInsn::LDTRH_RM(r0, m) => match m.3 {
            MemAccCls::Offset => Some(0x7840_0800u32 | spec_sf(r0, 0u32) | spec_reg_bits(r0) | (spec_reg_bits(m.0) << 5u32) | ((m.2 & 0x1FFu32) << 12u32)),
            _ => None,
        },
        TInsn::LDUR_RM(r0, m) => Some(0xB840_0000u32 | spec_sf(r0, 0x4000_0000u32) | spec_reg_bits(r0) | (spec_reg_bits(m.0) << 5u32) | ((m.2 & 0x1FFu32) << 12u32)),
        TInsn::LSL_RRR(r0, r1, r2) => Some(0x1AC0_2000u32 | spec_sf(r0, 0x8000_0000u32) | spec_reg_bits(r0) | (spec_reg_bits(r1) << 5u32) | (spec_reg_bits(r2) << 16u32)),
        TInsn::LSR_RRR(r0, r1, r2) => Some(0x1AC0_2400u32 | spec_sf(r0, 0x8000_0000u32) | spec_reg_bits(r0) | (spec_reg_bits(r1) << 5u32) | (spec_reg_bits(r2) << 16u32)),
        TInsn::MADD_RRRR(r0, r1, r2, r3) => Some(0x1B00_0000u32 | spec_sf(r0, 0x8000_0000u32) | spec_reg_bits(r0) | (spec_reg_bits(r1) << 5u32) | (spec_reg_bits(r2) << 16u32) | (spec_reg_bits(r3) << 10u32)),
        TInsn::MOVK_RIF(r0, i0, sft) => Some(0x7280_0000u32 | spec_sf(r0, 0x8000_0000u32) | spec_reg_bits(r0) | ((i0 & 0xFFFFu32) << 5u32) | ((((sft.1 >> 4u8) & 0b11u8) as u32) << 21u32)),
        TInsn::MOVZ_RIF(r0, i0, sft) => Some(0x5280_0000u32 | spec_sf(r0, 0x8000_0000u32) | spec_reg_bits(r0) | ((i0 & 0xFFFFu32) << 5u32) | ((((sft.1 >> 4u8) & 0b11u8) as u32) << 21u32)),
        TInsn::MRS_RS(r0, s0) => Some(0xD530_0000u32 | spec_sf(r0, 0u32) | spec_reg_bits(r0) | ((s0.code & 0x7FFFu32) << 5u32)),
        TInsn::MSR_SR(s0, r0) => Some(0xD510_0000u32 | spec_sf(r0, 0u32) | spec_reg_bits(r0) | ((s0.code & 0x7FFFu32) << 5u32)),
        TInsn::NOP => Some(0xD503_201Fu32),
        TInsn::ORR_RRR(r0, r1, r2) => Some(0x2A00_0000u32 | spec_sf(r0, 0x8000_0000u32) | spec_reg_bits(r0) | (spec_reg_bits(r1) << 5u32) | (spec_reg_bits(r2) << 16u32)),
        TInsn::RET_R(r0) => Some(0xD65F_0000u32 | spec_sf(r0, 0u32) | (spec_reg_bits(r0) << 5u32)),
        TInsn::ROR_RRR(r0, r1, r2) => Some(0x1AC0_2C00u32 | spec_sf(r0, 0x8000_0000u32) | spec_reg_bits(r0) | (spec_reg_bits(r1) << 5u32) | (spec_reg_bits(r2) << 16u32)),
        TInsn::STLXR_RRM(r0, r1, m) => Some(0x8800_FC00u32 | spec_sf(r1, 0x4000_0000u32) | spec_reg_bits(r1) | (spec_reg_bits(r0) << 16u32) | (spec_reg_bits(m.0) << 5u32)),
        TInsn::STP_RRM(r0, r1, m) => match m.3 {
            MemAccCls::PstIndex => Some(0x2880_0000u32 | spec_sf(r0, 0x8000_0000u32) | spec_reg_bits(r0) | (spec_reg_bits(r1) << 10u32) | (spec_reg_bits(m.0) << 5u32) | ((spec_pair_scaled(r0, m.2) & 0x7Fu32) << 15u32)),
            MemAccCls::PreIndex => Some(0x2980_0000u32 | spec_sf(r0, 0x8000_0000u32) | spec_reg_bits(r0) | (spec_reg_bits(r1) << 10u32) | (spec_reg_bits(m.0) << 5u32) | ((spec_pair_scaled(r0, m.2) & 0x7Fu32) << 15u32)),
            MemAccCls::Offset => Some(0x2900_0000u32 | spec_sf(r0, 0x8000_0000u32) | spec_reg_bits(r0) | (spec_reg_bits(r1) << 10u32) | (spec_reg_bits(m.0) << 5u32) | ((spec_pair_scaled(r0, m.2) & 0x7Fu32) << 15u32)),
        },
        TInsn::STR_RM(r0, m) => if m.1 == Reg::INV {
            match m.3 {
                MemAccCls::PstIndex => Some(0xB800_0400u32 | spec_sf(r0, 0x4000_0000u32) | spec_reg_bits(r0) | (spec_reg_bits(m.0) << 5u32) | ((spec_pair_scaled(r0, m.2) & 0x1FFu32) << 12u32)),
                MemAccCls::PreIndex => Some(0xB800_0C00u32 | spec_sf(r0, 0x4000_0000u32) | spec_reg_bits(r0) | (spec_reg_bits(m.0) << 5u32) | ((spec_pair_scaled(r0, m.2) & 0x1FFu32) << 12u32)),
                MemAccCls::Offset => Some(0xB900_0000u32 | spec_sf(r0, 0x4000_0000u32) | spec_reg_bits(r0) | (spec_reg_bits(m.0) << 5u32) | ((spec_pair_scaled(r0, m.2) & 0xFFFu32) << 10u32)),
            }
        } else {
            match m.3 {
                MemAccCls::Offset => Some(0xB820_0800u32 | spec_sf(r0, 0x4000_0000u32) | spec_reg_bits(r0) | (spec_reg_bits(m.0) << 5u32) | (spec_reg_bits(m.1) << 16u32)),
                _ => None,
            }
        },
        TInsn::STRB_RM(r0, m) => match m.3 {
            MemAccCls::PstIndex => Some(0x3800_0400u32 | spec_sf(r0, 0u32) | spec_reg_bits(r0) | (spec_reg_bits(m.0) << 5u32) | ((m.2 & 0x1FFu32) << 12u32)),
            MemAccCls::PreIndex => Some(0x3800_0C00u32 | spec_sf(r0, 0u32) | spec_reg_bits(r0) | (spec_reg_bits(m.0) << 5u32) | ((m.2 & 0x1FFu32) << 12u32)),
            MemAccCls::Offset => Some(0x3900_0000u32 | spec_sf(r0, 0u32) | spec_reg_bits(r0) | (spec_reg_bits(m.0) << 5u32) | ((m.2 & 0xFFFu32) << 10u32)),
        },
        TInsn::STRH_RM(r0, m) => match m.3 {
            MemAccCls::PstIndex => Some(0x7800_0400u32 | spec_sf(r0, 0u32) | spec_reg_bits(r0) | (spec_reg_bits(m.0) << 5u32) | ((m.2 & 0x1FFu32) << 12u32)),
            MemAccCls::PreIndex => Some(0x7800_0C00u32 | spec_sf(r0, 0u32) | spec_reg_bits(r0) | (spec_reg_bits(m.0) << 5u32) | ((m.2 & 0x1FFu32) << 12u32)),
            MemAccCls::Offset => Some(0x7900_0000u32 | spec_sf(r0, 0u32) | spec_reg_bits(r0) | (spec_reg_bits(m.0) << 5u32) | (((m.2 >> 1u32) & 0xFFFu32) << 10u32)),
        },
        TInsn::STUR_RM(r0, m) => Some(0xB800_0000u32 | spec_sf(r0, 0x4000_0000u32) | spec_reg_bits(r0) | (spec_reg_bits(m.0) << 5u32) | ((m.2 & 0x1FFu32) << 12u32)),
        TInsn::STXR_RRR(r0, r1, r2) => Some(0x8800_7C00u32 | spec_sf(r0, 0x4000_0000u32) | (spec_reg_bits(r0) << 16u32) | spec_reg_bits(r1) | (spec_reg_bits(r2) << 5u32)),
        TInsn::SUB_RRI(r0, r1, i0) => Some(0x5100_0000u32 | spec_sf(r0, 0x8000_0000u32) | spec_reg_bits(r0) | (spec_reg_bits(r1) << 5u32) | ((i0 & 0xFFFu32) << 10u32)),
        TInsn::SUB_RRR(r0, r1, r2) => Some(0x4B00_0000u32 | spec_sf(r0, 0x8000_0000u32) | spec_reg_bits(r0) | (spec_reg_bits(r1) << 5u32) | (spec_reg_bits(r2) << 16u32)),
        TInsn::SUBS_RRI(r0, r1, i0) => Some(0x7100_0000u32 | spec_sf(r0, 0x8000_0000u32) | spec_reg_bits(r0) | (spec_reg_bits(r1) << 5u32) | ((i0 & 0xFFFu32) << 10u32)),
        TInsn::SUBS_RRR(r0, r1, r2) => Some(0x6B00_0000u32 | spec_sf(r0, 0x8000_0000u32) | spec_reg_bits(r0) | (spec_reg_bits(r1) << 5u32) | (spec_reg_bits(r2) << 16u32)),
        TInsn::SVC_I(i0) => Some(0xD400_0001u32 | ((i0 & 0xFFFFu32) << 5u32)),
        TInsn::TBNZ_RII(r0, i0, i1) => Some(0x3700_0000u32 | spec_sf(r0, 0u32) | spec_reg_bits(r0) | ((((i0 & 0b11_1111u32) >> 5u32) << 31u32) | ((i0 & 0b1_1111u32) << 19u32)) | (((i1 >> 2u32) & 0x3FFFu32) << 5u32)),
        TInsn::TBZ_RII(r0, i0, i1) => Some(0x3600_0000u32 | spec_sf(r0, 0u32) | spec_reg_bits(r0) | ((((i0 & 0b11_1111u32) >> 5u32) << 31u32) | ((i0 & 0b1_1111u32) << 19u32)) | (((i1 >> 2u32) & 0x3FFFu32) << 5u32)),
        _ => None,
    }
}

#[verifier::rlimit(60)]
fn word(insn: TInsn) -> (r: Option<u32>)
    requires
        spec_insn_encodable(insn),
    ensures
        r == spec_word(insn),
{
    match insn {
        TInsn::ADD_RRI(r0, r1, i0) => Some(0x1100_0000u32 | sf(r0, 0x8000_0000u32) | reg_bits(r0) | (reg_bits(r1) << 5u32) | ((i0 & 0xFFFu32) << 10u32)),
        TInsn::ADD_RRR(r0, r1, r2) => Some(0x0B00_0000u32 | sf(r0, 0x8000_0000u32) | reg_bits(r0) | (reg_bits(r1) << 5u32) | (reg_bits(r2) << 16u32)),
        TInsn::ADDS_RRR(r0, r1, r2) => Some(0x2B00_0000u32 | sf(r0, 0x8000_0000u32) | reg_bits(r0) | (reg_bits(r1) << 5u32) | (reg_bits(r2) << 16u32)),
        TInsn::ADR_RI(r0, i0) => Some(0x1000_0000u32 | sf(r0, 0u32) | reg_bits(r0) | ((((i0 >> 2u32) & 0x7FFFFu32) << 5u32) | ((i0 & 0b11u32) << 29u32))),
        TInsn::ADRP_RI(r0, i0) => Some(0x9000_0000u32 | sf(r0, 0u32) | reg_bits(r0) | ((((i0 >> 14u32) & 0x7FFFFu32) << 5u32) | (((i0 >> 12u32) & 0b11u32) << 29u32))),
        TInsn::AND_RRR(r0, r1, r2) => Some(0x0A00_0000u32 | sf(r0, 0x8000_0000u32) | reg_bits(r0) | (reg_bits(r1) << 5u32) | (reg_bits(r2) << 16u32)),
        TInsn::ANDS_RRRF(r0, r1, r2, sft) => Some(0x6A00_0000u32 | sf(r0, 0x8000_0000u32) | reg_bits(r0) | (reg_bits(r1) << 5u32) | (reg_bits(r2) << 16u32) | ((shift_bits(sft.0) & 0b11u32) << 22u32) | (((sft.1 & 0x3Fu8) as u32) << 10u32)),
        TInsn::ANDS_RRI(r0, r1, i0) => Some(0x7200_0000u32 | sf(r0, 0x8000_0000u32) | reg_bits(r0) | (reg_bits(r1) << 5u32) | ((i0 & 0xFFFu32) << 10u32)),
        TInsn::B_I(i0) => Some(0x1400_0000u32 | ((i0 >> 2u32) & 0x03FF_FFFFu32)),
        TInsn::BC_IC(i0, c0) => Some(0x5400_0000u32 | (((i0 >> 2u32) & 0x0007_FFFFu32) << 5u32) | cond_bits(c0)),
        TInsn::BL_I(i0) => Some(0x9400_0000u32 | ((i0 >> 2u32) & 0x03FF_FFFFu32)),
        TInsn::BLR_R(r0) => Some(0xD63F_0000u32 | sf(r0, 0u32) | (reg_bits(r0) << 5u32)),
        TInsn::BR_R(r0) => Some(0xD61F_0000u32 | sf(r0, 0u32) | (reg_bits(r0) << 5u32)),
        TInsn::CAS_RRM(r0, r1, m) => Some(0x88A0_7C00u32 | sf(r0, 0x4000_0000u32) | (reg_bits(r0) << 16u32) | reg_bits(r1) | (reg_bits(m.0) << 5u32)),
        TInsn::CBNZ_RI(r0, i0) => Some(0x3500_0000u32 | sf(r0, 0x8000_0000u32) | reg_bits(r0) | (((i0 >> 2u32) & 0x7FFFFu32) << 5u32)),
        TInsn::CBZ_RI(r0, i0) => Some(0x3400_0000u32 | sf(r0, 0x8000_0000u32) | reg_bits(r0) | (((i0 >> 2u32) & 0x7FFFFu32) << 5u32)),
        TInsn::CSEL_RRRC(r0, r1, r2, c0) => Some(0x1A80_0000u32 | sf(r0, 0x8000_0000u32) | reg_bits(r0) | (reg_bits(r1) << 5u32) | (reg_bits(r2) << 16u32) | (cond_bits(c0) << 12u32)),
        TInsn::CSINC_RRRC(r0, r1, r2, c0) => Some(0x1A80_0400u32 | sf(r0, 0x8000_0000u32) | reg_bits(r0) | (reg_bits(r1) << 5u32) | (reg_bits(r2) << 16u32) | (cond_bits(c0) << 12u32)),
        TInsn::CSINV_RRRC(r0, r1, r2, c0) => Some(0x5A80_0000u32 | sf(r0, 0x8000_0000u32) | reg_bits(r0) | (reg_bits(r1) << 5u32) | (reg_bits(r2) << 16u32) | (cond_bits(c0) << 12u32)),
        TInsn::CSNEG_RRRC(r0, r1, r2, c0) => Some(0x5A80_0400u32 | sf(r0, 0x8000_0000u32) | reg_bits(r0) | (reg_bits(r1) << 5u32) | (reg_bits(r2) << 16u32) | (cond_bits(c0) << 12u32)),
        TInsn::EOR_RRR(r0, r1, r2) => Some(0x4A00_0000u32 | sf(r0, 0x8000_0000u32) | reg_bits(r0) | (reg_bits(r1) << 5u32) | (reg_bits(r2) << 16u32)),
        TInsn::LDP_RRM(r0, r1, m) => match m.3 {
            MemAccCls::PstIndex => Some(0x28C0_0000u32 | sf(r0, 0x8000_0000u32) | reg_bits(r0) | (reg_bits(r1) << 10u32) | (reg_bits(m.0) << 5u32) | ((pair_scaled(r0, m.2) & 0x7Fu32) << 15u32)),
            MemAccCls::PreIndex => Some(0x29C0_0000u32 | sf(r0, 0x8000_0000u32) | reg_bits(r0) | (reg_bits(r1) << 10u32) | (reg_bits(m.0) << 5u32) | ((pair_scaled(r0, m.2) & 0x7Fu32) << 15u32)),
            MemAccCls::Offset => Some(0x2940_0000u32 | sf(r0, 0x8000_0000u32) | reg_bits(r0) | (reg_bits(r1) << 10u32) | (reg_bits(m.0) << 5u32) | ((pair_scaled(r0, m.2) & 0x7Fu32) << 15u32)),
        },
        TInsn::LDR_RM(r0, m) => if matches!(m.1, Reg::INV) {
            match m.3 {
                MemAccCls::PstIndex => Some(0xB840_0400u32 | sf(r0, 0x4000_0000u32) | reg_bits(r0) | (reg_bits(m.0) << 5u32) | ((pair_scaled(r0, m.2) & 0x1FFu32) << 12u32)),
                MemAccCls::PreIndex => Some(0xB840_0C00u32 | sf(r0, 0x4000_0000u32) | reg_bits(r0) | (reg_bits(m.0) << 5u32) | ((pair_scaled(r0, m.2) & 0x1FFu32) << 12u32)),
                MemAccCls::Offset => Some(0xB940_0000u32 | sf(r0, 0x4000_0000u32) | reg_bits(r0) | (reg_bits(m.0) << 5u32) | ((pair_scaled(r0, m.2) & 0xFFFu32) << 10u32)),
            }
        } else {
            match m.3 {
                MemAccCls::Offset => Some(0xB860_0800u32 | sf(r0, 0x4000_0000u32) | reg_bits(r0) | (reg_bits(m.0) << 5u32) | (reg_bits(m.1) << 16u32)),
                _ => None,
            }
        },
        TInsn::LDRB_RM(r0, m) => match m.3 {
            MemAccCls::PstIndex => Some(0x3840_0400u32 | sf(r0, 0u32) | reg_bits(r0) | (reg_bits(m.0) << 5u32) | ((m.2 & 0x1FFu32) << 12u32)),
            MemAccCls::PreIndex => Some(0x3840_0C00u32 | sf(r0, 0u32) | reg_bits(r0) | (reg_bits(m.0) << 5u32) | ((m.2 & 0x1FFu32) << 12u32)),
            MemAccCls::Offset => Some(0x3940_0000u32 | sf(r0, 0u32) | reg_bits(r0) | (reg_bits(m.0) << 5u32) | ((m.2 & 0xFFFu32) << 10u32)),
        },
        TInsn::LDRH_RM(r0, m) => match m.3 {
            MemAccCls::PstIndex => Some(0x7840_0400u32 | sf(r0, 0u32) | reg_bits(r0) | (reg_bits(m.0) << 5u32) | ((m.2 & 0x1FFu32) << 12u32)),
            MemAccCls::PreIndex => Some(0x7840_0C00u32 | sf(r0, 0u32) | reg_bits(r0) | (reg_bits(m.0) << 5u32) | ((m.2 & 0x1FFu32) << 12u32)),
            MemAccCls::Offset => Some(0x7940_0000u32 | sf(r0, 0u32) | reg_bits(r0) | (reg_bits(m.0) << 5u32) | (((m.2 >> 1u32) & 0xFFFu32) << 10u32)),
        },
        TInsn::LDTRB_RM(r0, m) => match m.3 {
            MemAccCls::Offset => Some(0x3840_0800u32 | sf(r0, 0u32) | reg_bits(r0) | (reg_bits(m.0) << 5u32) | ((m.2 & 0x1FFu32) << 12u32)),
            _ => None,
        },
        TInsn::LDTRH_RM(r0, m) => match m.3 {
            MemAccCls::Offset => Some(0x7840_0800u32 | sf(r0, 0u32) | reg_bits(r0) | (reg_bits(m.0) << 5u32) | ((m.2 & 0x1FFu32) << 12u32)),
            _ => None,
        },
        TInsn::LDUR_RM(r0, m) => Some(0xB840_0000u32 | sf(r0, 0x4000_0000u32) | reg_bits(r0) | (reg_bits(m.0) << 5u32) | ((m.2 & 0x1FFu32) << 12u32)),
        TInsn::LSL_RRR(r0, r1, r2) => Some(0x1AC0_2000u32 | sf(r0, 0x8000_0000u32) | reg_bits(r0) | (reg_bits(r1) << 5u32) | (reg_bits(r2) << 16u32)),
        TInsn::LSR_RRR(r0, r1, r2) => Some(0x1AC0_2400u32 | sf(r0, 0x8000_0000u32) | reg_bits(r0) | (reg_bits(r1) << 5u32) | (reg_bits(r2) << 16u32)),
        TInsn::MADD_RRRR(r0, r1, r2, r3) => Some(0x1B00_0000u32 | sf(r0, 0x8000_0000u32) | reg_bits(r0) | (reg_bits(r1) << 5u32) | (reg_bits(r2) << 16u32) | (reg_bits(r3) << 10u32)),
        TInsn::MOVK_RIF(r0, i0, sft) => Some(0x7280_0000u32 | sf(r0, 0x8000_0000u32) | reg_bits(r0) | ((i0 & 0xFFFFu32) << 5u32) | ((((sft.1 >> 4u8) & 0b11u8) as u32) << 21u32)),
        TInsn::MOVZ_RIF(r0, i0, sft) => Some(0x5280_0000u32 | sf(r0, 0x8000_0000u32) | reg_bits(r0) | ((i0 & 0xFFFFu32) << 5u32) | ((((sft.1 >> 4u8) & 0b11u8) as u32) << 21u32)),
        TInsn::MRS_RS(r0, s0) => Some(0xD530_0000u32 | sf(r0, 0u32) | reg_bits(r0) | ((s0.code & 0x7FFFu32) << 5u32)),
        TInsn::MSR_SR(s0, r0) => Some(0xD510_0000u32 | sf(r0, 0u32) | reg_bits(r0) | ((s0.code & 0x7FFFu32) << 5u32)),
        TInsn::NOP => Some(0xD503_201Fu32),
        TInsn::ORR_RRR(r0, r1, r2) => Some(0x2A00_0000u32 | sf(r0, 0x8000_0000u32) | reg_bits(r0) | (reg_bits(r1) << 5u32) | (reg_bits(r2) << 16u32)),
        TInsn::RET_R(r0) => Some(0xD65F_0000u32 | sf(r0, 0u32) | (reg_bits(r0) << 5u32)),
        TInsn::ROR_RRR(r0, r1, r2) => Some(0x1AC0_2C00u32 | sf(r0, 0x8000_0000u32) | reg_bits(r0) | (reg_bits(r1) << 5u32) | (reg_bits(r2) << 16u32)),
        TInsn::STLXR_RRM(r0, r1, m) => Some(0x8800_FC00u32 | sf(r1, 0x4000_0000u32) | reg_bits(r1) | (reg_bits(r0) << 16u32) | (reg_bits(m.0) << 5u32)),
        TInsn::STP_RRM(r0, r1, m) => match m.3 {
            MemAccCls::PstIndex => Some(0x2880_0000u32 | sf(r0, 0x8000_0000u32) | reg_bits(r0) | (reg_bits(r1) << 10u32) | (reg_bits(m.0) << 5u32) | ((pair_scaled(r0, m.2) & 0x7Fu32) << 15u32)),
            MemAccCls::PreIndex => Some(0x2980_0000u32 | sf(r0, 0x8000_0000u32) | reg_bits(r0) | (reg_bits(r1) << 10u32) | (reg_bits(m.0) << 5u32) | ((pair_scaled(r0, m.2) & 0x7Fu32) << 15u32)),
            MemAccCls::Offset => Some(0x2900_0000u32 | sf(r0, 0x8000_0000u32) | reg_bits(r0) | (reg_bits(r1) << 10u32) | (reg_bits(m.0) << 5u32) | ((pair_scaled(r0, m.2) & 0x7Fu32) << 15u32)),
        },
        TInsn::STR_RM(r0, m) => if matches!(m.1, Reg::INV) {
            match m.3 {
                MemAccCls::PstIndex => Some(0xB800_0400u32 | sf(r0, 0x4000_0000u32) | reg_bits(r0) | (reg_bits(m.0) << 5u32) | ((pair_scaled(r0, m.2) & 0x1FFu32) << 12u32)),
                MemAccCls::PreIndex => Some(0xB800_0C00u32 | sf(r0, 0x4000_0000u32) | reg_bits(r0) | (reg_bits(m.0) << 5u32) | ((pair_scaled(r0, m.2) & 0x1FFu32) << 12u32)),
                MemAccCls::Offset => Some(0xB900_0000u32 | sf(r0, 0x4000_0000u32) | reg_bits(r0) | (reg_bits(m.0) << 5u32) | ((pair_scaled(r0, m.2) & 0xFFFu32) << 10u32)),
            }
        } else {
            match m.3 {
                MemAccCls::Offset => Some(0xB820_0800u32 | sf(r0, 0x4000_0000u32) | reg_bits(r0) | (reg_bits(m.0) << 5u32) | (reg_bits(m.1) << 16u32)),
                _ => None,
            }
        },
        TInsn::STRB_RM(r0, m) => match m.3 {
            MemAccCls::PstIndex => Some(0x3800_0400u32 | sf(r0, 0u32) | reg_bits(r0) | (reg_bits(m.0) << 5u32) | ((m.2 & 0x1FFu32) << 12u32)),
            MemAccCls::PreIndex => Some(0x3800_0C00u32 | sf(r0, 0u32) | reg_bits(r0) | (reg_bits(m.0) << 5u32) | ((m.2 & 0x1FFu32) << 12u32)),
            MemAccCls::Offset => Some(0x3900_0000u32 | sf(r0, 0u32) | reg_bits(r0) | (reg_bits(m.0) << 5u32) | ((m.2 & 0xFFFu32) << 10u32)),
        },
        TInsn::STRH_RM(r0, m) => match m.3 {
            MemAccCls::PstIndex => Some(0x7800_0400u32 | sf(r0, 0u32) | reg_bits(r0) | (reg_bits(m.0) << 5u32) | ((m.2 & 0x1FFu32) << 12u32)),
            MemAccCls::PreIndex => Some(0x7800_0C00u32 | sf(r0, 0u32) | reg_bits(r0) | (reg_bits(m.0) << 5u32) | ((m.2 & 0x1FFu32) << 12u32)),
            MemAccCls::Offset => Some(0x7900_0000u32 | sf(r0, 0u32) | reg_bits(r0) | (reg_bits(m.0) << 5u32) | (((m.2 >> 1u32) & 0xFFFu32) << 10u32)),
        },
        TInsn::STUR_RM(r0, m) => Some(0xB800_0000u32 | sf(r0, 0x4000_0000u32) | reg_bits(r0) | (reg_bits(m.0) << 5u32) | ((m.2 & 0x1FFu32) << 12u32)),
        TInsn::STXR_RRR(r0, r1, r2) => Some(0x8800_7C00u32 | sf(r0, 0x4000_0000u32) | (reg_bits(r0) << 16u32) | reg_bits(r1) | (reg_bits(r2) << 5u32)),
        TInsn::SUB_RRI(r0, r1, i0) => Some(0x5100_0000u32 | sf(r0, 0x8000_0000u32) | reg_bits(r0) | (reg_bits(r1) << 5u32) | ((i0 & 0xFFFu32) << 10u32)),
        TInsn::SUB_RRR(r0, r1, r2) => Some(0x4B00_0000u32 | sf(r0, 0x8000_0000u32) | reg_bits(r0) | (reg_bits(r1) << 5u32) | (reg_bits(r2) << 16u32)),
        TInsn::SUBS_RRI(r0, r1, i0) => Some(0x7100_0000u32 | sf(r0, 0x8000_0000u32) | reg_bits(r0) | (reg_bits(r1) << 5u32) | ((i0 & 0xFFFu32) << 10u32)),
        TInsn::SUBS_RRR(r0, r1, r2) => Some(0x6B00_0000u32 | sf(r0, 0x8000_0000u32) | reg_bits(r0) | (reg_bits(r1) << 5u32) | (reg_bits(r2) << 16u32)),
        TInsn::SVC_I(i0) => Some(0xD400_0001u32 | ((i0 & 0xFFFFu32) << 5u32)),
        TInsn::TBNZ_RII(r0, i0, i1) => Some(0x3700_0000u32 | sf(r0, 0u32) | reg_bits(r0) | ((((i0 & 0b11_1111u32) >> 5u32) << 31u32) | ((i0 & 0b1_1111u32) << 19u32)) | (((i1 >> 2u32) & 0x3FFFu32) << 5u32)),
        TInsn::TBZ_RII(r0, i0, i1) => Some(0x3600_0000u32 | sf(r0, 0u32) | reg_bits(r0) | ((((i0 & 0b11_1111u32) >> 5u32) << 31u32) | ((i0 & 0b1_1111u32) << 19u32)) | (((i1 >> 2u32) & 0x3FFFu32) << 5u32)),
        _ => None,
    }
}


/// An add/subtract register operand as the decoder gives it: 64 bits, with
/// register 31 standing for SP.
pub open spec fn addsub_reg(enc: u8) -> A64Reg {
    A64Reg { enc, width: A64RegWidth::X64, reg31: A64Reg31Mode::Sp }
}

/// An unshifted 12-bit add/subtract immediate as the decoder gives it.
pub open spec fn addsub_imm(imm: u32) -> A64Imm {
    A64Imm { raw: imm, bits: 12, scale: 0, signed: false }
}

proof fn lemma_addsub_word_bits(top: u32, rd: u32, rn: u32, imm: u32)
    requires
        top == 0x1100_0000 || top == 0x5100_0000,
        rd <= 31,
        rn <= 31,
        imm < 0x1000,
    ensures
        top | 0x8000_0000u32 | rd | (rn << 5u32) | ((imm & 0xFFFu32) << 10u32) == fields::pack_addsub(
            if top == 0x1100_0000 { 0x91 } else { 0xD1 },
            0,
            imm,
            rn,
            rd,
        ),
{
    if top == 0x1100_0000 {
        assert(0x1100_0000u32 | 0x8000_0000u32 | rd | (rn << 5u32) | ((imm & 0xFFFu32) << 10u32) == (0x91u32 << 24u32)
            | (0u32 << 22u32) | (imm << 10u32) | (rn << 5u32) | rd) by (bit_vector)
            requires
                rd <= 31,
                rn <= 31,
                imm < 0x1000,
        ;
    } else {
        assert(0x5100_0000u32 | 0x8000_0000u32 | rd | (rn << 5u32) | ((imm & 0xFFFu32) << 10u32) == (0xD1u32 << 24u32)
            | (0u32 << 22u32) | (imm << 10u32) | (rn << 5u32) | rd) by (bit_vector)
            requires
                rd <= 31,
                rn <= 31,
                imm < 0x1000,
        ;
    }
}

/// The word assembled for `add xd, xn, #imm` is the architecture's word for
/// the 64-bit ADD immediate with those operands, and the decoder reads it
/// back as that ADD; the word for `sub xd, xn, #imm` is likewise the SUB
/// immediate's, never an ADD.
pub proof fn lemma_add_sub_immediate_words_decode(rd: u8, rn: u8, imm: u32)
    requires
        rd <= 31,
        rn <= 31,
        imm < 0x1000,
    ensures
        ({
            let add = A64Insn::AddAddsubImmAdd64AddsubImm { sh: 0, imm12: addsub_imm(imm), rn: addsub_reg(rn), rd: addsub_reg(rd) };
            &&& spec_word(spec_expand(TInsn::ADD_RRI(Reg::X(rd), Reg::X(rn), imm))) == Some(add.spec_word())
            &&& codec::spec_decode_word(add.spec_word()) == Some(add)
        }),
        ({
            let sub = A64Insn::SubAddsubImmSub64AddsubImm { sh: 0, imm12: addsub_imm(imm), rn: addsub_reg(rn), rd: addsub_reg(rd) };
            &&& spec_word(spec_expand(TInsn::SUB_RRI(Reg::X(rd), Reg::X(rn), imm))) == Some(sub.spec_word())
            &&& codec::spec_decode_word(sub.spec_word()) == Some(sub)
        }),
{
    let add = A64Insn::AddAddsubImmAdd64AddsubImm { sh: 0, imm12: addsub_imm(imm), rn: addsub_reg(rn), rd: addsub_reg(rd) };
    let sub = A64Insn::SubAddsubImmSub64AddsubImm { sh: 0, imm12: addsub_imm(imm), rn: addsub_reg(rn), rd: addsub_reg(rd) };
    assert(spec_reg_bits(Reg::X(rd)) == rd as u32);
    assert(spec_reg_bits(Reg::X(rn)) == rn as u32);
    lemma_addsub_word_bits(0x1100_0000, rd as u32, rn as u32, imm);
    lemma_addsub_word_bits(0x5100_0000, rd as u32, rn as u32, imm);
    codec::lemma_decode_complete(add);
    codec::lemma_decode_complete(sub);
}

/// The template `t` assembles to the architecture's word for `i`, and the
/// decoder reads that word back as `i`.
pub open spec fn assembles_to(t: TInsn, i: A64Insn) -> bool {
    &&& spec_word(spec_expand(t)) == Some(i.spec_word())
    &&& codec::spec_decode_word(i.spec_word()) == Some(i)
}

/// A 64-bit general register as the decoder gives it (31 is XZR).
pub open spec fn x_reg(enc: u8) -> A64Reg {
    A64Reg { enc, width: A64RegWidth::X64, reg31: A64Reg31Mode::Xzr }
}

/// A 32-bit general register as the decoder gives it (31 is WZR).
pub open spec fn w_reg(enc: u8) -> A64Reg {
    A64Reg { enc, width: A64RegWidth::W32, reg31: A64Reg31Mode::Xzr }
}

/// The 26-bit word offset field of B and BL for a byte offset `off`.
pub open spec fn branch_imm26(off: u32) -> A64Imm {
    A64Imm { raw: (off >> 2u32) & 0x03FF_FFFFu32, bits: 26, scale: 2, signed: true }
}

/// The 19-bit word offset field of CBZ, CBNZ and B.cond for a byte offset `off`.
pub open spec fn branch_imm19(off: u32) -> A64Imm {
    A64Imm { raw: (off >> 2u32) & 0x7FFFFu32, bits: 19, scale: 2, signed: true }
}

proof fn lemma_control_transfer_word_bits(r: u32, off: u32, imm: u32)
    requires
        r <= 31,
        imm < 0x1000,
    ensures
        ((off >> 2u32) & 0x03FF_FFFFu32) < 0x400_0000,
        ((off >> 2u32) & 0x7FFFFu32) < 0x8_0000,
        0x1400_0000u32 | ((off >> 2u32) & 0x03FF_FFFFu32) == fields::pack_bimm(0x5, (off >> 2u32) & 0x03FF_FFFFu32),
        0x9400_0000u32 | ((off >> 2u32) & 0x03FF_FFFFu32) == fields::pack_bimm(0x25, (off >> 2u32) & 0x03FF_FFFFu32),
        0x3400_0000u32 | 0x8000_0000u32 | r | (((off >> 2u32) & 0x7FFFFu32) << 5u32) == fields::pack_cb(0xB4, (off >> 2u32) & 0x7FFFFu32, r),
        0x3500_0000u32 | 0x8000_0000u32 | r | (((off >> 2u32) & 0x7FFFFu32) << 5u32) == fields::pack_cb(0xB5, (off >> 2u32) & 0x7FFFFu32, r),
        0x3400_0000u32 | 0u32 | r | (((off >> 2u32) & 0x7FFFFu32) << 5u32) == fields::pack_cb(0x34, (off >> 2u32) & 0x7FFFFu32, r),
        0x3500_0000u32 | 0u32 | r | (((off >> 2u32) & 0x7FFFFu32) << 5u32) == fields::pack_cb(0x35, (off >> 2u32) & 0x7FFFFu32, r),
        0xD61F_0000u32 | 0u32 | (r << 5u32) == fields::pack_breg(0x3587C0, r),
        0xD63F_0000u32 | 0u32 | (r << 5u32) == fields::pack_breg(0x358FC0, r),
        0xD65F_0000u32 | 0u32 | (r << 5u32) == fields::pack_breg(0x3597C0, r),
        0x7100_0000u32 | 0x8000_0000u32 | 31u32 | (r << 5u32) | ((imm & 0xFFFu32) << 10u32) == fields::pack_addsub(0xF1, 0, imm, r, 31),
        0x7100_0000u32 | 0u32 | 31u32 | (r << 5u32) | ((imm & 0xFFFu32) << 10u32) == fields::pack_addsub(0x71, 0, imm, r, 31),
{
    assert({
        &&& ((off >> 2u32) & 0x03FF_FFFFu32) < 0x400_0000
        &&& ((off >> 2u32) & 0x7FFFFu32) < 0x8_0000
        &&& 0x1400_0000u32 | ((off >> 2u32) & 0x03FF_FFFFu32) == (0x5u32 << 26u32) | ((off >> 2u32) & 0x03FF_FFFFu32)
        &&& 0x9400_0000u32 | ((off >> 2u32) & 0x03FF_FFFFu32) == (0x25u32 << 26u32) | ((off >> 2u32) & 0x03FF_FFFFu32)
    }) by (bit_vector);
    assert({
        &&& 0x3400_0000u32 | 0x8000_0000u32 | r | (((off >> 2u32) & 0x7FFFFu32) << 5u32) == (0xB4u32 << 24u32) | (((off >> 2u32) & 0x7FFFFu32) << 5u32) | r
        &&& 0x3500_0000u32 | 0x8000_0000u32 | r | (((off >> 2u32) & 0x7FFFFu32) << 5u32) == (0xB5u32 << 24u32) | (((off >> 2u32) & 0x7FFFFu32) << 5u32) | r
        &&& 0x3400_0000u32 | 0u32 | r | (((off >> 2u32) & 0x7FFFFu32) << 5u32) == (0x34u32 << 24u32) | (((off >> 2u32) & 0x7FFFFu32) << 5u32) | r
        &&& 0x3500_0000u32 | 0u32 | r | (((off >> 2u32) & 0x7FFFFu32) << 5u32) == (0x35u32 << 24u32) | (((off >> 2u32) & 0x7FFFFu32) << 5u32) | r
    }) by (bit_vector)
        requires
            r <= 31,
    ;
    assert({
        &&& 0xD61F_0000u32 | 0u32 | (r << 5u32) == (0x3587C0u32 << 10u32) | (r << 5u32)
        &&& 0xD63F_0000u32 | 0u32 | (r << 5u32) == (0x358FC0u32 << 10u32) | (r << 5u32)
        &&& 0xD65F_0000u32 | 0u32 | (r << 5u32) == (0x3597C0u32 << 10u32) | (r << 5u32)
        &&& 0x7100_0000u32 | 0x8000_0000u32 | 31u32 | (r << 5u32) | ((imm & 0xFFFu32) << 10u32) == (0xF1u32 << 24u32) | (0u32 << 22u32) | (imm << 10u32) | (r << 5u32) | 31u32
        &&& 0x7100_0000u32 | 0u32 | 31u32 | (r << 5u32) | ((imm & 0xFFFu32) << 10u32) == (0x71u32 << 24u32) | (0u32 << 22u32) | (imm << 10u32) | (r << 5u32) | 31u32
    }) by (bit_vector)
        requires
            r <= 31,
            imm < 0x1000,
    ;
}

/// The branches that the templates emit assemble to the instructions they
/// name, and the decoder reads each back as that instruction: B and BL keep
/// apart, and so do BR, BLR and RET.
pub proof fn lemma_branch_words_decode(r: u8, off: u32)
    requires
        r <= 31,
    ensures
        assembles_to(TInsn::B_I(off), A64Insn::BUncondBOnlyBranchImm { imm26: branch_imm26(off) }),
        assembles_to(TInsn::BL_I(off), A64Insn::BlBlOnlyBranchImm { imm26: branch_imm26(off) }),
        assembles_to(TInsn::BR_R(Reg::X(r)), A64Insn::BrBr64BranchReg { rn: x_reg(r) }),
        assembles_to(TInsn::BLR_R(Reg::X(r)), A64Insn::BlrBlr64BranchReg { rn: x_reg(r) }),
        assembles_to(TInsn::RET_R(Reg::X(r)), A64Insn::RetRet64rBranchReg { rn: x_reg(r) }),
{
    lemma_control_transfer_word_bits(r as u32, off, 0);
    assert(spec_reg_bits(Reg::X(r)) == r as u32);
    let b = A64Insn::BUncondBOnlyBranchImm { imm26: branch_imm26(off) };
    assert(assembles_to(TInsn::B_I(off), b)) by { codec::lemma_decode_complete(b); }
    let bl = A64Insn::BlBlOnlyBranchImm { imm26: branch_imm26(off) };
    assert(assembles_to(TInsn::BL_I(off), bl)) by { codec::lemma_decode_complete(bl); }
    let br = A64Insn::BrBr64BranchReg { rn: x_reg(r) };
    assert(assembles_to(TInsn::BR_R(Reg::X(r)), br)) by { codec::lemma_decode_complete(br); }
    let blr = A64Insn::BlrBlr64BranchReg { rn: x_reg(r) };
    assert(assembles_to(TInsn::BLR_R(Reg::X(r)), blr)) by { codec::lemma_decode_complete(blr); }
    let ret = A64Insn::RetRet64rBranchReg { rn: x_reg(r) };
    assert(assembles_to(TInsn::RET_R(Reg::X(r)), ret)) by { codec::lemma_decode_complete(ret); }
}

/// CBZ and CBNZ assemble, at either width, to the compare-and-branch they
/// name, and the decoder reads each back as that instruction: a CBZ never
/// comes out as a CBNZ or the other way round.
#[verifier::rlimit(60)]
pub proof fn lemma_compare_branch_words_decode(r: u8, off: u32)
    requires
        r <= 31,
    ensures
        assembles_to(TInsn::CBZ_RI(Reg::X(r), off), A64Insn::CbzCbz64Compbranch { imm19: branch_imm19(off), rt: x_reg(r) }),
        assembles_to(TInsn::CBNZ_RI(Reg::X(r), off), A64Insn::CbnzCbnz64Compbranch { imm19: branch_imm19(off), rt: x_reg(r) }),
        assembles_to(TInsn::CBZ_RI(Reg::W(r), off), A64Insn::CbzCbz32Compbranch { imm19: branch_imm19(off), rt: w_reg(r) }),
        assembles_to(TInsn::CBNZ_RI(Reg::W(r), off), A64Insn::CbnzCbnz32Compbranch { imm19: branch_imm19(off), rt: w_reg(r) }),
{
    lemma_control_transfer_word_bits(r as u32, off, 0);
    assert(spec_reg_bits(Reg::X(r)) == r as u32);
    assert(spec_reg_bits(Reg::W(r)) == r as u32);
    let cbz = A64Insn::CbzCbz64Compbranch { imm19: branch_imm19(off), rt: x_reg(r) };
    assert(assembles_to(TInsn::CBZ_RI(Reg::X(r), off), cbz)) by { codec::lemma_decode_complete(cbz); }
    let cbnz = A64Insn::CbnzCbnz64Compbranch { imm19: branch_imm19(off), rt: x_reg(r) };
    assert(assembles_to(TInsn::CBNZ_RI(Reg::X(r), off), cbnz)) by { codec::lemma_decode_complete(cbnz); }
    let cbz_w = A64Insn::CbzCbz32Compbranch { imm19: branch_imm19(off), rt: w_reg(r) };
    assert(assembles_to(TInsn::CBZ_RI(Reg::W(r), off), cbz_w)) by { codec::lemma_decode_complete(cbz_w); }
    let cbnz_w = A64Insn::CbnzCbnz32Compbranch { imm19: branch_imm19(off), rt: w_reg(r) };
    assert(assembles_to(TInsn::CBNZ_RI(Reg::W(r), off), cbnz_w)) by { codec::lemma_decode_complete(cbnz_w); }
}

/// A compare with an immediate, at either width, assembles to the SUBS
/// immediate that writes the zero register, and the decoder reads it back as
/// that SUBS.
pub proof fn lemma_compare_immediate_words_decode(r: u8, imm: u32)
    requires
        r <= 31,
        imm < 0x1000,
    ensures
        assembles_to(
            TInsn::CMP_RI(Reg::X(r), imm),
            A64Insn::SubsAddsubImmSubs64sAddsubImm { sh: 0, imm12: addsub_imm(imm), rn: addsub_reg(r), rd: x_reg(31) },
        ),
        assembles_to(
            TInsn::CMP_RI(Reg::W(r), imm),
            A64Insn::SubsAddsubImmSubs32sAddsubImm {
                sh: 0,
                imm12: addsub_imm(imm),
                rn: A64Reg { enc: r, width: A64RegWidth::W32, reg31: A64Reg31Mode::Sp },
                rd: w_reg(31),
            },
        ),
{
    lemma_control_transfer_word_bits(r as u32, 0, imm);
    assert(spec_reg_bits(Reg::X(r)) == r as u32);
    assert(spec_reg_bits(Reg::W(r)) == r as u32);
    assert(spec_reg_bits(Reg::X(31)) == 31u32);
    assert(spec_reg_bits(Reg::W(31)) == 31u32);
    let compare = A64Insn::SubsAddsubImmSubs64sAddsubImm { sh: 0, imm12: addsub_imm(imm), rn: addsub_reg(r), rd: x_reg(31) };
    assert(assembles_to(TInsn::CMP_RI(Reg::X(r), imm), compare)) by { codec::lemma_decode_complete(compare); }
    let compare_w = A64Insn::SubsAddsubImmSubs32sAddsubImm {
        sh: 0,
        imm12: addsub_imm(imm),
        rn: A64Reg { enc: r, width: A64RegWidth::W32, reg31: A64Reg31Mode::Sp },
        rd: w_reg(31),
    };
    assert(assembles_to(TInsn::CMP_RI(Reg::W(r), imm), compare_w)) by { codec::lemma_decode_complete(compare_w); }
}

/// The four bytes of a word, least significant first.
pub open spec fn le_bytes(w: u32) -> Seq<u8> {
    seq![(w & 0xFF) as u8, ((w >> 8u32) & 0xFF) as u8, ((w >> 16u32) & 0xFF) as u8, ((w >> 24u32) & 0xFF) as u8]
}

/// The bytes of one template instruction: its word, little-endian, after
/// the alias is written out; nothing when it has no encoding.
pub open spec fn spec_asm_one(insn: TInsn) -> Seq<u8> {
    match spec_word(spec_expand(insn)) {
        Some(w) => le_bytes(w),
        None => seq![],
    }
}

/// Appends the four bytes of `insn_bytes`, least significant first.
pub fn push_insn(dst: &mut Vec<u8>, insn_bytes: u32)
    ensures
        final(dst)@ == old(dst)@ + le_bytes(insn_bytes),
{
    dst.push((insn_bytes & 0xFF) as u8);
    dst.push(((insn_bytes >> 8) & 0xFF) as u8);
    dst.push(((insn_bytes >> 16) & 0xFF) as u8);
    dst.push(((insn_bytes >> 24) & 0xFF) as u8);
    assert(dst@ =~= old(dst)@ + le_bytes(insn_bytes));
}

/// Assembles one template instruction.
pub fn asm_one(insn: TInsn) -> (r: Vec<u8>)
    requires
        spec_insn_encodable(insn),
    ensures
        r@ == spec_asm_one(insn),
{
    let mut ret: Vec<u8> = Vec::new();
    let base = expand(insn);
    assert(spec_insn_encodable(base));
    match word(base) {
        Some(w) => {
            push_insn(&mut ret, w);
        },
        None => {},
    }
    assert(ret@ =~= spec_asm_one(insn));
    ret
}

/// The bytes of the instructions, one after the other.
pub open spec fn spec_assemble(insns: Seq<TInsn>) -> Seq<u8>
    decreases insns.len(),
{
    if insns.len() == 0 {
        seq![]
    } else {
        spec_assemble(insns.drop_last()) + spec_asm_one(insns.last())
    }
}

/// Assembles a list of template instructions.
pub fn assemble(insns: &Vec<TInsn>) -> (r: Vec<u8>)
    requires
        forall|i: int| 0 <= i < insns@.len() ==> spec_insn_encodable(#[trigger] insns@[i]),
    ensures
        r@ == spec_assemble(insns@),
{
    let mut ret: Vec<u8> = Vec::new();
    let mut i: usize = 0;
    assert(insns@.take(0) =~= Seq::<TInsn>::empty());
    while i < insns.len()
        invariant
            i <= insns@.len(),
            forall|i: int| 0 <= i < insns@.len() ==> spec_insn_encodable(#[trigger] insns@[i]),
            ret@ == spec_assemble(insns@.take(i as int)),
        decreases insns@.len() - i,
    {
        assert(insns@.take(i as int + 1).drop_last() =~= insns@.take(i as int));
        let mut bytes = asm_one(insns[i]);
        ret.append(&mut bytes);
        i = i + 1;
    }
    assert(insns@.take(i as int) =~= insns@);
    ret
}

/// The load and store kinds whose addressing mode can be read off their
/// word, as the disassembler names them.
#[derive(Clone, Copy, Debug, PartialEq, Eq, Structural)]
pub enum MemInsn {
    Ldp,
    Stp,
    Ldr,
    Ldrb,
    Ldrh,
    Str,
    Strb,
    Strh,
    Other,
}

/// The little-endian word of four bytes.
pub open spec fn spec_le_word(b: Seq<u8>) -> u32 {
    (b[0] as u32) | ((b[1] as u32) << 8u32) | ((b[2] as u32) << 16u32) | ((b[3] as u32) << 24u32)
}

/// The addressing mode of a load or store word: for a pair, bit 23 marks
/// writeback and bit 24 pre-indexing; for a single register, bit 24 marks
/// a plain offset and, without it, bit 10 writeback and bit 11
/// pre-indexing. Anything else reads as a plain offset.
pub open spec fn spec_mem_acc_cls(bytes: Seq<u8>, kind: MemInsn) -> MemAccCls {
    if bytes.len() != 4 {
        MemAccCls::Offset
    } else {
        let bits = spec_le_word(bytes);
        match kind {
            MemInsn::Ldp | MemInsn::Stp => if bits & (1u32 << 23u32) != 0 {
                if bits & (1u32 << 24u32) != 0 {
                    MemAccCls::PreIndex
                } else {
                    MemAccCls::PstIndex
                }
            } else {
                MemAccCls::Offset
            },
            MemInsn::Other => MemAccCls::Offset,
            _ => if bits & (1u32 << 24u32) == 0 && bits & (1u32 << 10u32) != 0 {
                if bits & (1u32 << 11u32) != 0 {
                    MemAccCls::PreIndex
                } else {
                    MemAccCls::PstIndex
                }
            } else {
                MemAccCls::Offset
            },
        }
    }
}

/// The addressing mode of the load or store held in `insn_bytes`.
pub fn check_mem_acc_cls(insn_bytes: &[u8], insn_type: MemInsn) -> (r: MemAccCls)
    ensures
        r == spec_mem_acc_cls(insn_bytes@, insn_type),
{
    if insn_bytes.len() != 4 {
        return MemAccCls::Offset;
    }
    let bits: u32 = (insn_bytes[0] as u32) | ((insn_bytes[1] as u32) << 8u32) | ((insn_bytes[2] as u32) << 16u32) | ((
    insn_bytes[3] as u32) << 24u32);
    match insn_type {
        MemInsn::Ldp | MemInsn::Stp => {
            if bits & (1u32 << 23u32) != 0 {
                if bits & (1u32 << 24u32) != 0 {
                    MemAccCls::PreIndex
                } else {
                    MemAccCls::PstIndex
                }
            } else {
                MemAccCls::Offset
            }
        },
        MemInsn::Other => MemAccCls::Offset,
        _ => {
            if bits & (1u32 << 24u32) == 0 && bits & (1u32 << 10u32) != 0 {
                if bits & (1u32 << 11u32) != 0 {
                    MemAccCls::PreIndex
                } else {
                    MemAccCls::PstIndex
                }
            } else {
                MemAccCls::Offset
            }
        },
    }
}

/// A general register survives the trip through its runtime mask, in its
/// 64-bit view; so does SP.
pub proof fn lemma_reg_mask_roundtrip(n: u8)
    requires
        n <= 31,
    ensures
        spec_reg_from_mask(spec_reg_mask(Reg::X(n))) == Reg::X(n),
        spec_reg_from_mask(spec_reg_mask(Reg::W(n))) == Reg::X(n),
        spec_reg_from_mask(spec_reg_mask(Reg::SP)) == Reg::SP,
{
    vstd::arithmetic::power2::lemma2_to64();
    vstd::arithmetic::power2::lemma_pow2_strictly_increases(n as nat, 32);
    lemma_pow2_injective_u8(n);
    let v = spec_reg_mask(Reg::X(n));
    assert(v == vstd::arithmetic::power2::pow2(n as nat));
    assert(v != 0x1_0000_0000);
    assert(exists|k: u8| k <= 31 && v == vstd::arithmetic::power2::pow2(k as nat));
    let m = choose|k: u8| k <= 31 && v == vstd::arithmetic::power2::pow2(k as nat);
    assert(m == n);
}

/// A register number up to 32 comes back from the register it names: x0 to
/// x31 as themselves, 32 as SP (encoded 31).
pub proof fn lemma_reg_index_bits(v: u8)
    requires
        v <= 32,
    ensures
        spec_reg_from_index(v).spec_encodable(),
        spec_reg_bits(spec_reg_from_index(v)) == if v == 32 { 31 } else { v as u32 },
{
}

/// Every general register the disassembler numbers is encoded as its own
/// number.
pub proof fn lemma_reg_code_bits(v: u32)
    requires
        (187 <= v <= 217) || (218 <= v <= 246),
    ensures
        spec_reg_bits(spec_reg_from_code(v)) == if v <= 217 { v - 187 } else { v - 218 },
{
}

} // verus!
