//! Operand types of the A64 instruction subset: registers, immediates and
//! memory operands.
use vstd::prelude::*;
use vstd::arithmetic::power2::pow2;

verus! {

/// Operand width of a general-purpose register field.
#[derive(Clone, Copy, Debug, PartialEq, Eq, Structural)]
pub enum A64RegWidth {
    W32,
    X64,
    Unknown,
}

/// How register number 31 is interpreted in a field: as the zero register
/// or as the stack pointer.
#[derive(Clone, Copy, Debug, PartialEq, Eq, Structural)]
pub enum A64Reg31Mode {
    Xzr,
    Sp,
}

/// A general-purpose register operand.
#[derive(Clone, Copy, Debug, PartialEq, Eq, Structural)]
pub struct A64Reg {
    pub enc: u8,
    pub width: A64RegWidth,
    pub reg31: A64Reg31Mode,
}

impl A64Reg {
    pub fn new(enc: u8, width: A64RegWidth, reg31: A64Reg31Mode) -> (r: Self)
        ensures
            r == (A64Reg { enc, width, reg31 }),
    {
        A64Reg { enc, width, reg31 }
    }

    /// 64-bit register whose number 31 names `xzr`.
    pub fn x(enc: u8) -> (r: Self)
        ensures
            r == (A64Reg { enc, width: A64RegWidth::X64, reg31: A64Reg31Mode::Xzr }),
    {
        A64Reg { enc, width: A64RegWidth::X64, reg31: A64Reg31Mode::Xzr }
    }

    /// 32-bit register whose number 31 names `wzr`.
    pub fn w(enc: u8) -> (r: Self)
        ensures
            r == (A64Reg { enc, width: A64RegWidth::W32, reg31: A64Reg31Mode::Xzr }),
    {
        A64Reg { enc, width: A64RegWidth::W32, reg31: A64Reg31Mode::Xzr }
    }

    /// 64-bit register whose number 31 names `sp`.
    pub fn x_sp(enc: u8) -> (r: Self)
        ensures
            r == (A64Reg { enc, width: A64RegWidth::X64, reg31: A64Reg31Mode::Sp }),
    {
        A64Reg { enc, width: A64RegWidth::X64, reg31: A64Reg31Mode::Sp }
    }

    /// 32-bit register whose number 31 names `wsp`.
    pub fn w_sp(enc: u8) -> (r: Self)
        ensures
            r == (A64Reg { enc, width: A64RegWidth::W32, reg31: A64Reg31Mode::Sp }),
    {
        A64Reg { enc, width: A64RegWidth::W32, reg31: A64Reg31Mode::Sp }
    }

    /// Register of unknown width (number 31 names the zero register).
    pub fn unknown(enc: u8) -> (r: Self)
        ensures
            r == (A64Reg { enc, width: A64RegWidth::Unknown, reg31: A64Reg31Mode::Xzr }),
    {
        A64Reg { enc, width: A64RegWidth::Unknown, reg31: A64Reg31Mode::Xzr }
    }

    pub fn enc(self) -> (r: u8)
        ensures
            r == self.enc,
    {
        self.enc
    }

    /// Whether this operand names the stack pointer.
    pub open spec fn is_sp(self) -> bool {
        self.enc == 31 && self.reg31 == A64Reg31Mode::Sp
    }
}

/// An immediate field: the raw field bits together with how they are read
/// (field width, left scale, signedness).
#[derive(Clone, Copy, Debug, PartialEq, Eq, Structural)]
pub struct A64Imm {
    pub raw: u32,
    pub bits: u8,
    pub scale: u8,
    pub signed: bool,
}

/// The field bits read as a number: the low `bits` bits of `raw`,
/// sign-extended when `signed`, times `2^scale`.
pub open spec fn imm_value(raw: u32, bits: nat, scale: nat, signed: bool) -> int {
    let low = if bits >= 32 { raw as int } else { raw as int % pow2(bits) as int };
    let ext = if signed && bits <= 32 && low >= pow2((bits - 1) as nat) {
        low - pow2(bits) as int
    } else {
        low
    };
    ext * pow2(scale) as int
}

impl A64Imm {
    pub fn unsigned(raw: u32, bits: u8) -> (r: Self)
        ensures
            r == (A64Imm { raw, bits, scale: 0, signed: false }),
    {
        A64Imm { raw, bits, scale: 0, signed: false }
    }

    pub fn signed(raw: u32, bits: u8) -> (r: Self)
        ensures
            r == (A64Imm { raw, bits, scale: 0, signed: true }),
    {
        A64Imm { raw, bits, scale: 0, signed: true }
    }

    pub fn scaled_unsigned(raw: u32, bits: u8, scale: u8) -> (r: Self)
        ensures
            r == (A64Imm { raw, bits, scale, signed: false }),
    {
        A64Imm { raw, bits, scale, signed: false }
    }

    pub fn scaled_signed(raw: u32, bits: u8, scale: u8) -> (r: Self)
        ensures
            r == (A64Imm { raw, bits, scale, signed: true }),
    {
        A64Imm { raw, bits, scale, signed: true }
    }

    pub fn raw(self) -> (r: u32)
        ensures
            r == self.raw,
    {
        self.raw
    }

    /// Shapes for which `value` is defined without overflow.
    pub open spec fn readable(self) -> bool {
        1 <= self.bits && self.scale <= 31
    }

    pub open spec fn spec_value(self) -> int {
        imm_value(self.raw, self.bits as nat, self.scale as nat, self.signed)
    }

    /// The numeric value of the immediate.
    pub fn value(self) -> (r: i64)
        requires
            self.readable(),
        ensures
            r as int == self.spec_value(),
    {
        let bits = self.bits;
        proof {
            vstd::arithmetic::power2::lemma2_to64();
            vstd::arithmetic::power2::lemma_pow2_pos(bits as nat);
        }
        let low: u64 = if bits >= 32 {
            self.raw as u64
        } else {
            proof {
                vstd::bits::lemma_u64_pow2_no_overflow(bits as nat);
                vstd::bits::lemma_u64_shl_is_mul(1, bits as u64);
            }
            (self.raw as u64) % (1u64 << (bits as u64))
        };
        assert(low <= 0xffff_ffff) by {
            if bits < 32 {
                vstd::arithmetic::power2::lemma_pow2_strictly_increases(bits as nat, 32);
            }
        }
        let ext: i64 = if self.signed && bits <= 32 {
            proof {
                vstd::bits::lemma_u64_pow2_no_overflow((bits - 1) as nat);
                vstd::bits::lemma_u64_shl_is_mul(1, (bits - 1) as u64);
                vstd::bits::lemma_u64_pow2_no_overflow(bits as nat);
                vstd::bits::lemma_u64_shl_is_mul(1, bits as u64);
                if bits < 32 {
                    vstd::arithmetic::power2::lemma_pow2_strictly_increases(bits as nat, 32);
                }
            }
            if low >= (1u64 << ((bits - 1) as u64)) {
                low as i64 - (1u64 << (bits as u64)) as i64
            } else {
                low as i64
            }
        } else {
            low as i64
        };
        proof {
            vstd::bits::lemma_u64_pow2_no_overflow(self.scale as nat);
            vstd::bits::lemma_u64_shl_is_mul(1, self.scale as u64);
            if self.scale < 31 {
                vstd::arithmetic::power2::lemma_pow2_strictly_increases(self.scale as nat, 31);
            }
        }
        assert(-0x1_0000_0000 <= ext <= 0xffff_ffff) by {
            if bits <= 32 && bits < 32 {
                vstd::arithmetic::power2::lemma_pow2_strictly_increases(bits as nat, 32);
            }
        }
        let factor = (1u64 << (self.scale as u64)) as i64;
        assert(-0x1_0000_0000 * 0x8000_0000 <= ext * factor <= 0xffff_ffff * 0x8000_0000) by (nonlinear_arith)
            requires
                -0x1_0000_0000 <= ext <= 0xffff_ffff,
                0 < factor <= 0x8000_0000,
        ;
        ext * factor
    }
}

/// A memory operand: a base register and an immediate offset, with the
/// addressing mode.
#[derive(Clone, Copy, Debug, PartialEq, Eq, Structural)]
pub enum A64Mem {
    Offset { base: A64Reg, offset: A64Imm },
    PreIndex { base: A64Reg, offset: A64Imm },
    PostIndex { base: A64Reg, offset: A64Imm },
}

impl A64Mem {
    pub fn offset(base: A64Reg, offset: A64Imm) -> (r: Self)
        ensures
            r == (A64Mem::Offset { base, offset }),
    {
        A64Mem::Offset { base, offset }
    }

    pub fn pre_index(base: A64Reg, offset: A64Imm) -> (r: Self)
        ensures
            r == (A64Mem::PreIndex { base, offset }),
    {
        A64Mem::PreIndex { base, offset }
    }

    pub fn post_index(base: A64Reg, offset: A64Imm) -> (r: Self)
        ensures
            r == (A64Mem::PostIndex { base, offset }),
    {
        A64Mem::PostIndex { base, offset }
    }

    pub open spec fn spec_base(self) -> A64Reg {
        match self {
            A64Mem::Offset { base, .. } => base,
            A64Mem::PreIndex { base, .. } => base,
            A64Mem::PostIndex { base, .. } => base,
        }
    }

    pub open spec fn spec_offset_imm(self) -> A64Imm {
        match self {
            A64Mem::Offset { offset, .. } => offset,
            A64Mem::PreIndex { offset, .. } => offset,
            A64Mem::PostIndex { offset, .. } => offset,
        }
    }

    pub fn base(self) -> (r: A64Reg)
        ensures
            r == self.spec_base(),
    {
        match self {
            A64Mem::Offset { base, .. } => base,
            A64Mem::PreIndex { base, .. } => base,
            A64Mem::PostIndex { base, .. } => base,
        }
    }

    pub fn offset_imm(self) -> (r: A64Imm)
        ensures
            r == self.spec_offset_imm(),
    {
        match self {
            A64Mem::Offset { offset, .. } => offset,
            A64Mem::PreIndex { offset, .. } => offset,
            A64Mem::PostIndex { offset, .. } => offset,
        }
    }

    /// The same operand with another base register.
    pub open spec fn spec_with_base(self, base: A64Reg) -> A64Mem {
        match self {
            A64Mem::Offset { offset, .. } => A64Mem::Offset { base, offset },
            A64Mem::PreIndex { offset, .. } => A64Mem::PreIndex { base, offset },
            A64Mem::PostIndex { offset, .. } => A64Mem::PostIndex { base, offset },
        }
    }

    pub fn with_base(self, base: A64Reg) -> (r: A64Mem)
        ensures
            r == self.spec_with_base(base),
    {
        match self {
            A64Mem::Offset { offset, .. } => A64Mem::Offset { base, offset },
            A64Mem::PreIndex { offset, .. } => A64Mem::PreIndex { base, offset },
            A64Mem::PostIndex { offset, .. } => A64Mem::PostIndex { base, offset },
        }
    }
}

} // verus!
