//! Assembly text for instructions of the subset and for runtime exits.
use vstd::prelude::*;

use crate::shared::arm64::ir::{self, A64Condition};
use crate::shared::arm64::{A64Imm, A64Insn, A64Mem, A64Reg, A64Reg31Mode, A64RegWidth};
use crate::shared::trans::cfg::RuntimeExitReason;

verus! {

/// The lower-case hexadecimal digit of `d`.
pub open spec fn digit_char(d: nat) -> char {
    (if d < 10 {
        48 + d
    } else {
        87 + d
    }) as char
}

/// `n` in hexadecimal, most significant digit first, without prefix.
pub open spec fn hex(n: nat) -> Seq<char>
    decreases n,
{
    if n < 16 {
        seq![digit_char(n)]
    } else {
        hex(n / 16) + seq![digit_char(n % 16)]
    }
}

/// `n` in decimal.
pub open spec fn dec(n: nat) -> Seq<char>
    decreases n,
{
    if n < 10 {
        seq![digit_char(n)]
    } else {
        dec(n / 10) + seq![digit_char(n % 10)]
    }
}

/// `n` as `{:#x}` writes it.
pub open spec fn hex0x(n: nat) -> Seq<char> {
    "0x"@ + hex(n)
}

fn digit_str(d: u64) -> (r: &'static str)
    requires
        d < 16,
    ensures
        r@ == seq![digit_char(d as nat)],
{
    match d {
        0 => {
            proof {
                reveal_strlit("0");
            }
            "0"
        },
        1 => {
            proof {
                reveal_strlit("1");
            }
            "1"
        },
        2 => {
            proof {
                reveal_strlit("2");
            }
            "2"
        },
        3 => {
            proof {
                reveal_strlit("3");
            }
            "3"
        },
        4 => {
            proof {
                reveal_strlit("4");
            }
            "4"
        },
        5 => {
            proof {
                reveal_strlit("5");
            }
            "5"
        },
        6 => {
            proof {
                reveal_strlit("6");
            }
            "6"
        },
        7 => {
            proof {
                reveal_strlit("7");
            }
            "7"
        },
        8 => {
            proof {
                reveal_strlit("8");
            }
            "8"
        },
        9 => {
            proof {
                reveal_strlit("9");
            }
            "9"
        },
        10 => {
            proof {
                reveal_strlit("a");
            }
            "a"
        },
        11 => {
            proof {
                reveal_strlit("b");
            }
            "b"
        },
        12 => {
            proof {
                reveal_strlit("c");
            }
            "c"
        },
        13 => {
            proof {
                reveal_strlit("d");
            }
            "d"
        },
        14 => {
            proof {
                reveal_strlit("e");
            }
            "e"
        },
        _ => {
            proof {
                reveal_strlit("f");
            }
            "f"
        },
    }
}

pub(crate) fn push_hex(s: &mut String, n: u64)
    ensures
        final(s)@ == old(s)@ + hex(n as nat),
    decreases n,
{
    if n >= 16 {
        push_hex(s, n / 16);
    }
    s.append(digit_str(n % 16));
    assert(s@ =~= old(s)@ + hex(n as nat));
}

pub(crate) fn push_dec(s: &mut String, n: u64)
    ensures
        final(s)@ == old(s)@ + dec(n as nat),
    decreases n,
{
    if n >= 10 {
        push_dec(s, n / 10);
    }
    s.append(digit_str(n % 10));
    assert(s@ =~= old(s)@ + dec(n as nat));
}

pub(crate) fn push_hex0x(s: &mut String, n: u64)
    ensures
        final(s)@ == old(s)@ + hex0x(n as nat),
{
    s.append("0x");
    push_hex(s, n);
    assert(s@ =~= old(s)@ + hex0x(n as nat));
}

/// The name of a register operand: the zero register or the stack pointer
/// for 31, else `x`, `w` or `r` by width and the number.
pub open spec fn spec_reg_name(reg: A64Reg) -> Seq<char> {
    if reg.enc == 31 && reg.width == A64RegWidth::X64 && reg.reg31 == A64Reg31Mode::Xzr {
        "xzr"@
    } else if reg.enc == 31 && reg.width == A64RegWidth::W32 && reg.reg31 == A64Reg31Mode::Xzr {
        "wzr"@
    } else if reg.enc == 31 && reg.width == A64RegWidth::X64 && reg.reg31 == A64Reg31Mode::Sp {
        "sp"@
    } else if reg.enc == 31 && reg.width == A64RegWidth::W32 && reg.reg31 == A64Reg31Mode::Sp {
        "wsp"@
    } else {
        match reg.width {
            A64RegWidth::X64 => "x"@ + dec(reg.enc as nat),
            A64RegWidth::W32 => "w"@ + dec(reg.enc as nat),
            A64RegWidth::Unknown => "r"@ + dec(reg.enc as nat),
        }
    }
}

fn push_reg(s: &mut String, reg: A64Reg)
    ensures
        final(s)@ == old(s)@ + spec_reg_name(reg),
{
    let enc = reg.enc;
    let is_x = matches!(reg.width, A64RegWidth::X64);
    let is_w = matches!(reg.width, A64RegWidth::W32);
    let is_sp = matches!(reg.reg31, A64Reg31Mode::Sp);
    if enc == 31 && is_x && !is_sp {
        s.append("xzr");
    } else if enc == 31 && is_w && !is_sp {
        s.append("wzr");
    } else if enc == 31 && is_x && is_sp {
        s.append("sp");
    } else if enc == 31 && is_w && is_sp {
        s.append("wsp");
    } else if is_x {
        s.append("x");
        push_dec(s, enc as u64);
    } else if is_w {
        s.append("w");
        push_dec(s, enc as u64);
    } else {
        s.append("r");
        push_dec(s, enc as u64);
    }
    assert(s@ =~= old(s)@ + spec_reg_name(reg));
}

/// The name of a register operand.
pub fn reg_name(reg: A64Reg) -> (r: String)
    ensures
        r@ == spec_reg_name(reg),
{
    let mut s = String::new();
    push_reg(&mut s, reg);
    assert(s@ =~= spec_reg_name(reg));
    s
}

/// An unsigned immediate: `#` and the value, in decimal below ten and in
/// hexadecimal from ten on.
pub open spec fn spec_unsigned_imm(value: u64) -> Seq<char> {
    if value < 10 {
        "#"@ + dec(value as nat)
    } else {
        "#"@ + hex0x(value as nat)
    }
}

fn push_unsigned_imm(s: &mut String, value: u64)
    ensures
        final(s)@ == old(s)@ + spec_unsigned_imm(value),
{
    s.append("#");
    if value < 10 {
        push_dec(s, value);
    } else {
        push_hex0x(s, value);
    }
    assert(s@ =~= old(s)@ + spec_unsigned_imm(value));
}

pub fn unsigned_imm(value: u64) -> (r: String)
    ensures
        r@ == spec_unsigned_imm(value),
{
    let mut s = String::new();
    push_unsigned_imm(&mut s, value);
    assert(s@ =~= spec_unsigned_imm(value));
    s
}

/// A signed immediate: a negative value as `#-` and its magnitude.
pub open spec fn spec_imm(value: i64) -> Seq<char> {
    if value < 0 {
        let abs = (-value) as nat;
        if abs < 10 {
            "#-"@ + dec(abs)
        } else {
            "#-"@ + hex0x(abs)
        }
    } else {
        spec_unsigned_imm(value as u64)
    }
}

fn push_imm(s: &mut String, value: i64)
    ensures
        final(s)@ == old(s)@ + spec_imm(value),
{
    if value < 0 {
        let abs: u64 = if value == i64::MIN {
            0x8000_0000_0000_0000u64
        } else {
            (-value) as u64
        };
        s.append("#-");
        if abs < 10 {
            push_dec(s, abs);
        } else {
            push_hex0x(s, abs);
        }
    } else {
        push_unsigned_imm(s, value as u64);
    }
    assert(s@ =~= old(s)@ + spec_imm(value));
}

pub fn imm(value: i64) -> (r: String)
    ensures
        r@ == spec_imm(value),
{
    let mut s = String::new();
    push_imm(&mut s, value);
    assert(s@ =~= spec_imm(value));
    s
}

pub open spec fn spec_shift_name(shift: u8) -> &'static str {
    if shift == 0 {
        "lsl"
    } else if shift == 1 {
        "lsr"
    } else if shift == 2 {
        "asr"
    } else if shift == 3 {
        "ror"
    } else {
        "shift"
    }
}

/// The name of a shift code.
pub fn shift_name(shift: u8) -> (r: &'static str)
    ensures
        r == spec_shift_name(shift),
{
    match shift {
        0 => "lsl",
        1 => "lsr",
        2 => "asr",
        3 => "ror",
        _ => "shift",
    }
}

pub open spec fn spec_condition_name(cond: u8) -> &'static str {
    match A64Condition::spec_from_bits(cond) {
        Some(A64Condition::Eq) => "eq",
        Some(A64Condition::Ne) => "ne",
        Some(A64Condition::Ge) => "ge",
        Some(A64Condition::Lt) => "lt",
        Some(A64Condition::Gt) => "gt",
        Some(A64Condition::Le) => "le",
        Some(A64Condition::Al) => "al",
        None => "unknown",
    }
}

/// The name of a condition code of the subset.
pub fn condition_name(cond: u8) -> (r: &'static str)
    ensures
        r == spec_condition_name(cond),
{
    match A64Condition::from_bits(cond) {
        Some(A64Condition::Eq) => "eq",
        Some(A64Condition::Ne) => "ne",
        Some(A64Condition::Ge) => "ge",
        Some(A64Condition::Lt) => "lt",
        Some(A64Condition::Gt) => "gt",
        Some(A64Condition::Le) => "le",
        Some(A64Condition::Al) => "al",
        None => "unknown",
    }
}

/// The bit a test-and-branch tests: `b5:b40`.
pub fn bit_index(b5: u8, b40: u8) -> (r: u8)
    ensures
        r == ((b5 << 5u8) | b40),
{
    (b5 << 5u8) | b40
}

/// A signed distance as `{:+#x}` writes it: a plus sign, then the
/// two's complement bits in hexadecimal.
pub open spec fn signed_hex(v: int) -> Seq<char> {
    "+0x"@ + hex((v as u64) as nat)
}

fn push_signed_hex(s: &mut String, v: i64)
    ensures
        final(s)@ == old(s)@ + signed_hex(v as int),
{
    s.append("+0x");
    push_hex(s, v as u64);
    assert(s@ =~= old(s)@ + signed_hex(v as int));
}

/// A memory operand: `[base]`, `[base, #off]`, `[base, #off]!` or
/// `[base], #off`.
pub open spec fn spec_mem_operand(mem: A64Mem) -> Seq<char> {
    let base = spec_reg_name(mem.spec_base());
    let off = mem.spec_offset_imm().spec_value() as i64;
    match mem {
        A64Mem::Offset { .. } => if off == 0 {
            "["@ + base + "]"@
        } else {
            "["@ + base + ", "@ + spec_imm(off) + "]"@
        },
        A64Mem::PreIndex { .. } => "["@ + base + ", "@ + spec_imm(off) + "]!"@,
        A64Mem::PostIndex { .. } => "["@ + base + "], "@ + spec_imm(off),
    }
}

fn push_mem_operand(s: &mut String, mem: A64Mem)
    requires
        mem.spec_offset_imm().readable(),
    ensures
        final(s)@ == old(s)@ + spec_mem_operand(mem),
{
    let offset = mem.offset_imm().value();
    s.append("[");
    push_reg(s, mem.base());
    match mem {
        A64Mem::Offset { .. } => {
            if offset == 0 {
                s.append("]");
            } else {
                s.append(", ");
                push_imm(s, offset);
                s.append("]");
            }
        },
        A64Mem::PreIndex { .. } => {
            s.append(", ");
            push_imm(s, offset);
            s.append("]!");
        },
        A64Mem::PostIndex { .. } => {
            s.append("], ");
            push_imm(s, offset);
        },
    }
    assert(s@ =~= old(s)@ + spec_mem_operand(mem));
}

pub fn mem_operand(mem: A64Mem) -> (r: String)
    requires
        mem.spec_offset_imm().readable(),
    ensures
        r@ == spec_mem_operand(mem),
{
    let mut s = String::new();
    push_mem_operand(&mut s, mem);
    assert(s@ =~= spec_mem_operand(mem));
    s
}

pub open spec fn spec_pretty_pc_relative(mnemonic: Seq<char>, rd: A64Reg, target: Option<u64>, pc: Option<u64>) -> Seq<char> {
    match (target, pc) {
        (Some(t), Some(_)) => mnemonic + " "@ + spec_reg_name(rd) + ", "@ + hex0x(t as nat),
        _ => mnemonic + " "@ + spec_reg_name(rd) + ", <pc-relative>"@,
    }
}

fn pretty_pc_relative(mnemonic: &str, rd: A64Reg, target: Option<u64>, pc: Option<u64>) -> (r: String)
    ensures
        r@ == spec_pretty_pc_relative(mnemonic@, rd, target, pc),
{
    let mut s = String::from_str(mnemonic);
    s.append(" ");
    push_reg(&mut s, rd);
    match (target, pc) {
        (Some(t), Some(_)) => {
            s.append(", ");
            push_hex0x(&mut s, t);
        },
        _ => {
            s.append(", <pc-relative>");
        },
    }
    assert(s@ =~= spec_pretty_pc_relative(mnemonic@, rd, target, pc));
    s
}

/// The immediate an add or subtract uses: shifted by twelve when `sh` is 1.
pub open spec fn effective_add_sub(sh: u8, imm12: A64Imm) -> u64 {
    if sh == 1 {
        (imm12.raw * 4096) as u64
    } else {
        imm12.raw as u64
    }
}

pub open spec fn spec_pretty_add_sub(mnemonic: Seq<char>, sh: u8, imm12: A64Imm, rn: A64Reg, rd: A64Reg) -> Seq<char> {
    let main = mnemonic + " "@ + spec_reg_name(rd) + ", "@ + spec_reg_name(rn) + ", "@ + spec_unsigned_imm(
        effective_add_sub(sh, imm12),
    );
    if sh != 0 {
        main + " ; imm12="@ + spec_unsigned_imm(imm12.raw as u64)
    } else {
        main
    }
}

fn pretty_add_sub(mnemonic: &str, sh: u8, imm12: A64Imm, rn: A64Reg, rd: A64Reg) -> (r: String)
    ensures
        r@ == spec_pretty_add_sub(mnemonic@, sh, imm12, rn, rd),
{
    let effective = match A64Insn::add_sub_imm(sh, imm12) {
        Some(v) => v,
        None => imm12.raw() as u64,
    };
    let mut s = String::from_str(mnemonic);
    s.append(" ");
    push_reg(&mut s, rd);
    s.append(", ");
    push_reg(&mut s, rn);
    s.append(", ");
    push_unsigned_imm(&mut s, effective);
    if sh != 0 {
        s.append(" ; imm12=");
        push_unsigned_imm(&mut s, imm12.raw() as u64);
    }
    assert(s@ =~= spec_pretty_add_sub(mnemonic@, sh, imm12, rn, rd));
    s
}

/// A branch: its target when the pc is known, else `pc` and the distance.
pub open spec fn spec_pretty_branch(mnemonic: Seq<char>, pc: Option<u64>, imm: A64Imm) -> Seq<char> {
    match pc {
        Some(p) => mnemonic + " "@ + hex0x(ir::wrap_add(p, imm.spec_value()) as nat),
        None => mnemonic + " pc"@ + signed_hex(imm.spec_value()),
    }
}

fn pretty_branch(mnemonic: &str, pc: Option<u64>, imm: A64Imm) -> (r: String)
    requires
        imm.readable(),
    ensures
        r@ == spec_pretty_branch(mnemonic@, pc, imm),
{
    let mut s = String::from_str(mnemonic);
    match pc {
        Some(p) => {
            s.append(" ");
            push_hex0x(&mut s, ir::wrapping_offset(p, imm.value()));
        },
        None => {
            s.append(" pc");
            push_signed_hex(&mut s, imm.value());
        },
    }
    assert(s@ =~= spec_pretty_branch(mnemonic@, pc, imm));
    s
}

pub open spec fn spec_pretty_compare_branch(mnemonic: Seq<char>, rt: A64Reg, pc: Option<u64>, imm: A64Imm) -> Seq<char> {
    match pc {
        Some(p) => mnemonic + " "@ + spec_reg_name(rt) + ", "@ + hex0x(ir::wrap_add(p, imm.spec_value()) as nat),
        None => mnemonic + " "@ + spec_reg_name(rt) + ", pc"@ + signed_hex(imm.spec_value()),
    }
}

fn pretty_compare_branch(mnemonic: &str, rt: A64Reg, pc: Option<u64>, imm: A64Imm) -> (r: String)
    requires
        imm.readable(),
    ensures
        r@ == spec_pretty_compare_branch(mnemonic@, rt, pc, imm),
{
    let mut s = String::from_str(mnemonic);
    s.append(" ");
    push_reg(&mut s, rt);
    match pc {
        Some(p) => {
            s.append(", ");
            push_hex0x(&mut s, ir::wrapping_offset(p, imm.value()));
        },
        None => {
            s.append(", pc");
            push_signed_hex(&mut s, imm.value());
        },
    }
    assert(s@ =~= spec_pretty_compare_branch(mnemonic@, rt, pc, imm));
    s
}

pub open spec fn spec_pretty_test_branch(mnemonic: Seq<char>, rt: A64Reg, bit: u8, pc: Option<u64>, imm: A64Imm) -> Seq<char> {
    let head = mnemonic + " "@ + spec_reg_name(rt) + ", #"@ + dec(bit as nat);
    match pc {
        Some(p) => head + ", "@ + hex0x(ir::wrap_add(p, imm.spec_value()) as nat),
        None => head + ", pc"@ + signed_hex(imm.spec_value()),
    }
}

fn pretty_test_branch(mnemonic: &str, rt: A64Reg, bit: u8, pc: Option<u64>, imm: A64Imm) -> (r: String)
    requires
        imm.readable(),
    ensures
        r@ == spec_pretty_test_branch(mnemonic@, rt, bit, pc, imm),
{
    let mut s = String::from_str(mnemonic);
    s.append(" ");
    push_reg(&mut s, rt);
    s.append(", #");
    push_dec(&mut s, bit as u64);
    match pc {
        Some(p) => {
            s.append(", ");
            push_hex0x(&mut s, ir::wrapping_offset(p, imm.value()));
        },
        None => {
            s.append(", pc");
            push_signed_hex(&mut s, imm.value());
        },
    }
    assert(s@ =~= spec_pretty_test_branch(mnemonic@, rt, bit, pc, imm));
    s
}

pub open spec fn spec_pretty_move_wide(mnemonic: Seq<char>, rd: A64Reg, imm16: A64Imm, hw: u8) -> Seq<char> {
    let head = mnemonic + " "@ + spec_reg_name(rd) + ", "@ + spec_unsigned_imm(imm16.raw as u64);
    if hw == 0 {
        head
    } else {
        head + ", lsl #"@ + dec(hw as nat * 16)
    }
}

fn pretty_move_wide(mnemonic: &str, rd: A64Reg, imm16: A64Imm, hw: u8) -> (r: String)
    ensures
        r@ == spec_pretty_move_wide(mnemonic@, rd, imm16, hw),
{
    let shift = (hw as u32) * 16;
    let mut s = String::from_str(mnemonic);
    s.append(" ");
    push_reg(&mut s, rd);
    s.append(", ");
    push_unsigned_imm(&mut s, imm16.raw() as u64);
    if shift != 0 {
        s.append(", lsl #");
        push_dec(&mut s, shift as u64);
    }
    assert(s@ =~= spec_pretty_move_wide(mnemonic@, rd, imm16, hw));
    s
}

pub open spec fn spec_pretty_shifted_reg(mnemonic: Seq<char>, rd: A64Reg, rn: A64Reg, rm: A64Reg, shift: u8, imm6: A64Imm) -> Seq<char> {
    let head = mnemonic + " "@ + spec_reg_name(rd) + ", "@ + spec_reg_name(rn) + ", "@ + spec_reg_name(rm);
    if imm6.raw == 0 && shift == 0 {
        head
    } else {
        head + ", "@ + spec_shift_name(shift)@ + " #"@ + dec(imm6.raw as nat)
    }
}

fn pretty_shifted_reg(mnemonic: &str, rd: A64Reg, rn: A64Reg, rm: A64Reg, shift: u8, imm6: A64Imm) -> (r: String)
    ensures
        r@ == spec_pretty_shifted_reg(mnemonic@, rd, rn, rm, shift, imm6),
{
    let mut s = String::from_str(mnemonic);
    s.append(" ");
    push_reg(&mut s, rd);
    s.append(", ");
    push_reg(&mut s, rn);
    s.append(", ");
    push_reg(&mut s, rm);
    if !(imm6.raw() == 0 && shift == 0) {
        s.append(", ");
        s.append(shift_name(shift));
        s.append(" #");
        push_dec(&mut s, imm6.raw() as u64);
    }
    assert(s@ =~= spec_pretty_shifted_reg(mnemonic@, rd, rn, rm, shift, imm6));
    s
}

pub open spec fn spec_pretty_load_store(mnemonic: Seq<char>, rt: A64Reg, mem: A64Mem) -> Seq<char> {
    mnemonic + " "@ + spec_reg_name(rt) + ", "@ + spec_mem_operand(mem)
}

fn pretty_load_store(mnemonic: &str, rt: A64Reg, mem: A64Mem) -> (r: String)
    requires
        mem.spec_offset_imm().readable(),
    ensures
        r@ == spec_pretty_load_store(mnemonic@, rt, mem),
{
    let mut s = String::from_str(mnemonic);
    s.append(" ");
    push_reg(&mut s, rt);
    s.append(", ");
    push_mem_operand(&mut s, mem);
    assert(s@ =~= spec_pretty_load_store(mnemonic@, rt, mem));
    s
}

pub open spec fn spec_pretty_pair(mnemonic: Seq<char>, rt: A64Reg, rt2: A64Reg, mem: A64Mem) -> Seq<char> {
    mnemonic + " "@ + spec_reg_name(rt) + ", "@ + spec_reg_name(rt2) + ", "@ + spec_mem_operand(mem)
}

fn pretty_pair(mnemonic: &str, rt: A64Reg, rt2: A64Reg, mem: A64Mem) -> (r: String)
    requires
        mem.spec_offset_imm().readable(),
    ensures
        r@ == spec_pretty_pair(mnemonic@, rt, rt2, mem),
{
    let mut s = String::from_str(mnemonic);
    s.append(" ");
    push_reg(&mut s, rt);
    s.append(", ");
    push_reg(&mut s, rt2);
    s.append(", ");
    push_mem_operand(&mut s, mem);
    assert(s@ =~= spec_pretty_pair(mnemonic@, rt, rt2, mem));
    s
}

pub open spec fn spec_pretty_reg_branch(mnemonic: Seq<char>, rn: A64Reg) -> Seq<char> {
    mnemonic + " "@ + spec_reg_name(rn)
}

fn pretty_reg_branch(mnemonic: &str, rn: A64Reg) -> (r: String)
    ensures
        r@ == spec_pretty_reg_branch(mnemonic@, rn),
{
    let mut s = String::from_str(mnemonic);
    s.append(" ");
    push_reg(&mut s, rn);
    assert(s@ =~= spec_pretty_reg_branch(mnemonic@, rn));
    s
}

/// The immediates that the text of `insn` reads as values are of a shape
/// whose value is defined: branch distances, memory offsets and the SVC
/// number.
pub open spec fn printable(insn: A64Insn) -> bool {
    match insn {
        A64Insn::BUncondBOnlyBranchImm { imm26 } => imm26.readable(),
        A64Insn::BlBlOnlyBranchImm { imm26 } => imm26.readable(),
        A64Insn::BCondBOnlyCondbranch { imm19, .. } => imm19.readable(),
        A64Insn::CbzCbz32Compbranch { imm19, .. } => imm19.readable(),
        A64Insn::CbzCbz64Compbranch { imm19, .. } => imm19.readable(),
        A64Insn::CbnzCbnz32Compbranch { imm19, .. } => imm19.readable(),
        A64Insn::CbnzCbnz64Compbranch { imm19, .. } => imm19.readable(),
        A64Insn::TbzTbzOnlyTestbranch { imm14, .. } => imm14.readable(),
        A64Insn::TbnzTbnzOnlyTestbranch { imm14, .. } => imm14.readable(),
        A64Insn::LdrImmGenLdr32LdstImmpost { mem, .. } => mem.spec_offset_imm().readable(),
        A64Insn::LdrImmGenLdr64LdstImmpost { mem, .. } => mem.spec_offset_imm().readable(),
        A64Insn::LdrImmGenLdr32LdstImmpre { mem, .. } => mem.spec_offset_imm().readable(),
        A64Insn::LdrImmGenLdr64LdstImmpre { mem, .. } => mem.spec_offset_imm().readable(),
        A64Insn::LdrImmGenLdr32LdstPos { mem, .. } => mem.spec_offset_imm().readable(),
        A64Insn::LdrImmGenLdr64LdstPos { mem, .. } => mem.spec_offset_imm().readable(),
        A64Insn::StrImmGenStr32LdstImmpost { mem, .. } => mem.spec_offset_imm().readable(),
        A64Insn::StrImmGenStr64LdstImmpost { mem, .. } => mem.spec_offset_imm().readable(),
        A64Insn::StrImmGenStr32LdstImmpre { mem, .. } => mem.spec_offset_imm().readable(),
        A64Insn::StrImmGenStr64LdstImmpre { mem, .. } => mem.spec_offset_imm().readable(),
        A64Insn::StrImmGenStr32LdstPos { mem, .. } => mem.spec_offset_imm().readable(),
        A64Insn::StrImmGenStr64LdstPos { mem, .. } => mem.spec_offset_imm().readable(),
        A64Insn::LdpGenLdp64LdstpairPost { mem, .. } => mem.spec_offset_imm().readable(),
        A64Insn::LdpGenLdp64LdstpairPre { mem, .. } => mem.spec_offset_imm().readable(),
        A64Insn::LdpGenLdp64LdstpairOff { mem, .. } => mem.spec_offset_imm().readable(),
        A64Insn::StpGenStp64LdstpairPost { mem, .. } => mem.spec_offset_imm().readable(),
        A64Insn::StpGenStp64LdstpairPre { mem, .. } => mem.spec_offset_imm().readable(),
        A64Insn::StpGenStp64LdstpairOff { mem, .. } => mem.spec_offset_imm().readable(),
        A64Insn::SvcSvcExException { imm16 } => imm16.readable(),
        _ => true,
    }
}

/// The assembly text of `insn`, with branch and PC-relative targets
/// resolved against `pc` when it is known.
pub open spec fn spec_pretty_insn(insn: A64Insn, pc: Option<u64>) -> Seq<char> {
    let at = match pc {
        Some(p) => p,
        None => 0u64,
    };
    match insn {
        A64Insn::AdrAdrOnlyPcreladdr { rd, .. } => spec_pretty_pc_relative(
            "adr"@,
            rd,
            insn.spec_pc_relative_address(at),
            pc,
        ),
        A64Insn::AdrpAdrpOnlyPcreladdr { rd, .. } => spec_pretty_pc_relative(
            "adrp"@,
            rd,
            insn.spec_pc_relative_address(at),
            pc,
        ),
        A64Insn::AddAddsubImmAdd32AddsubImm { sh, imm12, rn, rd } => spec_pretty_add_sub("add"@, sh, imm12, rn, rd),
        A64Insn::AddAddsubImmAdd64AddsubImm { sh, imm12, rn, rd } => spec_pretty_add_sub("add"@, sh, imm12, rn, rd),
        A64Insn::SubAddsubImmSub32AddsubImm { sh, imm12, rn, rd } => spec_pretty_add_sub("sub"@, sh, imm12, rn, rd),
        A64Insn::SubAddsubImmSub64AddsubImm { sh, imm12, rn, rd } => spec_pretty_add_sub("sub"@, sh, imm12, rn, rd),
        A64Insn::SubsAddsubImmSubs32sAddsubImm { sh, imm12, rn, rd } => spec_pretty_add_sub("subs"@, sh, imm12, rn, rd),
        A64Insn::SubsAddsubImmSubs64sAddsubImm { sh, imm12, rn, rd } => spec_pretty_add_sub("subs"@, sh, imm12, rn, rd),
        A64Insn::BUncondBOnlyBranchImm { imm26 } => spec_pretty_branch("b"@, pc, imm26),
        A64Insn::BCondBOnlyCondbranch { imm19, cond } => spec_pretty_branch(
            "b."@ + spec_condition_name(cond)@,
            pc,
            imm19,
        ),
        A64Insn::CbzCbz32Compbranch { imm19, rt } => spec_pretty_compare_branch("cbz"@, rt, pc, imm19),
        A64Insn::CbzCbz64Compbranch { imm19, rt } => spec_pretty_compare_branch("cbz"@, rt, pc, imm19),
        A64Insn::CbnzCbnz32Compbranch { imm19, rt } => spec_pretty_compare_branch("cbnz"@, rt, pc, imm19),
        A64Insn::CbnzCbnz64Compbranch { imm19, rt } => spec_pretty_compare_branch("cbnz"@, rt, pc, imm19),
        A64Insn::MovzMovz32Movewide { hw, imm16, rd } => spec_pretty_move_wide("movz"@, rd, imm16, hw),
        A64Insn::MovzMovz64Movewide { hw, imm16, rd } => spec_pretty_move_wide("movz"@, rd, imm16, hw),
        A64Insn::MovkMovk32Movewide { hw, imm16, rd } => spec_pretty_move_wide("movk"@, rd, imm16, hw),
        A64Insn::MovkMovk64Movewide { hw, imm16, rd } => spec_pretty_move_wide("movk"@, rd, imm16, hw),
        A64Insn::OrrLogShiftOrr64LogShift { shift, rm, imm6, rn, rd } => spec_pretty_shifted_reg(
            "orr"@,
            rd,
            rn,
            rm,
            shift,
            imm6,
        ),
        A64Insn::TbzTbzOnlyTestbranch { b5, b40, imm14, rt } => spec_pretty_test_branch(
            "tbz"@,
            rt,
            ((b5 << 5u8) | b40) as u8,
            pc,
            imm14,
        ),
        A64Insn::TbnzTbnzOnlyTestbranch { b5, b40, imm14, rt } => spec_pretty_test_branch(
            "tbnz"@,
            rt,
            ((b5 << 5u8) | b40) as u8,
            pc,
            imm14,
        ),
        A64Insn::LdrImmGenLdr32LdstImmpost { rt, mem } => spec_pretty_load_store("ldr"@, rt, mem),
        A64Insn::LdrImmGenLdr64LdstImmpost { rt, mem } => spec_pretty_load_store("ldr"@, rt, mem),
        A64Insn::LdrImmGenLdr32LdstImmpre { rt, mem } => spec_pretty_load_store("ldr"@, rt, mem),
        A64Insn::LdrImmGenLdr64LdstImmpre { rt, mem } => spec_pretty_load_store("ldr"@, rt, mem),
        A64Insn::LdrImmGenLdr32LdstPos { rt, mem } => spec_pretty_load_store("ldr"@, rt, mem),
        A64Insn::LdrImmGenLdr64LdstPos { rt, mem } => spec_pretty_load_store("ldr"@, rt, mem),
        A64Insn::StrImmGenStr32LdstImmpost { rt, mem } => spec_pretty_load_store("str"@, rt, mem),
        A64Insn::StrImmGenStr64LdstImmpost { rt, mem } => spec_pretty_load_store("str"@, rt, mem),
        A64Insn::StrImmGenStr32LdstImmpre { rt, mem } => spec_pretty_load_store("str"@, rt, mem),
        A64Insn::StrImmGenStr64LdstImmpre { rt, mem } => spec_pretty_load_store("str"@, rt, mem),
        A64Insn::StrImmGenStr32LdstPos { rt, mem } => spec_pretty_load_store("str"@, rt, mem),
        A64Insn::StrImmGenStr64LdstPos { rt, mem } => spec_pretty_load_store("str"@, rt, mem),
        A64Insn::LdpGenLdp64LdstpairPost { rt2, rt, mem } => spec_pretty_pair("ldp"@, rt, rt2, mem),
        A64Insn::LdpGenLdp64LdstpairPre { rt2, rt, mem } => spec_pretty_pair("ldp"@, rt, rt2, mem),
        A64Insn::LdpGenLdp64LdstpairOff { rt2, rt, mem } => spec_pretty_pair("ldp"@, rt, rt2, mem),
        A64Insn::StpGenStp64LdstpairPost { rt2, rt, mem } => spec_pretty_pair("stp"@, rt, rt2, mem),
        A64Insn::StpGenStp64LdstpairPre { rt2, rt, mem } => spec_pretty_pair("stp"@, rt, rt2, mem),
        A64Insn::StpGenStp64LdstpairOff { rt2, rt, mem } => spec_pretty_pair("stp"@, rt, rt2, mem),
        A64Insn::NopNopHiHints {  } => "nop"@,
        A64Insn::BlBlOnlyBranchImm { imm26 } => spec_pretty_branch("bl"@, pc, imm26),
        A64Insn::BrBr64BranchReg { rn } => spec_pretty_reg_branch("br"@, rn),
        A64Insn::BlrBlr64BranchReg { rn } => spec_pretty_reg_branch("blr"@, rn),
        A64Insn::RetRet64rBranchReg { rn } => if rn.enc == 30 {
            "ret"@
        } else {
            spec_pretty_reg_branch("ret"@, rn)
        },
        A64Insn::SvcSvcExException { imm16 } => "svc "@ + spec_imm(imm16.spec_value() as i64),
    }
}

/// The assembly text of an instruction. With `pc` known, branch targets and
/// ADR/ADRP addresses are absolute; without it, branches show their
/// distance from `pc` and ADR/ADRP a placeholder.
pub fn pretty_insn(insn: A64Insn, pc: Option<u64>) -> (r: String)
    requires
        printable(insn),
    ensures
        r@ == spec_pretty_insn(insn, pc),
{
    let at = match pc {
        Some(p) => p,
        None => 0u64,
    };
    match insn {
        A64Insn::AdrAdrOnlyPcreladdr { rd, .. } => {
            proof {
                reveal_strlit("adr");
            }
            pretty_pc_relative("adr", rd, insn.pc_relative_address(at), pc)
        },
        A64Insn::AdrpAdrpOnlyPcreladdr { rd, .. } => {
            proof {
                reveal_strlit("adrp");
            }
            pretty_pc_relative("adrp", rd, insn.pc_relative_address(at), pc)
        },
        A64Insn::AddAddsubImmAdd32AddsubImm { sh, imm12, rn, rd }
        | A64Insn::AddAddsubImmAdd64AddsubImm { sh, imm12, rn, rd } => {
            pretty_add_sub("add", sh, imm12, rn, rd)
        },
        A64Insn::SubAddsubImmSub32AddsubImm { sh, imm12, rn, rd }
        | A64Insn::SubAddsubImmSub64AddsubImm { sh, imm12, rn, rd } => {
            pretty_add_sub("sub", sh, imm12, rn, rd)
        },
        A64Insn::SubsAddsubImmSubs32sAddsubImm { sh, imm12, rn, rd }
        | A64Insn::SubsAddsubImmSubs64sAddsubImm { sh, imm12, rn, rd } => {
            pretty_add_sub("subs", sh, imm12, rn, rd)
        },
        A64Insn::BUncondBOnlyBranchImm { imm26 } => pretty_branch("b", pc, imm26),
        A64Insn::BCondBOnlyCondbranch { imm19, cond } => {
            let mut mnemonic = String::from_str("b.");
            mnemonic.append(condition_name(cond));
            proof {
                reveal_strlit("b.");
            }
            pretty_branch(mnemonic.as_str(), pc, imm19)
        },
        A64Insn::CbzCbz32Compbranch { imm19, rt } | A64Insn::CbzCbz64Compbranch { imm19, rt } => {
            pretty_compare_branch("cbz", rt, pc, imm19)
        },
        A64Insn::CbnzCbnz32Compbranch { imm19, rt }
        | A64Insn::CbnzCbnz64Compbranch { imm19, rt } => {
            pretty_compare_branch("cbnz", rt, pc, imm19)
        },
        A64Insn::MovzMovz32Movewide { hw, imm16, rd }
        | A64Insn::MovzMovz64Movewide { hw, imm16, rd } => {
            pretty_move_wide("movz", rd, imm16, hw)
        },
        A64Insn::MovkMovk32Movewide { hw, imm16, rd }
        | A64Insn::MovkMovk64Movewide { hw, imm16, rd } => {
            pretty_move_wide("movk", rd, imm16, hw)
        },
        A64Insn::OrrLogShiftOrr64LogShift { shift, rm, imm6, rn, rd } => {
            pretty_shifted_reg("orr", rd, rn, rm, shift, imm6)
        },
        A64Insn::TbzTbzOnlyTestbranch { b5, b40, imm14, rt } => {
            pretty_test_branch("tbz", rt, bit_index(b5, b40), pc, imm14)
        },
        A64Insn::TbnzTbnzOnlyTestbranch { b5, b40, imm14, rt } => {
            pretty_test_branch("tbnz", rt, bit_index(b5, b40), pc, imm14)
        },
        A64Insn::LdrImmGenLdr32LdstImmpost { rt, mem }
        | A64Insn::LdrImmGenLdr64LdstImmpost { rt, mem }
        | A64Insn::LdrImmGenLdr32LdstImmpre { rt, mem }
        | A64Insn::LdrImmGenLdr64LdstImmpre { rt, mem }
        | A64Insn::LdrImmGenLdr32LdstPos { rt, mem }
        | A64Insn::LdrImmGenLdr64LdstPos { rt, mem } => pretty_load_store("ldr", rt, mem),
        A64Insn::StrImmGenStr32LdstImmpost { rt, mem }
        | A64Insn::StrImmGenStr64LdstImmpost { rt, mem }
        | A64Insn::StrImmGenStr32LdstImmpre { rt, mem }
        | A64Insn::StrImmGenStr64LdstImmpre { rt, mem }
        | A64Insn::StrImmGenStr32LdstPos { rt, mem }
        | A64Insn::StrImmGenStr64LdstPos { rt, mem } => pretty_load_store("str", rt, mem),
        A64Insn::LdpGenLdp64LdstpairPost { rt2, rt, mem }
        | A64Insn::LdpGenLdp64LdstpairPre { rt2, rt, mem }
        | A64Insn::LdpGenLdp64LdstpairOff { rt2, rt, mem } => pretty_pair("ldp", rt, rt2, mem),
        A64Insn::StpGenStp64LdstpairPost { rt2, rt, mem }
        | A64Insn::StpGenStp64LdstpairPre { rt2, rt, mem }
        | A64Insn::StpGenStp64LdstpairOff { rt2, rt, mem } => pretty_pair("stp", rt, rt2, mem),
        A64Insn::NopNopHiHints {  } => String::from_str("nop"),
        A64Insn::BlBlOnlyBranchImm { imm26 } => pretty_branch("bl", pc, imm26),
        A64Insn::BrBr64BranchReg { rn } => pretty_reg_branch("br", rn),
        A64Insn::BlrBlr64BranchReg { rn } => pretty_reg_branch("blr", rn),
        A64Insn::RetRet64rBranchReg { rn } => {
            if rn.enc() == 30 {
                String::from_str("ret")
            } else {
                pretty_reg_branch("ret", rn)
            }
        },
        A64Insn::SvcSvcExException { imm16 } => {
            let mut s = String::from_str("svc ");
            push_imm(&mut s, imm16.value());
            proof {
                reveal_strlit("svc ");
            }
            assert(s@ =~= spec_pretty_insn(insn, pc));
            s
        },
    }
}

/// The text of a runtime exit, its kind and its operands.
pub open spec fn spec_pretty_runtime_exit(exit: RuntimeExitReason) -> Seq<char> {
    match exit {
        RuntimeExitReason::Svc { imm16, resume_pc } => "runtime_exit=svc imm16="@ + hex0x(imm16 as nat)
            + " resume_pc="@ + hex0x(resume_pc as nat),
        RuntimeExitReason::Bl { target_pc, resume_pc } => "runtime_exit=bl target="@ + hex0x(
            target_pc as nat,
        ) + " resume_pc="@ + hex0x(resume_pc as nat),
        RuntimeExitReason::Blr { target_reg, resume_pc } => "runtime_exit=blr target_reg="@
            + spec_reg_name(A64Reg { enc: target_reg, width: A64RegWidth::X64, reg31: A64Reg31Mode::Xzr })
            + " resume_pc="@ + hex0x(resume_pc as nat),
        RuntimeExitReason::Br { target_reg } => "runtime_exit=br target_reg="@ + spec_reg_name(
            A64Reg { enc: target_reg, width: A64RegWidth::X64, reg31: A64Reg31Mode::Xzr },
        ),
        RuntimeExitReason::Ret { lr_reg } => "runtime_exit=ret lr="@ + spec_reg_name(
            A64Reg { enc: lr_reg, width: A64RegWidth::X64, reg31: A64Reg31Mode::Xzr },
        ),
        RuntimeExitReason::Unsupported => "runtime_exit=unsupported"@,
    }
}

/// The text of a runtime exit.
pub fn pretty_runtime_exit(exit: RuntimeExitReason) -> (r: String)
    ensures
        r@ == spec_pretty_runtime_exit(exit),
{
    let mut s = String::new();
    match exit {
        RuntimeExitReason::Svc { imm16, resume_pc } => {
            s.append("runtime_exit=svc imm16=");
            push_hex0x(&mut s, imm16 as u64);
            s.append(" resume_pc=");
            push_hex0x(&mut s, resume_pc);
        },
        RuntimeExitReason::Bl { target_pc, resume_pc } => {
            s.append("runtime_exit=bl target=");
            push_hex0x(&mut s, target_pc);
            s.append(" resume_pc=");
            push_hex0x(&mut s, resume_pc);
        },
        RuntimeExitReason::Blr { target_reg, resume_pc } => {
            s.append("runtime_exit=blr target_reg=");
            push_reg(&mut s, A64Reg::x(target_reg));
            s.append(" resume_pc=");
            push_hex0x(&mut s, resume_pc);
        },
        RuntimeExitReason::Br { target_reg } => {
            s.append("runtime_exit=br target_reg=");
            push_reg(&mut s, A64Reg::x(target_reg));
        },
        RuntimeExitReason::Ret { lr_reg } => {
            s.append("runtime_exit=ret lr=");
            push_reg(&mut s, A64Reg::x(lr_reg));
        },
        RuntimeExitReason::Unsupported => {
            s.append("runtime_exit=unsupported");
        },
    }
    assert(s@ =~= spec_pretty_runtime_exit(exit));
    s
}


/// `text` begins with the word `m` and a space.
pub open spec fn starts_with_word(text: Seq<char>, m: Seq<char>) -> bool {
    m.len() + 1 <= text.len() && text.subrange(0, m.len() as int + 1) == m + " "@
}

/// The text of an instruction begins with the mnemonic of its form: a
/// CBNZ prints as `cbnz ...`, a TBZ as `tbz ...`, a SUB immediate as
/// `sub ...`, and so on, whatever its operands and pc.
pub proof fn lemma_text_begins_with_mnemonic(insn: A64Insn, pc: Option<u64>)
    ensures
        (insn is CbzCbz32Compbranch || insn is CbzCbz64Compbranch) ==> starts_with_word(spec_pretty_insn(insn, pc), "cbz"@),
        (insn is CbnzCbnz32Compbranch || insn is CbnzCbnz64Compbranch) ==> starts_with_word(spec_pretty_insn(insn, pc), "cbnz"@),
        (insn is TbzTbzOnlyTestbranch) ==> starts_with_word(spec_pretty_insn(insn, pc), "tbz"@),
        (insn is TbnzTbnzOnlyTestbranch) ==> starts_with_word(spec_pretty_insn(insn, pc), "tbnz"@),
        (insn is AddAddsubImmAdd32AddsubImm || insn is AddAddsubImmAdd64AddsubImm) ==> starts_with_word(spec_pretty_insn(insn, pc), "add"@),
        (insn is SubAddsubImmSub32AddsubImm || insn is SubAddsubImmSub64AddsubImm) ==> starts_with_word(spec_pretty_insn(insn, pc), "sub"@),
        (insn is SubsAddsubImmSubs32sAddsubImm || insn is SubsAddsubImmSubs64sAddsubImm) ==> starts_with_word(spec_pretty_insn(insn, pc), "subs"@),
        (insn is MovzMovz32Movewide || insn is MovzMovz64Movewide) ==> starts_with_word(spec_pretty_insn(insn, pc), "movz"@),
        (insn is MovkMovk32Movewide || insn is MovkMovk64Movewide) ==> starts_with_word(spec_pretty_insn(insn, pc), "movk"@),
        (insn is LdrImmGenLdr32LdstImmpost || insn is LdrImmGenLdr64LdstImmpost || insn is LdrImmGenLdr32LdstImmpre || insn is LdrImmGenLdr64LdstImmpre || insn is LdrImmGenLdr32LdstPos || insn is LdrImmGenLdr64LdstPos) ==> starts_with_word(spec_pretty_insn(insn, pc), "ldr"@),
        (insn is StrImmGenStr32LdstImmpost || insn is StrImmGenStr64LdstImmpost || insn is StrImmGenStr32LdstImmpre || insn is StrImmGenStr64LdstImmpre || insn is StrImmGenStr32LdstPos || insn is StrImmGenStr64LdstPos) ==> starts_with_word(spec_pretty_insn(insn, pc), "str"@),
        (insn is LdpGenLdp64LdstpairPost || insn is LdpGenLdp64LdstpairPre || insn is LdpGenLdp64LdstpairOff) ==> starts_with_word(spec_pretty_insn(insn, pc), "ldp"@),
        (insn is StpGenStp64LdstpairPost || insn is StpGenStp64LdstpairPre || insn is StpGenStp64LdstpairOff) ==> starts_with_word(spec_pretty_insn(insn, pc), "stp"@),
        (insn is AdrAdrOnlyPcreladdr) ==> starts_with_word(spec_pretty_insn(insn, pc), "adr"@),
        (insn is AdrpAdrpOnlyPcreladdr) ==> starts_with_word(spec_pretty_insn(insn, pc), "adrp"@),
        (insn is BUncondBOnlyBranchImm) ==> starts_with_word(spec_pretty_insn(insn, pc), "b"@),
        (insn is BlBlOnlyBranchImm) ==> starts_with_word(spec_pretty_insn(insn, pc), "bl"@),
        (insn is BCondBOnlyCondbranch) ==> spec_pretty_insn(insn, pc).len() >= 2 && spec_pretty_insn(insn, pc).subrange(0, 2) == "b."@,
        (insn is OrrLogShiftOrr64LogShift) ==> starts_with_word(spec_pretty_insn(insn, pc), "orr"@),
        (insn is BrBr64BranchReg) ==> starts_with_word(spec_pretty_insn(insn, pc), "br"@),
        (insn is BlrBlr64BranchReg) ==> starts_with_word(spec_pretty_insn(insn, pc), "blr"@),
        insn matches A64Insn::RetRet64rBranchReg { rn } ==> (if rn.enc == 30 {
            spec_pretty_insn(insn, pc) == "ret"@
        } else {
            starts_with_word(spec_pretty_insn(insn, pc), "ret"@)
        }),
        (insn is NopNopHiHints) ==> spec_pretty_insn(insn, pc) == "nop"@,
        (insn is SvcSvcExException) ==> starts_with_word(spec_pretty_insn(insn, pc), "svc"@),
{
    reveal_strlit(" ");
    match insn {
        A64Insn::CbzCbz32Compbranch { .. } | A64Insn::CbzCbz64Compbranch { .. } => {
            reveal_strlit("cbz");
            assert(spec_pretty_insn(insn, pc).subrange(0, 4) =~= "cbz"@ + " "@);
        },
        A64Insn::CbnzCbnz32Compbranch { .. } | A64Insn::CbnzCbnz64Compbranch { .. } => {
            reveal_strlit("cbnz");
            assert(spec_pretty_insn(insn, pc).subrange(0, 5) =~= "cbnz"@ + " "@);
        },
        A64Insn::TbzTbzOnlyTestbranch { .. } => {
            reveal_strlit("tbz");
            assert(spec_pretty_insn(insn, pc).subrange(0, 4) =~= "tbz"@ + " "@);
        },
        A64Insn::TbnzTbnzOnlyTestbranch { .. } => {
            reveal_strlit("tbnz");
            assert(spec_pretty_insn(insn, pc).subrange(0, 5) =~= "tbnz"@ + " "@);
        },
        A64Insn::AddAddsubImmAdd32AddsubImm { .. } | A64Insn::AddAddsubImmAdd64AddsubImm { .. } => {
            reveal_strlit("add");
            assert(spec_pretty_insn(insn, pc).subrange(0, 4) =~= "add"@ + " "@);
        },
        A64Insn::SubAddsubImmSub32AddsubImm { .. } | A64Insn::SubAddsubImmSub64AddsubImm { .. } => {
            reveal_strlit("sub");
            assert(spec_pretty_insn(insn, pc).subrange(0, 4) =~= "sub"@ + " "@);
        },
        A64Insn::SubsAddsubImmSubs32sAddsubImm { .. } | A64Insn::SubsAddsubImmSubs64sAddsubImm { .. } => {
            reveal_strlit("subs");
            assert(spec_pretty_insn(insn, pc).subrange(0, 5) =~= "subs"@ + " "@);
        },
        A64Insn::MovzMovz32Movewide { .. } | A64Insn::MovzMovz64Movewide { .. } => {
            reveal_strlit("movz");
            assert(spec_pretty_insn(insn, pc).subrange(0, 5) =~= "movz"@ + " "@);
        },
        A64Insn::MovkMovk32Movewide { .. } | A64Insn::MovkMovk64Movewide { .. } => {
            reveal_strlit("movk");
            assert(spec_pretty_insn(insn, pc).subrange(0, 5) =~= "movk"@ + " "@);
        },
        A64Insn::LdrImmGenLdr32LdstImmpost { .. } | A64Insn::LdrImmGenLdr64LdstImmpost { .. } | A64Insn::LdrImmGenLdr32LdstImmpre { .. } | A64Insn::LdrImmGenLdr64LdstImmpre { .. } | A64Insn::LdrImmGenLdr32LdstPos { .. } | A64Insn::LdrImmGenLdr64LdstPos { .. } => {
            reveal_strlit("ldr");
            assert(spec_pretty_insn(insn, pc).subrange(0, 4) =~= "ldr"@ + " "@);
        },
        A64Insn::StrImmGenStr32LdstImmpost { .. } | A64Insn::StrImmGenStr64LdstImmpost { .. } | A64Insn::StrImmGenStr32LdstImmpre { .. } | A64Insn::StrImmGenStr64LdstImmpre { .. } | A64Insn::StrImmGenStr32LdstPos { .. } | A64Insn::StrImmGenStr64LdstPos { .. } => {
            reveal_strlit("str");
            assert(spec_pretty_insn(insn, pc).subrange(0, 4) =~= "str"@ + " "@);
        },
        A64Insn::LdpGenLdp64LdstpairPost { .. } | A64Insn::LdpGenLdp64LdstpairPre { .. } | A64Insn::LdpGenLdp64LdstpairOff { .. } => {
            reveal_strlit("ldp");
            assert(spec_pretty_insn(insn, pc).subrange(0, 4) =~= "ldp"@ + " "@);
        },
        A64Insn::StpGenStp64LdstpairPost { .. } | A64Insn::StpGenStp64LdstpairPre { .. } | A64Insn::StpGenStp64LdstpairOff { .. } => {
            reveal_strlit("stp");
            assert(spec_pretty_insn(insn, pc).subrange(0, 4) =~= "stp"@ + " "@);
        },
        A64Insn::AdrAdrOnlyPcreladdr { .. } => {
            reveal_strlit("adr");
            reveal_strlit(", <pc-relative>");
            assert(spec_pretty_insn(insn, pc).subrange(0, 4) =~= "adr"@ + " "@);
        },
        A64Insn::AdrpAdrpOnlyPcreladdr { .. } => {
            reveal_strlit("adrp");
            reveal_strlit(", <pc-relative>");
            assert(spec_pretty_insn(insn, pc).subrange(0, 5) =~= "adrp"@ + " "@);
        },
        A64Insn::BUncondBOnlyBranchImm { .. } => {
            reveal_strlit("b");
            reveal_strlit(" pc");
            assert(spec_pretty_insn(insn, pc).subrange(0, 2) =~= "b"@ + " "@);
        },
        A64Insn::BlBlOnlyBranchImm { .. } => {
            reveal_strlit("bl");
            reveal_strlit(" pc");
            assert(spec_pretty_insn(insn, pc).subrange(0, 3) =~= "bl"@ + " "@);
        },
        A64Insn::BCondBOnlyCondbranch { .. } => {
            reveal_strlit("b.");
            reveal_strlit(" pc");
            assert(spec_pretty_insn(insn, pc).subrange(0, 2) =~= "b."@);
        },
        A64Insn::OrrLogShiftOrr64LogShift { .. } => {
            reveal_strlit("orr");
            assert(spec_pretty_insn(insn, pc).subrange(0, 4) =~= "orr"@ + " "@);
        },
        A64Insn::BrBr64BranchReg { .. } => {
            reveal_strlit("br");
            assert(spec_pretty_insn(insn, pc).subrange(0, 3) =~= "br"@ + " "@);
        },
        A64Insn::BlrBlr64BranchReg { .. } => {
            reveal_strlit("blr");
            assert(spec_pretty_insn(insn, pc).subrange(0, 4) =~= "blr"@ + " "@);
        },
        A64Insn::RetRet64rBranchReg { rn } => {
            reveal_strlit("ret");
            if rn.enc != 30 {
                assert(spec_pretty_insn(insn, pc).subrange(0, 4) =~= "ret"@ + " "@);
            }
        },
        A64Insn::SvcSvcExException { .. } => {
            reveal_strlit("svc");
            reveal_strlit("svc ");
            assert(spec_pretty_insn(insn, pc).subrange(0, 4) =~= "svc"@ + " "@);
        },
        _ => {},
    }
}

} // verus!
