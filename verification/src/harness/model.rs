//! The machine state that the interpreter runs on: the general registers,
//! the stack pointer, the NZCV flags and a sparse byte memory.
use vstd::prelude::*;

use crate::shared::arm64::ir::{self, wrapping_offset};
use crate::shared::arm64::{A64Reg, A64Reg31Mode};
use crate::shared::trans::cfg::RuntimeExitReason;

verus! {

/// The condition flags.
#[derive(Clone, Copy, Debug, PartialEq, Eq, Structural)]
pub struct Flags {
    pub n: bool,
    pub z: bool,
    pub c: bool,
    pub v: bool,
}

/// Why a run of original code stopped.
#[derive(Clone, Copy, Debug, PartialEq, Eq, Structural)]
pub enum HaltReason {
    /// The next instruction lies past the end of the program.
    FellOffEnd,
    /// The instruction hands control to the runtime.
    RuntimeExit { reason: RuntimeExitReason },
}

/// A sparse byte memory: the bytes ever written, by address. Addresses
/// never written read as zero.
#[derive(Debug, PartialEq, Eq)]
pub struct ByteMemory {
    entries: Vec<(u64, u8)>,
}

/// The entries are in strictly increasing address order.
pub open spec fn sorted_entries(s: Seq<(u64, u8)>) -> bool {
    forall|i: int, j: int| 0 <= i < j < s.len() ==> s[i].0 < s[j].0
}

/// The address map that a sorted entry list holds.
pub open spec fn entries_map(s: Seq<(u64, u8)>) -> Map<u64, u8> {
    Map::new(
        |a: u64| exists|i: int| 0 <= i < s.len() && s[i].0 == a,
        |a: u64| s[choose|i: int| 0 <= i < s.len() && s[i].0 == a].1,
    )
}

/// In a sorted entry list, the entry at `i` is what the map holds at its address.
pub proof fn lemma_entries_map_at(s: Seq<(u64, u8)>, i: int)
    requires
        sorted_entries(s),
        0 <= i < s.len(),
    ensures
        entries_map(s).contains_key(s[i].0),
        entries_map(s)[s[i].0] == s[i].1,
{
    let a = s[i].0;
    assert(exists|k: int| 0 <= k < s.len() && s[k].0 == a);
    let j = choose|k: int| 0 <= k < s.len() && s[k].0 == a;
    if j < i {
        assert(s[j].0 < s[i].0);
    } else if i < j {
        assert(s[i].0 < s[j].0);
    }
}

/// An address that no entry holds is outside the map.
pub proof fn lemma_entries_map_absent(s: Seq<(u64, u8)>, a: u64)
    requires
        forall|i: int| 0 <= i < s.len() ==> s[i].0 != a,
    ensures
        !entries_map(s).contains_key(a),
{
}

impl View for ByteMemory {
    type V = Map<u64, u8>;

    closed spec fn view(&self) -> Map<u64, u8> {
        entries_map(self.entries@)
    }
}

impl ByteMemory {
    #[verifier::type_invariant]
    closed spec fn sorted(self) -> bool {
        sorted_entries(self.entries@)
    }

    /// The memory is finite.
    pub closed spec fn spec_addr_count(&self) -> nat {
        self.entries@.len()
    }

    pub fn new() -> (r: ByteMemory)
        ensures
            r@ == Map::<u64, u8>::empty(),
    {
        let r = ByteMemory { entries: Vec::new() };
        assert(r@ =~= Map::<u64, u8>::empty());
        r
    }

    /// The index of the first entry at or above `addr`.
    fn position(&self, addr: u64) -> (r: usize)
        ensures
            r <= self.entries@.len(),
            forall|i: int| 0 <= i < r ==> self.entries@[i].0 < addr,
            r < self.entries@.len() ==> self.entries@[r as int].0 >= addr,
    {
        proof {
            use_type_invariant(self);
        }
        let mut i: usize = 0;
        while i < self.entries.len()
            invariant
                i <= self.entries@.len(),
                forall|k: int| 0 <= k < i ==> self.entries@[k].0 < addr,
            decreases self.entries@.len() - i,
        {
            if self.entries[i].0 >= addr {
                return i;
            }
            i = i + 1;
        }
        i
    }

    /// The byte stored at `addr`, if one was ever written there.
    pub fn get(&self, addr: u64) -> (r: Option<u8>)
        ensures
            r == (if self@.contains_key(addr) {
                Some(self@[addr])
            } else {
                None
            }),
    {
        proof {
            use_type_invariant(self);
        }
        let p = self.position(addr);
        if p < self.entries.len() && self.entries[p].0 == addr {
            proof {
                lemma_entries_map_at(self.entries@, p as int);
            }
            Some(self.entries[p].1)
        } else {
            proof {
                assert forall|i: int| 0 <= i < self.entries@.len() implies self.entries@[i].0
                    != addr by {
                    if i > p {
                        assert(self.entries@[p as int].0 < self.entries@[i].0);
                    }
                }
                lemma_entries_map_absent(self.entries@, addr);
            }
            None
        }
    }

    /// Stores `value` at `addr`.
    pub fn insert(&mut self, addr: u64, value: u8)
        ensures
            final(self)@ == old(self)@.insert(addr, value),
    {
        proof {
            use_type_invariant(&*self);
        }
        let p = self.position(addr);
        let ghost old_entries = self.entries@;
        let mut entries = Vec::new();
        std::mem::swap(&mut entries, &mut self.entries);
        if p < entries.len() && entries[p].0 == addr {
            entries.set(p, (addr, value));
        } else {
            entries.insert(p, (addr, value));
        }
        let ghost new_entries = entries@;
        assert(sorted_entries(new_entries)) by {
            assert forall|i: int, j: int| 0 <= i < j < new_entries.len() implies new_entries[i].0
                < new_entries[j].0 by {
                if old_entries.len() < new_entries.len() {
                    if j < p {
                    } else if j == p {
                    } else if i < p {
                        assert(old_entries[i].0 < addr);
                    } else if i == p {
                        assert(old_entries[j - 1].0 >= addr);
                        if j - 1 > p {
                            assert(old_entries[p as int].0 < old_entries[j - 1].0);
                        }
                    } else {
                        assert(old_entries[i - 1].0 < old_entries[j - 1].0);
                    }
                }
            }
        }
        assert(entries_map(new_entries) =~= entries_map(old_entries).insert(addr, value)) by {
            assert forall|b: u64| #[trigger] entries_map(new_entries).contains_key(b)
                == entries_map(old_entries).insert(addr, value).contains_key(b) by {
                if entries_map(new_entries).contains_key(b) {
                    let i = choose|i: int| 0 <= i < new_entries.len() && new_entries[i].0 == b;
                    if b != addr {
                        if old_entries.len() < new_entries.len() && i > p {
                            assert(old_entries[i - 1].0 == b);
                        } else {
                            assert(old_entries[i].0 == b);
                        }
                    }
                }
                if entries_map(old_entries).contains_key(b) && b != addr {
                    let i = choose|i: int| 0 <= i < old_entries.len() && old_entries[i].0 == b;
                    if old_entries.len() < new_entries.len() && i >= p {
                        assert(new_entries[i + 1].0 == b);
                    } else {
                        assert(new_entries[i].0 == b);
                    }
                }
                if b == addr {
                    assert(new_entries[p as int].0 == addr);
                }
            }
            assert forall|b: u64| #[trigger] entries_map(new_entries).contains_key(b) implies entries_map(
                new_entries,
            )[b] == entries_map(old_entries).insert(addr, value)[b] by {
                if b == addr {
                    lemma_entries_map_at(new_entries, p as int);
                } else {
                    let i = choose|i: int| 0 <= i < new_entries.len() && new_entries[i].0 == b;
                    lemma_entries_map_at(new_entries, i);
                    if old_entries.len() < new_entries.len() && i > p {
                        lemma_entries_map_at(old_entries, i - 1);
                    } else {
                        lemma_entries_map_at(old_entries, i);
                    }
                }
            }
        }
        self.entries = entries;
    }

    /// The addresses that hold a byte, in increasing order.
    pub fn addrs(&self) -> (r: Vec<u64>)
        ensures
            forall|i: int, j: int| 0 <= i < j < r@.len() ==> r@[i] < r@[j],
            forall|a: u64| self@.contains_key(a) <==> r@.contains(a),
    {
        proof {
            use_type_invariant(self);
        }
        let mut r: Vec<u64> = Vec::new();
        let mut i: usize = 0;
        while i < self.entries.len()
            invariant
                i <= self.entries@.len(),
                sorted_entries(self.entries@),
                r@.len() == i,
                forall|k: int| 0 <= k < i ==> r@[k] == self.entries@[k].0,
            decreases self.entries@.len() - i,
        {
            r.push(self.entries[i].0);
            i = i + 1;
        }
        proof {
            assert forall|a: u64| self@.contains_key(a) <==> r@.contains(a) by {
                if self@.contains_key(a) {
                    let k = choose|k: int| 0 <= k < self.entries@.len() && self.entries@[k].0 == a;
                    assert(r@[k] == a);
                }
                if r@.contains(a) {
                    let k = choose|k: int| 0 <= k < r@.len() && r@[k] == a;
                    assert(self.entries@[k].0 == a);
                }
            }
        }
        r
    }

    /// A copy of the memory.
    pub fn copy(&self) -> (r: ByteMemory)
        ensures
            r@ == self@,
    {
        proof {
            use_type_invariant(self);
        }
        let mut entries: Vec<(u64, u8)> = Vec::new();
        let mut i: usize = 0;
        while i < self.entries.len()
            invariant
                i <= self.entries@.len(),
                entries@ == self.entries@.subrange(0, i as int),
            decreases self.entries@.len() - i,
        {
            entries.push(self.entries[i]);
            i = i + 1;
        }
        assert(entries@ =~= self.entries@);
        ByteMemory { entries }
    }

    /// The memory without the bytes whose address lies in one of the ranges.
    pub fn without_ranges(&self, ranges: &[(u64, u64)]) -> (r: ByteMemory)
        ensures
            r@ == without_ranges(self@, ranges@),
    {
        proof {
            use_type_invariant(self);
        }
        let mut r = ByteMemory::new();
        let mut i: usize = 0;
        while i < self.entries.len()
            invariant
                i <= self.entries@.len(),
                sorted_entries(self.entries@),
                r@ == Map::new(
                    |a: u64| (exists|k: int| 0 <= k < i && self.entries@[k].0 == a) && !in_ranges(a, ranges@),
                    |a: u64| self@[a],
                ),
            decreases self.entries@.len() - i,
        {
            let (addr, b) = self.entries[i];
            let ghost before = r@;
            if !addr_in_ranges(addr, ranges) {
                r.insert(addr, b);
            }
            proof {
                lemma_entries_map_at(self.entries@, i as int);
                let target = Map::new(
                    |a: u64| (exists|k: int| 0 <= k < i + 1 && self.entries@[k].0 == a) && !in_ranges(a, ranges@),
                    |a: u64| self@[a],
                );
                assert forall|a: u64| #[trigger] r@.contains_key(a) == target.contains_key(a) by {
                    if target.contains_key(a) {
                        let k = choose|k: int| 0 <= k < i + 1 && self.entries@[k].0 == a;
                        if k < i {
                            assert(before.contains_key(a));
                        }
                    }
                    if before.contains_key(a) {
                        let k = choose|k: int| 0 <= k < i && self.entries@[k].0 == a;
                        assert(0 <= k < i + 1 && self.entries@[k].0 == a);
                    }
                }
                assert(r@ =~= target);
            }
            i = i + 1;
        }
        proof {
            assert forall|a: u64| #[trigger] r@.contains_key(a) == without_ranges(self@, ranges@).contains_key(a) by {
                if self@.contains_key(a) {
                    let k = choose|k: int| 0 <= k < self.entries@.len() && self.entries@[k].0 == a;
                    assert(0 <= k < i && self.entries@[k].0 == a);
                }
            }
            assert(r@ =~= without_ranges(self@, ranges@));
        }
        r
    }
}


/// `a` lies in one of the half-open ranges.
pub open spec fn in_ranges(a: u64, ranges: Seq<(u64, u64)>) -> bool {
    exists|k: int| 0 <= k < ranges.len() && ranges[k].0 <= a && a < ranges[k].1
}

/// Whether `addr` lies in one of the half-open ranges.
pub fn addr_in_ranges(addr: u64, ranges: &[(u64, u64)]) -> (r: bool)
    ensures
        r == in_ranges(addr, ranges@),
{
    let mut k: usize = 0;
    while k < ranges.len()
        invariant
            k <= ranges@.len(),
            forall|m: int| 0 <= m < k ==> !(ranges@[m].0 <= addr && addr < ranges@[m].1),
        decreases ranges@.len() - k,
    {
        if ranges[k].0 <= addr && addr < ranges[k].1 {
            return true;
        }
        k = k + 1;
    }
    false
}

/// The map without the addresses in the ranges.
pub open spec fn without_ranges(m: Map<u64, u8>, ranges: Seq<(u64, u64)>) -> Map<u64, u8> {
    Map::new(|a: u64| m.contains_key(a) && !in_ranges(a, ranges), |a: u64| m[a])
}

/// The byte at `a`, zero when none was written.
pub open spec fn byte_or_zero(m: Map<u64, u8>, a: u64) -> u8 {
    if m.contains_key(a) {
        m[a]
    } else {
        0
    }
}

/// The byte at `a + k`, addresses wrapping at 2^64.
pub open spec fn byte_at(m: Map<u64, u8>, a: u64, k: int) -> int {
    byte_or_zero(m, ir::wrap_add(a, k)) as int
}

/// The little-endian 32-bit value at `a`.
pub open spec fn mem_u32(m: Map<u64, u8>, a: u64) -> u32 {
    (byte_at(m, a, 0) + 256 * (byte_at(m, a, 1) + 256 * (byte_at(m, a, 2) + 256 * byte_at(m, a, 3)))) as u32
}

/// The little-endian 64-bit value at `a`.
pub open spec fn mem_u64(m: Map<u64, u8>, a: u64) -> u64 {
    (byte_at(m, a, 0) + 256 * (byte_at(m, a, 1) + 256 * (byte_at(m, a, 2) + 256 * (byte_at(m, a, 3)
        + 256 * (byte_at(m, a, 4) + 256 * (byte_at(m, a, 5) + 256 * (byte_at(m, a, 6) + 256
        * byte_at(m, a, 7)))))))) as u64
}

/// Byte `k` (from the least significant) of `v`.
pub open spec fn byte_of(v: u64, k: nat) -> u8
    decreases k,
{
    if k == 0 {
        (v % 256) as u8
    } else {
        byte_of(v / 256, (k - 1) as nat)
    }
}

/// The memory with the low `n` bytes of `v` stored little-endian from `a`.
pub open spec fn store_le(m: Map<u64, u8>, a: u64, v: u64, n: nat) -> Map<u64, u8>
    decreases n,
{
    if n == 0 {
        m
    } else {
        store_le(m, a, v, (n - 1) as nat).insert(ir::wrap_add(a, n - 1), byte_of(v, (n - 1) as nat))
    }
}

/// The state as a value: registers x0..x30, the stack pointer, the flags and
/// the memory map.
pub struct MachineView {
    pub x: Seq<u64>,
    pub sp: u64,
    pub flags: Flags,
    pub mem: Map<u64, u8>,
}

impl MachineView {
    /// General register `r`; x31 and above read as zero.
    pub open spec fn x_at(self, r: int) -> u64 {
        if 0 <= r < 31 {
            self.x[r]
        } else {
            0
        }
    }

    /// The value of a register operand: the stack pointer for register 31
    /// in stack-pointer mode, zero for the zero register.
    pub open spec fn reg(self, reg: A64Reg) -> u64 {
        if reg.enc == 31 && reg.reg31 == A64Reg31Mode::Sp {
            self.sp
        } else {
            self.x_at(reg.enc as int)
        }
    }

    pub open spec fn with_x(self, r: int, v: u64) -> MachineView {
        if 0 <= r < 31 {
            MachineView { x: self.x.update(r, v), ..self }
        } else {
            self
        }
    }

    /// The state after writing a register operand; writes to the zero
    /// register are dropped.
    pub open spec fn with_reg(self, reg: A64Reg, v: u64) -> MachineView {
        if reg.enc == 31 && reg.reg31 == A64Reg31Mode::Sp {
            MachineView { sp: v, ..self }
        } else {
            self.with_x(reg.enc as int, v)
        }
    }

    pub open spec fn with_flags(self, flags: Flags) -> MachineView {
        MachineView { flags, ..self }
    }

    pub open spec fn with_mem(self, mem: Map<u64, u8>) -> MachineView {
        MachineView { mem, ..self }
    }
}

/// The machine state.
#[derive(Debug, PartialEq, Eq)]
pub struct MachineState {
    x: [u64; 31],
    sp: u64,
    pub flags: Flags,
    memory: ByteMemory,
}

impl View for MachineState {
    type V = MachineView;

    closed spec fn view(&self) -> MachineView {
        MachineView { x: self.x@, sp: self.sp, flags: self.flags, mem: self.memory@ }
    }
}

impl MachineState {
    /// All registers zero, flags clear, memory empty.
    pub fn new() -> (r: MachineState)
        ensures
            r@.x.len() == 31,
            forall|i: int| 0 <= i < 31 ==> r@.x[i] == 0,
            r@.sp == 0,
            r@.flags == (Flags { n: false, z: false, c: false, v: false }),
            r@.mem == Map::<u64, u8>::empty(),
    {
        MachineState {
            x: [0u64; 31],
            sp: 0,
            flags: Flags { n: false, z: false, c: false, v: false },
            memory: ByteMemory::new(),
        }
    }

    /// Every state has 31 general registers.
    pub proof fn lemma_x_len(&self)
        ensures
            self@.x.len() == 31,
    {
    }

    /// General register `reg` (x31 reads as zero).
    pub fn read_x(&self, reg: u8) -> (r: u64)
        ensures
            r == self@.x_at(reg as int),
    {
        if reg < 31 {
            self.x[reg as usize]
        } else {
            0
        }
    }

    /// Writes general register `reg`; a write to x31 is dropped.
    pub fn write_x(&mut self, reg: u8, value: u64)
        ensures
            final(self)@ == old(self)@.with_x(reg as int, value),
    {
        if reg < 31 {
            self.x[reg as usize] = value;
        }
    }

    pub fn flags(&self) -> (r: Flags)
        ensures
            r == self@.flags,
    {
        self.flags
    }

    pub fn set_flags(&mut self, flags: Flags)
        ensures
            final(self)@ == old(self)@.with_flags(flags),
    {
        self.flags = flags;
    }

    pub fn sp(&self) -> (r: u64)
        ensures
            r == self@.sp,
    {
        self.sp
    }

    pub fn set_sp(&mut self, value: u64)
        ensures
            final(self)@ == (MachineView { sp: value, ..old(self)@ }),
    {
        self.sp = value;
    }

    /// The value of a register operand.
    pub fn read_reg(&self, reg: A64Reg) -> (r: u64)
        ensures
            r == self@.reg(reg),
    {
        if reg.enc == 31 && reg.reg31 == A64Reg31Mode::Sp {
            self.sp
        } else {
            self.read_x(reg.enc)
        }
    }

    /// Writes a register operand.
    pub fn write_reg(&mut self, reg: A64Reg, value: u64)
        ensures
            final(self)@ == old(self)@.with_reg(reg, value),
    {
        if reg.enc == 31 && reg.reg31 == A64Reg31Mode::Sp {
            self.sp = value;
        } else {
            self.write_x(reg.enc, value);
        }
    }

    /// The memory.
    pub fn memory(&self) -> (r: &ByteMemory)
        ensures
            r@ == self@.mem,
    {
        &self.memory
    }

    fn byte(&self, addr: u64, k: u64) -> (r: u64)
        requires
            k < 8,
        ensures
            r as int == byte_at(self@.mem, addr, k as int),
    {
        match self.memory.get(wrapping_offset(addr, k as i64)) {
            Some(b) => b as u64,
            None => 0,
        }
    }

    /// The little-endian 32-bit value at `addr`.
    pub fn read_u32(&self, addr: u64) -> (r: u32)
        ensures
            r == mem_u32(self@.mem, addr),
    {
        let b0 = self.byte(addr, 0);
        let b1 = self.byte(addr, 1);
        let b2 = self.byte(addr, 2);
        let b3 = self.byte(addr, 3);
        (b0 + 256 * (b1 + 256 * (b2 + 256 * b3))) as u32
    }

    /// The little-endian 64-bit value at `addr`.
    pub fn read_u64(&self, addr: u64) -> (r: u64)
        ensures
            r == mem_u64(self@.mem, addr),
    {
        let b0 = self.byte(addr, 0);
        let b1 = self.byte(addr, 1);
        let b2 = self.byte(addr, 2);
        let b3 = self.byte(addr, 3);
        let b4 = self.byte(addr, 4);
        let b5 = self.byte(addr, 5);
        let b6 = self.byte(addr, 6);
        let b7 = self.byte(addr, 7);
        b0 + 256 * (b1 + 256 * (b2 + 256 * (b3 + 256 * (b4 + 256 * (b5 + 256 * (b6 + 256 * b7))))))
    }

    /// Stores the low `n` bytes of `value` little-endian from `addr`.
    fn store(&mut self, addr: u64, value: u64, n: u64)
        requires
            n <= 8,
        ensures
            final(self)@ == old(self)@.with_mem(store_le(old(self)@.mem, addr, value, n as nat)),
    {
        let mut k: u64 = 0;
        let mut rest = value;
        assert(pow256(0) == 1);
        while k < n
            invariant
                k <= n,
                n <= 8,
                rest as int == value as int / pow256(k as nat) as int,
                self@ == old(self)@.with_mem(store_le(old(self)@.mem, addr, value, k as nat)),
            decreases n - k,
        {
            proof {
                lemma_byte_of_shift(value, k as nat);
                lemma_pow256_step(k as nat);
            }
            let b = (rest % 256) as u8;
            self.memory.insert(wrapping_offset(addr, k as i64), b);
            rest = rest / 256;
            k = k + 1;
            proof {
                vstd::arithmetic::div_mod::lemma_div_denominator(value as int, pow256((k - 1) as nat) as int, 256);
            }
        }
    }

    /// Stores `value` as four little-endian bytes at `addr`.
    pub fn write_u32(&mut self, addr: u64, value: u32)
        ensures
            final(self)@ == old(self)@.with_mem(store_le(old(self)@.mem, addr, value as u64, 4)),
    {
        self.store(addr, value as u64, 4);
    }

    /// Stores `value` as eight little-endian bytes at `addr`.
    pub fn write_u64(&mut self, addr: u64, value: u64)
        ensures
            final(self)@ == old(self)@.with_mem(store_le(old(self)@.mem, addr, value, 8)),
    {
        self.store(addr, value, 8);
    }

    /// Seeds memory before a run: stores `value` as eight little-endian bytes.
    pub fn seed_memory_u64(&mut self, addr: u64, value: u64)
        ensures
            final(self)@ == old(self)@.with_mem(store_le(old(self)@.mem, addr, value, 8)),
    {
        self.store(addr, value, 8);
    }

    /// A copy of the state.
    pub fn copy(&self) -> (r: MachineState)
        ensures
            r@ == self@,
    {
        MachineState { x: self.x, sp: self.sp, flags: self.flags, memory: self.memory.copy() }
    }

    /// The state with the bytes in the ranges dropped from memory.
    pub fn without_memory_ranges(&self, ranges: &[(u64, u64)]) -> (r: MachineState)
        ensures
            r@ == self@.with_mem(without_ranges(self@.mem, ranges@)),
    {
        MachineState { x: self.x, sp: self.sp, flags: self.flags, memory: self.memory.without_ranges(ranges) }
    }
}

impl Clone for MachineState {
    fn clone(&self) -> (r: MachineState)
        ensures
            r@ == self@,
    {
        self.copy()
    }
}

/// 256 to the power `k`.
pub open spec fn pow256(k: nat) -> nat
    decreases k,
{
    if k == 0 {
        1
    } else {
        256 * pow256((k - 1) as nat)
    }
}

pub proof fn lemma_pow256_step(k: nat)
    ensures
        pow256(k + 1) == 256 * pow256(k),
        pow256(k) >= 1,
    decreases k,
{
    if k > 0 {
        lemma_pow256_step((k - 1) as nat);
    }
}

/// Byte `k` of `v` is the low byte of `v / 256^k`.
pub proof fn lemma_byte_of_shift(v: u64, k: nat)
    ensures
        byte_of(v, k) == ((v as int / pow256(k) as int) % 256) as u8,
    decreases k,
{
    if k > 0 {
        let p = pow256((k - 1) as nat) as int;
        lemma_byte_of_shift(v / 256, (k - 1) as nat);
        lemma_pow256_step((k - 1) as nat);
        assert(pow256(k) == 256 * p);
        vstd::arithmetic::div_mod::lemma_div_denominator(v as int, 256, p);
        assert((v / 256) as int == v as int / 256);
        assert(((v / 256) as int / p) == v as int / pow256(k) as int);
    } else {
        assert(pow256(0) == 1);
        assert(v as int / 1 == v as int) by (nonlinear_arith);
    }
}

} // verus!
