//! Control-flow discovery: the basic blocks reachable from the entry of a
//! request, each a straight run of decoded instructions ending in a branch,
//! a runtime exit, or a fall-through into another block.
use vstd::prelude::*;

use super::arm64::{decode_word, DecodeError, DecodedInsn};
use super::input::{CodeProvider, CodeReadError, TranslationRequest};
use crate::shared::arm64::{codec, ir, A64Insn};
use crate::shared::platform::SharedAllocError;

verus! {

/// Why translated code hands control back to the runtime.
#[derive(Clone, Copy, Debug, PartialEq, Eq, Structural)]
pub enum RuntimeExitReason {
    Bl { target_pc: u64, resume_pc: u64 },
    Blr { target_reg: u8, resume_pc: u64 },
    Br { target_reg: u8 },
    Ret { lr_reg: u8 },
    Svc { imm16: u16, resume_pc: u64 },
    Unsupported,
}

/// How a basic block ends.
#[derive(Clone, Copy, Debug, PartialEq, Eq, Structural)]
pub enum BlockTerminator {
    Fallthrough { next_pc: Option<u64> },
    Branch { target_pc: u64 },
    CondBranch { taken_pc: u64, fallthrough_pc: u64 },
    RuntimeExit { reason: RuntimeExitReason },
}

/// A basic block over the half-open pc range `[start_addr, end_addr)`.
#[derive(Debug, PartialEq, Eq)]
pub struct BasicBlock {
    pub start_addr: u64,
    pub end_addr: u64,
    pub insns: Vec<DecodedInsn>,
    pub terminator: BlockTerminator,
}

/// The blocks reachable from `entry_pc`.
#[derive(Debug, PartialEq, Eq)]
pub struct Cfg {
    pub entry_pc: u64,
    pub blocks: Vec<BasicBlock>,
}

#[derive(Clone, Copy, Debug, PartialEq, Eq, Structural)]
pub enum CfgError {
    CodeRead(CodeReadError),
    Decode(DecodeError),
    Alloc(SharedAllocError),
    EmptyBlock { start_addr: u64 },
}

/// The little-endian code word at `pc`, if the code holds its four bytes.
pub open spec fn code_word(code: Map<u64, u8>, pc: u64) -> Option<u32> {
    if code.contains_key(ir::wrap_add(pc, 0)) && code.contains_key(ir::wrap_add(pc, 1))
        && code.contains_key(ir::wrap_add(pc, 2)) && code.contains_key(ir::wrap_add(pc, 3)) {
        Some(
            (code[ir::wrap_add(pc, 0)] as int + 256 * (code[ir::wrap_add(pc, 1)] as int + 256 * (
            code[ir::wrap_add(pc, 2)] as int + 256 * code[ir::wrap_add(pc, 3)] as int))) as u32,
        )
    } else {
        None
    }
}

/// `d` is the instruction the code holds at `pc`.
pub open spec fn decoded_at(code: Map<u64, u8>, pc: u64, d: DecodedInsn) -> bool {
    &&& d.pc == pc
    &&& code_word(code, pc) == Some(d.word)
    &&& codec::spec_decode_word(d.word) == Some(d.insn)
}

/// The instruction neither branches nor leaves for the runtime.
pub open spec fn straight(d: DecodedInsn) -> bool {
    &&& d.insn.spec_direct_branch_target(d.pc) is None
    &&& d.insn.spec_runtime_exit_reason(d.pc) is None
    &&& d.insn.spec_conditional_targets(d.pc) is None
}

/// The terminator says how the block's last instruction ends it.
pub open spec fn terminator_ok(t: BlockTerminator, last: DecodedInsn, end: u64) -> bool {
    match t {
        BlockTerminator::Branch { target_pc } => last.insn.spec_direct_branch_target(last.pc) == Some(target_pc),
        BlockTerminator::RuntimeExit { reason } => last.insn.spec_direct_branch_target(last.pc) is None
            && last.insn.spec_runtime_exit_reason(last.pc) == Some(reason),
        BlockTerminator::CondBranch { taken_pc, fallthrough_pc } => last.insn.spec_direct_branch_target(last.pc) is None
            && last.insn.spec_runtime_exit_reason(last.pc) is None && last.insn.spec_conditional_targets(last.pc)
            == Some((taken_pc, fallthrough_pc)),
        BlockTerminator::Fallthrough { next_pc } => straight(last) && (next_pc == Some(end) || next_pc is None),
    }
}

/// A block holds the code's instructions from its start, one per word, only
/// its last one may branch, and its terminator matches that last one.
pub open spec fn block_ok(b: BasicBlock, code: Map<u64, u8>) -> bool {
    let n = b.insns@.len() as int;
    &&& 1 <= n <= 0x4000_0000_0000_0000
    &&& b.end_addr == ir::wrap_add(b.start_addr, 4 * n)
    &&& forall|k: int| 0 <= k < n ==> decoded_at(code, ir::wrap_add(b.start_addr, 4 * k), #[trigger] b.insns@[k])
    &&& forall|k: int| 0 <= k < n - 1 ==> straight(#[trigger] b.insns@[k])
    &&& terminator_ok(b.terminator, b.insns@[n - 1], b.end_addr)
}

/// Some block starts at `pc`.
pub open spec fn has_start(blocks: Seq<BasicBlock>, pc: u64) -> bool {
    exists|i: int| 0 <= i < blocks.len() && #[trigger] blocks[i].start_addr == pc
}

pub open spec fn distinct_starts(blocks: Seq<BasicBlock>) -> bool {
    forall|i: int, j: int| 0 <= i < j < blocks.len() ==> blocks[i].start_addr != blocks[j].start_addr
}

/// The blocks are well formed, start at distinct addresses, and every start
/// lies a whole number of words from `entry`.
pub open spec fn blocks_ok(blocks: Seq<BasicBlock>, code: Map<u64, u8>, entry: u64) -> bool {
    &&& forall|i: int| 0 <= i < blocks.len() ==> block_ok(#[trigger] blocks[i], code)
    &&& forall|i: int| 0 <= i < blocks.len() ==> (#[trigger] blocks[i].start_addr) % 4 == entry % 4
    &&& distinct_starts(blocks)
}

/// A well-formed control-flow graph of the code from `entry`.
pub open spec fn cfg_ok(cfg: Cfg, code: Map<u64, u8>, entry: u64) -> bool {
    &&& cfg.entry_pc == entry
    &&& blocks_ok(cfg.blocks@, code, entry)
    &&& has_start(cfg.blocks@, entry)
    &&& cfg.blocks@.len() > 0
    &&& cfg.blocks@[0].start_addr == entry
    &&& closed_under_successors(cfg.blocks@)
}

/// Every address a block's terminator leads to starts a block.
pub open spec fn closed_under_successors(blocks: Seq<BasicBlock>) -> bool {
    forall|q: u64| leads_from(blocks, q) ==> has_start(blocks, q)
}

/// A word the code holds that decodes to no instruction of the subset.
pub open spec fn decode_refused(e: CfgError, code: Map<u64, u8>) -> bool {
    &&& e matches CfgError::Decode(DecodeError::UnsupportedWord { pc, word })
    &&& code_word(code, e->Decode_0->pc) == Some(e->Decode_0->word)
    &&& codec::spec_decode_word(e->Decode_0->word) is None
}

/// Some block's terminator leads to `q`.
pub open spec fn leads_from(blocks: Seq<BasicBlock>, q: u64) -> bool {
    exists|i: int| 0 <= i < blocks.len() && #[trigger] leads_to(blocks[i].terminator, q)
}

/// The terminator leads to `pc`: a fall-through to a known address, a
/// branch target, either way of a conditional branch.
pub open spec fn leads_to(t: BlockTerminator, pc: u64) -> bool {
    match t {
        BlockTerminator::Fallthrough { next_pc: Some(next) } => next == pc,
        BlockTerminator::Fallthrough { next_pc: None } => false,
        BlockTerminator::Branch { target_pc } => target_pc == pc,
        BlockTerminator::CondBranch { taken_pc, fallthrough_pc } => taken_pc == pc || fallthrough_pc == pc,
        BlockTerminator::RuntimeExit { .. } => false,
    }
}

/// Adding a multiple of four keeps an address's residue modulo four.
pub proof fn lemma_wrap_add_mod4(pc: u64, d: int)
    requires
        d % 4 == 0,
    ensures
        ir::wrap_add(pc, d) % 4 == pc % 4,
{
    let s = pc as int + d;
    vstd::arithmetic::div_mod::lemma_mod_mod(s, 4, 0x4000_0000_0000_0000);
    vstd::arithmetic::div_mod::lemma_add_mod_noop(pc as int, d, 4);
}

/// Composing offsets from a start address.
pub proof fn lemma_wrap_add_add(a: u64, d: int, e: int)
    ensures
        ir::wrap_add(ir::wrap_add(a, d), e) == ir::wrap_add(a, d + e),
{
    vstd::arithmetic::div_mod::lemma_add_mod_noop(a as int + d, e, 0x1_0000_0000_0000_0000);
    vstd::arithmetic::div_mod::lemma_mod_twice(a as int + d, 0x1_0000_0000_0000_0000);
    vstd::arithmetic::div_mod::lemma_add_mod_noop((a as int + d) % 0x1_0000_0000_0000_0000, e, 0x1_0000_0000_0000_0000);
}

fn contains_pc(v: &Vec<u64>, pc: u64) -> (r: bool)
    ensures
        r == v@.contains(pc),
{
    let mut i: usize = 0;
    while i < v.len()
        invariant
            i <= v@.len(),
            forall|k: int| 0 <= k < i ==> v@[k] != pc,
        decreases v@.len() - i,
    {
        if v[i] == pc {
            return true;
        }
        i = i + 1;
    }
    false
}

fn enqueue_block(pc: u64, pending: &mut Vec<u64>)
    ensures
        final(pending)@ == (if old(pending)@.contains(pc) {
            old(pending)@
        } else {
            old(pending)@.push(pc)
        }),
{
    if !contains_pc(pending, pc) {
        pending.push(pc);
    }
}

fn read_insn<P: CodeProvider>(code: &P, pc: u64) -> (r: Result<DecodedInsn, CfgError>)
    ensures
        r matches Ok(d) ==> decoded_at(code.spec_code(), pc, d),
        r matches Err(e) ==> e is CodeRead || (decode_refused(e, code.spec_code()) && e->Decode_0->pc == pc),
{
    let mut bytes = [0u8; 4];
    match code.read_exact(pc, &mut bytes) {
        Ok(()) => {},
        Err(e) => {
            return Err(CfgError::CodeRead(e));
        },
    }
    let word = (bytes[0] as u32) + 256 * ((bytes[1] as u32) + 256 * ((bytes[2] as u32) + 256 * (bytes[3] as u32)));
    match decode_word(word, pc) {
        Ok(d) => Ok(d),
        Err(e) => Err(CfgError::Decode(e)),
    }
}

fn block_starting_at(pc: u64, blocks: &Vec<BasicBlock>) -> (r: bool)
    ensures
        r == has_start(blocks@, pc),
{
    let mut i: usize = 0;
    while i < blocks.len()
        invariant
            i <= blocks@.len(),
            forall|k: int| 0 <= k < i ==> blocks@[k].start_addr != pc,
        decreases blocks@.len() - i,
    {
        if blocks[i].start_addr == pc {
            return true;
        }
        i = i + 1;
    }
    false
}

/// The part of block `b` before word `offset`, now falling through to `pc`.
pub open spec fn split_head(b: BasicBlock, offset: int, pc: u64) -> BasicBlock {
    BasicBlock {
        start_addr: b.start_addr,
        end_addr: pc,
        insns: b.insns,
        terminator: BlockTerminator::Fallthrough { next_pc: Some(pc) },
    }
}

/// The two halves of a well-formed block split at word `offset` are well formed.
proof fn lemma_split_halves_ok(b: BasicBlock, head: Seq<DecodedInsn>, tail: Seq<DecodedInsn>, offset: int, pc: u64, code: Map<u64, u8>)
    requires
        block_ok(b, code),
        1 <= offset < b.insns@.len(),
        pc as int == b.start_addr as int + 4 * offset,
        pc < b.end_addr,
        head == b.insns@.subrange(0, offset),
        tail == b.insns@.subrange(offset, b.insns@.len() as int),
    ensures
        forall|k: int| 0 <= k < head.len() ==> decoded_at(code, ir::wrap_add(b.start_addr, 4 * k), #[trigger] head[k]),
        forall|k: int| 0 <= k < head.len() ==> straight(#[trigger] head[k]),
        forall|k: int| 0 <= k < tail.len() ==> decoded_at(code, ir::wrap_add(pc, 4 * k), #[trigger] tail[k]),
        forall|k: int| 0 <= k < tail.len() - 1 ==> straight(#[trigger] tail[k]),
        tail[tail.len() - 1] == b.insns@[b.insns@.len() - 1],
        b.end_addr as int == pc as int + 4 * tail.len(),
{
    let n = b.insns@.len() as int;
    assert(b.end_addr as int == b.start_addr as int + 4 * n);
    assert forall|k: int| 0 <= k < head.len() implies decoded_at(code, ir::wrap_add(b.start_addr, 4 * k), #[trigger] head[k]) by {
        assert(head[k] == b.insns@[k]);
    }
    assert forall|k: int| 0 <= k < head.len() implies straight(#[trigger] head[k]) by {
        assert(head[k] == b.insns@[k]);
    }
    assert forall|k: int| 0 <= k < tail.len() implies decoded_at(code, ir::wrap_add(pc, 4 * k), #[trigger] tail[k]) by {
        assert(tail[k] == b.insns@[offset + k]);
        assert(ir::wrap_add(pc, 4 * k) == ir::wrap_add(b.start_addr, 4 * (offset + k)));
    }
    assert forall|k: int| 0 <= k < tail.len() - 1 implies straight(#[trigger] tail[k]) by {
        assert(tail[k] == b.insns@[offset + k]);
    }
}

/// Replacing block `index` by its two halves keeps the blocks well formed
/// and adds `pc` to the starts.
proof fn lemma_replace_by_halves(old_blocks: Seq<BasicBlock>, nb: Seq<BasicBlock>, index: int, head: BasicBlock, tail: BasicBlock, pc: u64, code: Map<u64, u8>, entry: u64)
    requires
        blocks_ok(old_blocks, code, entry),
        0 <= index < old_blocks.len(),
        !has_start(old_blocks, pc),
        pc % 4 == entry % 4,
        head.start_addr == old_blocks[index].start_addr,
        tail.start_addr == pc,
        block_ok(head, code),
        block_ok(tail, code),
        head.terminator == (BlockTerminator::Fallthrough { next_pc: Some(pc) }),
        tail.terminator == old_blocks[index].terminator,
        nb == old_blocks.remove(index).insert(index, head).insert(index + 1, tail),
    ensures
        blocks_ok(nb, code, entry),
        forall|q: u64| has_start(nb, q) <==> (has_start(old_blocks, q) || q == pc),
        forall|q: u64| leads_from(nb, q) ==> (leads_from(old_blocks, q) || q == pc),
        nb[0].start_addr == old_blocks[0].start_addr,
        nb.len() == old_blocks.len() + 1,
{
    assert(nb.len() == old_blocks.len() + 1);
    assert forall|i: int| 0 <= i < nb.len() implies (i < index ==> nb[i] == old_blocks[i]) && (i > index + 1 ==> nb[i] == old_blocks[i - 1]) by {}
    assert(nb[index] == head);
    assert(nb[index + 1] == tail);
    assert forall|i: int| 0 <= i < nb.len() implies block_ok(#[trigger] nb[i], code) by {
        if i < index {
            assert(nb[i] == old_blocks[i]);
        } else if i > index + 1 {
            assert(nb[i] == old_blocks[i - 1]);
        }
    }
    assert forall|i: int| 0 <= i < nb.len() implies (#[trigger] nb[i].start_addr) % 4 == entry % 4 by {
        if i < index {
            assert(nb[i] == old_blocks[i]);
        } else if i > index + 1 {
            assert(nb[i] == old_blocks[i - 1]);
        } else if i == index {
            assert(old_blocks[index].start_addr % 4 == entry % 4);
        }
    }
    assert forall|i: int, j: int| 0 <= i < j < nb.len() implies nb[i].start_addr != nb[j].start_addr by {
        let oi = if i <= index { i } else { i - 1 };
        let oj = if j <= index { j } else { j - 1 };
        if i != index + 1 && j != index + 1 {
            assert(nb[i].start_addr == old_blocks[oi].start_addr);
            assert(nb[j].start_addr == old_blocks[oj].start_addr);
        } else if j == index + 1 {
            assert(nb[i].start_addr == old_blocks[oi].start_addr);
        } else {
            assert(nb[j].start_addr == old_blocks[oj].start_addr);
        }
    }
    assert forall|q: u64| has_start(nb, q) <==> (has_start(old_blocks, q) || q == pc) by {
        if has_start(nb, q) {
            let i = choose|i: int| 0 <= i < nb.len() && #[trigger] nb[i].start_addr == q;
            if i < index {
                assert(old_blocks[i].start_addr == q);
            } else if i > index + 1 {
                assert(old_blocks[i - 1].start_addr == q);
            } else if i == index {
                assert(old_blocks[index].start_addr == q);
            }
        }
        if has_start(old_blocks, q) {
            let i = choose|i: int| 0 <= i < old_blocks.len() && #[trigger] old_blocks[i].start_addr == q;
            if i < index {
                assert(nb[i].start_addr == q);
            } else if i > index {
                assert(nb[i + 1].start_addr == q);
            } else {
                assert(nb[i].start_addr == q);
            }
        }
        if q == pc {
            assert(nb[index + 1].start_addr == q);
        }
    }
    assert forall|q: u64| leads_from(nb, q) implies (leads_from(old_blocks, q) || q == pc) by {
        let i = choose|i: int| 0 <= i < nb.len() && #[trigger] leads_to(nb[i].terminator, q);
        if i < index {
            assert(leads_to(old_blocks[i].terminator, q));
        } else if i > index + 1 {
            assert(leads_to(old_blocks[i - 1].terminator, q));
        } else if i == index + 1 {
            assert(leads_to(old_blocks[index].terminator, q));
        }
    }
    if index == 0 {
        assert(nb[0] == head);
    } else {
        assert(nb[0] == old_blocks[0]);
    }
}

/// Splits block `index`, whose range holds `pc` strictly inside it, into
/// the part before `pc` and a block starting at `pc`.
fn split_block_at(pc: u64, blocks: &mut Vec<BasicBlock>, index: usize, Ghost(code): Ghost<Map<u64, u8>>, Ghost(entry): Ghost<u64>)
    requires
        blocks_ok(old(blocks)@, code, entry),
        pc % 4 == entry % 4,
        !has_start(old(blocks)@, pc),
        index < old(blocks)@.len(),
        old(blocks)@[index as int].start_addr < pc < old(blocks)@[index as int].end_addr,
    ensures
        blocks_ok(final(blocks)@, code, entry),
        forall|q: u64| has_start(final(blocks)@, q) <==> (has_start(old(blocks)@, q) || q == pc),
        forall|q: u64| leads_from(final(blocks)@, q) ==> (leads_from(old(blocks)@, q) || q == pc),
        final(blocks)@.len() == old(blocks)@.len() + 1,
        final(blocks)@[0].start_addr == old(blocks)@[0].start_addr,
{
    let ghost old_blocks = blocks@;
    let len = blocks.len();
    let start = blocks[index].start_addr;
    let end = blocks[index].end_addr;
    let ghost b = old_blocks[index as int];
    let ghost n = b.insns@.len() as int;
    assert(block_ok(b, code));
    assert(end as int == start as int + 4 * n);
    assert(start % 4 == entry % 4);
    let ilen = blocks[index].insns.len();
    let q: u64 = (pc - start) / 4;
    assert(pc as int == start as int + 4 * q) by (nonlinear_arith)
        requires
            pc % 4 == entry % 4,
            start % 4 == entry % 4,
            start < pc,
            q == (pc - start) / 4,
    ;
    assert(1 <= q < ilen);
    let offset = q as usize;
    let mut block = blocks.remove(index);
    let tail_insns = block.insns.split_off(offset);
    proof {
        lemma_split_halves_ok(b, block.insns@, tail_insns@, offset as int, pc, code);
    }
    let tail = BasicBlock { start_addr: pc, end_addr: end, insns: tail_insns, terminator: block.terminator };
    let head = BasicBlock {
        start_addr: start,
        end_addr: pc,
        insns: block.insns,
        terminator: BlockTerminator::Fallthrough { next_pc: Some(pc) },
    };
    assert(block_ok(head, code));
    assert(block_ok(tail, code));
    blocks.insert(index, head);
    blocks.insert(index + 1, tail);
    proof {
        lemma_replace_by_halves(old_blocks, blocks@, index as int, head, tail, pc, code, entry);
    }
}

/// Whether `pc` lies strictly inside one of the blocks' ranges.
pub open spec fn strictly_inside_block(blocks: Seq<BasicBlock>, pc: u64) -> bool {
    exists|i: int| 0 <= i < blocks.len() && #[trigger] holds_inside(blocks[i], pc)
}

/// `pc` lies strictly inside the block's range.
pub open spec fn holds_inside(b: BasicBlock, pc: u64) -> bool {
    b.start_addr < pc && pc < b.end_addr
}

/// The first block whose range holds `pc` strictly inside it.
fn find_block_holding(pc: u64, blocks: &Vec<BasicBlock>) -> (r: Option<usize>)
    ensures
        r matches Some(i) ==> i < blocks@.len() && blocks@[i as int].start_addr < pc && pc < blocks@[i as int].end_addr,
        r is None ==> !strictly_inside_block(blocks@, pc),
{
    let mut index: usize = 0;
    while index < blocks.len()
        invariant
            index <= blocks@.len(),
            forall|k: int| 0 <= k < index ==> !#[trigger] holds_inside(blocks@[k], pc),
        decreases blocks@.len() - index,
    {
        if blocks[index].start_addr < pc && pc < blocks[index].end_addr {
            assert(holds_inside(blocks@[index as int], pc));
            return Some(index);
        }
        index = index + 1;
    }
    None
}

/// Splits the block whose range holds `pc` strictly inside it, so that a
/// block starts at `pc`; reports whether one did.
fn split_existing_block_at(pc: u64, blocks: &mut Vec<BasicBlock>, Ghost(code): Ghost<Map<u64, u8>>, Ghost(entry): Ghost<u64>) -> (r: bool)
    requires
        blocks_ok(old(blocks)@, code, entry),
        pc % 4 == entry % 4,
        !has_start(old(blocks)@, pc),
    ensures
        blocks_ok(final(blocks)@, code, entry),
        r == strictly_inside_block(old(blocks)@, pc),
        forall|q: u64| has_start(final(blocks)@, q) <==> (has_start(old(blocks)@, q) || (r && q == pc)),
        forall|q: u64| leads_from(final(blocks)@, q) ==> (leads_from(old(blocks)@, q) || q == pc),
        final(blocks)@.len() >= old(blocks)@.len(),
        old(blocks)@.len() > 0 ==> final(blocks)@[0].start_addr == old(blocks)@[0].start_addr,
        !r ==> final(blocks)@ == old(blocks)@,
{
    match find_block_holding(pc, blocks) {
        Some(index) => {
            proof {
                assert(holds_inside(old(blocks)@[index as int], pc));
            }
            split_block_at(pc, blocks, index, Ghost(code), Ghost(entry));
            true
        },
        None => false,
    }
}

/// Makes `pc` a block start if it lies inside a block; reports whether a
/// block starts at `pc` afterwards.
fn ensure_block_boundary(pc: u64, blocks: &mut Vec<BasicBlock>, Ghost(code): Ghost<Map<u64, u8>>, Ghost(entry): Ghost<u64>) -> (r: bool)
    requires
        blocks_ok(old(blocks)@, code, entry),
        pc % 4 == entry % 4,
    ensures
        blocks_ok(final(blocks)@, code, entry),
        r == has_start(final(blocks)@, pc),
        forall|q: u64| has_start(final(blocks)@, q) <==> (has_start(old(blocks)@, q) || (r && q == pc)),
        forall|q: u64| leads_from(final(blocks)@, q) ==> (leads_from(old(blocks)@, q) || q == pc),
        final(blocks)@.len() >= old(blocks)@.len(),
        old(blocks)@.len() > 0 ==> final(blocks)@[0].start_addr == old(blocks)@[0].start_addr,
        !r ==> final(blocks)@ == old(blocks)@,
        old(blocks)@.len() == 0 ==> !r,
{
    if block_starting_at(pc, blocks) {
        return true;
    }
    split_existing_block_at(pc, blocks, Ghost(code), Ghost(entry))
}

/// The pending list only grows, keeps the entry first, and holds addresses
/// a whole number of words from the entry.
pub open spec fn pending_ok(pending: Seq<u64>, entry: u64) -> bool {
    &&& pending.len() >= 1
    &&& pending[0] == entry
    &&& forall|k: int| 0 <= k < pending.len() ==> (#[trigger] pending[k]) % 4 == entry % 4
}

pub open spec fn extends(new: Seq<u64>, old: Seq<u64>) -> bool {
    &&& new.len() >= old.len()
    &&& forall|k: int| 0 <= k < old.len() ==> new[k] == old[k]
}

/// A branch or fall-through target is a whole number of words from the branch.
proof fn lemma_targets_aligned(d: DecodedInsn)
    ensures
        d.insn.spec_direct_branch_target(d.pc) matches Some(t) ==> t % 4 == d.pc % 4,
        d.insn.spec_conditional_targets(d.pc) matches Some(p) ==> p.0 % 4 == d.pc % 4 && p.1 % 4 == d.pc % 4,
{
    match d.insn {
        A64Insn::BUncondBOnlyBranchImm { imm26 } => {
            lemma_wrap_add_mod4(d.pc, ir::sext(imm26.raw, 26) * 4);
        },
        A64Insn::BCondBOnlyCondbranch { imm19, .. } | A64Insn::CbzCbz32Compbranch { imm19, .. }
        | A64Insn::CbzCbz64Compbranch { imm19, .. } | A64Insn::CbnzCbnz32Compbranch { imm19, .. }
        | A64Insn::CbnzCbnz64Compbranch { imm19, .. } => {
            lemma_wrap_add_mod4(d.pc, ir::sext(imm19.raw, 19) * 4);
            lemma_wrap_add_mod4(d.pc, 4);
        },
        A64Insn::TbzTbzOnlyTestbranch { imm14, .. } | A64Insn::TbnzTbnzOnlyTestbranch { imm14, .. } => {
            lemma_wrap_add_mod4(d.pc, ir::sext(imm14.raw, 14) * 4);
            lemma_wrap_add_mod4(d.pc, 4);
        },
        _ => {},
    }
}

/// Reads the block starting at `start_addr`: instructions up to the first
/// branch or runtime exit, or up to an address that is pending or already a
/// block start, or up to the end of the readable code. The targets of a
/// branch, and the instruction a supervisor call resumes at, become pending
/// block starts.
fn scan_block<P: CodeProvider>(
    code: &P,
    start_addr: u64,
    pending: &mut Vec<u64>,
    blocks: &mut Vec<BasicBlock>,
    Ghost(entry): Ghost<u64>,
) -> (r: Result<BasicBlock, CfgError>)
    requires
        blocks_ok(old(blocks)@, code.spec_code(), entry),
        !has_start(old(blocks)@, start_addr),
        old(pending)@.contains(start_addr),
        pending_ok(old(pending)@, entry),
    ensures
        blocks_ok(final(blocks)@, code.spec_code(), entry),
        !has_start(final(blocks)@, start_addr),
        forall|q: u64| has_start(old(blocks)@, q) ==> has_start(final(blocks)@, q),
        pending_ok(final(pending)@, entry),
        extends(final(pending)@, old(pending)@),
        r matches Ok(b) ==> block_ok(b, code.spec_code()) && b.start_addr == start_addr,
        r matches Ok(b) ==> forall|q: u64| #[trigger] leads_to(b.terminator, q) ==> (final(pending)@.contains(q) || has_start(final(blocks)@, q)),
        r matches Err(e) ==> e is CodeRead || decode_refused(e, code.spec_code()),
        forall|q: u64| leads_from(final(blocks)@, q) ==> (leads_from(old(blocks)@, q) || has_start(final(blocks)@, q)),
        final(blocks)@.len() >= old(blocks)@.len(),
        old(blocks)@.len() > 0 ==> final(blocks)@[0].start_addr == old(blocks)@[0].start_addr,
        old(blocks)@.len() == 0 ==> final(blocks)@.len() == 0,
{
    let ghost cm = code.spec_code();
    let ghost old_blocks = blocks@;
    let ghost old_pending = pending@;
    let ghost si = choose|k: int| 0 <= k < old_pending.len() && old_pending[k] == start_addr;
    assert(start_addr % 4 == entry % 4);
    let mut pc = start_addr;
    let mut insns: Vec<DecodedInsn> = Vec::new();
    let mut terminator = BlockTerminator::Fallthrough { next_pc: None };
    loop
        invariant_except_break
            forall|k: int| 0 <= k < insns@.len() ==> straight(#[trigger] insns@[k]),
        invariant
            cm == code.spec_code(),
            old_blocks == old(blocks)@,
            old_pending == old(pending)@,
            blocks_ok(blocks@, cm, entry),
            !has_start(blocks@, start_addr),
            forall|q: u64| has_start(old_blocks, q) ==> has_start(blocks@, q),
            pending_ok(pending@, entry),
            extends(pending@, old_pending),
            0 <= si < old_pending.len(),
            old_pending[si] == start_addr,
            start_addr % 4 == entry % 4,
            insns@.len() <= 0x4000_0000_0000_0000,
            pc == ir::wrap_add(start_addr, 4 * (insns@.len() as int)),
            pc % 4 == entry % 4,
            forall|k: int| 0 <= k < insns@.len() ==> decoded_at(cm, ir::wrap_add(start_addr, 4 * k), #[trigger] insns@[k]),
            forall|q: u64| leads_from(blocks@, q) ==> (leads_from(old_blocks, q) || has_start(blocks@, q)),
            blocks@.len() >= old_blocks.len(),
            old_blocks.len() > 0 ==> blocks@[0].start_addr == old_blocks[0].start_addr,
            old_blocks.len() == 0 ==> blocks@.len() == 0,
        ensures
            forall|q: u64| #[trigger] leads_to(terminator, q) ==> (pending@.contains(q) || has_start(blocks@, q)),
            insns@.len() >= 1,
            forall|k: int| 0 <= k < insns@.len() - 1 ==> straight(#[trigger] insns@[k]),
            terminator_ok(terminator, insns@[insns@.len() - 1], pc),
        decreases 0x4000_0000_0000_0000 - insns@.len(),
    {
        if insns.len() > 0 {
            let seen = contains_pc(pending, pc);
            assert(pending@[si] == start_addr);
            if seen || ensure_block_boundary(pc, blocks, Ghost(cm), Ghost(entry)) {
                terminator = BlockTerminator::Fallthrough { next_pc: Some(pc) };
                break;
            }
            assert(pc != start_addr);
        }
        assert(insns@.len() < 0x4000_0000_0000_0000) by {
            if insns@.len() == 0x4000_0000_0000_0000 {
                assert(pc == start_addr);
            }
        }
        let insn = match read_insn(code, pc) {
            Ok(i) => i,
            Err(e) => {
                if insns.len() > 0 {
                    match e {
                        CfgError::CodeRead(_) => {
                            terminator = BlockTerminator::Fallthrough { next_pc: None };
                            break;
                        },
                        _ => {},
                    }
                }
                return Err(e);
            },
        };
        proof {
            lemma_targets_aligned(insn);
            lemma_wrap_add_mod4(pc, 4);
            lemma_wrap_add_add(start_addr, 4 * (insns@.len() as int), 4);
        }
        pc = ir::wrapping_offset(pc, 4);
        insns.push(insn);
        match insn.insn.direct_branch_target(insn.pc) {
            Some(target) => {
                enqueue_block(target, pending);
                proof {
                    if !pending@.contains(target) {
                        assert(pending@[pending@.len() - 1] == target);
                    }
                }
                terminator = BlockTerminator::Branch { target_pc: target };
                break;
            },
            None => {},
        }
        match insn.insn.runtime_exit_reason(insn.pc) {
            Some(reason) => {
                match reason {
                    RuntimeExitReason::Svc { resume_pc, .. } => {
                        enqueue_block(resume_pc, pending);
                    },
                    _ => {},
                }
                terminator = BlockTerminator::RuntimeExit { reason };
                break;
            },
            None => {},
        }
        match insn.insn.conditional_targets(insn.pc) {
            Some((taken_pc, fallthrough_pc)) => {
                enqueue_block(fallthrough_pc, pending);
                proof {
                    if !pending@.contains(fallthrough_pc) {
                        assert(pending@[pending@.len() - 1] == fallthrough_pc);
                    }
                }
                let ghost p1 = pending@;
                enqueue_block(taken_pc, pending);
                proof {
                    if !pending@.contains(taken_pc) {
                        assert(pending@[pending@.len() - 1] == taken_pc);
                    }
                    let k = choose|k: int| 0 <= k < p1.len() && p1[k] == fallthrough_pc;
                    assert(pending@[k] == fallthrough_pc);
                }
                terminator = BlockTerminator::CondBranch { taken_pc, fallthrough_pc };
                break;
            },
            None => {},
        }
    }
    Ok(BasicBlock { start_addr, end_addr: pc, insns, terminator })
}

/// Making `start` a block start keeps every pending address and every
/// address a block leads to a block start or pending.
proof fn lemma_boundary_step(before: Seq<BasicBlock>, after: Seq<BasicBlock>, pending: Seq<u64>, n: int, start: u64, entry: u64)
    requires
        0 < n <= pending.len(),
        pending[n - 1] == start,
        forall|k: int| 0 <= k < n - 1 ==> has_start(before, #[trigger] pending[k]),
        forall|q: u64| leads_from(before, q) ==> (has_start(before, q) || pending.contains(q)),
        forall|q: u64| has_start(after, q) <==> (has_start(before, q) || q == start),
        forall|q: u64| leads_from(after, q) ==> (leads_from(before, q) || q == start),
        before.len() > 0,
        before[0].start_addr == entry,
        after.len() >= before.len(),
        after[0].start_addr == before[0].start_addr,
    ensures
        forall|k: int| 0 <= k < n ==> has_start(after, #[trigger] pending[k]),
        forall|q: u64| leads_from(after, q) ==> (has_start(after, q) || pending.contains(q)),
        after.len() > 0 && after[0].start_addr == entry,
{
    assert forall|k: int| 0 <= k < n implies has_start(after, #[trigger] pending[k]) by {
        if k < n - 1 {
            assert(has_start(before, pending[k]));
        }
    }
}

/// Adding a scanned block keeps every pending address seen so far a block
/// start, and every address a block leads to a block start or pending.
proof fn lemma_scan_step(
    before: Seq<BasicBlock>,
    scanned: Seq<BasicBlock>,
    nb: Seq<BasicBlock>,
    b: BasicBlock,
    old_pending: Seq<u64>,
    pending: Seq<u64>,
    n: int,
    entry: u64,
)
    requires
        0 < n <= old_pending.len(),
        old_pending[n - 1] == b.start_addr,
        extends(pending, old_pending),
        forall|k: int| 0 <= k < n - 1 ==> has_start(before, #[trigger] old_pending[k]),
        forall|q: u64| leads_from(before, q) ==> (has_start(before, q) || old_pending.contains(q)),
        forall|q: u64| has_start(before, q) ==> has_start(scanned, q),
        forall|q: u64| leads_from(scanned, q) ==> (leads_from(before, q) || has_start(scanned, q)),
        forall|q: u64| #[trigger] leads_to(b.terminator, q) ==> (pending.contains(q) || has_start(scanned, q)),
        scanned.len() >= before.len(),
        before.len() > 0 ==> scanned[0].start_addr == before[0].start_addr,
        before.len() > 0 ==> before[0].start_addr == entry,
        before.len() == 0 ==> n == 1 && old_pending[0] == entry && scanned.len() == 0,
        nb == scanned.push(b),
    ensures
        forall|k: int| 0 <= k < n ==> has_start(nb, #[trigger] pending[k]),
        forall|q: u64| leads_from(nb, q) ==> (has_start(nb, q) || pending.contains(q)),
        nb.len() > 0 && nb[0].start_addr == entry,
{
    assert forall|q: u64| has_start(scanned, q) implies has_start(nb, q) by {
        let i = choose|i: int| 0 <= i < scanned.len() && #[trigger] scanned[i].start_addr == q;
        assert(nb[i] == scanned[i]);
    }
    assert(nb[scanned.len() as int] == b);
    assert forall|q: u64| old_pending.contains(q) implies pending.contains(q) by {
        let k = choose|k: int| 0 <= k < old_pending.len() && old_pending[k] == q;
        assert(pending[k] == q);
    }
    assert forall|k: int| 0 <= k < n implies has_start(nb, #[trigger] pending[k]) by {
        assert(pending[k] == old_pending[k]);
        if k < n - 1 {
            assert(has_start(before, old_pending[k]));
        } else {
            assert(nb[scanned.len() as int].start_addr == pending[k]);
        }
    }
    assert forall|q: u64| leads_from(nb, q) implies (has_start(nb, q) || pending.contains(q)) by {
        let i = choose|i: int| 0 <= i < nb.len() && #[trigger] leads_to(nb[i].terminator, q);
        if i < scanned.len() {
            assert(nb[i] == scanned[i]);
            assert(leads_from(scanned, q));
        } else {
            assert(leads_to(b.terminator, q));
        }
    }
    if before.len() == 0 {
        if scanned.len() == 0 {
            assert(nb[0] == b);
        } else {
            assert(nb[0] == scanned[0]);
        }
    } else {
        assert(nb[0] == scanned[0]);
    }
}

/// Discovers the blocks reachable from the request's entry: a work list of
/// block starts, each scanned once; a start inside a known block splits it.
/// A read failure ends a block that already has instructions; on an empty
/// block, a read or decode failure fails the whole discovery.
pub fn build_cfg<P: CodeProvider>(request: &TranslationRequest, code: &P) -> (r: Result<Cfg, CfgError>)
    ensures
        r matches Ok(cfg) ==> cfg_ok(cfg, code.spec_code(), request.entry_pc),
        r matches Err(e) ==> e is CodeRead || decode_refused(e, code.spec_code()),
{
    let entry = request.entry_pc;
    let ghost cm = code.spec_code();
    let mut blocks: Vec<BasicBlock> = Vec::new();
    let mut pending: Vec<u64> = Vec::new();
    pending.push(entry);
    let mut pending_index: usize = 0;
    while pending_index < pending.len()
        invariant
            cm == code.spec_code(),
            pending_ok(pending@, entry),
            pending_index <= pending@.len(),
            blocks_ok(blocks@, cm, entry),
            forall|k: int| 0 <= k < pending_index ==> has_start(blocks@, #[trigger] pending@[k]),
            forall|q: u64| leads_from(blocks@, q) ==> (has_start(blocks@, q) || pending@.contains(q)),
            blocks@.len() > 0 ==> blocks@[0].start_addr == entry,
            blocks@.len() == 0 ==> pending_index == 0,
        decreases usize::MAX - pending_index,
    {
        let start_addr = pending[pending_index];
        let ghost before_pending = pending@;
        let ghost before_blocks = blocks@;
        pending_index = pending_index + 1;
        if ensure_block_boundary(start_addr, &mut blocks, Ghost(cm), Ghost(entry)) {
            proof {
                lemma_boundary_step(before_blocks, blocks@, pending@, pending_index as int, start_addr, entry);
            }
            continue;
        }
        let ghost mid_blocks = blocks@;
        let block = match scan_block(code, start_addr, &mut pending, &mut blocks, Ghost(entry)) {
            Ok(b) => b,
            Err(e) => {
                return Err(e);
            },
        };
        let ghost scanned = blocks@;
        let ghost b = block;
        blocks.push(block);
        proof {
            let nb = blocks@;
            lemma_scan_step(mid_blocks, scanned, nb, b, before_pending, pending@, pending_index as int, entry);
            assert forall|i: int| 0 <= i < nb.len() implies block_ok(#[trigger] nb[i], cm) && nb[i].start_addr % 4 == entry % 4 by {
                if i < scanned.len() {
                    assert(nb[i] == scanned[i]);
                }
            }
            assert forall|i: int, j: int| 0 <= i < j < nb.len() implies nb[i].start_addr != nb[j].start_addr by {
                if j == scanned.len() {
                    assert(nb[i] == scanned[i]);
                    if nb[i].start_addr == start_addr {
                        assert(has_start(scanned, start_addr));
                    }
                } else {
                    assert(nb[i] == scanned[i]);
                    assert(nb[j] == scanned[j]);
                }
            }
        }
    }
    proof {
        assert(has_start(blocks@, pending@[0]));
    }
    Ok(Cfg { entry_pc: entry, blocks })
}

} // verus!
