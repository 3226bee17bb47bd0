//! Records of each stage of a translation, for display and for checking.
use vstd::prelude::*;

use super::arm64::{self, OriginalStepper, StepError, StepOutcome};
use super::model::{HaltReason, MachineState, MachineView};
use crate::shared::trans::cfg::{BasicBlock, Cfg};
use crate::shared::trans::rephrase;
use crate::shared::abi::{EPILOGUE_INSN_COUNT, EPILOGUE_LEN_BYTES, EPILOGUE_OFFSET, PROLOGUE_INSN_COUNT, PROLOGUE_LEN_BYTES};
use crate::shared::emit::layout;
use crate::shared::trans::cfg::RuntimeExitReason;
use crate::shared::trans::input::{RegisterSnapshot, TranslationRequest, TranslationTrigger};
use crate::shared::trans::rephrase::{RephrasedBlock, RephrasedInsn, RephrasedInsnKind};
use super::runtime::DEFAULT_BASE_PC;

verus! {

/// The code a trace was made of.
#[derive(Debug)]
pub struct TraceInput {
    pub text_base: u64,
    pub entry_pc: u64,
    pub text_len: usize,
}

/// One decoded instruction of the original code.
#[derive(Clone, Debug)]
pub struct TraceInsn {
    pub pc: u64,
    pub text_offset: usize,
    pub word: u32,
    pub key: &'static str,
    pub mnemonic: &'static str,
    pub pretty: String,
    pub debug: String,
    pub direct_branch_target: Option<u64>,
    pub conditional_targets: Option<(u64, u64)>,
    pub runtime_exit: Option<RuntimeExitReason>,
}

/// The control-flow graph of a trace.
#[derive(Debug)]
pub struct TraceCfg {
    pub entry_pc: u64,
    pub blocks: Vec<TraceCfgBlock>,
}

#[derive(Debug)]
pub struct TraceCfgBlock {
    pub index: usize,
    pub start_pc: u64,
    pub end_pc: u64,
    pub prev: Vec<u64>,
    pub next: Vec<u64>,
    pub insn_pcs: Vec<u64>,
}

#[derive(Debug)]
pub struct TraceRephrasedBlock {
    pub index: usize,
    pub start_pc: u64,
    pub end_pc: u64,
    pub prev: Vec<u64>,
    pub next: Vec<u64>,
    pub insns: Vec<TraceRephrasedInsn>,
}

#[derive(Debug)]
pub struct TraceRephrasedInsn {
    pub block_index: usize,
    pub index_in_block: usize,
    pub ori_pc: u64,
    pub kind: RephrasedInsnKind,
    pub key: &'static str,
    pub mnemonic: &'static str,
    pub pretty: String,
    pub debug: String,
}

/// One instruction of a laid-out fragment.
#[derive(Clone, Debug)]
pub struct TraceLayoutInsn {
    pub index: usize,
    pub offset: usize,
    pub ori_pc: Option<u64>,
    pub region: LayoutRegion,
    pub key: &'static str,
    pub mnemonic: &'static str,
    pub pretty: String,
    pub debug: String,
}

/// The part of a fragment an instruction belongs to.
#[derive(Clone, Copy, Debug, PartialEq, Eq, Structural)]
pub enum LayoutRegion {
    Prologue,
    Epilogue,
    Body,
}

/// A laid-out fragment.
#[derive(Debug)]
pub struct TraceFragment {
    pub entry_offset: usize,
    pub len_bytes: usize,
    pub vlabels: Vec<(u64, usize)>,
    pub insns: Vec<TraceLayoutInsn>,
}

/// Where one original pc shows up in each stage.
#[derive(Debug)]
pub struct PcIndexEntry {
    pub pc: u64,
    pub raw_index: Option<usize>,
    pub cfg_block: Option<usize>,
    pub rephrased_block: Option<usize>,
    pub layout_offsets: Vec<usize>,
}

/// One fragment instruction at its runtime address.
#[derive(Debug)]
pub struct RuntimeIndexEntry {
    pub offset: usize,
    pub runtime_pc: u64,
    pub insn_index: usize,
    pub ori_pc: Option<u64>,
    pub region: LayoutRegion,
}

/// One step of the original code.
#[derive(Clone, Debug)]
pub struct TraceOriginalStep {
    pub pc: u64,
    pub runtime_exit: Option<RuntimeExitReason>,
    pub halt_reason: Option<HaltReason>,
    pub state: MachineState,
}

/// The translated steps that stand for one original step.
#[derive(Clone, Debug)]
pub struct TraceStepGroup {
    pub ori_pc: Option<u64>,
    pub original_step: Option<usize>,
    pub translated_steps: Vec<usize>,
    pub states_match: Option<bool>,
}

/// The registers of a state, at `pc`.
pub fn register_snapshot(state: &MachineState, pc: u64) -> (r: RegisterSnapshot)
    ensures
        forall|i: int| 0 <= i < 31 ==> r.x@[i] == state@.x_at(i),
        r.sp == state@.sp,
        r.pc == pc,
        r.pstate == 0,
{
    let mut x = [0u64; 31];
    let mut reg: usize = 0;
    while reg < 31
        invariant
            reg <= 31,
            forall|i: int| 0 <= i < reg ==> x@[i] == state@.x_at(i),
        decreases 31 - reg,
    {
        x[reg] = state.read_x(reg as u8);
        reg = reg + 1;
    }
    RegisterSnapshot { x, sp: state.sp(), pc, pstate: 0 }
}

/// The request that starts a trace at `entry_pc`, with the registers of `state`.
pub fn request_for_trace(entry_pc: u64, trigger: TranslationTrigger, state: &MachineState) -> (r: TranslationRequest)
    ensures
        r.entry_pc == entry_pc,
        r.trigger == trigger,
        r.regs matches Some(s) && s.pc == entry_pc && s.sp == state@.sp && s.pstate == 0 && forall|i: int|
            0 <= i < 31 ==> s.x@[i] == state@.x_at(i),
{
    TranslationRequest { entry_pc, trigger, regs: Some(register_snapshot(state, entry_pc)) }
}

/// `pcs` with each pc of `items` that it lacks appended, in order.
pub open spec fn spec_push_unique(pcs: Seq<u64>, items: Seq<u64>) -> Seq<u64>
    decreases items.len(),
{
    if items.len() == 0 {
        pcs
    } else {
        let before = spec_push_unique(pcs, items.drop_last());
        if before.contains(items.last()) {
            before
        } else {
            before.push(items.last())
        }
    }
}

/// Appends each pc of `items` that is not there yet.
pub fn push_unique_pcs(pcs: &mut Vec<u64>, items: &[u64])
    ensures
        final(pcs)@ == spec_push_unique(old(pcs)@, items@),
{
    let ghost start = pcs@;
    let mut i: usize = 0;
    assert(items@.take(0) =~= Seq::<u64>::empty());
    while i < items.len()
        invariant
            i <= items@.len(),
            pcs@ == spec_push_unique(start, items@.take(i as int)),
        decreases items@.len() - i,
    {
        assert(items@.take(i as int + 1).drop_last() =~= items@.take(i as int));
        let pc = items[i];
        let mut seen = false;
        let mut k: usize = 0;
        while k < pcs.len()
            invariant
                k <= pcs@.len(),
                seen == (exists|m: int| 0 <= m < k && pcs@[m] == pc),
            decreases pcs@.len() - k,
        {
            if pcs[k] == pc {
                seen = true;
            }
            k = k + 1;
        }
        if !seen {
            pcs.push(pc);
        }
        i = i + 1;
    }
    assert(items@.take(i as int) =~= items@);
}

/// The pc of the first label at `offset`.
pub open spec fn spec_pc_for_offset(vlabels: Seq<(u64, usize)>, offset: usize) -> Option<u64>
    decreases vlabels.len(),
{
    if vlabels.len() == 0 {
        None
    } else if vlabels[0].1 == offset {
        Some(vlabels[0].0)
    } else {
        spec_pc_for_offset(vlabels.subrange(1, vlabels.len() as int), offset)
    }
}

pub fn original_pc_for_offset(vlabels: &[(u64, usize)], offset: usize) -> (r: Option<u64>)
    ensures
        r == spec_pc_for_offset(vlabels@, offset),
{
    let mut i: usize = 0;
    assert(vlabels@.subrange(0, vlabels@.len() as int) =~= vlabels@);
    while i < vlabels.len()
        invariant
            i <= vlabels@.len(),
            spec_pc_for_offset(vlabels@, offset) == spec_pc_for_offset(vlabels@.subrange(i as int, vlabels@.len() as int), offset),
        decreases vlabels@.len() - i,
    {
        let ghost rest = vlabels@.subrange(i as int, vlabels@.len() as int);
        assert(rest.subrange(1, rest.len() as int) =~= vlabels@.subrange(i as int + 1, vlabels@.len() as int));
        assert(rest[0] == vlabels@[i as int]);
        if vlabels[i].1 == offset {
            return Some(vlabels[i].0);
        }
        i = i + 1;
    }
    None
}

pub open spec fn spec_layout_region(offset: usize) -> LayoutRegion {
    if offset < PROLOGUE_LEN_BYTES {
        LayoutRegion::Prologue
    } else if offset < EPILOGUE_OFFSET + EPILOGUE_LEN_BYTES {
        LayoutRegion::Epilogue
    } else {
        LayoutRegion::Body
    }
}

/// The region of the fragment byte `offset` lies in.
pub fn layout_region(offset: usize) -> (r: LayoutRegion)
    ensures
        r == spec_layout_region(offset),
{
    if offset < PROLOGUE_LEN_BYTES {
        LayoutRegion::Prologue
    } else if offset < EPILOGUE_OFFSET + EPILOGUE_LEN_BYTES {
        LayoutRegion::Epilogue
    } else {
        LayoutRegion::Body
    }
}

/// The original pc of each instruction a layout of `program` places: none
/// for the prologue and epilogue, then each body instruction's.
pub fn layout_original_pcs(program: &Vec<RephrasedBlock>) -> (r: Vec<Option<u64>>)
    ensures
        r@ == Seq::new(layout::body_start() as nat, |i: int| None::<u64>) + layout::spec_body(program@).map_values(
            |x: RephrasedInsn| Some(x.ori_pc),
        ),
{
    let mut origins: Vec<Option<u64>> = Vec::new();
    let wrapper_insns = PROLOGUE_INSN_COUNT + EPILOGUE_INSN_COUNT;
    let mut w: usize = 0;
    while w < wrapper_insns
        invariant
            w <= wrapper_insns,
            wrapper_insns == layout::body_start(),
            origins@ == Seq::new(w as nat, |i: int| None::<u64>),
        decreases wrapper_insns - w,
    {
        origins.push(None);
        assert(origins@ =~= Seq::new(w as nat + 1, |i: int| None::<u64>));
        w = w + 1;
    }
    let ghost head = origins@;
    let mut i: usize = 0;
    assert(program@.take(0) =~= Seq::<RephrasedBlock>::empty());
    assert(origins@ =~= head + layout::spec_body(program@.take(0)).map_values(|x: RephrasedInsn| Some(x.ori_pc)));
    while i < program.len()
        invariant
            i <= program@.len(),
            head == Seq::new(layout::body_start() as nat, |i: int| None::<u64>),
            origins@ == head + layout::spec_body(program@.take(i as int)).map_values(|x: RephrasedInsn| Some(x.ori_pc)),
        decreases program@.len() - i,
    {
        assert(program@.take(i as int + 1).drop_last() =~= program@.take(i as int));
        let ghost pre = layout::spec_body(program@.take(i as int));
        let insns = &program[i].insns;
        let mut j: usize = 0;
        while j < insns.len()
            invariant
                j <= insns@.len(),
                origins@ == head + (pre + insns@.take(j as int)).map_values(|x: RephrasedInsn| Some(x.ori_pc)),
            decreases insns@.len() - j,
        {
            origins.push(Some(insns[j].ori_pc));
            assert((pre + insns@.take(j as int + 1)).map_values(|x: RephrasedInsn| Some(x.ori_pc))
                =~= (pre + insns@.take(j as int)).map_values(|x: RephrasedInsn| Some(x.ori_pc)).push(Some(insns@[j as int].ori_pc)));
            j = j + 1;
        }
        assert(insns@.take(j as int) =~= insns@);
        i = i + 1;
    }
    assert(program@.take(i as int) =~= program@);
    origins
}

/// Each fragment instruction with its address when the fragment runs at the
/// default base.
pub fn build_runtime_index(fragment: &TraceFragment) -> (r: Vec<RuntimeIndexEntry>)
    requires
        forall|i: int| 0 <= i < fragment.insns@.len() ==> DEFAULT_BASE_PC + (#[trigger] fragment.insns@[i]).offset <= u64::MAX,
    ensures
        r@.len() == fragment.insns@.len(),
        forall|i: int|
            0 <= i < r@.len() ==> {
                let e = #[trigger] r@[i];
                let s = fragment.insns@[i];
                &&& e.offset == s.offset
                &&& e.runtime_pc == DEFAULT_BASE_PC + s.offset
                &&& e.insn_index == s.index
                &&& e.ori_pc == s.ori_pc
                &&& e.region == s.region
            },
{
    let mut out: Vec<RuntimeIndexEntry> = Vec::new();
    let mut i: usize = 0;
    while i < fragment.insns.len()
        invariant
            i <= fragment.insns@.len(),
            out@.len() == i,
            forall|i: int| 0 <= i < fragment.insns@.len() ==> DEFAULT_BASE_PC + (#[trigger] fragment.insns@[i]).offset <= u64::MAX,
            forall|k: int|
                0 <= k < i ==> {
                    let e = #[trigger] out@[k];
                    let s = fragment.insns@[k];
                    &&& e.offset == s.offset
                    &&& e.runtime_pc == DEFAULT_BASE_PC + s.offset
                    &&& e.insn_index == s.index
                    &&& e.ori_pc == s.ori_pc
                    &&& e.region == s.region
                },
        decreases fragment.insns@.len() - i,
    {
        let insn = &fragment.insns[i];
        out.push(RuntimeIndexEntry {
            offset: insn.offset,
            runtime_pc: DEFAULT_BASE_PC + insn.offset as u64,
            insn_index: insn.index,
            ori_pc: insn.ori_pc,
            region: insn.region,
        });
        i = i + 1;
    }
    out
}


/// Block `i` of a control-flow graph as a trace shows it.
pub open spec fn cfg_block_shown(blocks: Seq<BasicBlock>, i: int, t: TraceCfgBlock) -> bool {
    &&& t.index == i
    &&& t.start_pc == blocks[i].start_addr
    &&& t.end_pc == blocks[i].end_addr
    &&& t.prev@ == rephrase::spec_predecessors(blocks, blocks[i].start_addr)
    &&& t.next@ == rephrase::spec_successors(blocks[i].terminator)
    &&& t.insn_pcs@ == blocks[i].insns@.map_values(|d: crate::shared::trans::arm64::DecodedInsn| d.pc)
}

/// The control-flow graph as a trace shows it: for each block its range, the
/// blocks that lead to it, the blocks it leads to, and its instructions'
/// pcs.
pub fn trace_cfg(cfg: &Cfg) -> (r: TraceCfg)
    ensures
        r.entry_pc == cfg.entry_pc,
        r.blocks@.len() == cfg.blocks@.len(),
        forall|i: int| 0 <= i < r.blocks@.len() ==> #[trigger] cfg_block_shown(cfg.blocks@, i, r.blocks@[i]),
{
    let mut blocks: Vec<TraceCfgBlock> = Vec::new();
    let mut i: usize = 0;
    while i < cfg.blocks.len()
        invariant
            i <= cfg.blocks@.len(),
            blocks@.len() == i,
            forall|k: int| 0 <= k < i ==> #[trigger] cfg_block_shown(cfg.blocks@, k, blocks@[k]),
        decreases cfg.blocks@.len() - i,
    {
        let block = &cfg.blocks[i];
        let mut insn_pcs: Vec<u64> = Vec::new();
        let mut j: usize = 0;
        while j < block.insns.len()
            invariant
                j <= block.insns@.len(),
                insn_pcs@ == block.insns@.take(j as int).map_values(|d: crate::shared::trans::arm64::DecodedInsn| d.pc),
            decreases block.insns@.len() - j,
        {
            insn_pcs.push(block.insns[j].pc);
            assert(block.insns@.take(j + 1) =~= block.insns@.take(j as int).push(block.insns@[j as int]));
            j = j + 1;
        }
        assert(block.insns@.take(j as int) =~= block.insns@);
        let prev = rephrase::predecessors(&cfg.blocks, block.start_addr);
        let next = rephrase::successors(block.terminator);
        let ghost before = blocks@;
        blocks.push(TraceCfgBlock { index: i, start_pc: block.start_addr, end_pc: block.end_addr, prev, next, insn_pcs });
        assert forall|k: int| 0 <= k < i + 1 implies #[trigger] cfg_block_shown(cfg.blocks@, k, blocks@[k]) by {
            if k < i {
                assert(blocks@[k] == before[k]);
            }
        }
        i = i + 1;
    }
    TraceCfg { entry_pc: cfg.entry_pc, blocks }
}

/// The most original steps a trace records.
pub const MAX_ORIGINAL_STEPS: usize = 100_000;

/// One recorded original step as a value.
pub struct StepRecord {
    pub pc: u64,
    pub runtime_exit: Option<RuntimeExitReason>,
    pub halt_reason: Option<HaltReason>,
    pub state: MachineView,
}

pub open spec fn record_of(step: TraceOriginalStep) -> StepRecord {
    StepRecord { pc: step.pc, runtime_exit: step.runtime_exit, halt_reason: step.halt_reason, state: step.state@ }
}

pub open spec fn records_of(steps: Seq<TraceOriginalStep>) -> Seq<StepRecord> {
    steps.map_values(|s: TraceOriginalStep| record_of(s))
}

/// `done` followed by the rest of a trace.
pub open spec fn after(done: Seq<StepRecord>, rest: Result<Seq<StepRecord>, StepError>) -> Result<Seq<StepRecord>, StepError> {
    match rest {
        Ok(more) => Ok(done + more),
        Err(e) => Err(e),
    }
}

/// The original steps from `pc` within `fuel` steps: each step is recorded;
/// a supervisor call resumes after itself, any other halt ends the trace;
/// running out of steps is refused.
pub open spec fn original_trace(program: Seq<u8>, base: u64, pc: u64, s: MachineView, fuel: nat) -> Result<Seq<StepRecord>, StepError>
    decreases fuel,
{
    if fuel == 0 {
        Err(StepError::StepLimit)
    } else {
        match arm64::spec_step(program, base, pc, s) {
            StepOutcome::Fail(e) => Err(e),
            StepOutcome::FellOff => Ok(
                seq![StepRecord { pc, runtime_exit: None, halt_reason: Some(HaltReason::FellOffEnd), state: s }],
            ),
            StepOutcome::Exit { reason, state } => {
                let rec = StepRecord {
                    pc,
                    runtime_exit: Some(reason),
                    halt_reason: Some(HaltReason::RuntimeExit { reason }),
                    state,
                };
                match reason {
                    RuntimeExitReason::Svc { resume_pc, .. } => after(
                        seq![rec],
                        original_trace(program, base, resume_pc, state, (fuel - 1) as nat),
                    ),
                    _ => Ok(seq![rec]),
                }
            },
            StepOutcome::Advance { next_pc, state } => after(
                seq![StepRecord { pc, runtime_exit: None, halt_reason: None, state }],
                original_trace(program, base, next_pc, state, (fuel - 1) as nat),
            ),
        }
    }
}

/// Steps the original program from `entry_pc`, recording every step, until
/// it falls off the end or exits for a reason other than a supervisor call
/// (after which it resumes); refused after `MAX_ORIGINAL_STEPS` steps.
pub fn trace_original_execution(bytes: &[u8], text_base: u64, entry_pc: u64, initial_state: &MachineState) -> (r: Result<
    Vec<TraceOriginalStep>,
    StepError,
>)
    requires
        text_base + bytes@.len() <= u64::MAX,
    ensures
        bytes@.len() % 4 != 0 ==> r == Err::<Vec<TraceOriginalStep>, StepError>(StepError::ProgramLength),
        bytes@.len() % 4 == 0 ==> match original_trace(bytes@, text_base, entry_pc, initial_state@, MAX_ORIGINAL_STEPS as nat) {
            Ok(recs) => r matches Ok(steps) && records_of(steps@) == recs,
            Err(e) => r == Err::<Vec<TraceOriginalStep>, StepError>(e),
        },
{
    let mut stepper = match OriginalStepper::new(bytes, text_base, entry_pc, initial_state) {
        Ok(st) => st,
        Err(e) => {
            return Err(e);
        },
    };
    let ghost init = original_trace(bytes@, text_base, entry_pc, initial_state@, MAX_ORIGINAL_STEPS as nat);
    let mut steps: Vec<TraceOriginalStep> = Vec::new();
    let mut n: usize = 0;
    while n < MAX_ORIGINAL_STEPS
        invariant
            n <= MAX_ORIGINAL_STEPS,
            bytes@.len() % 4 == 0,
            init == original_trace(bytes@, text_base, entry_pc, initial_state@, MAX_ORIGINAL_STEPS as nat),
            stepper.wf(),
            !stepper.spec_stopped(),
            stepper.spec_program() == bytes@,
            stepper.spec_base() == text_base,
            init == after(
                records_of(steps@),
                original_trace(bytes@, text_base, stepper.spec_pc(), stepper.spec_state(), (MAX_ORIGINAL_STEPS - n) as nat),
            ),
        decreases MAX_ORIGINAL_STEPS - n,
    {
        let ghost pc0 = stepper.spec_pc();
        let ghost s0 = stepper.spec_state();
        let ghost done = records_of(steps@);
        let ghost fuel = (MAX_ORIGINAL_STEPS - n) as nat;
        assert(fuel > 0);
        let step = match stepper.step() {
            Err(e) => {
                proof {
                    assert(original_trace(bytes@, text_base, pc0, s0, fuel) == Err::<Seq<StepRecord>, StepError>(e));
                }
                return Err(e);
            },
            Ok(None) => {
                return Err(StepError::StepLimit);
            },
            Ok(Some(step)) => step,
        };
        let runtime_exit = step.runtime_exit;
        let halt_reason = step.halt_reason;
        let resume_pc = match runtime_exit {
            Some(RuntimeExitReason::Svc { resume_pc, .. }) => Some(resume_pc),
            _ => None,
        };
        let rec = TraceOriginalStep { pc: step.pc, runtime_exit, halt_reason, state: step.state };
        let ghost rv = record_of(rec);
        steps.push(rec);
        proof {
            assert(records_of(steps@) =~= done.push(rv));
            assert(done + seq![rv] =~= done.push(rv));
        }
        match resume_pc {
            Some(pc) => {
                stepper.resume_at(pc);
                proof {
                    let rest = original_trace(bytes@, text_base, pc, stepper.spec_state(), (MAX_ORIGINAL_STEPS - n - 1) as nat);
                    match rest {
                        Ok(more) => {
                            assert(done + (seq![rv] + more) =~= done.push(rv) + more);
                        },
                        Err(_) => {},
                    }
                }
            },
            None => {
                if halt_reason.is_some() {
                    proof {
                        assert(original_trace(bytes@, text_base, pc0, s0, fuel) == Ok::<Seq<StepRecord>, StepError>(seq![rv]));
                        assert(done + seq![rv] =~= records_of(steps@));
                    }
                    return Ok(steps);
                }
                proof {
                    let rest = original_trace(bytes@, text_base, stepper.spec_pc(), stepper.spec_state(), (MAX_ORIGINAL_STEPS - n - 1) as nat);
                    match rest {
                        Ok(more) => {
                            assert(done + (seq![rv] + more) =~= done.push(rv) + more);
                        },
                        Err(_) => {},
                    }
                }
            },
        }
        n = n + 1;
    }
    Err(StepError::StepLimit)
}


/// Adds `x` to a strictly increasing list, keeping it so.
fn insert_sorted(v: &mut Vec<u64>, x: u64)
    requires
        super::active_step::strictly_increasing(old(v)@),
    ensures
        super::active_step::strictly_increasing(final(v)@),
        forall|y: u64| final(v)@.contains(y) <==> (old(v)@.contains(y) || y == x),
{
    let mut i: usize = 0;
    while i < v.len() && v[i] < x
        invariant
            i <= v@.len(),
            forall|k: int| 0 <= k < i ==> v@[k] < x,
        decreases v@.len() - i,
    {
        i = i + 1;
    }
    if i < v.len() && v[i] == x {
        proof {
            assert(v@[i as int] == x);
            assert(v@.contains(x));
        }
        return;
    }
    let ghost o = v@;
    assert(o == old(v)@);
    v.insert(i, x);
    proof {
        assert forall|a: int, b: int| 0 <= a < b < v@.len() implies v@[a] < v@[b] by {
            if b < i {
            } else if b == i {
                assert(o[a] < x);
            } else if a < i {
                assert(o[a] < x);
                assert(x <= o[i as int]);
                if b - 1 > i {
                    assert(o[i as int] < o[b - 1]);
                }
            } else if a == i {
                assert(x <= o[i as int]);
                assert(x != o[i as int]);
                if b - 1 > i {
                    assert(o[i as int] < o[b - 1]);
                }
            } else {
                assert(o[a - 1] < o[b - 1]);
            }
        }
        assert forall|y: u64| v@.contains(y) <==> (o.contains(y) || y == x) by {
            if v@.contains(y) {
                let k = choose|k: int| 0 <= k < v@.len() && v@[k] == y;
                if k < i {
                    assert(o[k] == y);
                } else if k > i {
                    assert(o[k - 1] == y);
                }
            }
            if o.contains(y) {
                let k = choose|k: int| 0 <= k < o.len() && o[k] == y;
                if k < i {
                    assert(v@[k] == y);
                } else {
                    assert(v@[k + 1] == y);
                }
            }
            if y == x {
                assert(v@[i as int] == x);
            }
        }
        assert(forall|y: u64| #[trigger] v@.contains(y) <==> (old(v)@.contains(y) || y == x));
    }
}

/// Whether some stage of a trace shows the original pc `pc`.
pub open spec fn pc_shown(
    raw: Seq<TraceInsn>,
    cfg: TraceCfg,
    rephrased: Seq<TraceRephrasedBlock>,
    fragment: TraceFragment,
    pc: u64,
) -> bool {
    ||| exists|i: int| 0 <= i < raw.len() && raw[i].pc == pc
    ||| exists|b: int, j: int| 0 <= b < cfg.blocks@.len() && 0 <= j < cfg.blocks@[b].insn_pcs@.len() && cfg.blocks@[b].insn_pcs@[j] == pc
    ||| exists|b: int, j: int| 0 <= b < rephrased.len() && 0 <= j < rephrased[b].insns@.len() && rephrased[b].insns@[j].ori_pc == pc
    ||| exists|k: int| 0 <= k < fragment.insns@.len() && fragment.insns@[k].ori_pc == Some(pc)
}

/// The index of the first raw instruction at `pc`.
pub open spec fn raw_index_of(raw: Seq<TraceInsn>, pc: u64, i: int) -> Option<usize>
    decreases raw.len() - i,
{
    if i >= raw.len() || i < 0 {
        None
    } else if raw[i].pc == pc {
        Some(i as usize)
    } else {
        raw_index_of(raw, pc, i + 1)
    }
}

/// The index field of the first control-flow block that holds `pc`.
pub open spec fn cfg_block_of(blocks: Seq<TraceCfgBlock>, pc: u64, i: int) -> Option<usize>
    decreases blocks.len() - i,
{
    if i >= blocks.len() || i < 0 {
        None
    } else if blocks[i].start_pc <= pc && pc < blocks[i].end_pc {
        Some(blocks[i].index)
    } else {
        cfg_block_of(blocks, pc, i + 1)
    }
}

/// The index field of the first rephrased block that holds `pc`.
pub open spec fn rephrased_block_of(blocks: Seq<TraceRephrasedBlock>, pc: u64, i: int) -> Option<usize>
    decreases blocks.len() - i,
{
    if i >= blocks.len() || i < 0 {
        None
    } else if blocks[i].start_pc <= pc && pc < blocks[i].end_pc {
        Some(blocks[i].index)
    } else {
        rephrased_block_of(blocks, pc, i + 1)
    }
}

/// The offsets of the laid-out instructions that stand for `pc`, in order.
pub open spec fn layout_offsets_of(insns: Seq<TraceLayoutInsn>, pc: u64) -> Seq<usize>
    decreases insns.len(),
{
    if insns.len() == 0 {
        seq![]
    } else {
        let rest = layout_offsets_of(insns.drop_last(), pc);
        if insns.last().ori_pc == Some(pc) {
            rest.push(insns.last().offset)
        } else {
            rest
        }
    }
}

/// The entry of the pc index for `pc`.
pub open spec fn pc_entry_ok(
    e: PcIndexEntry,
    pc: u64,
    raw: Seq<TraceInsn>,
    cfg: TraceCfg,
    rephrased: Seq<TraceRephrasedBlock>,
    fragment: TraceFragment,
) -> bool {
    &&& e.pc == pc
    &&& e.raw_index == raw_index_of(raw, pc, 0)
    &&& e.cfg_block == cfg_block_of(cfg.blocks@, pc, 0)
    &&& e.rephrased_block == rephrased_block_of(rephrased, pc, 0)
    &&& e.layout_offsets@ == layout_offsets_of(fragment.insns@, pc)
}

fn first_raw_index(raw: &[TraceInsn], pc: u64) -> (r: Option<usize>)
    ensures
        r == raw_index_of(raw@, pc, 0),
{
    let mut i: usize = 0;
    while i < raw.len()
        invariant
            i <= raw@.len(),
            raw_index_of(raw@, pc, i as int) == raw_index_of(raw@, pc, 0),
        decreases raw@.len() - i,
    {
        if raw[i].pc == pc {
            return Some(i);
        }
        i = i + 1;
    }
    None
}

fn first_cfg_block(blocks: &Vec<TraceCfgBlock>, pc: u64) -> (r: Option<usize>)
    ensures
        r == cfg_block_of(blocks@, pc, 0),
{
    let mut b: usize = 0;
    while b < blocks.len()
        invariant
            b <= blocks@.len(),
            cfg_block_of(blocks@, pc, b as int) == cfg_block_of(blocks@, pc, 0),
        decreases blocks@.len() - b,
    {
        if blocks[b].start_pc <= pc && pc < blocks[b].end_pc {
            return Some(blocks[b].index);
        }
        b = b + 1;
    }
    None
}

fn first_rephrased_block(blocks: &[TraceRephrasedBlock], pc: u64) -> (r: Option<usize>)
    ensures
        r == rephrased_block_of(blocks@, pc, 0),
{
    let mut c: usize = 0;
    while c < blocks.len()
        invariant
            c <= blocks@.len(),
            rephrased_block_of(blocks@, pc, c as int) == rephrased_block_of(blocks@, pc, 0),
        decreases blocks@.len() - c,
    {
        if blocks[c].start_pc <= pc && pc < blocks[c].end_pc {
            return Some(blocks[c].index);
        }
        c = c + 1;
    }
    None
}

fn pc_entry(pc: u64, raw: &[TraceInsn], cfg: &TraceCfg, rephrased: &[TraceRephrasedBlock], fragment: &TraceFragment) -> (r: PcIndexEntry)
    ensures
        pc_entry_ok(r, pc, raw@, *cfg, rephrased@, *fragment),
{
    let raw_index = first_raw_index(raw, pc);
    let cfg_block = first_cfg_block(&cfg.blocks, pc);
    let rephrased_block = first_rephrased_block(rephrased, pc);
    let mut layout_offsets: Vec<usize> = Vec::new();
    let mut k: usize = 0;
    while k < fragment.insns.len()
        invariant
            k <= fragment.insns@.len(),
            layout_offsets@ == layout_offsets_of(fragment.insns@.take(k as int), pc),
        decreases fragment.insns@.len() - k,
    {
        assert(fragment.insns@.take(k + 1).drop_last() =~= fragment.insns@.take(k as int));
        if fragment.insns[k].ori_pc == Some(pc) {
            layout_offsets.push(fragment.insns[k].offset);
        }
        k = k + 1;
    }
    assert(fragment.insns@.take(k as int) =~= fragment.insns@);
    PcIndexEntry { pc, raw_index, cfg_block, rephrased_block, layout_offsets }
}

/// Every original pc that some stage shows, in increasing order, with where
/// each stage shows it: the first raw instruction, the first control-flow
/// and rephrased blocks that hold it, and every fragment offset that stands
/// for it.
pub fn build_pc_index(raw: &[TraceInsn], cfg: &TraceCfg, rephrased: &[TraceRephrasedBlock], fragment: &TraceFragment) -> (r: Vec<
    PcIndexEntry,
>)
    ensures
        exists|pcs: Seq<u64>|
            super::active_step::strictly_increasing(pcs) && (forall|x: u64| pcs.contains(x) <==> pc_shown(
                raw@,
                *cfg,
                rephrased@,
                *fragment,
                x,
            )) && r@.len() == pcs.len() && forall|i: int|
                0 <= i < r@.len() ==> #[trigger] pc_entry_ok(r@[i], pcs[i], raw@, *cfg, rephrased@, *fragment),
{
    let mut pcs: Vec<u64> = Vec::new();
    let mut i: usize = 0;
    while i < raw.len()
        invariant
            i <= raw@.len(),
            super::active_step::strictly_increasing(pcs@),
            forall|x: u64| pcs@.contains(x) <==> (exists|k: int| 0 <= k < i && raw@[k].pc == x),
        decreases raw@.len() - i,
    {
        insert_sorted(&mut pcs, raw[i].pc);
        proof {
            assert forall|x: u64| pcs@.contains(x) <==> (exists|k: int| 0 <= k < i + 1 && raw@[k].pc == x) by {
                if x == raw@[i as int].pc {
                    assert(0 <= i < i + 1 && raw@[i as int].pc == x);
                }
                if exists|k: int| 0 <= k < i + 1 && raw@[k].pc == x {
                    let k = choose|k: int| 0 <= k < i + 1 && raw@[k].pc == x;
                    if k < i {
                        assert(exists|k2: int| 0 <= k2 < i && raw@[k2].pc == x);
                    }
                }
            }
        }
        i = i + 1;
    }
    let ghost after_raw = pcs@;
    let mut b: usize = 0;
    while b < cfg.blocks.len()
        invariant
            b <= cfg.blocks@.len(),
            i == raw@.len(),
            super::active_step::strictly_increasing(pcs@),
            forall|x: u64| pcs@.contains(x) <==> ((exists|k: int| 0 <= k < raw@.len() && raw@[k].pc == x) || exists|
                bb: int,
                j: int,
            | 0 <= bb < b && 0 <= j < cfg.blocks@[bb].insn_pcs@.len() && cfg.blocks@[bb].insn_pcs@[j] == x),
        decreases cfg.blocks@.len() - b,
    {
        let block = &cfg.blocks[b];
        let mut j: usize = 0;
        while j < block.insn_pcs.len()
            invariant
                j <= block.insn_pcs@.len(),
                b < cfg.blocks@.len(),
                *block == cfg.blocks@[b as int],
                super::active_step::strictly_increasing(pcs@),
                forall|x: u64| pcs@.contains(x) <==> ((exists|k: int| 0 <= k < raw@.len() && raw@[k].pc == x) || (exists|
                    bb: int,
                    jj: int,
                | 0 <= bb < b && 0 <= jj < cfg.blocks@[bb].insn_pcs@.len() && cfg.blocks@[bb].insn_pcs@[jj] == x) || (exists|
                    jj: int,
                | 0 <= jj < j && block.insn_pcs@[jj] == x)),
            decreases block.insn_pcs@.len() - j,
        {
            let x0 = block.insn_pcs[j];
            insert_sorted(&mut pcs, x0);
            proof {
                assert forall|x: u64| pcs@.contains(x) <==> ((exists|k: int| 0 <= k < raw@.len() && raw@[k].pc == x) || (exists|
                    bb: int,
                    jj: int,
                | 0 <= bb < b && 0 <= jj < cfg.blocks@[bb].insn_pcs@.len() && cfg.blocks@[bb].insn_pcs@[jj] == x) || (exists|
                    jj: int,
                | 0 <= jj < j + 1 && block.insn_pcs@[jj] == x)) by {
                    if x == x0 {
                        assert(0 <= j < j + 1 && block.insn_pcs@[j as int] == x);
                    }
                    if exists|jj: int| 0 <= jj < j + 1 && block.insn_pcs@[jj] == x {
                        let jj = choose|jj: int| 0 <= jj < j + 1 && block.insn_pcs@[jj] == x;
                        if jj < j {
                            assert(exists|j2: int| 0 <= j2 < j && block.insn_pcs@[j2] == x);
                        }
                    }
                }
            }
            j = j + 1;
        }
        proof {
            assert forall|x: u64| pcs@.contains(x) <==> ((exists|k: int| 0 <= k < raw@.len() && raw@[k].pc == x) || exists|
                bb: int,
                jj: int,
            | 0 <= bb < b + 1 && 0 <= jj < cfg.blocks@[bb].insn_pcs@.len() && cfg.blocks@[bb].insn_pcs@[jj] == x) by {
                if exists|jj: int| 0 <= jj < j && block.insn_pcs@[jj] == x {
                    let jj = choose|jj: int| 0 <= jj < j && block.insn_pcs@[jj] == x;
                    assert(0 <= b < b + 1 && 0 <= jj < cfg.blocks@[b as int].insn_pcs@.len() && cfg.blocks@[b as int].insn_pcs@[jj] == x);
                }
                if exists|bb: int, jj: int| 0 <= bb < b + 1 && 0 <= jj < cfg.blocks@[bb].insn_pcs@.len() && cfg.blocks@[bb].insn_pcs@[jj] == x {
                    let (bb, jj) = choose|bb: int, jj: int| 0 <= bb < b + 1 && 0 <= jj < cfg.blocks@[bb].insn_pcs@.len() && cfg.blocks@[bb].insn_pcs@[jj] == x;
                    if bb < b {
                        assert(exists|b2: int, j2: int| 0 <= b2 < b && 0 <= j2 < cfg.blocks@[b2].insn_pcs@.len() && cfg.blocks@[b2].insn_pcs@[j2] == x);
                    } else {
                        assert(exists|j2: int| 0 <= j2 < j && block.insn_pcs@[j2] == x);
                    }
                }
            }
        }
        b = b + 1;
    }
    let mut c: usize = 0;
    while c < rephrased.len()
        invariant
            c <= rephrased@.len(),
            super::active_step::strictly_increasing(pcs@),
            forall|x: u64| pcs@.contains(x) <==> ((exists|k: int| 0 <= k < raw@.len() && raw@[k].pc == x) || (exists|
                bb: int,
                jj: int,
            | 0 <= bb < cfg.blocks@.len() && 0 <= jj < cfg.blocks@[bb].insn_pcs@.len() && cfg.blocks@[bb].insn_pcs@[jj] == x) || (exists|
                bb: int,
                jj: int,
            | 0 <= bb < c && 0 <= jj < rephrased@[bb].insns@.len() && rephrased@[bb].insns@[jj].ori_pc == x)),
        decreases rephrased@.len() - c,
    {
        let block = &rephrased[c];
        let mut j: usize = 0;
        while j < block.insns.len()
            invariant
                j <= block.insns@.len(),
                c < rephrased@.len(),
                *block == rephrased@[c as int],
                super::active_step::strictly_increasing(pcs@),
                forall|x: u64| pcs@.contains(x) <==> ((exists|k: int| 0 <= k < raw@.len() && raw@[k].pc == x) || (exists|
                    bb: int,
                    jj: int,
                | 0 <= bb < cfg.blocks@.len() && 0 <= jj < cfg.blocks@[bb].insn_pcs@.len() && cfg.blocks@[bb].insn_pcs@[jj] == x) || (exists|
                    bb: int,
                    jj: int,
                | 0 <= bb < c && 0 <= jj < rephrased@[bb].insns@.len() && rephrased@[bb].insns@[jj].ori_pc == x) || (exists|
                    jj: int,
                | 0 <= jj < j && block.insns@[jj].ori_pc == x)),
            decreases block.insns@.len() - j,
        {
            let x0 = block.insns[j].ori_pc;
            insert_sorted(&mut pcs, x0);
            proof {
                assert forall|x: u64| pcs@.contains(x) <==> ((exists|k: int| 0 <= k < raw@.len() && raw@[k].pc == x) || (exists|
                    bb: int,
                    jj: int,
                | 0 <= bb < cfg.blocks@.len() && 0 <= jj < cfg.blocks@[bb].insn_pcs@.len() && cfg.blocks@[bb].insn_pcs@[jj] == x) || (exists|
                    bb: int,
                    jj: int,
                | 0 <= bb < c && 0 <= jj < rephrased@[bb].insns@.len() && rephrased@[bb].insns@[jj].ori_pc == x) || (exists|
                    jj: int,
                | 0 <= jj < j + 1 && block.insns@[jj].ori_pc == x)) by {
                    if x == x0 {
                        assert(0 <= j < j + 1 && block.insns@[j as int].ori_pc == x);
                    }
                    if exists|jj: int| 0 <= jj < j + 1 && block.insns@[jj].ori_pc == x {
                        let jj = choose|jj: int| 0 <= jj < j + 1 && block.insns@[jj].ori_pc == x;
                        if jj < j {
                            assert(exists|j2: int| 0 <= j2 < j && block.insns@[j2].ori_pc == x);
                        }
                    }
                }
            }
            j = j + 1;
        }
        proof {
            assert forall|x: u64| pcs@.contains(x) <==> ((exists|k: int| 0 <= k < raw@.len() && raw@[k].pc == x) || (exists|
                bb: int,
                jj: int,
            | 0 <= bb < cfg.blocks@.len() && 0 <= jj < cfg.blocks@[bb].insn_pcs@.len() && cfg.blocks@[bb].insn_pcs@[jj] == x) || (exists|
                bb: int,
                jj: int,
            | 0 <= bb < c + 1 && 0 <= jj < rephrased@[bb].insns@.len() && rephrased@[bb].insns@[jj].ori_pc == x)) by {
                if exists|jj: int| 0 <= jj < j && block.insns@[jj].ori_pc == x {
                    let jj = choose|jj: int| 0 <= jj < j && block.insns@[jj].ori_pc == x;
                    assert(0 <= c < c + 1 && 0 <= jj < rephrased@[c as int].insns@.len() && rephrased@[c as int].insns@[jj].ori_pc == x);
                }
                if exists|bb: int, jj: int| 0 <= bb < c + 1 && 0 <= jj < rephrased@[bb].insns@.len() && rephrased@[bb].insns@[jj].ori_pc == x {
                    let (bb, jj) = choose|bb: int, jj: int| 0 <= bb < c + 1 && 0 <= jj < rephrased@[bb].insns@.len() && rephrased@[bb].insns@[jj].ori_pc == x;
                    if bb < c {
                        assert(exists|b2: int, j2: int| 0 <= b2 < c && 0 <= j2 < rephrased@[b2].insns@.len() && rephrased@[b2].insns@[j2].ori_pc == x);
                    } else {
                        assert(exists|j2: int| 0 <= j2 < j && block.insns@[j2].ori_pc == x);
                    }
                }
            }
        }
        c = c + 1;
    }
    let mut k: usize = 0;
    while k < fragment.insns.len()
        invariant
            k <= fragment.insns@.len(),
            super::active_step::strictly_increasing(pcs@),
            forall|x: u64| pcs@.contains(x) <==> ((exists|kk: int| 0 <= kk < raw@.len() && raw@[kk].pc == x) || (exists|
                bb: int,
                jj: int,
            | 0 <= bb < cfg.blocks@.len() && 0 <= jj < cfg.blocks@[bb].insn_pcs@.len() && cfg.blocks@[bb].insn_pcs@[jj] == x) || (exists|
                bb: int,
                jj: int,
            | 0 <= bb < rephrased@.len() && 0 <= jj < rephrased@[bb].insns@.len() && rephrased@[bb].insns@[jj].ori_pc == x) || (exists|
                kk: int,
            | 0 <= kk < k && fragment.insns@[kk].ori_pc == Some(x))),
        decreases fragment.insns@.len() - k,
    {
        match fragment.insns[k].ori_pc {
            Some(x0) => {
                insert_sorted(&mut pcs, x0);
            },
            None => {},
        }
        proof {
            assert forall|x: u64| pcs@.contains(x) <==> ((exists|kk: int| 0 <= kk < raw@.len() && raw@[kk].pc == x) || (exists|
                bb: int,
                jj: int,
            | 0 <= bb < cfg.blocks@.len() && 0 <= jj < cfg.blocks@[bb].insn_pcs@.len() && cfg.blocks@[bb].insn_pcs@[jj] == x) || (exists|
                bb: int,
                jj: int,
            | 0 <= bb < rephrased@.len() && 0 <= jj < rephrased@[bb].insns@.len() && rephrased@[bb].insns@[jj].ori_pc == x) || (exists|
                kk: int,
            | 0 <= kk < k + 1 && fragment.insns@[kk].ori_pc == Some(x))) by {
                if fragment.insns@[k as int].ori_pc == Some(x) {
                    assert(0 <= k < k + 1 && fragment.insns@[k as int].ori_pc == Some(x));
                }
                if exists|kk: int| 0 <= kk < k + 1 && fragment.insns@[kk].ori_pc == Some(x) {
                    let kk = choose|kk: int| 0 <= kk < k + 1 && fragment.insns@[kk].ori_pc == Some(x);
                    if kk < k {
                        assert(exists|k2: int| 0 <= k2 < k && fragment.insns@[k2].ori_pc == Some(x));
                    }
                }
            }
        }
        k = k + 1;
    }
    let mut out: Vec<PcIndexEntry> = Vec::new();
    let mut m: usize = 0;
    while m < pcs.len()
        invariant
            m <= pcs@.len(),
            out@.len() == m,
            forall|q: int| 0 <= q < m ==> #[trigger] pc_entry_ok(out@[q], pcs@[q], raw@, *cfg, rephrased@, *fragment),
        decreases pcs@.len() - m,
    {
        let e = pc_entry(pcs[m], raw, cfg, rephrased, fragment);
        let ghost before = out@;
        out.push(e);
        assert forall|q: int| 0 <= q < m + 1 implies #[trigger] pc_entry_ok(out@[q], pcs@[q], raw@, *cfg, rephrased@, *fragment) by {
            if q < m {
                assert(out@[q] == before[q]);
            }
        }
        m = m + 1;
    }
    out
}

} // verus!
