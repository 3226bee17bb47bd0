//! A user-space runtime for translated fragments: it places a fragment and
//! its data, enters it through the ABI prologue, runs it on the reference
//! interpreter and handles each return to the runtime as the kernel side
//! would, until the run leaves the fragment.
use vstd::prelude::*;

use super::arm64::{self, execute_insn, is_executable, ExecError};
use super::model::{self, MachineState, MachineView};
use crate::shared::abi::{
    RetStatus, ABI_EXTRA_PARAMS_ARG_REG, ABI_LINK_REG, ABI_PT_REGS_ARG_REG,
    PROLOGUE_ENTRY_BRANCH_OFFSET, RET_PARAM0_REG, RET_PARAM1_REG, RET_STATUS_REG,
};
use crate::shared::arm64::A64Insn;
use crate::shared::emit::layout::{self, ExecutionFragment};

verus! {

pub const DEFAULT_BASE_PC: u64 = 0x400000;

pub const DEFAULT_PT_REGS_ADDR: u64 = 0x7fe000;

pub const DEFAULT_EXTRA_PARAMS_ADDR: u64 = 0x7ff000;

pub const DEFAULT_RETURN_PC: u64 = 0x123456;

pub const DEFAULT_STACK_TOP: u64 = 0x800000;

/// The addresses a fragment runs with: its code, the saved user registers,
/// the extra parameters, the address it returns to, and the stack top.
#[derive(Clone, Copy, Debug, PartialEq, Eq, Structural)]
pub struct URuntimeConfig {
    pub base_pc: u64,
    pub pt_regs_addr: u64,
    pub extra_params_addr: u64,
    pub return_pc: u64,
    pub stack_top: u64,
}

impl Default for URuntimeConfig {
    fn default() -> (r: Self)
        ensures
            r == (URuntimeConfig {
                base_pc: DEFAULT_BASE_PC,
                pt_regs_addr: DEFAULT_PT_REGS_ADDR,
                extra_params_addr: DEFAULT_EXTRA_PARAMS_ADDR,
                return_pc: DEFAULT_RETURN_PC,
                stack_top: DEFAULT_STACK_TOP,
            }),
    {
        URuntimeConfig {
            base_pc: DEFAULT_BASE_PC,
            pt_regs_addr: DEFAULT_PT_REGS_ADDR,
            extra_params_addr: DEFAULT_EXTRA_PARAMS_ADDR,
            return_pc: DEFAULT_RETURN_PC,
            stack_top: DEFAULT_STACK_TOP,
        }
    }
}


pub const PT_REGS_BYTES: u64 = 256;

pub const PT_REGS_SP_OFFSET: u64 = 31 * 8;

pub const EXTRA_PARAMS_BYTES: u64 = 16;

pub const RUNTIME_FRAME_BYTES: u64 = 192;

/// The number of prologue instructions the runtime runs before it jumps to
/// an entry: all but the prologue's final branch.
pub const PROLOGUE_STEPS: usize = PROLOGUE_ENTRY_BRANCH_OFFSET / 4;

/// Why the runtime could not go on executing.
#[derive(Clone, Copy, Debug, PartialEq, Eq, Structural)]
pub enum RuntimeError {
    /// An entry offset that is not a word inside the fragment.
    InvalidEntryOffset { offset: usize },
    /// The fragment is too short to hold the ABI prologue.
    MissingPrologue,
    /// An instruction the interpreter does not take.
    NotExecutable,
    /// A prologue instruction at the top of the address space.
    PcOverflow,
    /// The step counter would overflow.
    StepCountOverflow,
    /// The interpreter refused an instruction.
    Exec(ExecError),
}

/// How a run ended.
#[derive(Clone, Copy, Debug, PartialEq, Eq, Structural)]
pub enum URuntimeHalt {
    /// The pc left the fragment without returning to the runtime.
    FellOffFragment { pc: u64 },
    /// The fragment asked for code at `target_pc` that it does not hold.
    NeedsTranslation { status: RetStatus, target_pc: u64, resume_offset: Option<usize> },
    /// Control goes back to original code at `target_pc`.
    ReturnedToUserspace { status: RetStatus, target_pc: u64 },
    /// The status register held no status.
    InvalidReturnStatus { raw: u64 },
    /// A status the runtime does not serve.
    UnsupportedRuntimeExit { status: RetStatus },
    /// Execution failed at `pc`.
    ExecutionError { pc: u64, error: RuntimeError },
}

/// What the runtime does after the fragment returned to it.
#[derive(Clone, Copy, Debug, PartialEq, Eq, Structural)]
pub enum RuntimeAction {
    ContinueAt(usize),
    Stop(URuntimeHalt),
}

/// A fragment, the machine it runs on and where both are placed.
#[derive(Debug)]
pub struct URuntime {
    pub state: MachineState,
    pub fragment: ExecutionFragment,
    pub config: URuntimeConfig,
}

/// The user-visible state at the end of a run, how it ended, and the number
/// of instructions executed.
#[derive(Debug, PartialEq, Eq)]
pub struct URuntimeReport {
    pub state: MachineState,
    pub halt: URuntimeHalt,
    pub steps: usize,
}

/// Where general register `reg` is saved in the register block.
pub open spec fn pt_slot(cfg: URuntimeConfig, reg: int) -> u64 {
    (cfg.pt_regs_addr + reg * 8) as u64
}

/// The addresses a runtime with `cfg` and `n` instructions uses fit in the
/// address space.
pub open spec fn config_fits(cfg: URuntimeConfig, n: nat) -> bool {
    &&& n * 4 <= usize::MAX
    &&& cfg.base_pc + n * 4 <= u64::MAX
    &&& cfg.pt_regs_addr + PT_REGS_BYTES <= u64::MAX
    &&& cfg.extra_params_addr + EXTRA_PARAMS_BYTES <= u64::MAX
}

/// Memory with the first `n` general registers of `s` saved to the
/// register block.
pub open spec fn save_regs(cfg: URuntimeConfig, s: MachineView, n: nat) -> Map<u64, u8>
    decreases n,
{
    if n == 0 {
        s.mem
    } else {
        model::store_le(save_regs(cfg, s, (n - 1) as nat), pt_slot(cfg, n - 1), s.x_at(n - 1), 8)
    }
}

/// The state with the user registers saved and the extra parameters zeroed.
pub open spec fn seeded(cfg: URuntimeConfig, s: MachineView) -> MachineView {
    let m1 = save_regs(cfg, s, 31);
    let m2 = model::store_le(m1, pt_slot(cfg, 31), s.sp, 8);
    let m3 = model::store_le(m2, cfg.extra_params_addr, 0, 8);
    let m4 = model::store_le(m3, (cfg.extra_params_addr + 8) as u64, 0, 8);
    s.with_mem(m4)
}

/// The registers the runtime passes on entry: the register block, the extra
/// parameters, the return address and the stack.
pub open spec fn entry_regs(cfg: URuntimeConfig, s: MachineView) -> MachineView {
    MachineView {
        sp: cfg.stack_top,
        ..s.with_x(ABI_PT_REGS_ARG_REG as int, cfg.pt_regs_addr).with_x(
            ABI_EXTRA_PARAMS_ARG_REG as int,
            cfg.extra_params_addr,
        ).with_x(ABI_LINK_REG as int, cfg.return_pc)
    }
}

/// The state a runtime starts from.
pub open spec fn start_state(cfg: URuntimeConfig, s: MachineView) -> MachineView {
    entry_regs(cfg, seeded(cfg, s))
}

/// One more instruction after `r`: an earlier error stands; otherwise the
/// instruction is checked and executed at the pc `r` holds.
#[verifier::opaque]
pub open spec fn prefix_next(insn: A64Insn, r: Result<u64, RuntimeError>, s: MachineView) -> (
    Result<u64, RuntimeError>,
    MachineView,
) {
    match r {
        Err(e) => (Err(e), s),
        Ok(p) => if !arm64::executable(insn) {
            (Err(RuntimeError::NotExecutable), s)
        } else if p + 4 > u64::MAX {
            (Err(RuntimeError::PcOverflow), s)
        } else {
            match arm64::spec_execute(insn, p, s) {
                Ok((next, s2)) => (Ok(next), s2),
                Err(e) => (Err(RuntimeError::Exec(e)), s),
            }
        },
    }
}

/// Runs the first `n` instructions in order from `pc`: the pc it ends at, or
/// the error of the failing instruction and the state before it.
pub open spec fn run_prefix(insns: Seq<A64Insn>, n: nat, pc: u64, s: MachineView) -> (
    Result<u64, RuntimeError>,
    MachineView,
)
    decreases n,
{
    if n == 0 {
        (Ok(pc), s)
    } else {
        let (r, s1) = run_prefix(insns, (n - 1) as nat, pc, s);
        prefix_next(insns[n - 1], r, s1)
    }
}

/// Once a prefix fails, longer prefixes fail the same way and leave the same
/// state.
pub proof fn lemma_prefix_error_stays(insns: Seq<A64Insn>, n: nat, m: nat, pc: u64, s: MachineView)
    requires
        n <= m,
        run_prefix(insns, n, pc, s).0 is Err,
    ensures
        run_prefix(insns, m, pc, s) == run_prefix(insns, n, pc, s),
    decreases m - n,
{
    if n < m {
        lemma_prefix_error_stays(insns, n, (m - 1) as nat, pc, s);
        reveal(prefix_next);
    }
}

/// Entering the fragment at `offset`: the offset is checked, the entry
/// registers set and the prologue run; the result is the pc of the entry.
pub open spec fn spec_enter(cfg: URuntimeConfig, insns: Seq<A64Insn>, offset: usize, s: MachineView) -> (
    Result<u64, RuntimeError>,
    MachineView,
) {
    if offset % 4 != 0 || offset >= insns.len() * 4 {
        (Err(RuntimeError::InvalidEntryOffset { offset }), s)
    } else if insns.len() <= PROLOGUE_STEPS {
        (Err(RuntimeError::MissingPrologue), s)
    } else {
        let (r, s1) = run_prefix(insns, PROLOGUE_STEPS as nat, cfg.base_pc, entry_regs(cfg, s));
        match r {
            Ok(_) => (Ok((cfg.base_pc + offset) as u64), s1),
            Err(e) => (Err(e), s1),
        }
    }
}

/// Continue at the laid-out code for `target_pc`, or ask for its translation.
pub open spec fn continue_or_translate(vl: Seq<(u64, usize)>, status: RetStatus, target_pc: u64, resume_offset: Option<usize>) -> RuntimeAction {
    match layout::find_label(vl, target_pc) {
        Some(offset) => RuntimeAction::ContinueAt(offset),
        None => RuntimeAction::Stop(URuntimeHalt::NeedsTranslation { status, target_pc, resume_offset }),
    }
}

/// What the runtime does with a return from the fragment: the status and its
/// two parameters are read from their registers; a call saves the resume pc
/// as the user's link register before it goes on.
pub open spec fn spec_handle_return(cfg: URuntimeConfig, vl: Seq<(u64, usize)>, s: MachineView) -> (RuntimeAction, MachineView) {
    let raw = s.x_at(RET_STATUS_REG as int);
    let status = RetStatus::spec_from_reg(raw);
    let param0 = s.x_at(RET_PARAM0_REG as int);
    let resume_pc = s.x_at(RET_PARAM1_REG as int);
    let resume_offset = layout::find_label(vl, resume_pc);
    match status {
        RetStatus::Svc => (
            match resume_offset {
                Some(offset) => RuntimeAction::ContinueAt(offset),
                None => RuntimeAction::Stop(URuntimeHalt::ReturnedToUserspace { status, target_pc: resume_pc }),
            },
            s,
        ),
        RetStatus::Bl | RetStatus::Blr => (
            continue_or_translate(vl, status, param0, resume_offset),
            s.with_mem(model::store_le(s.mem, pt_slot(cfg, ABI_LINK_REG as int), resume_pc, 8)),
        ),
        RetStatus::Br => (continue_or_translate(vl, status, param0, resume_offset), s),
        RetStatus::Ret => (
            match layout::find_label(vl, param0) {
                Some(offset) => RuntimeAction::ContinueAt(offset),
                None => RuntimeAction::Stop(URuntimeHalt::ReturnedToUserspace { status, target_pc: param0 }),
            },
            s,
        ),
        RetStatus::Invalid(_) => (RuntimeAction::Stop(URuntimeHalt::InvalidReturnStatus { raw }), s),
        _ => (RuntimeAction::Stop(URuntimeHalt::UnsupportedRuntimeExit { status }), s),
    }
}

/// The instruction a pc of the placed fragment holds.
pub open spec fn pc_index(base: u64, n: nat, pc: u64) -> Option<int> {
    if pc < base || (pc - base) % 4 != 0 || (pc - base) / 4 >= n {
        None
    } else {
        Some((pc - base) / 4)
    }
}

/// Where a run is after one more step.
pub enum RunPoint {
    Continue { pc: u64, state: MachineView, steps: nat },
    Stop { halt: URuntimeHalt, state: MachineView, steps: nat },
}

/// One step of the runtime at `pc`: a return to the runtime is handled, any
/// other pc executes the instruction there.
#[verifier::opaque]
pub open spec fn run_step(
    cfg: URuntimeConfig,
    insns: Seq<A64Insn>,
    vl: Seq<(u64, usize)>,
    pc: u64,
    s: MachineView,
    steps: nat,
) -> RunPoint {
    if pc == cfg.return_pc {
        let (action, s1) = spec_handle_return(cfg, vl, s);
        match action {
            RuntimeAction::Stop(halt) => RunPoint::Stop { halt, state: s1, steps },
            RuntimeAction::ContinueAt(offset) => {
                let (r, s2) = spec_enter(cfg, insns, offset, s1);
                match r {
                    Err(error) => RunPoint::Stop {
                        halt: URuntimeHalt::ExecutionError { pc, error },
                        state: s2,
                        steps,
                    },
                    Ok(next) => if steps + PROLOGUE_STEPS > usize::MAX {
                        RunPoint::Stop {
                            halt: URuntimeHalt::ExecutionError { pc, error: RuntimeError::StepCountOverflow },
                            state: s2,
                            steps,
                        }
                    } else {
                        RunPoint::Continue { pc: next, state: s2, steps: (steps + PROLOGUE_STEPS) as nat }
                    },
                }
            },
        }
    } else {
        match pc_index(cfg.base_pc, insns.len(), pc) {
            None => RunPoint::Stop { halt: URuntimeHalt::FellOffFragment { pc }, state: s, steps },
            Some(i) => if steps + 1 > usize::MAX {
                RunPoint::Stop {
                    halt: URuntimeHalt::ExecutionError { pc, error: RuntimeError::StepCountOverflow },
                    state: s,
                    steps,
                }
            } else if !arm64::executable(insns[i]) {
                RunPoint::Stop {
                    halt: URuntimeHalt::ExecutionError { pc, error: RuntimeError::NotExecutable },
                    state: s,
                    steps: steps + 1,
                }
            } else {
                match arm64::spec_execute(insns[i], pc, s) {
                    Ok((next, s1)) => RunPoint::Continue { pc: next, state: s1, steps: steps + 1 },
                    Err(e) => RunPoint::Stop {
                        halt: URuntimeHalt::ExecutionError { pc, error: RuntimeError::Exec(e) },
                        state: s,
                        steps: steps + 1,
                    },
                }
            },
        }
    }
}

/// The end of a run from `pc` within `fuel` steps: how it halted, the
/// runtime's state and the step count.
pub open spec fn run_from(
    fuel: nat,
    cfg: URuntimeConfig,
    insns: Seq<A64Insn>,
    vl: Seq<(u64, usize)>,
    pc: u64,
    s: MachineView,
    steps: nat,
) -> Option<(URuntimeHalt, MachineView, nat)>
    decreases fuel,
{
    if fuel == 0 {
        None
    } else {
        match run_step(cfg, insns, vl, pc, s, steps) {
            RunPoint::Stop { halt, state, steps } => Some((halt, state, steps)),
            RunPoint::Continue { pc, state, steps } => run_from((fuel - 1) as nat, cfg, insns, vl, pc, state, steps),
        }
    }
}

/// The end of a whole run within `fuel` steps: the fragment is entered at
/// its entry offset, then stepped until it halts.
pub open spec fn run_outcome(
    fuel: nat,
    cfg: URuntimeConfig,
    insns: Seq<A64Insn>,
    entry: usize,
    vl: Seq<(u64, usize)>,
    s: MachineView,
) -> Option<(URuntimeHalt, MachineView, nat)> {
    if fuel == 0 {
        None
    } else {
        let (r, s1) = spec_enter(cfg, insns, entry, s);
        match r {
            Err(error) => Some((URuntimeHalt::ExecutionError { pc: cfg.base_pc, error }, s1, 0)),
            Ok(pc) => run_from((fuel - 1) as nat, cfg, insns, vl, pc, s1, PROLOGUE_STEPS as nat),
        }
    }
}

/// The ranges the runtime owns: the register block, the extra parameters and
/// its stack frame.
pub open spec fn runtime_ranges(cfg: URuntimeConfig) -> Seq<(u64, u64)> {
    seq![
        (cfg.pt_regs_addr, (cfg.pt_regs_addr + PT_REGS_BYTES) as u64),
        (cfg.extra_params_addr, (cfg.extra_params_addr + EXTRA_PARAMS_BYTES) as u64),
        (if cfg.stack_top >= RUNTIME_FRAME_BYTES { (cfg.stack_top - RUNTIME_FRAME_BYTES) as u64 } else { 0 }, cfg.stack_top),
    ]
}

/// What the user sees of a runtime state: the registers saved in the
/// register block, the flags, and memory outside the runtime's ranges.
pub open spec fn user_state(cfg: URuntimeConfig, s: MachineView) -> MachineView {
    MachineView {
        x: Seq::new(31, |r: int| model::mem_u64(s.mem, pt_slot(cfg, r))),
        sp: model::mem_u64(s.mem, pt_slot(cfg, 31)),
        flags: s.flags,
        mem: model::without_ranges(s.mem, runtime_ranges(cfg)),
    }
}

impl URuntime {
    /// The placement fits the address space.
    pub open spec fn wf(&self) -> bool {
        config_fits(self.config, self.fragment.insns@.len())
    }

    /// A runtime with the default placement.
    pub fn new(fragment: ExecutionFragment, initial_state: MachineState) -> (r: Self)
        requires
            config_fits(
                URuntimeConfig {
                    base_pc: DEFAULT_BASE_PC,
                    pt_regs_addr: DEFAULT_PT_REGS_ADDR,
                    extra_params_addr: DEFAULT_EXTRA_PARAMS_ADDR,
                    return_pc: DEFAULT_RETURN_PC,
                    stack_top: DEFAULT_STACK_TOP,
                },
                fragment.insns@.len(),
            ),
        ensures
            r.wf(),
            r.fragment == fragment,
            r.config == (URuntimeConfig {
                base_pc: DEFAULT_BASE_PC,
                pt_regs_addr: DEFAULT_PT_REGS_ADDR,
                extra_params_addr: DEFAULT_EXTRA_PARAMS_ADDR,
                return_pc: DEFAULT_RETURN_PC,
                stack_top: DEFAULT_STACK_TOP,
            }),
            r.state@ == start_state(r.config, initial_state@),
    {
        Self::with_config(fragment, initial_state, URuntimeConfig::default())
    }

    /// A runtime with the given placement: the user registers are saved to
    /// the register block, the extra parameters zeroed, and the entry
    /// registers set.
    pub fn with_config(fragment: ExecutionFragment, initial_state: MachineState, config: URuntimeConfig) -> (r: Self)
        requires
            config_fits(config, fragment.insns@.len()),
        ensures
            r.wf(),
            r.fragment == fragment,
            r.config == config,
            r.state@ == start_state(config, initial_state@),
    {
        let mut state = initial_state;
        seed_pt_regs(&mut state, &config);
        state.write_x(ABI_PT_REGS_ARG_REG, config.pt_regs_addr);
        state.write_x(ABI_EXTRA_PARAMS_ARG_REG, config.extra_params_addr);
        state.write_x(ABI_LINK_REG, config.return_pc);
        state.set_sp(config.stack_top);
        URuntime { state, fragment, config }
    }

    fn run_prologue(&mut self) -> (r: Result<u64, RuntimeError>)
        requires
            old(self).wf(),
            old(self).fragment.insns@.len() > PROLOGUE_STEPS,
        ensures
            final(self).fragment == old(self).fragment,
            final(self).config == old(self).config,
            (r, final(self).state@) == run_prefix(
                old(self).fragment.insns@,
                PROLOGUE_STEPS as nat,
                old(self).config.base_pc,
                old(self).state@,
            ),
    {
        let mut pc = self.config.base_pc;
        let mut index: usize = 0;
        while index < PROLOGUE_STEPS
            invariant
                index <= PROLOGUE_STEPS,
                self.fragment == old(self).fragment,
                self.config == old(self).config,
                self.fragment.insns@.len() > PROLOGUE_STEPS,
                (Ok::<u64, RuntimeError>(pc), self.state@) == run_prefix(
                    old(self).fragment.insns@,
                    index as nat,
                    old(self).config.base_pc,
                    old(self).state@,
                ),
            decreases PROLOGUE_STEPS - index,
        {
            let insn = self.fragment.insns[index];
            match execute_checked(insn, pc, &mut self.state) {
                Ok(next) => {
                    pc = next;
                },
                Err(e) => {
                    proof {
                        lemma_prefix_error_stays(
                            self.fragment.insns@,
                            (index + 1) as nat,
                            PROLOGUE_STEPS as nat,
                            old(self).config.base_pc,
                            old(self).state@,
                        );
                    }
                    return Err(e);
                },
            }
            index = index + 1;
        }
        Ok(pc)
    }

    fn enter_fragment_at(&mut self, offset: usize) -> (r: Result<u64, RuntimeError>)
        requires
            old(self).wf(),
        ensures
            final(self).fragment == old(self).fragment,
            final(self).config == old(self).config,
            (r, final(self).state@) == spec_enter(old(self).config, old(self).fragment.insns@, offset, old(self).state@),
    {
        if offset % 4 != 0 || offset >= self.fragment.len_bytes() {
            return Err(RuntimeError::InvalidEntryOffset { offset });
        }
        if self.fragment.insns.len() <= PROLOGUE_STEPS {
            return Err(RuntimeError::MissingPrologue);
        }
        self.state.write_x(ABI_PT_REGS_ARG_REG, self.config.pt_regs_addr);
        self.state.write_x(ABI_EXTRA_PARAMS_ARG_REG, self.config.extra_params_addr);
        self.state.write_x(ABI_LINK_REG, self.config.return_pc);
        self.state.set_sp(self.config.stack_top);
        proof {
            assert(self.state@ == entry_regs(self.config, old(self).state@));
        }
        match self.run_prologue() {
            Ok(_) => Ok(self.config.base_pc + offset as u64),
            Err(e) => Err(e),
        }
    }

    fn handle_runtime_return(&mut self) -> (r: RuntimeAction)
        requires
            old(self).wf(),
        ensures
            final(self).fragment == old(self).fragment,
            final(self).config == old(self).config,
            (r, final(self).state@) == spec_handle_return(old(self).config, old(self).fragment.vlabels@, old(self).state@),
    {
        let raw_status = self.state.read_x(RET_STATUS_REG);
        let status = RetStatus::from_reg(raw_status);
        let param0 = self.state.read_x(RET_PARAM0_REG);
        let resume_pc = self.state.read_x(RET_PARAM1_REG);
        let resume_offset = self.fragment.offset_for_pc(resume_pc);
        match status {
            RetStatus::Svc => match resume_offset {
                Some(offset) => RuntimeAction::ContinueAt(offset),
                None => RuntimeAction::Stop(URuntimeHalt::ReturnedToUserspace { status, target_pc: resume_pc }),
            },
            RetStatus::Bl | RetStatus::Blr => {
                self.state.write_u64(self.config.pt_regs_addr + (ABI_LINK_REG as u64) * 8, resume_pc);
                self.continue_or_request_translation(status, param0, resume_offset)
            },
            RetStatus::Br => self.continue_or_request_translation(status, param0, resume_offset),
            RetStatus::Ret => match self.fragment.offset_for_pc(param0) {
                Some(offset) => RuntimeAction::ContinueAt(offset),
                None => RuntimeAction::Stop(URuntimeHalt::ReturnedToUserspace { status, target_pc: param0 }),
            },
            RetStatus::Invalid(_) => RuntimeAction::Stop(URuntimeHalt::InvalidReturnStatus { raw: raw_status }),
            RetStatus::Mem | RetStatus::Debug => RuntimeAction::Stop(URuntimeHalt::UnsupportedRuntimeExit { status }),
        }
    }

    fn continue_or_request_translation(&self, status: RetStatus, target_pc: u64, resume_offset: Option<usize>) -> (r: RuntimeAction)
        ensures
            r == continue_or_translate(self.fragment.vlabels@, status, target_pc, resume_offset),
    {
        match self.fragment.offset_for_pc(target_pc) {
            Some(offset) => RuntimeAction::ContinueAt(offset),
            None => RuntimeAction::Stop(URuntimeHalt::NeedsTranslation { status, target_pc, resume_offset }),
        }
    }

    fn pc_to_index(&self, pc: u64) -> (r: Option<usize>)
        ensures
            match pc_index(self.config.base_pc, self.fragment.insns@.len(), pc) {
                Some(i) => r == Some(i as usize) && i < self.fragment.insns@.len(),
                None => r is None,
            },
    {
        if pc < self.config.base_pc {
            return None;
        }
        let offset = pc - self.config.base_pc;
        if offset % 4 != 0 {
            return None;
        }
        if offset / 4 >= self.fragment.insns.len() as u64 {
            return None;
        }
        Some((offset / 4) as usize)
    }

    /// One step of the run, as `run_step` says.
    fn step_at(&mut self, pc: u64, steps: usize) -> (r: Result<(u64, usize), (URuntimeHalt, usize)>)
        requires
            old(self).wf(),
        ensures
            final(self).fragment == old(self).fragment,
            final(self).config == old(self).config,
            match run_step(
                old(self).config,
                old(self).fragment.insns@,
                old(self).fragment.vlabels@,
                pc,
                old(self).state@,
                steps as nat,
            ) {
                RunPoint::Continue { pc: next, state, steps: n } => r == Ok::<(u64, usize), (URuntimeHalt, usize)>((next, n as usize))
                    && steps < n <= usize::MAX && final(self).state@ == state,
                RunPoint::Stop { halt, state, steps: n } => r == Err::<(u64, usize), (URuntimeHalt, usize)>((halt, n as usize))
                    && n <= usize::MAX && final(self).state@ == state,
            },
    {
        proof {
            reveal(run_step);
        }
        if pc == self.config.return_pc {
            match self.handle_runtime_return() {
                RuntimeAction::Stop(halt) => Err((halt, steps)),
                RuntimeAction::ContinueAt(offset) => match self.enter_fragment_at(offset) {
                    Err(error) => Err((URuntimeHalt::ExecutionError { pc, error }, steps)),
                    Ok(next) => {
                        if steps > usize::MAX - PROLOGUE_STEPS {
                            Err((URuntimeHalt::ExecutionError { pc, error: RuntimeError::StepCountOverflow }, steps))
                        } else {
                            Ok((next, steps + PROLOGUE_STEPS))
                        }
                    },
                },
            }
        } else {
            match self.pc_to_index(pc) {
                None => Err((URuntimeHalt::FellOffFragment { pc }, steps)),
                Some(index) => {
                    let insn = self.fragment.insns[index];
                    if steps == usize::MAX {
                        Err((URuntimeHalt::ExecutionError { pc, error: RuntimeError::StepCountOverflow }, steps))
                    } else if !is_executable(insn) {
                        Err((URuntimeHalt::ExecutionError { pc, error: RuntimeError::NotExecutable }, steps + 1))
                    } else {
                        match execute_insn(insn, pc, &mut self.state) {
                            Ok(next) => Ok((next, steps + 1)),
                            Err(e) => Err((URuntimeHalt::ExecutionError { pc, error: RuntimeError::Exec(e) }, steps + 1)),
                        }
                    }
                },
            }
        }
    }

    /// Runs the fragment from its entry offset until it halts: returns to
    /// the runtime are handled as `spec_handle_return` says, every other pc
    /// executes the fragment's instruction there. The report holds the
    /// user-visible state, the halt and the step count; all three are those
    /// of `run_outcome`.
    pub fn run(&mut self) -> (r: URuntimeReport)
        requires
            old(self).wf(),
        ensures
            final(self).fragment == old(self).fragment,
            final(self).config == old(self).config,
            exists|fuel: nat|
                #[trigger] run_outcome(
                    fuel,
                    old(self).config,
                    old(self).fragment.insns@,
                    old(self).fragment.entry_offset,
                    old(self).fragment.vlabels@,
                    old(self).state@,
                ) == Some((r.halt, final(self).state@, r.steps as nat)),
            r.state@ == user_state(old(self).config, final(self).state@),
    {
        let ghost cfg = self.config;
        let ghost insns = self.fragment.insns@;
        let ghost vl = self.fragment.vlabels@;
        let ghost entry = self.fragment.entry_offset;
        let ghost s0 = self.state@;
        let entry_offset = self.fragment.entry_offset;
        let mut pc = match self.enter_fragment_at(entry_offset) {
            Ok(pc) => pc,
            Err(error) => {
                let halt = URuntimeHalt::ExecutionError { pc: self.config.base_pc, error };
                assert(run_outcome(1, cfg, insns, entry, vl, s0) == Some((halt, self.state@, 0nat)));
                return self.report(halt, 0);
            },
        };
        let mut steps: usize = PROLOGUE_STEPS;
        let ghost mut done: nat = 0;
        assert forall|f: nat| #[trigger] run_from(f, cfg, insns, vl, pc, self.state@, steps as nat) == run_outcome(
            f + done + 1,
            cfg,
            insns,
            entry,
            vl,
            s0,
        ) by {}
        loop
            invariant
                self.wf(),
                self.fragment == old(self).fragment,
                self.config == old(self).config,
                cfg == self.config,
                insns == self.fragment.insns@,
                vl == self.fragment.vlabels@,
                entry == self.fragment.entry_offset,
                s0 == old(self).state@,
                forall|f: nat| #[trigger] run_from(f, cfg, insns, vl, pc, self.state@, steps as nat) == run_outcome(
                    f + done + 1,
                    cfg,
                    insns,
                    entry,
                    vl,
                    s0,
                ),
            decreases usize::MAX - steps,
        {
            let ghost pc0 = pc;
            let ghost st0 = self.state@;
            let ghost steps0 = steps as nat;
            match self.step_at(pc, steps) {
                Ok((next, n)) => {
                    pc = next;
                    steps = n;
                    proof {
                        assert forall|f: nat| #[trigger] run_from(f, cfg, insns, vl, pc, self.state@, steps as nat)
                            == run_outcome(f + (done + 1) + 1, cfg, insns, entry, vl, s0) by {
                            assert(run_from(f + 1, cfg, insns, vl, pc0, st0, steps0) == run_outcome(
                                f + 1 + done + 1,
                                cfg,
                                insns,
                                entry,
                                vl,
                                s0,
                            ));
                        }
                        done = done + 1;
                    }
                },
                Err((halt, n)) => {
                    proof {
                        assert(run_from(1, cfg, insns, vl, pc0, st0, steps0) == run_outcome(
                            1 + done + 1,
                            cfg,
                            insns,
                            entry,
                            vl,
                            s0,
                        ));
                        assert(run_outcome(1 + done + 1, cfg, insns, entry, vl, s0) == Some((halt, self.state@, n as nat)));
                    }
                    return self.report(halt, n);
                },
            }
        }
    }

    fn report(&self, halt: URuntimeHalt, steps: usize) -> (r: URuntimeReport)
        requires
            self.wf(),
        ensures
            r.halt == halt,
            r.steps == steps,
            r.state@ == user_state(self.config, self.state@),
    {
        URuntimeReport { state: self.user_state_from_pt_regs(), halt, steps }
    }

    fn user_state_from_pt_regs(&self) -> (r: MachineState)
        requires
            self.wf(),
        ensures
            r@ == user_state(self.config, self.state@),
    {
        let pt = self.config.pt_regs_addr;
        let frame_low = if self.config.stack_top >= RUNTIME_FRAME_BYTES {
            self.config.stack_top - RUNTIME_FRAME_BYTES
        } else {
            0
        };
        let ranges = vec![
            (pt, pt + PT_REGS_BYTES),
            (self.config.extra_params_addr, self.config.extra_params_addr + EXTRA_PARAMS_BYTES),
            (frame_low, self.config.stack_top),
        ];
        assert(ranges@ =~= runtime_ranges(self.config));
        let mut state = self.state.without_memory_ranges(ranges.as_slice());
        let mut reg: u8 = 0;
        proof {
            state.lemma_x_len();
        }
        while reg < 31
            invariant
                reg <= 31,
                self.wf(),
                pt == self.config.pt_regs_addr,
                state@.x.len() == 31,
                state@.sp == self.state@.sp,
                state@.flags == self.state@.flags,
                state@.mem == model::without_ranges(self.state@.mem, runtime_ranges(self.config)),
                forall|k: int| 0 <= k < reg ==> state@.x[k] == model::mem_u64(self.state@.mem, pt_slot(self.config, k)),
            decreases 31 - reg,
        {
            let v = self.state.read_u64(pt + (reg as u64) * 8);
            state.write_x(reg, v);
            reg = reg + 1;
        }
        state.set_sp(self.state.read_u64(pt + PT_REGS_SP_OFFSET));
        state.set_flags(self.state.flags());
        assert(state@.x =~= user_state(self.config, self.state@).x);
        state
    }
}

/// Executes `insn` at `pc` once it is known the interpreter takes it there.
fn execute_checked(insn: A64Insn, pc: u64, state: &mut MachineState) -> (r: Result<u64, RuntimeError>)
    ensures
        (r, final(state)@) == prefix_next(insn, Ok(pc), old(state)@),
{
    proof {
        reveal(prefix_next);
    }
    if !is_executable(insn) {
        return Err(RuntimeError::NotExecutable);
    }
    if pc > u64::MAX - 4 {
        return Err(RuntimeError::PcOverflow);
    }
    match execute_insn(insn, pc, state) {
        Ok(next) => Ok(next),
        Err(e) => Err(RuntimeError::Exec(e)),
    }
}

fn seed_pt_regs(state: &mut MachineState, config: &URuntimeConfig)
    requires
        config.pt_regs_addr + PT_REGS_BYTES <= u64::MAX,
        config.extra_params_addr + EXTRA_PARAMS_BYTES <= u64::MAX,
    ensures
        final(state)@ == seeded(*config, old(state)@),
{
    let mut reg: u8 = 0;
    while reg < 31
        invariant
            reg <= 31,
            config.pt_regs_addr + PT_REGS_BYTES <= u64::MAX,
            state@ == old(state)@.with_mem(save_regs(*config, old(state)@, reg as nat)),
        decreases 31 - reg,
    {
        let v = state.read_x(reg);
        state.write_u64(config.pt_regs_addr + (reg as u64) * 8, v);
        reg = reg + 1;
    }
    let sp = state.sp();
    state.write_u64(config.pt_regs_addr + PT_REGS_SP_OFFSET, sp);
    state.write_u64(config.extra_params_addr, 0);
    state.write_u64(config.extra_params_addr + 8, 0);
}

} // verus!
