//! The translation pipeline end to end: control-flow discovery, rephrasing,
//! register checks and layout.
use vstd::prelude::*;

use crate::shared::arm64::{codec, ir, IrInsn};
use crate::shared::emit::layout::{self, layout_program, ExecutionFragment, LayoutError};
use crate::shared::platform::SharedAllocError;
use crate::shared::trans::cfg::{self, build_cfg, BasicBlock, Cfg, CfgError};
use crate::shared::trans::input::{CodeProvider, TranslationRequest};
use crate::shared::trans::reg_virt::{self, virtualize_registers, RegVirtError};
use crate::shared::trans::rephrase::{self, rephrase, RephrasedBlock};

verus! {

/// The decoded instructions of every block, in block order, without any
/// rewriting.
pub type LegacyTranslatedProgram = Vec<IrInsn>;

pub type TranslatedProgram = LegacyTranslatedProgram;

#[derive(Clone, Copy, Debug, PartialEq, Eq)]
pub enum TranslateError {
    Cfg(CfgError),
    Alloc(SharedAllocError),
}

#[derive(Clone, Copy, Debug, PartialEq, Eq)]
pub enum CompileError {
    Cfg(CfgError),
    Rephrase(SharedAllocError),
    RegVirt(RegVirtError),
    Layout(LayoutError),
}

impl From<CfgError> for TranslateError {
    fn from(err: CfgError) -> (r: Self) {
        TranslateError::Cfg(err)
    }
}

impl vstd::std_specs::convert::FromSpecImpl<CfgError> for TranslateError {
    open spec fn obeys_from_spec() -> bool {
        true
    }

    open spec fn from_spec(v: CfgError) -> Self {
        TranslateError::Cfg(v)
    }
}

/// The instructions of the blocks, one block after the other.
pub open spec fn spec_flatten(blocks: Seq<BasicBlock>) -> Seq<IrInsn>
    decreases blocks.len(),
{
    if blocks.len() == 0 {
        seq![]
    } else {
        spec_flatten(blocks.drop_last()) + blocks.last().insns@.map_values(|d: crate::shared::trans::arm64::DecodedInsn| rephrase::to_ir(d))
    }
}

/// Rephrasing the blocks of a well-formed control-flow graph gives only
/// encodable instructions, and so does laying them out.
pub proof fn lemma_program_encodable(c: Cfg, code: Map<u64, u8>, entry: u64, p: Seq<RephrasedBlock>)
    requires
        cfg::cfg_ok(c, code, entry),
        rephrase::rephrased_program_ok(c.blocks@, p),
    ensures
        forall|i: int, k: int| 0 <= i < p.len() && 0 <= k < p[i].insns@.len() ==> (#[trigger] p[i].insns@[k]).insn.spec_fits(),
        layout::spec_layout(p) matches Ok((insns, _, _)) ==> layout::all_fit(insns),
{
    assert forall|i: int, k: int| 0 <= i < p.len() && 0 <= k < p[i].insns@.len() implies (#[trigger] p[i].insns@[k]).insn.spec_fits() by {
        let blk = c.blocks@[i];
        assert(cfg::block_ok(blk, code));
        assert(rephrase::rephrased_block_ok(c.blocks@, i, p[i]));
        assert forall|m: int| 0 <= m < blk.insns@.len() implies (#[trigger] blk.insns@[m]).insn.spec_fits() by {
            assert(cfg::decoded_at(code, ir::wrap_add(blk.start_addr, 4 * m), blk.insns@[m]));
            codec::lemma_decode_sound(blk.insns@[m].word);
        }
        rephrase::lemma_rephrase_all_fits(blk.insns@);
    }
    layout::lemma_layout_encodable(p);
}

/// The instructions reachable from the request's entry, block by block, as
/// decoded.
pub fn translate_request<P: CodeProvider>(request: &TranslationRequest, code: &P) -> (r: Result<TranslatedProgram, TranslateError>)
    ensures
        r matches Ok(v) ==> exists|c: Cfg| cfg::cfg_ok(c, code.spec_code(), request.entry_pc) && v@ == spec_flatten(c.blocks@),
        r matches Err(e) ==> e matches TranslateError::Cfg(ce) && (ce is CodeRead || cfg::decode_refused(ce, code.spec_code())),
{
    let c = match build_cfg(request, code) {
        Ok(c) => c,
        Err(e) => {
            return Err(TranslateError::Cfg(e));
        },
    };
    let mut program: Vec<IrInsn> = Vec::new();
    let mut i: usize = 0;
    assert(c.blocks@.take(0) =~= Seq::<BasicBlock>::empty());
    while i < c.blocks.len()
        invariant
            i <= c.blocks@.len(),
            program@ == spec_flatten(c.blocks@.take(i as int)),
        decreases c.blocks@.len() - i,
    {
        let insns = &c.blocks[i].insns;
        let ghost before = program@;
        let mut j: usize = 0;
        while j < insns.len()
            invariant
                j <= insns@.len(),
                program@ == before + insns@.take(j as int).map_values(|d: crate::shared::trans::arm64::DecodedInsn| rephrase::to_ir(d)),
            decreases insns@.len() - j,
        {
            let d = insns[j];
            program.push(IrInsn { pc: d.pc, word: d.word, inner: d.insn });
            assert(insns@.take(j as int + 1).map_values(|d: crate::shared::trans::arm64::DecodedInsn| rephrase::to_ir(d))
                =~= insns@.take(j as int).map_values(|d: crate::shared::trans::arm64::DecodedInsn| rephrase::to_ir(d)).push(rephrase::to_ir(d)));
            j = j + 1;
        }
        assert(insns@.take(j as int) =~= insns@);
        assert(c.blocks@.take(i as int + 1).drop_last() =~= c.blocks@.take(i as int));
        i = i + 1;
    }
    assert(c.blocks@.take(i as int) =~= c.blocks@);
    Ok(program)
}

/// Compiles the code reachable from the request's entry into an executable
/// fragment: control flow, rephrasing, register checks, layout. The first
/// stage that refuses gives the error.
pub fn compile_request<P: CodeProvider>(request: &TranslationRequest, code: &P) -> (r: Result<ExecutionFragment, CompileError>)
    ensures
        match r {
            Ok(f) => exists|c: Cfg, p: Seq<RephrasedBlock>|
                cfg::cfg_ok(c, code.spec_code(), request.entry_pc) && rephrase::rephrased_program_ok(c.blocks@, p)
                    && reg_virt::spec_validate_blocks(p) is Ok && layout::spec_layout(p) == Ok::<(Seq<crate::shared::arm64::A64Insn>, usize, Seq<(u64, usize)>), LayoutError>((f.insns@, f.entry_offset, f.vlabels@)),
            Err(CompileError::Cfg(e)) => e is CodeRead || cfg::decode_refused(e, code.spec_code()),
            Err(CompileError::Rephrase(_)) => false,
            Err(CompileError::RegVirt(e)) => exists|c: Cfg, p: Seq<RephrasedBlock>|
                cfg::cfg_ok(c, code.spec_code(), request.entry_pc) && rephrase::rephrased_program_ok(c.blocks@, p)
                    && reg_virt::spec_validate_blocks(p) == Err::<(), RegVirtError>(e),
            Err(CompileError::Layout(e)) => exists|c: Cfg, p: Seq<RephrasedBlock>|
                cfg::cfg_ok(c, code.spec_code(), request.entry_pc) && rephrase::rephrased_program_ok(c.blocks@, p)
                    && reg_virt::spec_validate_blocks(p) is Ok && layout::spec_layout(p) == Err::<(Seq<crate::shared::arm64::A64Insn>, usize, Seq<(u64, usize)>), LayoutError>(e),
        },
        r matches Ok(f) ==> layout::all_fit(f.insns@),
{
    let c = match build_cfg(request, code) {
        Ok(c) => c,
        Err(e) => {
            return Err(CompileError::Cfg(e));
        },
    };
    let ghost cg = c;
    let rephrased = match rephrase(c) {
        Ok(p) => p,
        Err(e) => {
            return Err(CompileError::Rephrase(e));
        },
    };
    let ghost p = rephrased@;
    proof {
        lemma_program_encodable(cg, code.spec_code(), request.entry_pc, p);
    }
    let virtualized = match virtualize_registers(rephrased) {
        Ok(v) => v,
        Err(e) => {
            return Err(CompileError::RegVirt(e));
        },
    };
    assert(virtualized@ == p);
    match layout_program(virtualized) {
        Ok(f) => Ok(f),
        Err(e) => Err(CompileError::Layout(e)),
    }
}

} // verus!
