use kjit::harness::code::MockCodeProvider;
use kjit::shared::abi::{ABI_LINK_REG, RET_PARAM0_REG, RET_PARAM1_REG, RET_STATUS_REG};
use kjit::shared::arm64::ergo::{scaled_simm, uimm, x, xzr};
use kjit::shared::arm64::{A64Imm, A64Insn, IrInsn};
use kjit::shared::trans::cfg::build_cfg;
use kjit::shared::trans::input::{TranslationRequest, TranslationTrigger};
use kjit::shared::trans::rephrase::{rephrase, rephrase_insn, RephrasedInsn, RephrasedInsnKind};

fn at_0x1000(inner: A64Insn) -> Vec<RephrasedInsn> {
    rephrase_insn(IrInsn { pc: 0x1000, word: 0, inner }).unwrap()
}

#[test]
fn runtime_exit_rewrites_have_explicit_exit_branch_only() {
    let cases = [
        A64Insn::BlBlOnlyBranchImm { imm26: scaled_simm(2, 26, 2) },
        A64Insn::BlrBlr64BranchReg { rn: x(4) },
        A64Insn::BrBr64BranchReg { rn: x(5) },
        A64Insn::RetRet64rBranchReg { rn: x(30) },
        A64Insn::SvcSvcExException { imm16: A64Imm::unsigned(0, 16) },
    ];

    for insn in cases {
        let rephrased = at_0x1000(insn);

        assert_eq!(
            rephrased.iter().filter(|insn| insn.kind.is_runtime_exit_branch()).count(),
            1,
            "expected one runtime-exit branch for {}",
            insn.key()
        );
        assert!(
            rephrased
                .iter()
                .filter(|insn| !insn.kind.is_runtime_exit_branch())
                .all(|insn| matches!(
                    insn.kind,
                    RephrasedInsnKind::RuntimeExitPayload | RephrasedInsnKind::UserSynthetic
                )),
            "expected runtime-exit lowering instructions to be payload or user-synthetic for {}",
            insn.key()
        );
        assert!(
            rephrased.iter().all(|insn| insn.kind.is_runtime_exit() || insn.kind.is_user_semantic()),
            "expected only runtime-exit or user-semantic lowering instructions for {}",
            insn.key()
        );
        assert!(
            rephrased.iter().all(|insn| insn.insn.runtime_exit_reason(insn.ori_pc).is_none()),
            "raw runtime-exit instruction survived rephrase for {}",
            insn.key()
        );
    }
}

#[test]
fn bl_and_blr_emit_user_semantic_link_update() {
    let cases = [
        A64Insn::BlBlOnlyBranchImm { imm26: scaled_simm(2, 26, 2) },
        A64Insn::BlrBlr64BranchReg { rn: x(4) },
    ];

    for insn in cases {
        let rephrased = at_0x1000(insn);

        assert!(
            rephrased.iter().any(|insn| {
                insn.kind == RephrasedInsnKind::UserSynthetic
                    && matches!(
                        insn.insn,
                        A64Insn::MovzMovz64Movewide { rd, .. } | A64Insn::MovkMovk64Movewide { rd, .. }
                            if rd.enc == ABI_LINK_REG
                    )
            }),
            "expected {} to write user LR as user-semantic code",
            insn.key()
        );
    }
}

#[test]
fn blr_x30_captures_old_lr_before_link_update() {
    let rephrased = at_0x1000(A64Insn::BlrBlr64BranchReg { rn: x(ABI_LINK_REG) });

    assert_eq!(
        rephrased[0],
        RephrasedInsn::runtime_exit_payload(
            0x1000,
            A64Insn::OrrLogShiftOrr64LogShift {
                shift: 0,
                rm: x(ABI_LINK_REG),
                imm6: uimm(0, 6),
                rn: xzr(),
                rd: x(RET_PARAM0_REG),
            },
        )
    );
    assert_eq!(rephrased[1].kind, RephrasedInsnKind::UserSynthetic);
}

#[test]
fn adr_expansions_are_user_synthetic() {
    let cases = [
        A64Insn::AdrAdrOnlyPcreladdr {
            immlo: A64Imm::unsigned(0, 2),
            immhi: A64Imm::unsigned(1, 19),
            rd: x(3),
        },
        A64Insn::AdrpAdrpOnlyPcreladdr {
            immlo: A64Imm::unsigned(0, 2),
            immhi: A64Imm::unsigned(0, 19),
            rd: x(4),
        },
    ];

    for insn in cases {
        let rephrased = at_0x1000(insn);

        assert_eq!(rephrased.len(), 4);
        assert!(
            rephrased.iter().all(|insn| insn.kind == RephrasedInsnKind::UserSynthetic),
            "expected ADR/ADRP expansion to be user synthetic for {}",
            insn.key()
        );
        assert!(
            rephrased.iter().all(|insn| insn.kind.is_user_semantic()),
            "expected ADR/ADRP expansion to stay user-semantic for {}",
            insn.key()
        );
    }
}

fn movs(rephrased: &[RephrasedInsn], rd: u8) -> Vec<(u8, u32)> {
    rephrased
        .iter()
        .filter_map(|insn| match insn.insn {
            A64Insn::MovzMovz64Movewide { hw, imm16, rd: r } if r.enc == rd => Some((hw, imm16.raw)),
            A64Insn::MovkMovk64Movewide { hw, imm16, rd: r } if r.enc == rd => Some((hw, imm16.raw)),
            _ => None,
        })
        .collect()
}

#[test]
fn bl_payload_carries_status_target_and_resume_pc() {
    // BL at 0x1000 with a word offset of 2 calls 0x1008 and resumes at 0x1004.
    let rephrased = at_0x1000(A64Insn::BlBlOnlyBranchImm { imm26: scaled_simm(2, 26, 2) });
    assert_eq!(rephrased.len(), 17);
    assert_eq!(movs(&rephrased, ABI_LINK_REG), vec![(3, 0), (2, 0), (1, 0), (0, 0x1004)]);
    assert_eq!(movs(&rephrased, RET_STATUS_REG), vec![(3, 0), (2, 0), (1, 0), (0, 1)]);
    assert_eq!(movs(&rephrased, RET_PARAM0_REG), vec![(3, 0), (2, 0), (1, 0), (0, 0x1008)]);
    assert_eq!(movs(&rephrased, RET_PARAM1_REG), vec![(3, 0), (2, 0), (1, 0), (0, 0x1004)]);
    assert!(rephrased.iter().all(|insn| insn.ori_pc == 0x1000));
    assert_eq!(rephrased[16].kind, RephrasedInsnKind::RuntimeExitBranch);
}

#[test]
fn adr_becomes_the_absolute_address_in_four_moves() {
    // ADR x3 at 0x1000 with immhi:immlo = 4 computes 0x1004.
    let rephrased = at_0x1000(A64Insn::AdrAdrOnlyPcreladdr {
        immlo: A64Imm::unsigned(0, 2),
        immhi: A64Imm::unsigned(1, 19),
        rd: x(3),
    });
    assert_eq!(movs(&rephrased, 3), vec![(3, 0), (2, 0), (1, 0), (0, 0x1004)]);
}

#[test]
fn other_instructions_are_kept_as_original() {
    let insn = A64Insn::NopNopHiHints {};
    assert_eq!(at_0x1000(insn), vec![RephrasedInsn::original(0x1000, insn)]);
}

fn code_of(insns: &[A64Insn]) -> Vec<u8> {
    let mut bytes = Vec::new();
    for insn in insns {
        bytes.extend_from_slice(&insn.encode().unwrap().to_le_bytes());
    }
    bytes
}

#[test]
fn rephrased_blocks_record_successors_and_predecessors() {
    // 0x1000: cbz x0, 0x1008 ; 0x1004: nop ; 0x1008: ret
    let code = code_of(&[
        A64Insn::CbzCbz64Compbranch { imm19: scaled_simm(2, 19, 2), rt: x(0) },
        A64Insn::NopNopHiHints {},
        A64Insn::RetRet64rBranchReg { rn: x(30) },
    ]);
    let provider = MockCodeProvider::new(0x1000, code);
    let request = TranslationRequest { entry_pc: 0x1000, trigger: TranslationTrigger::Manual, regs: None };
    let cfg = build_cfg(&request, &provider).unwrap();
    let program = rephrase(cfg).unwrap();

    let entry = program.iter().find(|b| b.start_addr == 0x1000).unwrap();
    assert_eq!(entry.next, vec![0x1008, 0x1004]);
    let ret = program.iter().find(|b| b.start_addr == 0x1008).unwrap();
    assert!(ret.next.is_empty());
    assert!(ret.prev.contains(&0x1000));
    assert!(ret.prev.contains(&0x1004));
}
