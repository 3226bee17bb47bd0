use kjit::lifter::{
    lift_after_translation, lift_step, user_link, LiftDecision, LiftFault, LiftReturn, LiftStep,
    LinkPatch, LOOP_LIMIT,
};
use kjit::shared::utils::vlabel::{VLabel, VLabels};

const BASE: u64 = 0xffff_0000_1000_0000;

fn labels() -> VLabels {
    VLabels::from_entries(vec![
        VLabel { original_pc: 0x4000, offset: 0x100 },
        VLabel { original_pc: 0x4004, offset: 0x104 },
        VLabel { original_pc: 0x5000, offset: 0x200 },
    ])
}

fn ret(status: u64, imm: u64, exit_offset: u64, cnt: usize) -> LiftReturn {
    LiftReturn { ret_val: status, imm_param: imm, b_insn_addr: BASE + exit_offset, cnt }
}

#[test]
fn svc_serves_the_call_and_resumes_after_the_exit() {
    let step = lift_step(ret(0, 0, 0x100, 1), &labels(), false, BASE);
    assert_eq!(
        step,
        LiftStep::Decided(LiftDecision {
            syscall: true,
            entry_offset: Some(0x104),
            link_patch: None,
            user_lr: None,
            exit_pc: None,
            failed: false,
        })
    );
    match lift_step(ret(0, 0, 0x100, LOOP_LIMIT), &labels(), false, BASE) {
        LiftStep::Decided(d) => assert_eq!(d.exit_pc, Some(0x4004)),
        other => panic!("unexpected {other:?}"),
    }
    assert_eq!(
        lift_step(ret(0, 0, 0x300, LOOP_LIMIT), &labels(), false, BASE),
        LiftStep::Fault(LiftFault::SvcResumeUnknown)
    );
}

#[test]
fn call_to_laid_out_code_is_patched_into_the_page() {
    match lift_step(ret(1, 0x5000, 0x120, 3), &labels(), false, BASE) {
        LiftStep::Decided(d) => {
            assert_eq!(d.entry_offset, Some(0x200));
            assert_eq!(d.link_patch, Some(LinkPatch { at: 0x120, target: 0x200 }));
            assert_eq!(d.user_lr, Some(BASE + 0x124));
            assert_eq!(d.exit_pc, None);
        }
        other => panic!("unexpected {other:?}"),
    }
}

#[test]
fn unknown_targets_ask_for_translation_unless_a_loop_was_found() {
    assert_eq!(
        lift_step(ret(3, 0x6000, 0x120, 3), &labels(), false, BASE),
        LiftStep::Translate { target: 0x6000 }
    );
    match lift_step(ret(3, 0x6000, 0x120, 3), &labels(), true, BASE) {
        LiftStep::Decided(d) => {
            assert!(d.failed);
            assert_eq!(d.exit_pc, Some(0x6000));
        }
        other => panic!("unexpected {other:?}"),
    }
    match lift_step(ret(4, 0x6000, 0x120, 3), &labels(), true, BASE) {
        LiftStep::Decided(d) => {
            assert!(!d.failed);
            assert_eq!(d.exit_pc, Some(0x6000));
        }
        other => panic!("unexpected {other:?}"),
    }
    assert_eq!(
        lift_step(ret(2, BASE, 0x120, 3), &labels(), false, BASE),
        LiftStep::Fault(LiftFault::UnsupportedBlrAddress)
    );
    assert_eq!(
        lift_step(ret(5, 0, 0x120, 3), &labels(), false, BASE),
        LiftStep::Fault(LiftFault::InvalidStatus)
    );
}

#[test]
fn translation_result_decides_the_call() {
    let r = ret(2, 0x6000, 0x120, 3);
    let ok = lift_after_translation(r, BASE, Some(0x300));
    assert_eq!(ok.entry_offset, Some(0x300));
    assert_eq!(ok.link_patch, None);
    assert_eq!(ok.user_lr, Some(BASE + 0x124));
    let failed = lift_after_translation(r, BASE, None);
    assert!(failed.failed);
    assert_eq!(failed.exit_pc, Some(0x6000));
    assert_eq!(failed.user_lr, Some(BASE + 0x124));
}

#[test]
fn kernel_return_resumes_in_the_page() {
    match lift_step(ret(4, BASE + 0x104, 0x120, LOOP_LIMIT), &labels(), false, BASE) {
        LiftStep::Decided(d) => {
            assert_eq!(d.entry_offset, Some(0x104));
            assert_eq!(d.exit_pc, Some(0x4004));
        }
        other => panic!("unexpected {other:?}"),
    }
    assert_eq!(user_link(BASE + 0x200, &labels(), BASE), Ok(0x5000));
    assert_eq!(user_link(0x4444, &labels(), BASE), Ok(0x4444));
    assert_eq!(user_link(BASE + 0x8, &labels(), BASE), Err(LiftFault::UserLrUnknown));
}
