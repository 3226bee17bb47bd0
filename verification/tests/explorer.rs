use kjit::harness::active_step::StateSnapshot;
use kjit::harness::explorer::state_summary_lines;
use kjit::harness::explorer::{number_error_message, parse_number_text, NumberError};
use kjit::harness::model::{Flags, MachineState};
use kjit::harness::opentui::{OpenTuiLoadError, Palette};
use kjit::harness::explorer::{
    first_line, Control, ExplorerEffect, ExplorerKey, ExplorerOffset, ExplorerPc, ExplorerState,
    FocusPanel, Mode, PipelineCheck, PipelineCheckPass, Selection, StepDetailMode,
};

fn explorer() -> ExplorerState {
    let pcs = vec![
        ExplorerPc { pc: 0x4000, in_cfg: true },
        ExplorerPc { pc: 0x4004, in_cfg: false },
        ExplorerPc { pc: 0x4008, in_cfg: true },
    ];
    let offsets = vec![
        ExplorerOffset { offset: 0, ori_pc: None },
        ExplorerOffset { offset: 280, ori_pc: Some(0x4008) },
    ];
    ExplorerState::new(pcs, offsets, 0x4000, PipelineCheck::NotRun)
}

fn type_command(state: &mut ExplorerState, text: &str) -> Control {
    state.handle_key(ExplorerKey::Char(':'));
    for ch in text.chars() {
        state.handle_key(ExplorerKey::Char(ch));
    }
    state.handle_key(ExplorerKey::Enter)
}

#[test]
fn names_of_modes_panels_and_details() {
    assert_eq!(Mode::Explore.name(), "explore");
    assert_eq!(Mode::ActiveStep.name(), "active-step");
    assert_eq!(StepDetailMode::Registers.name(), "registers");
    assert_eq!(FocusPanel::Cfg.next(), FocusPanel::Rephrase);
    assert_eq!(FocusPanel::Cfg.prev(), FocusPanel::Layout);
    assert_eq!(FocusPanel::Layout.name(), "Result");
    for f in [FocusPanel::Cfg, FocusPanel::Rephrase, FocusPanel::Layout] {
        assert_eq!(f.next().prev(), f);
        assert_eq!(f.next().next().next(), f);
    }
}

#[test]
fn new_explorer_selects_entry_and_shows_check_status() {
    let state = explorer();
    assert_eq!(state.mode(), Mode::Explore);
    assert_eq!(state.selection(), Selection::Pc(0x4000));
    assert_eq!(state.focus(), FocusPanel::Cfg);
    assert_eq!(
        state.status(),
        "s step mode | Tab focus | p/t/r jump panels | Up/Down move or scroll"
    );
    let failed = PipelineCheck::Failed { message: "  decode failed \r\nsecond line".to_string() };
    assert_eq!(failed.initial_status(), "pipeline check failed: decode failed");
    assert_eq!(failed.metadata(), "check=fail decode failed");
}

#[test]
fn check_metadata_lists_the_pass_counters() {
    let pass = PipelineCheck::Passed(PipelineCheckPass {
        original_steps: 3,
        fragment_steps: 120,
        encoded_bytes: 512,
        halt: "Returned".to_string(),
    });
    assert_eq!(
        pass.metadata(),
        "check=pass original_steps=3 fragment_steps=120 encoded_bytes=512 halt=Returned"
    );
    assert_eq!(PipelineCheck::NotRun.metadata(), "check=not-run");
}

#[test]
fn first_line_trims_and_falls_back() {
    assert_eq!(first_line(""), "no detail");
    assert_eq!(first_line("one\ntwo"), "one");
    assert_eq!(first_line("\u{3000} wide \t"), "wide");
    assert_eq!(first_line("\nrest"), "");
    assert_eq!(first_line("bare\r"), "bare");
}

#[test]
fn tab_cycles_focus_and_reports_it() {
    let mut state = explorer();
    assert_eq!(state.handle_key(ExplorerKey::Tab), Control::Continue);
    assert_eq!(state.focus(), FocusPanel::Rephrase);
    assert_eq!(state.status(), "focused Translation");
    state.handle_key(ExplorerKey::BackTab);
    assert_eq!(state.focus(), FocusPanel::Cfg);
    state.handle_key(ExplorerKey::Char('r'));
    assert_eq!(state.focus(), FocusPanel::Layout);
    assert_eq!(state.status(), "focused Result");
}

#[test]
fn arrows_move_through_listed_pcs() {
    let mut state = explorer();
    state.handle_key(ExplorerKey::Down);
    assert_eq!(state.selection(), Selection::Pc(0x4008));
    assert_eq!(state.status(), "selected pc 0x4008");
    state.handle_key(ExplorerKey::Right);
    assert_eq!(state.status(), "no PC in that direction");
    state.handle_key(ExplorerKey::Char('a'));
    assert_eq!(state.status(), "Program view=all");
    state.handle_key(ExplorerKey::Left);
    assert_eq!(state.selection(), Selection::Pc(0x4004));
    assert_eq!(state.next_pc(-1), Some(0x4000));
    assert_eq!(state.visible_pc_entries(), vec![0x4000, 0x4004, 0x4008]);
}

#[test]
fn scrolling_saturates_and_names_the_panel() {
    let mut state = explorer();
    state.handle_key(ExplorerKey::Char('t'));
    state.handle_key(ExplorerKey::PageDown);
    assert_eq!(state.status(), "Translation scroll=5");
    state.handle_key(ExplorerKey::Up);
    assert_eq!(state.status(), "Translation scroll=4");
    state.handle_key(ExplorerKey::PageUp);
    assert_eq!(state.status(), "Translation scroll=0");
    assert_eq!(state.scrolls(), (0, 0, 0));
}

#[test]
fn commands_select_pcs_and_offsets() {
    let mut state = explorer();
    assert_eq!(type_command(&mut state, "pc 0x10"), Control::Continue);
    assert_eq!(state.selection(), Selection::Pc(16));
    assert_eq!(state.status(), "selected Pc(16)");
    type_command(&mut state, "  off   280 ");
    assert_eq!(state.selection(), Selection::Offset(280));
    assert_eq!(state.selected_pc(), Some(0x4008));
    type_command(&mut state, "prev");
    assert_eq!(state.selection(), Selection::Pc(0x4004));
    type_command(&mut state, "");
    assert_eq!(state.selection(), Selection::Pc(0x4004));
    assert!(!state.command_mode());
}

#[test]
fn bad_commands_explain_themselves() {
    let mut state = explorer();
    type_command(&mut state, "pc 12z");
    assert_eq!(state.status(), "invalid digit found in string");
    type_command(&mut state, "pc 0x");
    assert_eq!(state.status(), "cannot parse integer from empty string");
    type_command(&mut state, "pc 18446744073709551616");
    assert_eq!(state.status(), "number too large to fit in target type");
    type_command(&mut state, "pc");
    assert_eq!(state.status(), "usage: pc <addr>");
    type_command(&mut state, "zap now");
    assert_eq!(state.status(), "unknown command `zap`");
    type_command(&mut state, "pc +7");
    assert_eq!(state.selection(), Selection::Pc(7));
    type_command(&mut state, "next");
    assert_eq!(state.status(), "no next PC");
    type_command(&mut state, "help");
    assert_eq!(
        state.status(),
        "commands: :pc <addr>, :off <offset>, :q; keys: Tab, p/t/r, Up/Down"
    );
    assert_eq!(type_command(&mut state, "quit"), Control::Quit);
}

#[test]
fn command_editing_and_cancel() {
    let mut state = explorer();
    state.handle_key(ExplorerKey::Char(':'));
    assert_eq!(state.status(), "enter command");
    state.handle_key(ExplorerKey::Char('p'));
    state.handle_key(ExplorerKey::Char('x'));
    state.handle_key(ExplorerKey::Backspace);
    assert_eq!(state.command_text(), "p");
    state.handle_key(ExplorerKey::Esc);
    assert_eq!(state.status(), "command cancelled");
    assert!(!state.command_mode());
    assert_eq!(state.handle_key(ExplorerKey::Char('q')), Control::Quit);
}

#[test]
fn step_mode_goes_through_the_front_end() {
    let mut state = explorer();
    state.handle_key(ExplorerKey::Char('s'));
    assert_eq!(state.effect(), ExplorerEffect::EnterStepMode);
    state.finish_enter_step_mode(Err("no code".to_string()));
    assert_eq!(state.status(), "step mode unavailable: no code");
    assert_eq!(state.mode(), Mode::Explore);
    state.handle_key(ExplorerKey::Char('s'));
    state.finish_enter_step_mode(Ok(()));
    assert_eq!(state.mode(), Mode::ActiveStep);
    state.handle_key(ExplorerKey::Down);
    assert_eq!(state.status(), "Down is disabled in compact mode; use j for one instruction");
    state.handle_key(ExplorerKey::Char('r'));
    assert_eq!(state.step_detail(), StepDetailMode::Registers);
    assert_eq!(state.status(), "comparison=registers");
    state.handle_key(ExplorerKey::Down);
    assert_eq!(state.status(), "registers scroll=1");
    state.handle_key(ExplorerKey::Char('r'));
    assert_eq!(state.step_detail(), StepDetailMode::Compact);
    state.handle_key(ExplorerKey::Char(' '));
    assert_eq!(state.effect(), ExplorerEffect::StepGroup);
    state.finish_step("stepped".to_string());
    assert_eq!(state.effect(), ExplorerEffect::Nothing);
    state.handle_key(ExplorerKey::Esc);
    assert_eq!(state.effect(), ExplorerEffect::LeaveStepMode);
    state.finish_leave_step_mode(Some(Selection::Offset(280)));
    assert_eq!(state.mode(), Mode::Explore);
    assert_eq!(state.selection(), Selection::Offset(280));
    assert_eq!(state.status(), "mode=explore");
}

#[test]
fn export_reports_its_result() {
    let mut state = explorer();
    state.handle_key(ExplorerKey::Char('y'));
    assert_eq!(state.effect(), ExplorerEffect::ExportPanel);
    state.finish_export(Err("disk full".to_string()));
    assert_eq!(state.status(), "export failed: disk full");
    state.handle_key(ExplorerKey::F1);
    assert_eq!(
        state.status(),
        "Explore: s step | p/t/r panels | y export panel | Up/Down move or scroll"
    );
}

#[test]
fn state_summary_lists_what_a_step_changed() {

    let previous = MachineState::new();
    let mut current = MachineState::new();
    current.write_x(1, 0x10);
    current.set_sp(0x20);
    current.set_flags(Flags { n: false, z: true, c: false, v: false });
    current.seed_memory_u64(0x1000, 0x5);
    let lines = state_summary_lines(&StateSnapshot { previous, current });
    let texts: Vec<String> = lines.into_iter().map(|l| l.text).collect();
    assert_eq!(texts[0], "regs: x1: 0x0->0x10");
    assert_eq!(texts[1], "sp: 0x0->0x20");
    assert_eq!(texts[2], "flags: N0Z0C0V0->N0Z1C0V0");
    assert_eq!(texts[3], "memory_changed_bytes=8");
    assert_eq!(texts[4], "mem[0x1000]: 0->0x05");
    assert_eq!(texts[11], "mem[0x1007]: 0->0x00");
    assert_eq!(texts.len(), 12);

    let same = state_summary_lines(&StateSnapshot { previous: MachineState::new(), current: MachineState::new() });
    let texts: Vec<String> = same.into_iter().map(|l| l.text).collect();
    assert_eq!(texts, vec!["regs: unchanged", "memory: unchanged", "state_equal=true"]);
}

#[test]
fn many_register_changes_are_summarised() {

    let mut current = MachineState::new();
    for reg in 0..10u8 {
        current.write_x(reg, 1);
    }
    let lines = state_summary_lines(&StateSnapshot { previous: MachineState::new(), current });
    assert_eq!(
        lines[0].text,
        "regs: x0: 0x0->0x1, x1: 0x0->0x1, x2: 0x0->0x1, x3: 0x0->0x1, x4: 0x0->0x1, x5: 0x0->0x1, x6: 0x0->0x1, x7: 0x0->0x1 ... +2 more"
    );
}

#[test]
fn palette_and_load_errors() {
    let p = Palette;
    assert_eq!(p.black(), &[0, 0, 0, 0xffff]);
    assert_eq!(p.white(), &[0xffff, 0xffff, 0xffff, 0xffff]);
    assert_eq!(p.cyan(), &[0, 0xffff, 0xffff, 0xffff]);
    assert_eq!(p.yellow(), &[0xffff, 0xffff, 0, 0xffff]);
    assert_eq!(
        OpenTuiLoadError::Library("missing".to_string()).message(),
        "failed to load OpenTUI library: missing"
    );
    assert_eq!(
        OpenTuiLoadError::MissingPath.message(),
        "set KJIT_OPENTUI_LIB_PATH or KJIT_OPENTUI_ROOT to a libopentui.dylib path"
    );
}

#[test]
fn numbers_parse_like_the_command_line() {
    assert_eq!(parse_number_text("0x4000"), Ok(0x4000));
    assert_eq!(parse_number_text("0XfF"), Ok(255));
    assert_eq!(parse_number_text("42"), Ok(42));
    assert_eq!(parse_number_text("+42"), Ok(42));
    assert_eq!(parse_number_text("-1"), Err(NumberError::InvalidDigit));
    assert_eq!(parse_number_text("+"), Err(NumberError::InvalidDigit));
    assert_eq!(parse_number_text(""), Err(NumberError::Empty));
    assert_eq!(parse_number_text("0xffffffffffffffff"), Ok(u64::MAX));
    assert_eq!(parse_number_text("0x10000000000000000"), Err(NumberError::PosOverflow));
    assert_eq!(number_error_message(NumberError::Empty), "cannot parse integer from empty string");
}
