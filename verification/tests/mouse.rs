use kjit::harness::explorer::{
    ExplorerEffect, ExplorerKey, ExplorerOffset, ExplorerPc, ExplorerState, FocusPanel, PipelineCheck, Selection,
};
use kjit::harness::mouse::{
    hit_mouse_target, mouse_action, mouse_scroll_target, opentui_layout, panel_row_from_mouse, scroll_delta,
    MouseAction, MouseKind, MousePanel, MouseSelection, MouseTracker, PanelRect,
};

fn rect(x: usize, y: usize, width: usize, height: usize) -> PanelRect {
    PanelRect { x, y, width, height }
}

#[test]
fn layout_of_a_full_terminal() {
    let l = opentui_layout(120, 40);
    assert_eq!(l.program, Some(rect(0, 6, 33, 30)));
    assert_eq!(l.translation, Some(rect(33, 6, 87, 17)));
    assert_eq!(l.result, Some(rect(33, 23, 87, 13)));
    assert_eq!(l.active_original, Some(rect(0, 6, 60, 17)));
    assert_eq!(l.active_translated, Some(rect(60, 6, 60, 17)));
    assert_eq!(l.active_state_original, Some(rect(0, 23, 60, 8)));
    assert_eq!(l.active_state_translated, Some(rect(60, 23, 60, 8)));
    assert_eq!(l.active_comparison, Some(rect(0, 31, 120, 5)));
}

#[test]
fn layout_keeps_minimum_panel_sizes() {
    let l = opentui_layout(50, 16);
    // body of 6 rows: the translation panel still takes 10
    assert_eq!(l.program, Some(rect(0, 6, 14, 6)));
    assert_eq!(l.translation, Some(rect(24, 6, 26, 10)));
    assert_eq!(l.result, Some(rect(24, 16, 26, 0)));
    assert_eq!(l.active_state_original, Some(rect(0, 16, 25, 1)));
    assert_eq!(l.active_comparison, Some(rect(0, 17, 50, 0)));
}

#[test]
fn layout_without_a_body_has_no_panels() {
    let l = opentui_layout(0, 40);
    assert_eq!(l.program, None);
    let l = opentui_layout(80, 10);
    assert_eq!(l.translation, None);
    assert_eq!(l.active_comparison, None);
}

#[test]
fn panel_rect_contains_its_cells_only() {
    let r = rect(2, 3, 4, 5);
    assert!(r.contains(2, 3));
    assert!(r.contains(5, 7));
    assert!(!r.contains(6, 7));
    assert!(!r.contains(5, 8));
    assert!(!r.contains(1, 4));
    let wide = rect(usize::MAX - 1, 0, 10, 1);
    assert!(wide.contains(usize::MAX - 1, 0));
    assert!(!wide.contains(usize::MAX, 0));
}

#[test]
fn rows_inside_a_panel_border() {
    let r = rect(0, 6, 10, 5);
    assert_eq!(panel_row_from_mouse(r, 6), None);
    assert_eq!(panel_row_from_mouse(r, 7), Some(0));
    assert_eq!(panel_row_from_mouse(r, 9), Some(2));
    assert_eq!(panel_row_from_mouse(r, 10), None);
}

#[test]
fn targets_follow_lookup_order() {
    let l = opentui_layout(120, 40);
    assert_eq!(mouse_scroll_target(&l, 10, 10), Some(MousePanel::Program));
    assert_eq!(mouse_scroll_target(&l, 40, 10), Some(MousePanel::Translation));
    assert_eq!(mouse_scroll_target(&l, 40, 30), Some(MousePanel::Result));
    // the explorer panels cover the stepping panels, which lie beneath them
    assert_eq!(mouse_scroll_target(&l, 10, 33), Some(MousePanel::Program));
    assert_eq!(mouse_scroll_target(&l, 10, 37), None);
    assert_eq!(mouse_scroll_target(&l, 200, 10), None);
    assert_eq!(hit_mouse_target(&l, 10, 10), Some((MousePanel::Program, 3)));
    assert_eq!(hit_mouse_target(&l, 10, 6), None);
    assert_eq!(hit_mouse_target(&l, 40, 24), Some((MousePanel::Result, 0)));
}

#[test]
fn scroll_delta_saturates() {
    assert_eq!(scroll_delta(5, 3), 8);
    assert_eq!(scroll_delta(5, -10), 0);
    assert_eq!(scroll_delta(65530, 10), 65535);
    assert_eq!(scroll_delta(5, i16::MIN), 0);
    assert_eq!(scroll_delta(40000, i16::MIN), 40000 - 32768);
}

#[test]
fn mouse_actions_by_kind() {
    let l = opentui_layout(120, 40);
    assert_eq!(
        mouse_action(&l, 10, 10, MouseKind::ScrollUp),
        MouseAction::Scroll { panel: MousePanel::Program, delta: -3 }
    );
    assert_eq!(
        mouse_action(&l, 40, 10, MouseKind::ScrollDown),
        MouseAction::Scroll { panel: MousePanel::Translation, delta: 3 }
    );
    assert_eq!(mouse_action(&l, 200, 200, MouseKind::LeftDown), MouseAction::ClearSelection);
    assert_eq!(mouse_action(&l, 10, 6, MouseKind::LeftDown), MouseAction::ClearSelection);
    assert_eq!(mouse_action(&l, 200, 200, MouseKind::ScrollUp), MouseAction::Nothing);
    assert_eq!(
        mouse_action(&l, 10, 8, MouseKind::LeftDown),
        MouseAction::Press { panel: MousePanel::Program, row: 1 }
    );
    assert_eq!(
        mouse_action(&l, 40, 8, MouseKind::LeftUp),
        MouseAction::Release { panel: MousePanel::Translation, row: 1 }
    );
    assert_eq!(
        mouse_action(&l, 40, 8, MouseKind::LeftDrag),
        MouseAction::Drag { panel: MousePanel::Translation, row: 1 }
    );
    assert_eq!(mouse_action(&l, 40, 8, MouseKind::Other), MouseAction::Nothing);
}

#[test]
fn selections_extend_within_a_panel() {
    let mut t = MouseTracker::new();
    t.set_anchor(MousePanel::Program, 4);
    t.update(MousePanel::Program, 2);
    assert_eq!(t.selection, Some(MouseSelection { panel: MousePanel::Program, start: 4, end: 2 }));
    let sel = t.selection.unwrap();
    assert!(sel.contains(MousePanel::Program, 3));
    assert!(!sel.contains(MousePanel::Program, 5));
    assert!(!sel.contains(MousePanel::Result, 3));
    t.update(MousePanel::Result, 7);
    assert_eq!(t.selection, Some(MouseSelection { panel: MousePanel::Result, start: 7, end: 7 }));
    t.clear();
    assert_eq!(t.anchor, None);
    assert_eq!(t.selection, None);
}

fn explorer() -> ExplorerState {
    let pcs = vec![
        ExplorerPc { pc: 0x4000, in_cfg: true },
        ExplorerPc { pc: 0x4004, in_cfg: false },
        ExplorerPc { pc: 0x4008, in_cfg: true },
    ];
    let offsets = vec![ExplorerOffset { offset: 0, ori_pc: None }];
    ExplorerState::new(pcs, offsets, 0x4000, PipelineCheck::NotRun)
}

#[test]
fn clicking_a_program_row_selects_its_pc() {
    let mut state = explorer();
    let mut t = MouseTracker::new();
    // row 1 of the program panel lists the second pc of the control-flow graph
    state.handle_mouse(&mut t, 120, 40, 10, 8, MouseKind::LeftDown);
    assert_eq!(state.selection(), Selection::Pc(0x4008));
    assert_eq!(state.focus(), FocusPanel::Cfg);
    assert_eq!(state.status(), "focused Program");
    assert_eq!(t.selection, Some(MouseSelection { panel: MousePanel::Program, start: 1, end: 1 }));
    state.handle_mouse(&mut t, 120, 40, 10, 20, MouseKind::LeftUp);
    assert_eq!(state.selection(), Selection::Pc(0x4008));
    assert_eq!(state.effect(), ExplorerEffect::CopyPanel);
    assert_eq!(t.selection, Some(MouseSelection { panel: MousePanel::Program, start: 1, end: 13 }));
    state.finish_copy(Err("no clipboard".to_string()));
    assert_eq!(state.status(), "copy failed: no clipboard");
    assert_eq!(state.effect(), ExplorerEffect::Nothing);
}

#[test]
fn wheel_over_panels_scrolls_them() {
    let mut state = explorer();
    let mut t = MouseTracker::new();
    state.handle_mouse(&mut t, 120, 40, 40, 10, MouseKind::ScrollDown);
    assert_eq!(state.focus(), FocusPanel::Rephrase);
    assert_eq!(state.scrolls(), (0, 3, 0));
    assert_eq!(state.status(), "Translation scroll=3");
    state.handle_mouse(&mut t, 120, 40, 40, 30, MouseKind::ScrollUp);
    assert_eq!(state.focus(), FocusPanel::Layout);
    assert_eq!(state.scrolls(), (0, 3, 0));
    assert_eq!(state.status(), "Result scroll=0");
    state.handle_mouse(&mut t, 120, 40, 10, 10, MouseKind::ScrollDown);
    // the program panel scrolls as the focused result panel does
    assert_eq!(state.scrolls(), (0, 3, 3));
}

#[test]
fn stepping_view_wheel_and_state_summaries() {
    let mut state = explorer();
    state.handle_key(ExplorerKey::Char('s'));
    state.finish_enter_step_mode(Ok(()));
    state.scroll_panel(MousePanel::ActiveOriginal, 4);
    assert_eq!(state.status(), "Program scroll=4");
    state.scroll_panel(MousePanel::ActiveTranslated, -2);
    assert_eq!(state.status(), "Translation scroll=0");
    state.scroll_panel(MousePanel::ActiveStateOriginal, 3);
    assert_eq!(state.status(), "state summaries do not scroll");
    assert_eq!(state.panel_absolute_row(MousePanel::ActiveOriginal, 2), 6);
    assert_eq!(state.panel_absolute_row(MousePanel::ActiveStateTranslated, 2), 2);
}
