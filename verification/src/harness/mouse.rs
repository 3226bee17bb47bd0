//! Where the explorer's panels lie on the terminal, and what a mouse event
//! over them asks for.
use vstd::prelude::*;

verus! {

/// A rectangle of terminal cells.
#[derive(Clone, Copy, Debug, PartialEq, Eq, Structural)]
pub struct PanelRect {
    pub x: usize,
    pub y: usize,
    pub width: usize,
    pub height: usize,
}

/// `n` held to the range of `usize`.
pub open spec fn sat(n: int) -> usize {
    if n < 0 {
        0
    } else if n > usize::MAX {
        usize::MAX
    } else {
        n as usize
    }
}

pub open spec fn min_of(a: int, b: int) -> int {
    if a <= b {
        a
    } else {
        b
    }
}

pub open spec fn max_of(a: int, b: int) -> int {
    if a >= b {
        a
    } else {
        b
    }
}

/// `v` held between `lo` and `hi`.
pub open spec fn clamp_to(v: int, lo: int, hi: int) -> int {
    if v < lo {
        lo
    } else if v > hi {
        hi
    } else {
        v
    }
}

impl PanelRect {
    /// Whether the cell at column `x`, row `y` lies inside, the far edges
    /// saturating at the largest `usize`.
    pub open spec fn spec_contains(self, x: usize, y: usize) -> bool {
        &&& x >= self.x
        &&& y >= self.y
        &&& x < sat(self.x + self.width)
        &&& y < sat(self.y + self.height)
    }

    pub fn contains(self, x: usize, y: usize) -> (r: bool)
        ensures
            r == self.spec_contains(x, y),
    {
        x >= self.x && y >= self.y && x < self.x.saturating_add(self.width) && y < self.y.saturating_add(
            self.height,
        )
    }
}

/// The panels of both views: the explorer's program, translation and
/// result panels, and the stepping view's two listings, two state summaries
/// and comparison. A terminal with no room for a body has none.
#[derive(Clone, Copy, Debug, PartialEq, Eq, Structural)]
pub struct OpenTuiLayout {
    pub program: Option<PanelRect>,
    pub translation: Option<PanelRect>,
    pub result: Option<PanelRect>,
    pub active_original: Option<PanelRect>,
    pub active_translated: Option<PanelRect>,
    pub active_state_original: Option<PanelRect>,
    pub active_state_translated: Option<PanelRect>,
    pub active_comparison: Option<PanelRect>,
}

pub open spec fn rect(x: int, y: int, width: int, height: int) -> PanelRect {
    PanelRect { x: x as usize, y: y as usize, width: width as usize, height: height as usize }
}

/// The layout of a `width` by `height` terminal: a header of up to six rows
/// and a footer of up to four; the program panel takes 28% of the width (at
/// least 24 columns, and leaves 20 where it can); the translation panel
/// takes 58% of the body's height (at least 10 rows, and leaves 8 where it
/// can); the stepping view splits the width in half, with state summaries of
/// up to eight rows.
pub open spec fn spec_layout(width: usize, height: usize) -> OpenTuiLayout {
    let header_h = min_of(6, max_of(height as int, 1));
    let footer_h = min_of(4, max_of(sat(height - header_h) as int, 1));
    let body_h = sat(height - (header_h + footer_h)) as int;
    if body_h == 0 || width == 0 {
        OpenTuiLayout {
            program: None,
            translation: None,
            result: None,
            active_original: None,
            active_translated: None,
            active_state_original: None,
            active_state_translated: None,
            active_comparison: None,
        }
    } else {
        let program_w = sat(width * 28) / 100;
        let left_w = clamp_to(program_w as int, 24, max_of(sat(width - 20) as int, 24));
        let right_w = sat(width - left_w) as int;
        let top_h = clamp_to((sat(body_h * 58) / 100) as int, 10, max_of(sat(body_h - 8) as int, 10));
        let half = width / 2;
        let state_h = min_of(8, max_of(sat(body_h - top_h) as int, 1));
        OpenTuiLayout {
            program: Some(rect(0, header_h, program_w as int, body_h)),
            translation: Some(rect(left_w, header_h, right_w, top_h)),
            result: Some(rect(left_w, header_h + top_h, right_w, sat(body_h - top_h) as int)),
            active_original: Some(rect(0, header_h, half as int, top_h)),
            active_translated: Some(rect(half as int, header_h, width - half, top_h)),
            active_state_original: Some(rect(0, header_h + top_h, half as int, state_h)),
            active_state_translated: Some(rect(half as int, header_h + top_h, width - half, state_h)),
            active_comparison: Some(rect(0, header_h + top_h + state_h, width as int, sat(body_h - (top_h + state_h)) as int)),
        }
    }
}

fn min_usize(a: usize, b: usize) -> (r: usize)
    ensures
        r == min_of(a as int, b as int),
{
    if a <= b {
        a
    } else {
        b
    }
}

fn max_usize(a: usize, b: usize) -> (r: usize)
    ensures
        r == max_of(a as int, b as int),
{
    if a >= b {
        a
    } else {
        b
    }
}

fn clamp_usize(v: usize, lo: usize, hi: usize) -> (r: usize)
    requires
        lo <= hi,
    ensures
        r == clamp_to(v as int, lo as int, hi as int),
{
    if v < lo {
        lo
    } else if v > hi {
        hi
    } else {
        v
    }
}

fn saturating_times(a: usize, k: usize) -> (r: usize)
    ensures
        r == sat(a * k),
{
    match a.checked_mul(k) {
        Some(v) => v,
        None => usize::MAX,
    }
}

/// Lays out a `width` by `height` terminal.
pub fn opentui_layout(width: usize, height: usize) -> (r: OpenTuiLayout)
    ensures
        r == spec_layout(width, height),
{
    let header_h = min_usize(6, max_usize(height, 1));
    let footer_h = min_usize(4, max_usize(height.saturating_sub(header_h), 1));
    let body_h = height.saturating_sub(header_h + footer_h);
    if body_h == 0 || width == 0 {
        return OpenTuiLayout {
            program: None,
            translation: None,
            result: None,
            active_original: None,
            active_translated: None,
            active_state_original: None,
            active_state_translated: None,
            active_comparison: None,
        };
    }
    let program = PanelRect { x: 0, y: header_h, width: saturating_times(width, 28) / 100, height: body_h };
    let left_w = clamp_usize(program.width, 24, max_usize(width.saturating_sub(20), 24));
    let right_x = left_w;
    let right_w = width.saturating_sub(left_w);
    let top_h = saturating_times(body_h, 58) / 100;
    let top_h = clamp_usize(top_h, 10, max_usize(body_h.saturating_sub(8), 10));
    let translation = PanelRect { x: right_x, y: header_h, width: right_w, height: top_h };
    let result = PanelRect { x: right_x, y: header_h + top_h, width: right_w, height: body_h.saturating_sub(top_h) };
    let half = width / 2;
    let state_h = min_usize(8, max_usize(body_h.saturating_sub(top_h), 1));
    let active_original = PanelRect { x: 0, y: header_h, width: half, height: top_h };
    let active_translated = PanelRect { x: half, y: header_h, width: width - half, height: top_h };
    let active_state_original = PanelRect { x: 0, y: header_h + top_h, width: half, height: state_h };
    let active_state_translated = PanelRect { x: half, y: header_h + top_h, width: width - half, height: state_h };
    let active_comparison = PanelRect {
        x: 0,
        y: header_h + top_h + state_h,
        width,
        height: body_h.saturating_sub(top_h + state_h),
    };
    OpenTuiLayout {
        program: Some(program),
        translation: Some(translation),
        result: Some(result),
        active_original: Some(active_original),
        active_translated: Some(active_translated),
        active_state_original: Some(active_state_original),
        active_state_translated: Some(active_state_translated),
        active_comparison: Some(active_comparison),
    }
}

/// A panel that the mouse can point at.
#[derive(Clone, Copy, Debug, PartialEq, Eq, Structural)]
pub enum MousePanel {
    Program,
    Translation,
    Result,
    ActiveOriginal,
    ActiveTranslated,
    ActiveStateOriginal,
    ActiveStateTranslated,
    ActiveComparison,
}

/// The panels of a layout in the order in which a point is looked up.
pub open spec fn panels_in_order(l: OpenTuiLayout) -> Seq<(MousePanel, Option<PanelRect>)> {
    seq![
        (MousePanel::Program, l.program),
        (MousePanel::Translation, l.translation),
        (MousePanel::Result, l.result),
        (MousePanel::ActiveOriginal, l.active_original),
        (MousePanel::ActiveTranslated, l.active_translated),
        (MousePanel::ActiveStateOriginal, l.active_state_original),
        (MousePanel::ActiveStateTranslated, l.active_state_translated),
        (MousePanel::ActiveComparison, l.active_comparison),
    ]
}

/// The first panel from position `i` on whose rectangle holds the point.
pub open spec fn first_containing(ps: Seq<(MousePanel, Option<PanelRect>)>, x: usize, y: usize, i: int) -> Option<
    (MousePanel, PanelRect),
>
    decreases ps.len() - i,
{
    if i < 0 || i >= ps.len() {
        None
    } else {
        match ps[i].1 {
            Some(r) if r.spec_contains(x, y) => Some((ps[i].0, r)),
            _ => first_containing(ps, x, y, i + 1),
        }
    }
}

/// The panel under the point, the first in lookup order.
pub open spec fn panel_at(l: OpenTuiLayout, x: usize, y: usize) -> Option<(MousePanel, PanelRect)> {
    first_containing(panels_in_order(l), x, y, 0)
}

/// The row inside a panel's border that screen row `y` falls on.
pub open spec fn spec_row_in(r: PanelRect, y: usize) -> Option<usize> {
    let top = sat(r.y + 1);
    let bottom = sat(r.y + sat(r.height - 1));
    if y < top || y >= bottom {
        None
    } else {
        Some((y - top) as usize)
    }
}

fn lookup_order(l: &OpenTuiLayout) -> (r: [(MousePanel, Option<PanelRect>); 8])
    ensures
        r@ == panels_in_order(*l),
{
    let r = [
        (MousePanel::Program, l.program),
        (MousePanel::Translation, l.translation),
        (MousePanel::Result, l.result),
        (MousePanel::ActiveOriginal, l.active_original),
        (MousePanel::ActiveTranslated, l.active_translated),
        (MousePanel::ActiveStateOriginal, l.active_state_original),
        (MousePanel::ActiveStateTranslated, l.active_state_translated),
        (MousePanel::ActiveComparison, l.active_comparison),
    ];
    assert(r@ =~= panels_in_order(*l));
    r
}

fn find_panel(l: &OpenTuiLayout, x: usize, y: usize) -> (r: Option<(MousePanel, PanelRect)>)
    ensures
        r == panel_at(*l, x, y),
{
    let ps = lookup_order(l);
    let mut i: usize = 0;
    while i < 8
        invariant
            i <= 8,
            ps@ == panels_in_order(*l),
            first_containing(ps@, x, y, i as int) == panel_at(*l, x, y),
        decreases 8 - i,
    {
        let (panel, rect) = ps[i];
        match rect {
            Some(r) => {
                if r.contains(x, y) {
                    return Some((panel, r));
                }
            },
            None => {},
        }
        i = i + 1;
    }
    None
}

/// The panel a scroll at the point scrolls.
pub fn mouse_scroll_target(layout: &OpenTuiLayout, x: usize, y: usize) -> (r: Option<MousePanel>)
    ensures
        r == match panel_at(*layout, x, y) {
            Some((p, _)) => Some(p),
            None => None::<MousePanel>,
        },
{
    match find_panel(layout, x, y) {
        Some((p, _)) => Some(p),
        None => None,
    }
}

/// The row inside `panel`'s border that screen row `y` falls on, if any.
pub fn panel_row_from_mouse(panel: PanelRect, y: usize) -> (r: Option<usize>)
    ensures
        r == spec_row_in(panel, y),
{
    let top = panel.y.saturating_add(1);
    let bottom = panel.y.saturating_add(panel.height.saturating_sub(1));
    if y < top || y >= bottom {
        None
    } else {
        Some(y - top)
    }
}

/// The panel under the point and the row inside its border; none where the
/// point lies on the first panel's border.
pub open spec fn spec_hit(l: OpenTuiLayout, x: usize, y: usize) -> Option<(MousePanel, usize)> {
    match panel_at(l, x, y) {
        Some((p, r)) => match spec_row_in(r, y) {
            Some(row) => Some((p, row)),
            None => None,
        },
        None => None,
    }
}

/// The panel and row the mouse points at.
pub fn hit_mouse_target(layout: &OpenTuiLayout, x: usize, y: usize) -> (r: Option<(MousePanel, usize)>)
    ensures
        r == spec_hit(*layout, x, y),
{
    match find_panel(layout, x, y) {
        Some((p, rect)) => match panel_row_from_mouse(rect, y) {
            Some(row) => Some((p, row)),
            None => None,
        },
        None => None,
    }
}

/// A scroll position moved by `delta`, held between 0 and the largest `u16`.
pub fn scroll_delta(current: u16, delta: i16) -> (r: u16)
    ensures
        r == clamp_to(current + delta, 0, u16::MAX as int),
{
    if delta < 0 {
        let d: u16 = (0i32 - delta as i32) as u16;
        current.saturating_sub(d)
    } else {
        current.saturating_add(delta as u16)
    }
}

/// What the mouse did.
#[derive(Clone, Copy, Debug, PartialEq, Eq, Structural)]
pub enum MouseKind {
    ScrollUp,
    ScrollDown,
    LeftDown,
    LeftDrag,
    LeftUp,
    Other,
}

/// What a mouse event asks of the explorer.
#[derive(Clone, Copy, Debug, PartialEq, Eq, Structural)]
pub enum MouseAction {
    /// Scroll a panel by a number of rows.
    Scroll { panel: MousePanel, delta: i16 },
    /// Start a selection at a row of a panel.
    Press { panel: MousePanel, row: usize },
    /// Extend the selection to a row of a panel.
    Drag { panel: MousePanel, row: usize },
    /// End the selection at a row of a panel, and copy the panel.
    Release { panel: MousePanel, row: usize },
    /// A click outside every panel: forget the selection.
    ClearSelection,
    Nothing,
}

/// A wheel over a panel scrolls it three rows; a left button pressed,
/// dragged or released over a panel row starts, extends or ends a
/// selection there; a left press anywhere else clears it.
pub open spec fn spec_mouse_action(l: OpenTuiLayout, x: usize, y: usize, kind: MouseKind) -> MouseAction {
    match (panel_at(l, x, y), kind) {
        (Some((p, _)), MouseKind::ScrollUp) => MouseAction::Scroll { panel: p, delta: -3i16 },
        (Some((p, _)), MouseKind::ScrollDown) => MouseAction::Scroll { panel: p, delta: 3i16 },
        _ => match spec_hit(l, x, y) {
            None => if kind == MouseKind::LeftDown {
                MouseAction::ClearSelection
            } else {
                MouseAction::Nothing
            },
            Some((p, row)) => match kind {
                MouseKind::LeftDown => MouseAction::Press { panel: p, row },
                MouseKind::LeftDrag => MouseAction::Drag { panel: p, row },
                MouseKind::LeftUp => MouseAction::Release { panel: p, row },
                _ => MouseAction::Nothing,
            },
        },
    }
}

/// Reads a mouse event at column `x`, row `y` of a layout.
pub fn mouse_action(layout: &OpenTuiLayout, x: usize, y: usize, kind: MouseKind) -> (r: MouseAction)
    ensures
        r == spec_mouse_action(*layout, x, y, kind),
{
    match mouse_scroll_target(layout, x, y) {
        Some(p) => match kind {
            MouseKind::ScrollUp => {
                return MouseAction::Scroll { panel: p, delta: -3 };
            },
            MouseKind::ScrollDown => {
                return MouseAction::Scroll { panel: p, delta: 3 };
            },
            _ => {},
        },
        None => {},
    }
    match hit_mouse_target(layout, x, y) {
        None => if kind == MouseKind::LeftDown {
            MouseAction::ClearSelection
        } else {
            MouseAction::Nothing
        },
        Some((p, row)) => match kind {
            MouseKind::LeftDown => MouseAction::Press { panel: p, row },
            MouseKind::LeftDrag => MouseAction::Drag { panel: p, row },
            MouseKind::LeftUp => MouseAction::Release { panel: p, row },
            _ => MouseAction::Nothing,
        },
    }
}

/// Where a mouse selection started.
#[derive(Clone, Copy, Debug, PartialEq, Eq, Structural)]
pub struct MouseAnchor {
    pub panel: MousePanel,
    pub row: usize,
}

/// The rows of one panel that the mouse has selected, from `start` to `end`
/// in either order.
#[derive(Clone, Copy, Debug, PartialEq, Eq, Structural)]
pub struct MouseSelection {
    pub panel: MousePanel,
    pub start: usize,
    pub end: usize,
}

impl MouseSelection {
    pub fn contains(self, panel: MousePanel, row: usize) -> (r: bool)
        ensures
            r == (self.panel == panel && min_of(self.start as int, self.end as int) <= row && row <= max_of(
                self.start as int,
                self.end as int,
            )),
    {
        self.panel == panel && row >= min_usize(self.start, self.end) && row <= max_usize(self.start, self.end)
    }
}

/// The mouse selection in progress, if any.
#[derive(Clone, Copy, Debug, PartialEq, Eq, Structural)]
pub struct MouseTracker {
    pub anchor: Option<MouseAnchor>,
    pub selection: Option<MouseSelection>,
}

impl MouseTracker {
    pub fn new() -> (r: Self)
        ensures
            r.anchor.is_none(),
            r.selection.is_none(),
    {
        MouseTracker { anchor: None, selection: None }
    }

    /// Forgets the selection.
    pub fn clear(&mut self)
        ensures
            final(self).anchor.is_none(),
            final(self).selection.is_none(),
    {
        self.anchor = None;
        self.selection = None;
    }

    /// Starts a selection of one row.
    pub fn set_anchor(&mut self, panel: MousePanel, row: usize)
        ensures
            *final(self) == anchored(panel, row),
    {
        self.anchor = Some(MouseAnchor { panel, row });
        self.selection = Some(MouseSelection { panel, start: row, end: row });
    }

    /// Extends the selection to `row` where it started in the same panel;
    /// starts a new one there otherwise.
    pub fn update(&mut self, panel: MousePanel, row: usize)
        ensures
            *final(self) == extended(*old(self), panel, row),
    {
        match self.anchor {
            Some(a) => {
                if a.panel == panel {
                    self.selection = Some(MouseSelection { panel, start: a.row, end: row });
                    return;
                }
            },
            None => {},
        }
        self.set_anchor(panel, row);
    }
}

/// A selection of one row, anchored there.
pub open spec fn anchored(panel: MousePanel, row: usize) -> MouseTracker {
    MouseTracker {
        anchor: Some(MouseAnchor { panel, row }),
        selection: Some(MouseSelection { panel, start: row, end: row }),
    }
}

/// The selection extended to `row`, or a new one where the anchor lies in
/// another panel or there is none.
pub open spec fn extended(t: MouseTracker, panel: MousePanel, row: usize) -> MouseTracker {
    match t.anchor {
        Some(a) if a.panel == panel => MouseTracker {
            anchor: t.anchor,
            selection: Some(MouseSelection { panel, start: a.row, end: row }),
        },
        _ => anchored(panel, row),
    }
}

} // verus!
