//! Dragging tabs and panes with the mouse: when a press becomes a drag,
//! where the dragged tab or pane would land, what dropping it does, and
//! the label that follows the pointer.
use vstd::prelude::*;
use crate::sidebars::{PaneId, TabId};
use crate::term_window::TermWindow;
use crate::text::{dec, push_decimal, push_str, to_string};
use crate::workspaces::row_name_spec;

verus! {

/// How far (in pixels, along either axis) the pointer must travel before
/// a press becomes a drag.
pub const DRAG_THRESHOLD_PX: i128 = 6;

/// A pointer report: the position in the window and on the screen, and
/// whether Shift is held.
#[derive(Clone, Copy, PartialEq, Eq, Structural, Debug)]
pub struct PointerEvent {
    pub x: isize,
    pub y: isize,
    pub screen_x: isize,
    pub screen_y: isize,
    pub shift: bool,
}

/// A press on a tab that may become a drag.
pub struct TabDrag {
    pub tab_idx: usize,
    pub tab_id: TabId,
    pub title: String,
    pub start: PointerEvent,
    pub current: PointerEvent,
    /// true once the pointer has moved past the drag threshold
    pub active: bool,
}

/// A press on a pane (with the drag modifiers) that may become a drag.
pub struct PaneDrag {
    pub pane_id: PaneId,
    pub tab_id: TabId,
    pub title: String,
    pub start: PointerEvent,
    pub current: PointerEvent,
    pub active: bool,
}

/// Whether `cur` is far enough from `start` for a drag.
pub open spec fn past_threshold(start: PointerEvent, cur: PointerEvent) -> bool {
    let dx = if cur.x >= start.x { cur.x - start.x } else { start.x - cur.x };
    let dy = if cur.y >= start.y { cur.y - start.y } else { start.y - cur.y };
    dx >= DRAG_THRESHOLD_PX || dy >= DRAG_THRESHOLD_PX
}

fn is_past_threshold(start: &PointerEvent, cur: &PointerEvent) -> (r: bool)
    ensures
        r == past_threshold(*start, *cur),
{
    let dx: i128 = if cur.x >= start.x { cur.x as i128 - start.x as i128 } else { start.x as i128 - cur.x as i128 };
    let dy: i128 = if cur.y >= start.y { cur.y as i128 - start.y as i128 } else { start.y as i128 - cur.y as i128 };
    dx >= DRAG_THRESHOLD_PX || dy >= DRAG_THRESHOLD_PX
}

/// The workspace sidebar's place in the window, in pixels.
#[derive(Clone, Copy, PartialEq, Eq, Structural, Debug)]
pub struct SidebarArea {
    pub left: isize,
    pub width: isize,
    pub top: isize,
    pub cell_height: usize,
}

/// A tab of the tab bar, in pixels.
#[derive(Clone, Copy, PartialEq, Eq, Structural, Debug)]
pub struct TabItem {
    pub tab_idx: usize,
    pub x: usize,
    pub width: usize,
    pub y: usize,
}

/// What the window looks like to a drop: its size, the sidebar (when it
/// is shown), the tabs of the tab bar, and the band around the tab bar in
/// which a tab drop counts: from `bar_above` pixels above the top of the
/// first tab to less than `bar_below` pixels below it (the tab bar height
/// rounded down, and twice it rounded up).
pub struct DropLayout {
    pub pixel_width: usize,
    pub pixel_height: usize,
    pub sidebar: Option<SidebarArea>,
    pub tabs: Vec<TabItem>,
    pub bar_above: isize,
    pub bar_below: isize,
}

impl DropLayout {
    /// Rows of the sidebar have a height, and no tab reaches past the end
    /// of the address space.
    pub open spec fn wf(&self) -> bool {
        &&& (self.sidebar matches Some(s) ==> s.cell_height > 0)
        &&& forall|i: int| 0 <= i < self.tabs@.len() ==> #[trigger] self.tabs@[i].x + self.tabs@[i].width <= usize::MAX
            && self.tabs@[i].tab_idx < usize::MAX
    }
}

/// Where a dragged tab would land if released now.
#[derive(Clone, Debug)]
pub enum TabDropTarget {
    /// insert at this index of the tab bar (numbered before the dragged
    /// tab is taken out); `x` is where the insertion marker goes
    TabBar { insert_idx: usize, x: usize },
    /// merge the dragged tab's panes into this tab (Shift held); `x` and
    /// `width` are the tab's place in the bar
    Merge { tab_idx: usize, x: usize, width: usize },
    /// move to this workspace (a sidebar row)
    Workspace { name: String, row: usize },
    /// detach into a new window at these screen coordinates
    NewWindow { x: isize, y: isize },
    Nowhere,
}

/// The pointer is outside the window.
pub open spec fn outside(ev: PointerEvent, pw: usize, ph: usize) -> bool {
    ev.x < 0 || ev.y < 0 || ev.x >= pw || ev.y >= ph
}

/// The pointer is over the sidebar.
pub open spec fn over_sidebar(ev: PointerEvent, s: SidebarArea) -> bool {
    s.left <= ev.x < s.left + s.width
}

/// The sidebar is shown and the pointer is over it.
pub open spec fn over_shown_sidebar(ev: PointerEvent, s: Option<SidebarArea>) -> bool {
    match s {
        Some(s) => over_sidebar(ev, s),
        None => false,
    }
}

/// The sidebar row under the pointer, if it is below the sidebar's top.
pub open spec fn sidebar_row(ev: PointerEvent, s: SidebarArea) -> Option<int> {
    if ev.y - s.top >= 0 {
        Some((ev.y - s.top) / (s.cell_height as int))
    } else {
        None
    }
}

/// Tab `i` comes before tab `j` once the tabs are sorted by their left
/// edge (stably).
pub open spec fn tab_precedes(tabs: Seq<TabItem>, i: int, j: int) -> bool {
    tabs[i].x < tabs[j].x || (tabs[i].x == tabs[j].x && i < j)
}

/// `i` is the first tab, in that order, for which `p` holds.
pub open spec fn first_tab_where(tabs: Seq<TabItem>, p: spec_fn(TabItem) -> bool, i: int) -> bool {
    &&& 0 <= i < tabs.len()
    &&& p(tabs[i])
    &&& forall|j: int| 0 <= j < tabs.len() && j != i && p(#[trigger] tabs[j]) ==> tab_precedes(tabs, i, j)
}

/// No tab satisfies `p`.
pub open spec fn no_tab_where(tabs: Seq<TabItem>, p: spec_fn(TabItem) -> bool) -> bool {
    forall|j: int| 0 <= j < tabs.len() ==> !p(#[trigger] tabs[j])
}

/// `i` is the last tab in that order.
pub open spec fn last_tab(tabs: Seq<TabItem>, i: int) -> bool {
    &&& 0 <= i < tabs.len()
    &&& forall|j: int| 0 <= j < tabs.len() && j != i ==> tab_precedes(tabs, j, i)
}

/// Any tab.
pub open spec fn any_tab() -> spec_fn(TabItem) -> bool {
    |t: TabItem| true
}

/// Tabs other than `dragged` under pixel column `x`.
pub open spec fn merge_candidate(dragged: usize, x: int) -> spec_fn(TabItem) -> bool {
    |t: TabItem| t.tab_idx != dragged && t.x <= x < t.x + t.width
}

/// Tabs whose middle is right of pixel column `x`.
pub open spec fn insert_before(x: int) -> spec_fn(TabItem) -> bool {
    |t: TabItem| 2 * x < t.x + (t.x + t.width)
}

/// The pointer row `y` is within the band around the tab bar whose first
/// tab's top is `bar_y`.
pub open spec fn in_bar(y: int, bar_y: int, above: int, below: int) -> bool {
    bar_y - above <= y < bar_y + below
}

/// Where the dragged tab (`dragged`, its index) lands for `ev`, the
/// sidebar's rows named by `entries`.
pub open spec fn tab_target_ok(
    layout: DropLayout,
    names: spec_fn(int) -> Option<Seq<char>>,
    dragged: usize,
    ev: PointerEvent,
    r: TabDropTarget,
) -> bool {
    let tabs = layout.tabs@;
    if outside(ev, layout.pixel_width, layout.pixel_height) {
        r == TabDropTarget::NewWindow { x: ev.screen_x, y: ev.screen_y }
    } else if over_shown_sidebar(ev, layout.sidebar) {
        match sidebar_row(ev, layout.sidebar.unwrap()) {
            Some(row) => match names(row) {
                Some(n) => (r matches TabDropTarget::Workspace { name, row: rr } && name@ == n && rr == row),
                None => r is Nowhere,
            },
            None => r is Nowhere,
        }
    } else if tabs.len() == 0 {
        r is Nowhere
    } else {
        exists|f: int| #![trigger tabs[f]] first_tab_where(tabs, any_tab(), f) && {
            if !in_bar(ev.y as int, tabs[f].y as int, layout.bar_above as int, layout.bar_below as int) {
                r is Nowhere
            } else if ev.shift && exists|m: int| first_tab_where(tabs, merge_candidate(dragged, ev.x as int), m) {
                exists|m: int| #![trigger tabs[m]] first_tab_where(tabs, merge_candidate(dragged, ev.x as int), m)
                    && r == TabDropTarget::Merge { tab_idx: tabs[m].tab_idx, x: tabs[m].x, width: tabs[m].width }
            } else if exists|k: int| first_tab_where(tabs, insert_before(ev.x as int), k) {
                exists|k: int| #![trigger tabs[k]] first_tab_where(tabs, insert_before(ev.x as int), k)
                    && r == TabDropTarget::TabBar { insert_idx: tabs[k].tab_idx, x: tabs[k].x }
            } else {
                exists|l: int| #![trigger tabs[l]] last_tab(tabs, l)
                    && r == TabDropTarget::TabBar { insert_idx: (tabs[l].tab_idx + 1) as usize, x: (tabs[l].x + tabs[l].width) as usize }
            }
        }
    }
}

/// The first tab, in left-edge order, for which `p` holds, if any.
fn find_first_tab(tabs: &Vec<TabItem>, Ghost(p): Ghost<spec_fn(TabItem) -> bool>, kind: u8, dragged: usize, x: isize) -> (r: Option<usize>)
    requires
        kind == 0 ==> p == any_tab(),
        kind == 1 ==> p == merge_candidate(dragged, x as int),
        kind == 2 ==> p == insert_before(x as int),
        kind <= 2,
        forall|i: int| 0 <= i < tabs@.len() ==> #[trigger] tabs@[i].x + tabs@[i].width <= usize::MAX,
    ensures
        match r {
            Some(i) => first_tab_where(tabs@, p, i as int),
            None => no_tab_where(tabs@, p),
        },
{
    let mut best: Option<usize> = None;
    let mut i: usize = 0;
    while i < tabs.len()
        invariant
            i <= tabs.len(),
            kind == 0 ==> p == any_tab(),
            kind == 1 ==> p == merge_candidate(dragged, x as int),
            kind == 2 ==> p == insert_before(x as int),
            kind <= 2,
            forall|j: int| 0 <= j < tabs@.len() ==> #[trigger] tabs@[j].x + tabs@[j].width <= usize::MAX,
            match best {
                Some(b) => b < i && p(tabs@[b as int]) && forall|j: int| 0 <= j < i && j != b && p(#[trigger] tabs@[j]) ==> tab_precedes(tabs@, b as int, j),
                None => forall|j: int| 0 <= j < i ==> !p(#[trigger] tabs@[j]),
            },
        decreases tabs.len() - i,
    {
        let t = tabs[i];
        let holds = if kind == 0 {
            true
        } else if kind == 1 {
            t.tab_idx != dragged && (t.x as i128) <= (x as i128) && (x as i128) < (t.x as i128) + (t.width as i128)
        } else {
            2 * (x as i128) < (t.x as i128) + ((t.x as i128) + (t.width as i128))
        };
        assert(holds == p(tabs@[i as int]));
        if holds {
            match best {
                None => {
                    best = Some(i);
                },
                Some(b) => {
                    if t.x < tabs[b].x {
                        best = Some(i);
                    }
                },
            }
        }
        i += 1;
    }
    best
}

/// The last tab in left-edge order; `tabs` is not empty.
fn find_last_tab(tabs: &Vec<TabItem>) -> (r: usize)
    requires
        tabs@.len() > 0,
    ensures
        last_tab(tabs@, r as int),
{
    let mut best: usize = 0;
    let mut i: usize = 1;
    while i < tabs.len()
        invariant
            1 <= i <= tabs.len(),
            best < i,
            forall|j: int| 0 <= j < i && j != best ==> tab_precedes(tabs@, j, best as int),
        decreases tabs.len() - i,
    {
        let ghost old_best = best;
        if tabs[i].x >= tabs[best].x {
            best = i;
            proof {
                assert forall|j: int| 0 <= j < i + 1 && j != best implies tab_precedes(tabs@, j, best as int) by {
                    if j != old_best {
                        assert(tab_precedes(tabs@, j, old_best as int));
                    }
                }
            }
        }
        i += 1;
    }
    best
}

impl TermWindow {
    /// Whether a tab is being dragged (past the threshold).
    pub fn tab_drag_is_active(&self) -> (r: bool)
        ensures
            r == (self.tab_drag matches Some(d) && d.active),
    {
        match &self.tab_drag {
            Some(d) => d.active,
            None => false,
        }
    }

    /// Records a press on tab `tab_idx` as a potential drag; `tab` is that
    /// tab's id and title, `None` when the window has no such tab (then
    /// nothing is recorded).
    pub fn begin_tab_drag(&mut self, tab_idx: usize, tab: Option<(TabId, String)>, ev: PointerEvent)
        ensures
            match tab {
                None => final(self).tab_drag == old(self).tab_drag,
                Some((id, title)) => final(self).tab_drag == Some(TabDrag {
                    tab_idx,
                    tab_id: id,
                    title,
                    start: ev,
                    current: ev,
                    active: false,
                }),
            },
            final(self).pane_drag == old(self).pane_drag,
            final(self).workspaces == old(self).workspaces,
            final(self).tabs == old(self).tabs,
    {
        match tab {
            None => {},
            Some((tab_id, title)) => {
                self.tab_drag = Some(TabDrag { tab_idx, tab_id, title, start: ev, current: ev, active: false });
            },
        }
    }

    /// Drops the tab drag; true if there was one (the window is then
    /// redrawn).
    pub fn cancel_tab_drag(&mut self) -> (r: bool)
        ensures
            r == old(self).tab_drag is Some,
            final(self).tab_drag is None,
            final(self).pane_drag == old(self).pane_drag,
            final(self).workspaces == old(self).workspaces,
            final(self).tabs == old(self).tabs,
    {
        let d = self.tab_drag.take();
        d.is_some()
    }

    /// Follows the pointer: the drag becomes active once the pointer is
    /// past the threshold. True when a drag is active and the event was
    /// consumed (the cursor then shows a grabbing hand).
    pub fn update_tab_drag(&mut self, ev: PointerEvent) -> (r: bool)
        ensures
            match old(self).tab_drag {
                None => r == false && final(self).tab_drag == old(self).tab_drag,
                Some(d) => {
                    let active = d.active || past_threshold(d.start, ev);
                    &&& final(self).tab_drag == Some(TabDrag {
                        tab_idx: d.tab_idx,
                        tab_id: d.tab_id,
                        title: d.title,
                        start: d.start,
                        current: ev,
                        active,
                    })
                    &&& r == active
                },
            },
            final(self).pane_drag == old(self).pane_drag,
            final(self).workspaces == old(self).workspaces,
            final(self).tabs == old(self).tabs,
    {
        match &mut self.tab_drag {
            None => false,
            Some(d) => {
                d.current = ev;
                if !d.active {
                    if !is_past_threshold(&d.start, &ev) {
                        return false;
                    }
                    d.active = true;
                }
                true
            },
        }
    }

    /// Where the dragged tab would land if released at `ev`.
    pub fn tab_drop_target(&self, ev: PointerEvent, layout: &DropLayout) -> (r: TabDropTarget)
        requires
            layout.wf(),
        ensures
            match self.tab_drag {
                None => r is Nowhere,
                Some(d) => tab_target_ok(*layout, |row: int| row_name_spec(self.workspaces@, row), d.tab_idx, ev, r),
            },
    {
        let drag = match &self.tab_drag {
            None => return TabDropTarget::Nowhere,
            Some(d) => d,
        };
        let x = ev.x;
        let y = ev.y;
        if x < 0 || y < 0 || x as usize >= layout.pixel_width || y as usize >= layout.pixel_height {
            return TabDropTarget::NewWindow { x: ev.screen_x, y: ev.screen_y };
        }
        match layout.sidebar {
            Some(s) => {
                if (s.left as i128) <= (x as i128) && (x as i128) < (s.left as i128) + (s.width as i128) {
                    let rel: i128 = y as i128 - s.top as i128;
                    if rel >= 0 {
                        let row128: i128 = rel / (s.cell_height as i128);
                        proof {
                            assert(0 <= row128 <= rel) by (nonlinear_arith)
                                requires row128 == rel / (s.cell_height as i128), rel >= 0, s.cell_height > 0;
                        }
                        let row = row128 as usize;
                        match self.workspace_sidebar_row_name(row) {
                            Some(name) => return TabDropTarget::Workspace { name, row },
                            None => return TabDropTarget::Nowhere,
                        }
                    }
                    return TabDropTarget::Nowhere;
                }
            },
            None => {},
        }
        if layout.tabs.len() == 0 {
            return TabDropTarget::Nowhere;
        }
        let ghost tabs = layout.tabs@;
        let first = find_first_tab(&layout.tabs, Ghost(any_tab()), 0, drag.tab_idx, x);
        let f = match first {
            Some(f) => f,
            None => {
                assert(!any_tab()(tabs[0]));
                return TabDropTarget::Nowhere;
            },
        };
        let bar_y = layout.tabs[f].y as i128;
        if !(bar_y - (layout.bar_above as i128) <= (y as i128) && (y as i128) < bar_y + (layout.bar_below as i128)) {
            assert(first_tab_where(tabs, any_tab(), f as int));
            return TabDropTarget::Nowhere;
        }
        if ev.shift {
            let m = find_first_tab(&layout.tabs, Ghost(merge_candidate(drag.tab_idx, x as int)), 1, drag.tab_idx, x);
            match m {
                Some(m) => {
                    let t = layout.tabs[m];
                    assert(first_tab_where(tabs, any_tab(), f as int));
                    assert(first_tab_where(tabs, merge_candidate(drag.tab_idx, x as int), m as int));
                    return TabDropTarget::Merge { tab_idx: t.tab_idx, x: t.x, width: t.width };
                },
                None => {},
            }
        }
        let k = find_first_tab(&layout.tabs, Ghost(insert_before(x as int)), 2, drag.tab_idx, x);
        assert(first_tab_where(tabs, any_tab(), f as int));
        match k {
            Some(k) => {
                let t = layout.tabs[k];
                assert(first_tab_where(tabs, insert_before(x as int), k as int));
                TabDropTarget::TabBar { insert_idx: t.tab_idx, x: t.x }
            },
            None => {
                let l = find_last_tab(&layout.tabs);
                let t = layout.tabs[l];
                assert(layout.wf());
                assert(t.x + t.width <= usize::MAX && t.tab_idx < usize::MAX);
                assert(last_tab(tabs, l as int));
                TabDropTarget::TabBar { insert_idx: t.tab_idx + 1, x: t.x + t.width }
            },
        }
    }
}


/// What dropping a dragged tab comes to.
pub enum TabDropAction {
    Nothing,
    /// activate tab `from`, then move it to index `to`
    Move { from: usize, to: usize },
    /// merge the tab's panes into the tab at index `into`
    Merge { tab_id: TabId, into: usize },
    /// move the tab into the named workspace
    ToWorkspace { tab_id: TabId, name: String },
    /// activate tab `tab_idx`, then detach it into a new window whose
    /// top-left corner is at `(x, y)` on the screen
    NewWindow { tab_idx: usize, x: isize, y: isize },
}

/// `a - b`, but not below 0.
pub open spec fn offset_clamped(a: isize, b: isize) -> int {
    if a - b > 0 { a - b } else { 0 }
}

fn offset_clamped_exec(a: isize, b: isize) -> (r: isize)
    requires
        0 <= b <= 100,
    ensures
        r == offset_clamped(a, b),
{
    if a > b { a - b } else { 0 }
}

/// Dropping tab drag `d` on `t` does `r`: reordering moves the tab to the
/// insertion point counted after it is taken out (nothing when that is
/// where it is); the new window opens 40 pixels left of and 10 above the
/// pointer, but not off the screen's top-left corner.
pub open spec fn tab_drop_action_ok(d: TabDrag, t: TabDropTarget, r: TabDropAction) -> bool {
    match t {
        TabDropTarget::TabBar { insert_idx, .. } => {
            let dest = if insert_idx > d.tab_idx { insert_idx - 1 } else { insert_idx as int };
            if dest == d.tab_idx {
                r is Nothing
            } else {
                r == TabDropAction::Move { from: d.tab_idx, to: dest as usize }
            }
        },
        TabDropTarget::Merge { tab_idx, .. } => r == TabDropAction::Merge { tab_id: d.tab_id, into: tab_idx },
        TabDropTarget::Workspace { name, .. } => (r matches TabDropAction::ToWorkspace { tab_id, name: n } && tab_id == d.tab_id && n@ == name@),
        TabDropTarget::NewWindow { x, y } => r == TabDropAction::NewWindow {
            tab_idx: d.tab_idx,
            x: offset_clamped(x, 40) as isize,
            y: offset_clamped(y, 10) as isize,
        },
        TabDropTarget::Nowhere => r is Nothing,
    }
}

/// What dropping tab drag `d` on `t` does (see `tab_drop_action_ok`).
pub fn tab_drop_action(d: &TabDrag, t: TabDropTarget) -> (r: TabDropAction)
    ensures
        tab_drop_action_ok(*d, t, r),
{
    match t {
        TabDropTarget::TabBar { insert_idx, .. } => {
            let dest = if insert_idx > d.tab_idx { insert_idx - 1 } else { insert_idx };
            if dest == d.tab_idx {
                TabDropAction::Nothing
            } else {
                TabDropAction::Move { from: d.tab_idx, to: dest }
            }
        },
        TabDropTarget::Merge { tab_idx, .. } => TabDropAction::Merge { tab_id: d.tab_id, into: tab_idx },
        TabDropTarget::Workspace { name, .. } => TabDropAction::ToWorkspace { tab_id: d.tab_id, name },
        TabDropTarget::NewWindow { x, y } => TabDropAction::NewWindow {
            tab_idx: d.tab_idx,
            x: offset_clamped_exec(x, 40),
            y: offset_clamped_exec(y, 10),
        },
        TabDropTarget::Nowhere => TabDropAction::Nothing,
    }
}

/// Dropping a tab acts on the tab that was dragged, in the way the target
/// names: on a merge target (a tab under the pointer with Shift held) its
/// panes go into that tab, on a workspace row it moves to that workspace,
/// off the window it is detached. A drop does nothing only off any target
/// or where reordering would leave the tab where it is; a reorder always
/// moves the dragged tab to another index.
pub proof fn law_tab_drop_acts_on_dragged_tab(d: TabDrag, t: TabDropTarget, r: TabDropAction)
    requires
        tab_drop_action_ok(d, t, r),
    ensures
        t matches TabDropTarget::Merge { tab_idx, .. } ==> (r matches TabDropAction::Merge { tab_id, into }
            && tab_id == d.tab_id && into == tab_idx),
        t matches TabDropTarget::Workspace { name, .. } ==> (r matches TabDropAction::ToWorkspace { tab_id, name: n }
            && tab_id == d.tab_id && n@ == name@),
        t is NewWindow ==> (r matches TabDropAction::NewWindow { tab_idx, .. } && tab_idx == d.tab_idx),
        r is Nothing ==> (t is Nowhere || t is TabBar),
        r matches TabDropAction::Move { from, to } ==> from == d.tab_idx && to != from && t is TabBar,
        (t matches TabDropTarget::TabBar { insert_idx, .. } && insert_idx != d.tab_idx
            && insert_idx != d.tab_idx + 1) ==> r is Move,
{
}

/// The label that follows the pointer while dragging a tab titled
/// `title` over `t`.
pub open spec fn tab_label_spec(title: Seq<char>, t: TabDropTarget) -> Seq<char> {
    match t {
        TabDropTarget::NewWindow { .. } => title + "  → new window"@,
        TabDropTarget::Workspace { name, .. } => title + "  → "@ + name@,
        TabDropTarget::Merge { tab_idx, .. } => title + "  → merge into tab "@ + dec((tab_idx + 1) as nat),
        _ => title,
    }
}

/// The label for a tab titled `title` dragged over `t`.
pub fn tab_drag_label(title: &str, t: &TabDropTarget) -> (r: String)
    ensures
        r@ == tab_label_spec(title@, *t),
{
    let mut out = to_string(title);
    match t {
        TabDropTarget::NewWindow { .. } => push_str(&mut out, "  → new window"),
        TabDropTarget::Workspace { name, .. } => {
            push_str(&mut out, "  → ");
            push_str(&mut out, name.as_str());
        },
        TabDropTarget::Merge { tab_idx, .. } => {
            push_str(&mut out, "  → merge into tab ");
            push_decimal(&mut out, *tab_idx as u128 + 1);
        },
        _ => {},
    }
    out
}

impl TermWindow {
    /// Completes the tab drag on release at `ev`: the drag ends, and if it
    /// was active, what dropping it where the pointer is does.
    pub fn finish_tab_drag(&mut self, ev: PointerEvent, layout: &DropLayout) -> (r: TabDropAction)
        requires
            layout.wf(),
        ensures
            final(self).tab_drag is None,
            final(self).pane_drag == old(self).pane_drag,
            final(self).workspaces == old(self).workspaces,
            final(self).tabs == old(self).tabs,
            match old(self).tab_drag {
                None => r is Nothing,
                Some(d) => if !d.active {
                    r is Nothing
                } else {
                    exists|t: TabDropTarget| tab_target_ok(*layout, |row: int| row_name_spec(old(self).workspaces@, row), d.tab_idx, ev, t)
                        && tab_drop_action_ok(d, t, r)
                },
            },
    {
        let target = self.tab_drop_target(ev, layout);
        let drag = match self.tab_drag.take() {
            None => return TabDropAction::Nothing,
            Some(d) => d,
        };
        if !drag.active {
            return TabDropAction::Nothing;
        }
        let ghost t = target;
        let r = tab_drop_action(&drag, target);
        assert(tab_drop_action_ok(drag, t, r));
        r
    }

    /// While a tab drag is active: its label and where it would land.
    pub fn paint_tab_drag(&self, layout: &DropLayout) -> (r: Option<(String, TabDropTarget)>)
        requires
            layout.wf(),
        ensures
            match self.tab_drag {
                Some(d) if d.active => (r matches Some((label, t)) && label@ == tab_label_spec(d.title@, t)
                    && tab_target_ok(*layout, |row: int| row_name_spec(self.workspaces@, row), d.tab_idx, d.current, t)),
                _ => r is None,
            },
    {
        match &self.tab_drag {
            Some(d) => {
                if !d.active {
                    return None;
                }
                let target = self.tab_drop_target(d.current, layout);
                let label = tab_drag_label(d.title.as_str(), &target);
                Some((label, target))
            },
            None => None,
        }
    }
}


/// Which way a split divides a pane: side by side, or one above the
/// other.
#[derive(Clone, Copy, PartialEq, Eq, Structural, Debug)]
pub enum SplitDirection {
    Horizontal,
    Vertical,
}

/// The part of a pane the pointer is over: the quarter-deep band along
/// an edge (the nearest edge where bands meet), or the centre.
#[derive(Clone, Copy, PartialEq, Eq, Structural, Debug)]
pub enum PaneZone {
    Left,
    Right,
    Top,
    Bottom,
    Centre,
}

/// A tab bar item under the pointer.
#[derive(Clone, Copy, PartialEq, Eq, Structural, Debug)]
pub enum BarHit {
    /// the tab with this index
    Tab(usize),
    /// the new-tab button
    NewTabButton,
    /// the empty part of the bar
    Empty,
    /// another part of the bar (buttons, status)
    Other,
}

/// What is under the pointer of a pane drag: the tab bar items, topmost
/// first; the pane with the zone of it; and the window's active tab.
pub struct PanePointer {
    pub bar_hits: Vec<BarHit>,
    pub pane: Option<(PaneId, PaneZone)>,
    pub active_tab: Option<usize>,
}

/// Where a dragged pane would land if released now.
#[derive(Clone, Debug)]
pub enum PaneDropTarget {
    /// split the pane and put the dragged pane on the given side
    Split { pane_id: PaneId, direction: SplitDirection, second: bool },
    /// swap places with the pane
    Swap { pane_id: PaneId },
    /// move into the tab with this index, beside its active pane
    Tab { tab_idx: usize },
    /// move into a new tab of this window
    NewTab,
    /// move into a new tab of this workspace (a sidebar row)
    Workspace { name: String, row: usize },
    /// detach into a new window at these screen coordinates
    NewWindow { x: isize, y: isize },
    Nowhere,
}

/// The target of dropping on zone `z` of pane `p`.
pub open spec fn zone_target(p: PaneId, z: PaneZone) -> PaneDropTarget {
    match z {
        PaneZone::Centre => PaneDropTarget::Swap { pane_id: p },
        PaneZone::Left => PaneDropTarget::Split { pane_id: p, direction: SplitDirection::Horizontal, second: false },
        PaneZone::Right => PaneDropTarget::Split { pane_id: p, direction: SplitDirection::Horizontal, second: true },
        PaneZone::Top => PaneDropTarget::Split { pane_id: p, direction: SplitDirection::Vertical, second: false },
        PaneZone::Bottom => PaneDropTarget::Split { pane_id: p, direction: SplitDirection::Vertical, second: true },
    }
}

/// Where the pane `dragged` lands for `ev`: outside the window, a new
/// window; on a sidebar row, that workspace; on the tab bar, the topmost
/// item decides (a tab other than the active one, a new tab, or nothing);
/// on another pane, the zone of it decides.
pub open spec fn pane_target_ok(
    layout: DropLayout,
    names: spec_fn(int) -> Option<Seq<char>>,
    pointer: PanePointer,
    dragged: PaneId,
    ev: PointerEvent,
    r: PaneDropTarget,
) -> bool {
    let hits = pointer.bar_hits@;
    if outside(ev, layout.pixel_width, layout.pixel_height) {
        r == PaneDropTarget::NewWindow { x: ev.screen_x, y: ev.screen_y }
    } else if over_shown_sidebar(ev, layout.sidebar) {
        match sidebar_row(ev, layout.sidebar.unwrap()) {
            Some(row) => match names(row) {
                Some(n) => (r matches PaneDropTarget::Workspace { name, row: rr } && name@ == n && rr == row),
                None => r is Nowhere,
            },
            None => r is Nowhere,
        }
    } else if hits.len() > 0 {
        match hits[0] {
            BarHit::Tab(i) => if pointer.active_tab == Some(i) {
                r is Nowhere
            } else {
                r == PaneDropTarget::Tab { tab_idx: i }
            },
            BarHit::NewTabButton | BarHit::Empty => r is NewTab,
            BarHit::Other => r is Nowhere,
        }
    } else {
        match pointer.pane {
            None => r is Nowhere,
            Some((p, z)) => if p == dragged {
                r is Nowhere
            } else {
                r == zone_target(p, z)
            },
        }
    }
}

/// The side named by a split: "left of", "right of", "above", "below".
pub open spec fn side_name(direction: SplitDirection, second: bool) -> Seq<char> {
    match (direction, second) {
        (SplitDirection::Horizontal, false) => "left of"@,
        (SplitDirection::Horizontal, true) => "right of"@,
        (SplitDirection::Vertical, false) => "above"@,
        (SplitDirection::Vertical, true) => "below"@,
    }
}

/// The label that follows the pointer while dragging a pane titled
/// `title` over `t`.
pub open spec fn pane_label_spec(title: Seq<char>, t: PaneDropTarget) -> Seq<char> {
    match t {
        PaneDropTarget::Split { direction, second, .. } => title + "  → "@ + side_name(direction, second) + " pane"@,
        PaneDropTarget::Swap { .. } => title + "  ⇄ swap"@,
        PaneDropTarget::Tab { tab_idx } => title + "  → tab "@ + dec((tab_idx + 1) as nat),
        PaneDropTarget::NewTab => title + "  → new tab"@,
        PaneDropTarget::Workspace { name, .. } => title + "  → "@ + name@,
        PaneDropTarget::NewWindow { .. } => title + "  → new window"@,
        PaneDropTarget::Nowhere => title,
    }
}

/// The label for a pane titled `title` dragged over `t`.
pub fn pane_drag_label(title: &str, t: &PaneDropTarget) -> (r: String)
    ensures
        r@ == pane_label_spec(title@, *t),
{
    let mut out = to_string(title);
    match t {
        PaneDropTarget::Split { direction, second, .. } => {
            push_str(&mut out, "  → ");
            match (direction, second) {
                (SplitDirection::Horizontal, false) => push_str(&mut out, "left of"),
                (SplitDirection::Horizontal, true) => push_str(&mut out, "right of"),
                (SplitDirection::Vertical, false) => push_str(&mut out, "above"),
                (SplitDirection::Vertical, true) => push_str(&mut out, "below"),
            }
            push_str(&mut out, " pane");
        },
        PaneDropTarget::Swap { .. } => push_str(&mut out, "  ⇄ swap"),
        PaneDropTarget::Tab { tab_idx } => {
            push_str(&mut out, "  → tab ");
            push_decimal(&mut out, *tab_idx as u128 + 1);
        },
        PaneDropTarget::NewTab => push_str(&mut out, "  → new tab"),
        PaneDropTarget::Workspace { name, .. } => {
            push_str(&mut out, "  → ");
            push_str(&mut out, name.as_str());
        },
        PaneDropTarget::NewWindow { .. } => push_str(&mut out, "  → new window"),
        PaneDropTarget::Nowhere => {},
    }
    out
}

/// The translucent highlight of a pane drop zone: the zone of the target
/// pane, and the accent colour's opacity in percent.
#[derive(Clone, Copy, PartialEq, Eq, Structural, Debug)]
pub struct ZoneHighlight {
    pub pane_id: PaneId,
    pub zone: PaneZone,
    pub alpha_percent: u8,
}

/// The highlight for target `t`: the split side at 35%, the centre of a
/// swap at 20%, none otherwise.
pub open spec fn zone_highlight_spec(t: PaneDropTarget) -> Option<ZoneHighlight> {
    match t {
        PaneDropTarget::Split { pane_id, direction, second } => Some(ZoneHighlight {
            pane_id,
            zone: match (direction, second) {
                (SplitDirection::Horizontal, false) => PaneZone::Left,
                (SplitDirection::Horizontal, true) => PaneZone::Right,
                (SplitDirection::Vertical, false) => PaneZone::Top,
                (SplitDirection::Vertical, true) => PaneZone::Bottom,
            },
            alpha_percent: 35,
        }),
        PaneDropTarget::Swap { pane_id } => Some(ZoneHighlight { pane_id, zone: PaneZone::Centre, alpha_percent: 20 }),
        _ => None,
    }
}

/// What the window knows, when a pane is dropped, of the tabs involved:
/// how many panes the dragged pane's tab has (`None`: the tab is gone),
/// how many tabs the window has (`None`: the window is gone), the
/// window's workspace, and for a drop on a tab, that tab's id (`None`: no
/// tab at that index).
pub struct PaneDropFacts {
    pub src_pane_count: Option<usize>,
    pub window_tab_count: Option<usize>,
    pub workspace: Option<String>,
    pub target_tab_id: Option<TabId>,
}

/// What dropping a dragged pane comes to.
pub enum PaneDropPlan {
    Nothing,
    /// the dragged pane's tab is gone
    TabMissing,
    /// there is no tab at this index
    NoTabAt(usize),
    /// in tab `tab_id`, swap pane `pane_id` with pane `with`
    Swap { tab_id: TabId, pane_id: PaneId, with: PaneId },
    /// in tab `tab_id`, take pane `pane_id` out and split pane `beside`
    /// to put it on the given side
    Split { tab_id: TabId, pane_id: PaneId, beside: PaneId, direction: SplitDirection, second: bool },
    /// move the pane into the tab with this index, beside its active pane
    ToTab { tab_idx: usize },
    /// move the pane into a new tab of this window
    ToNewTab,
    /// move the pane into a new tab of the named workspace's first window
    /// (a new window if it has none)
    ToWorkspace { name: String },
    /// move the pane into a new window of `workspace` whose top-left
    /// corner is at `(x, y)` on the screen
    ToNewWindow { workspace: Option<String>, x: isize, y: isize },
}

/// The dragged pane is the only one of its tab (or its tab is gone).
pub open spec fn src_alone(f: PaneDropFacts) -> bool {
    match f.src_pane_count {
        Some(n) => n < 2,
        None => true,
    }
}

/// Dropping pane drag `d` on `t` with `f` known does `r`. Moving the only
/// pane of a tab into a new tab, into its own workspace, or (when it is
/// also the window's only tab) into a new window does nothing; so does
/// splitting a tab's only pane.
pub open spec fn pane_drop_plan_ok(d: PaneDrag, t: PaneDropTarget, f: PaneDropFacts, r: PaneDropPlan) -> bool {
    match t {
        PaneDropTarget::Nowhere => r is Nothing,
        PaneDropTarget::Swap { pane_id } => match f.src_pane_count {
            None => r is TabMissing,
            Some(_) => r == PaneDropPlan::Swap { tab_id: d.tab_id, pane_id: d.pane_id, with: pane_id },
        },
        PaneDropTarget::Split { pane_id, direction, second } => match f.src_pane_count {
            None => r is TabMissing,
            Some(n) => if n < 2 {
                r is Nothing
            } else {
                r == PaneDropPlan::Split { tab_id: d.tab_id, pane_id: d.pane_id, beside: pane_id, direction, second }
            },
        },
        PaneDropTarget::Tab { tab_idx } => match f.target_tab_id {
            None => r == PaneDropPlan::NoTabAt(tab_idx),
            Some(id) => if id == d.tab_id {
                r is Nothing
            } else {
                r == PaneDropPlan::ToTab { tab_idx }
            },
        },
        PaneDropTarget::NewTab => if src_alone(f) {
            r is Nothing
        } else {
            r is ToNewTab
        },
        PaneDropTarget::Workspace { name, .. } => {
            let current = match f.workspace {
                Some(w) => w@,
                None => Seq::<char>::empty(),
            };
            if current == name@ && src_alone(f) {
                r is Nothing
            } else {
                (r matches PaneDropPlan::ToWorkspace { name: n } && n@ == name@)
            }
        },
        PaneDropTarget::NewWindow { x, y } => {
            let only_tab = match f.window_tab_count {
                Some(n) => n < 2,
                None => true,
            };
            if src_alone(f) && only_tab {
                r is Nothing
            } else {
                (r matches PaneDropPlan::ToNewWindow { workspace, x: rx, y: ry } && opt_chars(workspace)
                    == opt_chars(f.workspace) && rx == offset_clamped(x, 40) && ry == offset_clamped(y, 10))
            }
        },
    }
}

/// The characters of an optional string.
pub open spec fn opt_chars(o: Option<String>) -> Option<Seq<char>> {
    match o {
        Some(s) => Some(s@),
        None => None,
    }
}

/// What dropping pane drag `d` on `t` does, given `f` (see
/// `pane_drop_plan_ok`).
pub fn plan_pane_drop(d: &PaneDrag, t: PaneDropTarget, f: &PaneDropFacts) -> (r: PaneDropPlan)
    ensures
        pane_drop_plan_ok(*d, t, *f, r),
{
    let alone = match f.src_pane_count {
        Some(n) => n < 2,
        None => true,
    };
    match t {
        PaneDropTarget::Nowhere => PaneDropPlan::Nothing,
        PaneDropTarget::Swap { pane_id } => match f.src_pane_count {
            None => PaneDropPlan::TabMissing,
            Some(_) => PaneDropPlan::Swap { tab_id: d.tab_id, pane_id: d.pane_id, with: pane_id },
        },
        PaneDropTarget::Split { pane_id, direction, second } => match f.src_pane_count {
            None => PaneDropPlan::TabMissing,
            Some(n) => if n < 2 {
                PaneDropPlan::Nothing
            } else {
                PaneDropPlan::Split { tab_id: d.tab_id, pane_id: d.pane_id, beside: pane_id, direction, second }
            },
        },
        PaneDropTarget::Tab { tab_idx } => match f.target_tab_id {
            None => PaneDropPlan::NoTabAt(tab_idx),
            Some(id) => if id == d.tab_id {
                PaneDropPlan::Nothing
            } else {
                PaneDropPlan::ToTab { tab_idx }
            },
        },
        PaneDropTarget::NewTab => if alone {
            PaneDropPlan::Nothing
        } else {
            PaneDropPlan::ToNewTab
        },
        PaneDropTarget::Workspace { name, .. } => {
            let same = match &f.workspace {
                Some(w) => crate::text::str_eq(w.as_str(), name.as_str()),
                None => {
                    proof {
                        reveal_strlit("");
                        assert(""@ =~= Seq::<char>::empty());
                    }
                    crate::text::str_eq("", name.as_str())
                },
            };
            if same && alone {
                PaneDropPlan::Nothing
            } else {
                PaneDropPlan::ToWorkspace { name }
            }
        },
        PaneDropTarget::NewWindow { x, y } => {
            let only_tab = match f.window_tab_count {
                Some(n) => n < 2,
                None => true,
            };
            if alone && only_tab {
                PaneDropPlan::Nothing
            } else {
                let workspace = match &f.workspace {
                    Some(w) => Some(w.clone()),
                    None => None,
                };
                PaneDropPlan::ToNewWindow {
                    workspace,
                    x: offset_clamped_exec(x, 40),
                    y: offset_clamped_exec(y, 10),
                }
            }
        },
    }
}

impl TermWindow {
    /// Whether a pane is being dragged (past the threshold).
    pub fn pane_drag_is_active(&self) -> (r: bool)
        ensures
            r == (self.pane_drag matches Some(d) && d.active),
    {
        match &self.pane_drag {
            Some(d) => d.active,
            None => false,
        }
    }

    /// Starts a pane drag at `ev` when the pointer is over a pane (`pane`:
    /// its id and title) and the window has an active tab (its id);
    /// true if a drag was started.
    pub fn begin_pane_drag(&mut self, ev: PointerEvent, pane: Option<(PaneId, String)>, active_tab: Option<TabId>) -> (r: bool)
        ensures
            r == (pane is Some && active_tab is Some),
            match (pane, active_tab) {
                (Some((p, title)), Some(t)) => final(self).pane_drag == Some(PaneDrag {
                    pane_id: p,
                    tab_id: t,
                    title,
                    start: ev,
                    current: ev,
                    active: false,
                }),
                _ => final(self).pane_drag == old(self).pane_drag,
            },
            final(self).tab_drag == old(self).tab_drag,
            final(self).workspaces == old(self).workspaces,
            final(self).tabs == old(self).tabs,
    {
        match (pane, active_tab) {
            (Some((pane_id, title)), Some(tab_id)) => {
                self.pane_drag = Some(PaneDrag { pane_id, tab_id, title, start: ev, current: ev, active: false });
                true
            },
            _ => false,
        }
    }

    /// Drops the pane drag; true if there was one (the window is then
    /// redrawn).
    pub fn cancel_pane_drag(&mut self) -> (r: bool)
        ensures
            r == old(self).pane_drag is Some,
            final(self).pane_drag is None,
            final(self).tab_drag == old(self).tab_drag,
            final(self).workspaces == old(self).workspaces,
            final(self).tabs == old(self).tabs,
    {
        let d = self.pane_drag.take();
        d.is_some()
    }

    /// Follows the pointer: the drag becomes active once the pointer is
    /// past the threshold. True whenever a pane drag is in progress (the
    /// event is consumed); the cursor shows a grabbing hand once it is
    /// active.
    pub fn update_pane_drag(&mut self, ev: PointerEvent) -> (r: bool)
        ensures
            r == old(self).pane_drag is Some,
            match old(self).pane_drag {
                None => final(self).pane_drag == old(self).pane_drag,
                Some(d) => final(self).pane_drag == Some(PaneDrag {
                    pane_id: d.pane_id,
                    tab_id: d.tab_id,
                    title: d.title,
                    start: d.start,
                    current: ev,
                    active: d.active || past_threshold(d.start, ev),
                }),
            },
            final(self).tab_drag == old(self).tab_drag,
            final(self).workspaces == old(self).workspaces,
            final(self).tabs == old(self).tabs,
    {
        match &mut self.pane_drag {
            None => false,
            Some(d) => {
                d.current = ev;
                if !d.active {
                    if !is_past_threshold(&d.start, &ev) {
                        return true;
                    }
                    d.active = true;
                }
                true
            },
        }
    }

    /// Where the dragged pane would land if released at `ev`, with
    /// `pointer` telling what is under it.
    pub fn pane_drop_target(&self, ev: PointerEvent, layout: &DropLayout, pointer: &PanePointer) -> (r: PaneDropTarget)
        requires
            layout.wf(),
        ensures
            match self.pane_drag {
                None => r is Nowhere,
                Some(d) => pane_target_ok(*layout, |row: int| row_name_spec(self.workspaces@, row), *pointer, d.pane_id, ev, r),
            },
    {
        let drag = match &self.pane_drag {
            None => return PaneDropTarget::Nowhere,
            Some(d) => d,
        };
        let x = ev.x;
        let y = ev.y;
        if x < 0 || y < 0 || x as usize >= layout.pixel_width || y as usize >= layout.pixel_height {
            return PaneDropTarget::NewWindow { x: ev.screen_x, y: ev.screen_y };
        }
        match layout.sidebar {
            Some(s) => {
                if (s.left as i128) <= (x as i128) && (x as i128) < (s.left as i128) + (s.width as i128) {
                    let rel: i128 = y as i128 - s.top as i128;
                    if rel >= 0 {
                        let row128: i128 = rel / (s.cell_height as i128);
                        proof {
                            assert(0 <= row128 <= rel) by (nonlinear_arith)
                                requires row128 == rel / (s.cell_height as i128), rel >= 0, s.cell_height > 0;
                        }
                        let row = row128 as usize;
                        match self.workspace_sidebar_row_name(row) {
                            Some(name) => return PaneDropTarget::Workspace { name, row },
                            None => return PaneDropTarget::Nowhere,
                        }
                    }
                    return PaneDropTarget::Nowhere;
                }
            },
            None => {},
        }
        if pointer.bar_hits.len() > 0 {
            return match pointer.bar_hits[0] {
                BarHit::Tab(i) => {
                    if pointer.active_tab == Some(i) {
                        PaneDropTarget::Nowhere
                    } else {
                        PaneDropTarget::Tab { tab_idx: i }
                    }
                },
                BarHit::NewTabButton | BarHit::Empty => PaneDropTarget::NewTab,
                BarHit::Other => PaneDropTarget::Nowhere,
            };
        }
        match pointer.pane {
            None => PaneDropTarget::Nowhere,
            Some((p, z)) => {
                if p == drag.pane_id {
                    PaneDropTarget::Nowhere
                } else {
                    match z {
                        PaneZone::Centre => PaneDropTarget::Swap { pane_id: p },
                        PaneZone::Left => PaneDropTarget::Split { pane_id: p, direction: SplitDirection::Horizontal, second: false },
                        PaneZone::Right => PaneDropTarget::Split { pane_id: p, direction: SplitDirection::Horizontal, second: true },
                        PaneZone::Top => PaneDropTarget::Split { pane_id: p, direction: SplitDirection::Vertical, second: false },
                        PaneZone::Bottom => PaneDropTarget::Split { pane_id: p, direction: SplitDirection::Vertical, second: true },
                    }
                }
            },
        }
    }

    /// Completes the pane drag on release at `ev`: the drag ends, and if
    /// it was active, the drag and where it lands are handed back for
    /// `plan_pane_drop`.
    pub fn finish_pane_drag(&mut self, ev: PointerEvent, layout: &DropLayout, pointer: &PanePointer) -> (r: Option<(PaneDrag, PaneDropTarget)>)
        requires
            layout.wf(),
        ensures
            final(self).pane_drag is None,
            final(self).tab_drag == old(self).tab_drag,
            final(self).workspaces == old(self).workspaces,
            final(self).tabs == old(self).tabs,
            match old(self).pane_drag {
                Some(d) if d.active => (r matches Some((d2, t)) && d2 == d && pane_target_ok(*layout, |row: int| row_name_spec(old(self).workspaces@, row), *pointer, d.pane_id, ev, t)),
                _ => r is None,
            },
    {
        let target = self.pane_drop_target(ev, layout, pointer);
        let drag = match self.pane_drag.take() {
            None => return None,
            Some(d) => d,
        };
        if !drag.active {
            return None;
        }
        Some((drag, target))
    }

    /// While a pane drag is active: its label and where it would land.
    pub fn paint_pane_drag(&self, layout: &DropLayout, pointer: &PanePointer) -> (r: Option<(String, PaneDropTarget)>)
        requires
            layout.wf(),
        ensures
            match self.pane_drag {
                Some(d) if d.active => (r matches Some((label, t)) && label@ == pane_label_spec(d.title@, t)
                    && pane_target_ok(*layout, |row: int| row_name_spec(self.workspaces@, row), *pointer, d.pane_id, d.current, t)),
                _ => r is None,
            },
    {
        match &self.pane_drag {
            Some(d) => {
                if !d.active {
                    return None;
                }
                let target = self.pane_drop_target(d.current, layout, pointer);
                let label = pane_drag_label(d.title.as_str(), &target);
                Some((label, target))
            },
            None => None,
        }
    }

    /// While a pane drag is active: the drop zone to highlight, if the
    /// pane would split or swap.
    pub fn paint_pane_drag_zone(&self, layout: &DropLayout, pointer: &PanePointer) -> (r: Option<ZoneHighlight>)
        requires
            layout.wf(),
        ensures
            match self.pane_drag {
                Some(d) if d.active => exists|t: PaneDropTarget| pane_target_ok(*layout, |row: int| row_name_spec(self.workspaces@, row), *pointer, d.pane_id, d.current, t)
                    && r == zone_highlight_spec(t),
                _ => r is None,
            },
    {
        match &self.pane_drag {
            Some(d) => {
                if !d.active {
                    return None;
                }
                let target = self.pane_drop_target(d.current, layout, pointer);
                let ghost t = target;
                let r = match target {
                    PaneDropTarget::Split { pane_id, direction, second } => {
                        let zone = match (direction, second) {
                            (SplitDirection::Horizontal, false) => PaneZone::Left,
                            (SplitDirection::Horizontal, true) => PaneZone::Right,
                            (SplitDirection::Vertical, false) => PaneZone::Top,
                            (SplitDirection::Vertical, true) => PaneZone::Bottom,
                        };
                        Some(ZoneHighlight { pane_id, zone, alpha_percent: 35 })
                    },
                    PaneDropTarget::Swap { pane_id } => Some(ZoneHighlight { pane_id, zone: PaneZone::Centre, alpha_percent: 20 }),
                    _ => None,
                };
                assert(r == zone_highlight_spec(t));
                r
            },
            None => None,
        }
    }
}

/// Reordering by dropping at an insertion point: moving the tab at
/// `from` to the index `tab_drop_action` computes from insertion point
/// `insert` (counted before the tab is taken out) gives the order of
/// inserting the tab at `insert` and removing it from where it was; and
/// the move is skipped exactly when the insertion point is on either side
/// of the tab itself.
pub proof fn law_reorder_lands_at_insertion_point<A>(tabs: Seq<A>, from: int, insert: int)
    requires
        0 <= from < tabs.len(),
        0 <= insert <= tabs.len(),
    ensures
        ({
            let dest = if insert > from { insert - 1 } else { insert };
            let x = tabs[from];
            &&& tabs.remove(from).insert(dest, x) == tabs.insert(insert, x).remove(if insert <= from { from + 1 } else { from })
            &&& (dest == from <==> (insert == from || insert == from + 1))
        }),
{
    let dest = if insert > from { insert - 1 } else { insert };
    let x = tabs[from];
    assert(tabs.remove(from).insert(dest, x) =~= tabs.insert(insert, x).remove(if insert <= from { from + 1 } else { from }));
}

/// A pane that is alone in its tab stays where it is when dropped on the
/// tab bar for a new tab.
pub proof fn law_lone_pane_new_tab_is_noop(d: PaneDrag, f: PaneDropFacts, r: PaneDropPlan)
    requires
        f.src_pane_count matches Some(n) && n < 2,
        pane_drop_plan_ok(d, PaneDropTarget::NewTab, f, r),
    ensures
        r is Nothing,
{
}

/// `a` and `b` are the same pane drop: equal, workspace names compared
/// by their characters.
pub open spec fn same_pane_target(a: PaneDropTarget, b: PaneDropTarget) -> bool {
    match (a, b) {
        (PaneDropTarget::Workspace { name: n1, row: r1 }, PaneDropTarget::Workspace { name: n2, row: r2 }) => n1@ == n2@ && r1
            == r2,
        _ => a == b,
    }
}

/// `a` and `b` are the same tab drop: equal, workspace names compared by
/// their characters.
pub open spec fn same_tab_target(a: TabDropTarget, b: TabDropTarget) -> bool {
    match (a, b) {
        (TabDropTarget::Workspace { name: n1, row: r1 }, TabDropTarget::Workspace { name: n2, row: r2 }) => n1@ == n2@ && r1
            == r2,
        _ => a == b,
    }
}

/// A pane drop lands in one place only: whatever satisfies
/// `pane_target_ok` for one pointer report is the same target, so the
/// target `finish_pane_drag` hands back is the one `pane_drop_target`
/// gives for the release event.
pub proof fn law_pane_target_is_unique(
    layout: DropLayout,
    names: spec_fn(int) -> Option<Seq<char>>,
    pointer: PanePointer,
    dragged: PaneId,
    ev: PointerEvent,
    a: PaneDropTarget,
    b: PaneDropTarget,
)
    requires
        pane_target_ok(layout, names, pointer, dragged, ev, a),
        pane_target_ok(layout, names, pointer, dragged, ev, b),
    ensures
        same_pane_target(a, b),
{
}

proof fn lemma_first_tab_unique(tabs: Seq<TabItem>, p: spec_fn(TabItem) -> bool, i: int, j: int)
    requires
        first_tab_where(tabs, p, i),
        first_tab_where(tabs, p, j),
    ensures
        i == j,
{
    if i != j {
        assert(p(tabs[j]) && p(tabs[i]));
        assert(tab_precedes(tabs, i, j));
        assert(tab_precedes(tabs, j, i));
    }
}

proof fn lemma_last_tab_unique(tabs: Seq<TabItem>, i: int, j: int)
    requires
        last_tab(tabs, i),
        last_tab(tabs, j),
    ensures
        i == j,
{
    if i != j {
        assert(tab_precedes(tabs, j, i));
        assert(tab_precedes(tabs, i, j));
    }
}

/// A tab drop lands in one place only: whatever satisfies
/// `tab_target_ok` for one pointer report is the same target, so what
/// `finish_tab_drag` does follows from the target `tab_drop_target`
/// gives for the release event.
pub proof fn law_tab_target_is_unique(
    layout: DropLayout,
    names: spec_fn(int) -> Option<Seq<char>>,
    dragged: usize,
    ev: PointerEvent,
    a: TabDropTarget,
    b: TabDropTarget,
)
    requires
        tab_target_ok(layout, names, dragged, ev, a),
        tab_target_ok(layout, names, dragged, ev, b),
    ensures
        same_tab_target(a, b),
{
    let tabs = layout.tabs@;
    if !outside(ev, layout.pixel_width, layout.pixel_height) && !over_shown_sidebar(ev, layout.sidebar) && tabs.len() > 0 {
        let fa = choose|f: int| #![trigger tabs[f]] first_tab_where(tabs, any_tab(), f) && {
            if !in_bar(ev.y as int, tabs[f].y as int, layout.bar_above as int, layout.bar_below as int) {
                a is Nowhere
            } else if ev.shift && exists|m: int| first_tab_where(tabs, merge_candidate(dragged, ev.x as int), m) {
                exists|m: int| #![trigger tabs[m]] first_tab_where(tabs, merge_candidate(dragged, ev.x as int), m)
                    && a == TabDropTarget::Merge { tab_idx: tabs[m].tab_idx, x: tabs[m].x, width: tabs[m].width }
            } else if exists|k: int| first_tab_where(tabs, insert_before(ev.x as int), k) {
                exists|k: int| #![trigger tabs[k]] first_tab_where(tabs, insert_before(ev.x as int), k)
                    && a == TabDropTarget::TabBar { insert_idx: tabs[k].tab_idx, x: tabs[k].x }
            } else {
                exists|l: int| #![trigger tabs[l]] last_tab(tabs, l)
                    && a == TabDropTarget::TabBar { insert_idx: (tabs[l].tab_idx + 1) as usize, x: (tabs[l].x + tabs[l].width) as usize }
            }
        };
        let fb = choose|f: int| #![trigger tabs[f]] first_tab_where(tabs, any_tab(), f) && {
            if !in_bar(ev.y as int, tabs[f].y as int, layout.bar_above as int, layout.bar_below as int) {
                b is Nowhere
            } else if ev.shift && exists|m: int| first_tab_where(tabs, merge_candidate(dragged, ev.x as int), m) {
                exists|m: int| #![trigger tabs[m]] first_tab_where(tabs, merge_candidate(dragged, ev.x as int), m)
                    && b == TabDropTarget::Merge { tab_idx: tabs[m].tab_idx, x: tabs[m].x, width: tabs[m].width }
            } else if exists|k: int| first_tab_where(tabs, insert_before(ev.x as int), k) {
                exists|k: int| #![trigger tabs[k]] first_tab_where(tabs, insert_before(ev.x as int), k)
                    && b == TabDropTarget::TabBar { insert_idx: tabs[k].tab_idx, x: tabs[k].x }
            } else {
                exists|l: int| #![trigger tabs[l]] last_tab(tabs, l)
                    && b == TabDropTarget::TabBar { insert_idx: (tabs[l].tab_idx + 1) as usize, x: (tabs[l].x + tabs[l].width) as usize }
            }
        };
        lemma_first_tab_unique(tabs, any_tab(), fa, fb);
        if in_bar(ev.y as int, tabs[fa].y as int, layout.bar_above as int, layout.bar_below as int) {
            let mc = merge_candidate(dragged, ev.x as int);
            let ib = insert_before(ev.x as int);
            if ev.shift && exists|m: int| first_tab_where(tabs, mc, m) {
                let ma = choose|m: int| #![trigger tabs[m]] first_tab_where(tabs, mc, m)
                    && a == TabDropTarget::Merge { tab_idx: tabs[m].tab_idx, x: tabs[m].x, width: tabs[m].width };
                let mb = choose|m: int| #![trigger tabs[m]] first_tab_where(tabs, mc, m)
                    && b == TabDropTarget::Merge { tab_idx: tabs[m].tab_idx, x: tabs[m].x, width: tabs[m].width };
                lemma_first_tab_unique(tabs, mc, ma, mb);
            } else if exists|k: int| first_tab_where(tabs, ib, k) {
                let ka = choose|k: int| #![trigger tabs[k]] first_tab_where(tabs, ib, k)
                    && a == TabDropTarget::TabBar { insert_idx: tabs[k].tab_idx, x: tabs[k].x };
                let kb = choose|k: int| #![trigger tabs[k]] first_tab_where(tabs, ib, k)
                    && b == TabDropTarget::TabBar { insert_idx: tabs[k].tab_idx, x: tabs[k].x };
                lemma_first_tab_unique(tabs, ib, ka, kb);
            } else {
                let la = choose|l: int| #![trigger tabs[l]] last_tab(tabs, l)
                    && a == TabDropTarget::TabBar { insert_idx: (tabs[l].tab_idx + 1) as usize, x: (tabs[l].x + tabs[l].width) as usize };
                let lb = choose|l: int| #![trigger tabs[l]] last_tab(tabs, l)
                    && b == TabDropTarget::TabBar { insert_idx: (tabs[l].tab_idx + 1) as usize, x: (tabs[l].x + tabs[l].width) as usize };
                lemma_last_tab_unique(tabs, la, lb);
            }
        }
    }
}

} // verus!
