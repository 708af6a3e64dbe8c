//! The workspace list shown in a pane: Enter or a click on the selected
//! row switches to that workspace, `n` prompts for a name and creates (or
//! switches to) it, `r` refreshes the list, `q` or Escape closes it.
use vstd::prelude::*;
use crate::input::{InputEvent, Key, KeyInput, MouseButtons, MouseInput, plain_char, is_plain_char};
use crate::file_manager::{up_pos, down_pos};
use crate::text::{dec, push_decimal, push_str, to_string, trim, trimmed};
use crate::workspaces::WorkspaceSidebarEntry;

verus! {

/// Rows above the listing (title and help line).
pub const LIST_HEADER_ROWS: usize = 2;

/// Rows taken by the header and the status line.
pub const LIST_ROW_OVERHEAD: usize = 3;

/// The state of the workspace list.
pub struct WorkspaceSidebar {
    pub entries: Vec<WorkspaceSidebarEntry>,
    /// the selected row
    pub active_idx: usize,
    /// the first entry shown
    pub top_row: usize,
    /// rows for entries, below the header and above the status line
    pub max_items: usize,
    pub status: String,
    pub prev_mouse_buttons: MouseButtons,
}

/// What the list asks of the pane it runs in after an event.
pub enum WsCommand {
    Continue,
    /// close the list
    Quit,
    /// switch to this workspace, then refresh the list
    Switch(String),
    /// refresh the list
    Refresh,
    /// prompt for a workspace name (see `new_workspace_entered`), then
    /// refresh the list
    PromptNew,
}

/// The index of the first active entry, if any.
pub open spec fn first_active(entries: Seq<WorkspaceSidebarEntry>) -> Option<int> {
    if exists|i: int| 0 <= i < entries.len() && #[trigger] entries[i].is_active {
        Some(choose|i: int| 0 <= i < entries.len() && #[trigger] entries[i].is_active && forall|j: int| 0 <= j < i ==> !(#[trigger] entries[j]).is_active)
    } else {
        None
    }
}

/// `s` is the status message after switching to `name`.
pub open spec fn switched_status(name: Seq<char>) -> Seq<char> {
    "Switched to "@ + name
}

impl WorkspaceSidebar {
    /// The selection is on an entry (or at 0 with no entries), and the
    /// first row shown is not below it.
    pub open spec fn wf(&self) -> bool {
        &&& (self.entries@.len() == 0 ==> self.active_idx == 0)
        &&& (self.entries@.len() > 0 ==> self.active_idx < self.entries@.len())
        &&& self.top_row <= self.active_idx
    }

    /// A list of `entries`, with the active workspace selected.
    pub fn new(entries: Vec<WorkspaceSidebarEntry>) -> (r: WorkspaceSidebar)
        ensures
            r.wf(),
            r.top_row == 0,
            r.max_items == 0,
            r.status@.len() == 0,
            r.prev_mouse_buttons == MouseButtons::spec_none(),
            r.entries@ == entries@,
            r.active_idx == match first_active(entries@) {
                Some(i) => i as usize,
                None => 0,
            },
    {
        let mut me = WorkspaceSidebar {
            entries: Vec::new(),
            active_idx: 0,
            top_row: 0,
            max_items: 0,
            status: String::new(),
            prev_mouse_buttons: MouseButtons::none(),
        };
        me.refresh(entries);
        me
    }

    /// Replaces the entries: the active workspace becomes the selection;
    /// without one the selection stays, moved onto the last entry if it is
    /// past it. The first row shown is moved up to the selection if it is
    /// below it.
    pub fn refresh(&mut self, entries: Vec<WorkspaceSidebarEntry>)
        requires
            old(self).top_row <= old(self).active_idx,
        ensures
            final(self).wf(),
            final(self).entries@ == entries@,
            final(self).active_idx == match first_active(entries@) {
                Some(i) => i as usize,
                None => if entries@.len() == 0 {
                    0
                } else if old(self).active_idx < entries@.len() {
                    old(self).active_idx
                } else {
                    (entries@.len() - 1) as usize
                },
            },
            final(self).top_row == if old(self).top_row < final(self).active_idx {
                old(self).top_row
            } else {
                final(self).active_idx
            },
            final(self).max_items == old(self).max_items,
            final(self).status == old(self).status,
            final(self).prev_mouse_buttons == old(self).prev_mouse_buttons,
    {
        let mut pos: Option<usize> = None;
        let mut i: usize = 0;
        while i < entries.len()
            invariant
                i <= entries.len(),
                match pos {
                    Some(p) => p < i && entries@[p as int].is_active && forall|j: int| 0 <= j < p ==> !(#[trigger] entries@[j]).is_active,
                    None => forall|j: int| 0 <= j < i ==> !(#[trigger] entries@[j]).is_active,
                },
            decreases entries.len() - i,
        {
            if pos.is_none() && entries[i].is_active {
                pos = Some(i);
            }
            i += 1;
        }
        proof {
            let es = entries@;
            match pos {
                Some(p) => {
                    assert(exists|i: int| 0 <= i < es.len() && #[trigger] es[i].is_active) by {
                        assert(es[p as int].is_active);
                    }
                    let c = choose|i: int| 0 <= i < es.len() && #[trigger] es[i].is_active && forall|j: int| 0 <= j < i ==> !(#[trigger] es[j]).is_active;
                    assert(0 <= p < es.len() && es[p as int].is_active && forall|j: int| 0 <= j < p ==> !(#[trigger] es[j]).is_active);
                    if c < p {
                        assert(!es[c].is_active);
                    } else if c > p {
                        assert(!es[p as int].is_active);
                    }
                    assert(first_active(es) == Some(p as int));
                },
                None => {
                    assert(first_active(es) is None);
                },
            }
        }
        let n = entries.len();
        self.entries = entries;
        match pos {
            Some(p) => {
                self.active_idx = p;
            },
            None => {
                let last = if n > 0 { n - 1 } else { 0 };
                if self.active_idx > last {
                    self.active_idx = last;
                }
            },
        }
        if self.top_row > self.active_idx {
            self.top_row = self.active_idx;
        }
    }

    /// Moves the selection up `count` rows, scrolling to keep it shown.
    pub fn move_up(&mut self, count: usize)
        requires
            old(self).wf(),
        ensures
            final(self).wf(),
            (final(self).active_idx as nat, final(self).top_row as nat) == up_pos(old(self).active_idx as nat, old(self).top_row as nat, count as nat),
            final(self).entries == old(self).entries,
            final(self).max_items == old(self).max_items,
            final(self).status == old(self).status,
            final(self).prev_mouse_buttons == old(self).prev_mouse_buttons,
    {
        self.active_idx = self.active_idx.saturating_sub(count);
        if self.active_idx < self.top_row {
            self.top_row = self.active_idx;
        }
    }

    /// Moves the selection down `count` rows (stopping at the last entry),
    /// scrolling to keep it shown.
    pub fn move_down(&mut self, count: usize)
        requires
            old(self).wf(),
        ensures
            final(self).wf(),
            old(self).entries@.len() == 0 ==> final(self).active_idx == old(self).active_idx && final(self).top_row == old(self).top_row,
            old(self).entries@.len() > 0 ==> (final(self).active_idx as nat, final(self).top_row as nat) == down_pos(old(self).active_idx as nat, old(self).top_row as nat, old(self).max_items as nat, old(self).entries@.len(), count as nat),
            final(self).entries == old(self).entries,
            final(self).max_items == old(self).max_items,
            final(self).status == old(self).status,
            final(self).prev_mouse_buttons == old(self).prev_mouse_buttons,
    {
        if self.entries.len() == 0 {
            return;
        }
        let last = self.entries.len() - 1;
        if count < self.entries.len() - self.active_idx {
            self.active_idx = self.active_idx + count;
        } else {
            self.active_idx = last;
        }
        if self.active_idx - self.top_row > self.max_items {
            self.top_row = self.active_idx - self.max_items;
        }
    }

    /// Records the screen height: entries get all rows but the header and
    /// the status line.
    pub fn set_screen_rows(&mut self, rows: usize)
        ensures
            final(self).max_items == (if rows >= LIST_ROW_OVERHEAD { rows - LIST_ROW_OVERHEAD } else { 0 }),
            final(self).entries == old(self).entries,
            final(self).active_idx == old(self).active_idx,
            final(self).top_row == old(self).top_row,
            final(self).status == old(self).status,
            final(self).prev_mouse_buttons == old(self).prev_mouse_buttons,
    {
        self.max_items = rows.saturating_sub(LIST_ROW_OVERHEAD);
    }

    /// Switches to the selected workspace, if there is one: the status
    /// says so. Otherwise the list is only refreshed.
    fn switch_selected(&mut self) -> (cmd: WsCommand)
        requires
            old(self).wf(),
        ensures
            final(self).wf(),
            final(self).entries == old(self).entries,
            final(self).active_idx == old(self).active_idx,
            final(self).top_row == old(self).top_row,
            final(self).max_items == old(self).max_items,
            final(self).prev_mouse_buttons == old(self).prev_mouse_buttons,
            if old(self).active_idx < old(self).entries@.len() {
                let name = old(self).entries@[old(self).active_idx as int].name@;
                (cmd matches WsCommand::Switch(n) && n@ == name) && final(self).status@ == switched_status(name)
            } else {
                cmd is Refresh && final(self).status == old(self).status
            },
    {
        if self.active_idx < self.entries.len() {
            let name = self.entries[self.active_idx].name.clone();
            self.status = switched_status_exec(name.as_str());
            WsCommand::Switch(name)
        } else {
            WsCommand::Refresh
        }
    }

    /// Handles one input event (see `ws_step`).
    pub fn handle_event(&mut self, ev: InputEvent) -> (cmd: WsCommand)
        requires
            old(self).wf(),
        ensures
            final(self).wf(),
            ws_step(*final(self), *old(self), ev, cmd),
    {
        match ev {
            InputEvent::Key(k) => {
                if plain_char(&k, 'q') || k.key == Key::Escape {
                    WsCommand::Quit
                } else if k.key == Key::UpArrow || plain_char(&k, 'k') {
                    self.move_up(1);
                    WsCommand::Continue
                } else if k.key == Key::DownArrow || plain_char(&k, 'j') {
                    self.move_down(1);
                    WsCommand::Continue
                } else if k.key == Key::Enter {
                    self.status = String::new();
                    self.switch_selected()
                } else if plain_char(&k, 'n') {
                    self.status = String::new();
                    WsCommand::PromptNew
                } else if plain_char(&k, 'r') {
                    self.status = String::new();
                    WsCommand::Refresh
                } else {
                    WsCommand::Continue
                }
            },
            InputEvent::Mouse(m) => {
                if m.buttons.vert_wheel {
                    if m.buttons.wheel_positive {
                        self.move_up(3);
                    } else {
                        self.move_down(3);
                    }
                    return WsCommand::Continue;
                }
                let left_edge = m.buttons.left && !self.prev_mouse_buttons.left;
                self.prev_mouse_buttons = m.buttons;
                let row = m.y as usize;
                if left_edge && row >= LIST_HEADER_ROWS && row - LIST_HEADER_ROWS < self.entries.len() - self.top_row {
                    let idx = self.top_row + (row - LIST_HEADER_ROWS);
                    if idx == self.active_idx {
                        self.status = String::new();
                        return self.switch_selected();
                    }
                    self.active_idx = idx;
                }
                WsCommand::Continue
            },
            _ => WsCommand::Continue,
        }
    }

    /// After the name prompt: a name with something besides white space
    /// (trimmed) is switched to; otherwise (also when the prompt failed)
    /// the status says the prompt was cancelled.
    pub fn new_workspace_entered(&mut self, line: Option<String>) -> (r: Option<String>)
        requires
            old(self).wf(),
        ensures
            final(self).wf(),
            final(self).entries == old(self).entries,
            final(self).active_idx == old(self).active_idx,
            final(self).top_row == old(self).top_row,
            match line {
                Some(l) if trim(l@).len() > 0 => (r matches Some(n) && n@ == trim(l@)) && final(self).status@ == switched_status(trim(l@)),
                _ => r is None && final(self).status@ == "Cancelled"@,
            },
    {
        match line {
            Some(l) => {
                let t = trimmed(l.as_str());
                if t.as_str().unicode_len() > 0 {
                    self.status = switched_status_exec(t.as_str());
                    return Some(t);
                }
            },
            None => {},
        }
        self.status = to_string("Cancelled");
        None
    }

    /// The listing rows to show, from the first row shown, at most
    /// `max_items + 1` of them: each ` {marker} {name} ({windows})` (the
    /// marker `*` for the active workspace) and whether it is the
    /// selection.
    pub fn visible_rows(&self) -> (r: Vec<(String, bool)>)
        ensures
            r@.len() == visible_count(self.entries@.len() as int, self.top_row as int, self.max_items as int),
            forall|k: int| 0 <= k < r@.len() ==> {
                let idx = self.top_row + k;
                &&& (#[trigger] r@[k]).0@ == list_row_spec(self.entries@[idx])
                &&& r@[k].1 == (idx == self.active_idx)
            },
    {
        let mut out: Vec<(String, bool)> = Vec::new();
        let mut i: usize = self.top_row;
        let mut k: usize = 0;
        while i < self.entries.len() && k <= self.max_items
            invariant
                i == self.top_row + k,
                self.top_row <= i,
                k <= self.max_items + 1,
                out@.len() == k,
                i <= self.entries@.len() || k == 0,
                forall|m: int| 0 <= m < k ==> {
                    let idx = self.top_row + m;
                    &&& (#[trigger] out@[m]).0@ == list_row_spec(self.entries@[idx])
                    &&& out@[m].1 == (idx == self.active_idx)
                },
            decreases self.entries@.len() - i,
        {
            let e = &self.entries[i];
            let mut line = if e.is_active { to_string(" * ") } else { to_string("   ") };
            push_str(&mut line, e.name.as_str());
            push_str(&mut line, " (");
            push_decimal(&mut line, e.windows as u128);
            push_str(&mut line, ")");
            out.push((line, i == self.active_idx));
            i += 1;
            k += 1;
        }
        out
    }
}

/// "Switched to " and the name.
fn switched_status_exec(name: &str) -> (r: String)
    ensures
        r@ == switched_status(name@),
{
    let mut s = to_string("Switched to ");
    push_str(&mut s, name);
    s
}

/// How many rows the listing shows: entries from `top` on, at most
/// `max + 1`.
pub open spec fn visible_count(len: int, top: int, max: int) -> int {
    if top >= len { 0 } else if len - top < max + 1 { len - top } else { max + 1 }
}

/// The listing row of entry `e`.
pub open spec fn list_row_spec(e: WorkspaceSidebarEntry) -> Seq<char> {
    (if e.is_active { " * "@ } else { "   "@ }) + e.name@ + " ("@ + dec(e.windows as nat) + ")"@
}

/// What one input event does to the list (`old` before, `new` after) and
/// asks of the pane (`cmd`): `q` or Escape closes it; Up/`k` and
/// Down/`j` move the selection by one row, the wheel by three; Enter
/// switches to the selection; `n` prompts for a new workspace; `r`
/// refreshes; a left press on the selected row switches to it, on
/// another row selects it.
pub open spec fn ws_step(new: WorkspaceSidebar, old: WorkspaceSidebar, ev: InputEvent, cmd: WsCommand) -> bool {
    match ev {
        InputEvent::Key(k) => {
            if is_plain_char(k, 'q') || k.key == Key::Escape {
                cmd is Quit && new == old
            } else if k.key == Key::UpArrow || is_plain_char(k, 'k') {
                &&& cmd is Continue
                &&& (new.active_idx as nat, new.top_row as nat) == up_pos(old.active_idx as nat, old.top_row as nat, 1)
                &&& new.entries == old.entries && new.status == old.status && new.max_items == old.max_items
                &&& new.prev_mouse_buttons == old.prev_mouse_buttons
            } else if k.key == Key::DownArrow || is_plain_char(k, 'j') {
                &&& cmd is Continue
                &&& moved_down(new, old, 1)
            } else if k.key == Key::Enter {
                switched_selected(new, old, cmd)
            } else if is_plain_char(k, 'n') || is_plain_char(k, 'r') {
                &&& (if is_plain_char(k, 'n') { cmd is PromptNew } else { cmd is Refresh })
                &&& new.status@.len() == 0
                &&& new.entries == old.entries && new.active_idx == old.active_idx && new.top_row == old.top_row
                &&& new.max_items == old.max_items && new.prev_mouse_buttons == old.prev_mouse_buttons
            } else {
                cmd is Continue && new == old
            }
        },
        InputEvent::Mouse(m) => {
            if m.buttons.vert_wheel {
                &&& cmd is Continue
                &&& if m.buttons.wheel_positive {
                    &&& (new.active_idx as nat, new.top_row as nat) == up_pos(old.active_idx as nat, old.top_row as nat, 3)
                    &&& new.entries == old.entries && new.status == old.status && new.max_items == old.max_items
                    &&& new.prev_mouse_buttons == old.prev_mouse_buttons
                } else {
                    moved_down(new, old, 3)
                }
            } else {
                let row = m.y as int;
                let idx = old.top_row + row - LIST_HEADER_ROWS;
                let hit = m.buttons.left && !old.prev_mouse_buttons.left && row >= LIST_HEADER_ROWS && idx < old.entries@.len();
                let mid = with_state(old, old.active_idx, m.buttons);
                if hit && idx == old.active_idx {
                    switched_selected(new, mid, cmd)
                } else if hit {
                    cmd is Continue && new == with_state(old, idx as usize, m.buttons)
                } else {
                    cmd is Continue && new == mid
                }
            }
        },
        _ => cmd is Continue && new == old,
    }
}

/// `s` with the selection at `active` and the mouse buttons `buttons`.
pub open spec fn with_state(s: WorkspaceSidebar, active: usize, buttons: MouseButtons) -> WorkspaceSidebar {
    WorkspaceSidebar {
        entries: s.entries,
        active_idx: active,
        top_row: s.top_row,
        max_items: s.max_items,
        status: s.status,
        prev_mouse_buttons: buttons,
    }
}

/// `new` is `old` with the selection moved down `count` rows.
pub open spec fn moved_down(new: WorkspaceSidebar, old: WorkspaceSidebar, count: nat) -> bool {
    &&& old.entries@.len() == 0 ==> new.active_idx == old.active_idx && new.top_row == old.top_row
    &&& old.entries@.len() > 0 ==> (new.active_idx as nat, new.top_row as nat) == down_pos(old.active_idx as nat, old.top_row as nat, old.max_items as nat, old.entries@.len(), count)
    &&& new.entries == old.entries && new.status == old.status && new.max_items == old.max_items
    &&& new.prev_mouse_buttons == old.prev_mouse_buttons
}

/// The status is cleared and the selection switched to (when there is
/// one; otherwise the list is only refreshed).
pub open spec fn switched_selected(new: WorkspaceSidebar, old: WorkspaceSidebar, cmd: WsCommand) -> bool {
    &&& new.entries == old.entries && new.active_idx == old.active_idx && new.top_row == old.top_row
    &&& new.max_items == old.max_items && new.prev_mouse_buttons == old.prev_mouse_buttons
    &&& if old.active_idx < old.entries@.len() {
        let name = old.entries@[old.active_idx as int].name@;
        (cmd matches WsCommand::Switch(n) && n@ == name) && new.status@ == switched_status(name)
    } else {
        cmd is Refresh && new.status@.len() == 0
    }
}

} // verus!
