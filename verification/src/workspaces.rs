//! The workspace sidebar beside the panes: its entries, what a click on a
//! row does, its rows of text, and the message that confirms closing a
//! workspace.
use vstd::prelude::*;
use vstd::multiset::Multiset;
use crate::term_window::{Modal, TermWindow};
use crate::text::{
    chars_of, dec, lex_lt, opt_view, pad_left, push_decimal, push_padded_left, push_repeat,
    push_str, repeat_char, str_eq, str_lt, to_string,
};
use crate::entries::{lemma_lex_asymmetric, lemma_lex_irreflexive, lemma_lex_total, lemma_lex_transitive};
use crate::menus::{sidebar_items_ok, sidebar_menu_items};
use crate::file_manager::{path_file_name, path_file_name_of};

verus! {

broadcast use vstd::seq_lib::group_to_multiset_ensures;

/// Rows above the workspace list (the "Workspaces" header).
pub const SIDEBAR_HEADER_ROWS: usize = 1;

/// One workspace as the sidebar lists it.
pub struct WorkspaceSidebarEntry {
    pub name: String,
    /// how many windows the workspace has
    pub windows: usize,
    /// whether it is the active workspace
    pub is_active: bool,
}

/// The name of the workspace on sidebar row `row` of `entries` (row 0 is
/// the header).
pub open spec fn row_name_spec(entries: Seq<WorkspaceSidebarEntry>, row: int) -> Option<Seq<char>> {
    if row < SIDEBAR_HEADER_ROWS || row - SIDEBAR_HEADER_ROWS >= entries.len() {
        None
    } else {
        Some(entries[row - SIDEBAR_HEADER_ROWS].name@)
    }
}

impl TermWindow {
    /// The workspace shown on the given sidebar row, if any.
    pub fn workspace_sidebar_row_name(&self, row: usize) -> (r: Option<String>)
        ensures
            match r {
                Some(n) => row_name_spec(self.workspaces@, row as int) == Some(n@),
                None => row_name_spec(self.workspaces@, row as int) is None,
            },
    {
        if row < SIDEBAR_HEADER_ROWS {
            return None;
        }
        let k = row - SIDEBAR_HEADER_ROWS;
        if k < self.workspaces.len() {
            Some(self.workspaces[k].name.clone())
        } else {
            None
        }
    }
}


/// The sidebar entry for workspace `name` with `windows` windows, when
/// `active` is the active workspace.
pub open spec fn entry_of(name: String, windows: usize, active: Seq<char>) -> WorkspaceSidebarEntry {
    WorkspaceSidebarEntry { name, windows, is_active: name@ == active }
}

/// `s` is sorted by name.
pub open spec fn names_sorted(s: Seq<WorkspaceSidebarEntry>) -> bool {
    forall|i: int, j: int| 0 <= i < j < s.len() ==> !lex_lt(#[trigger] s[j].name@, #[trigger] s[i].name@)
}

/// The entries for `workspaces` (each a name and its window count).
pub open spec fn entries_of(workspaces: Seq<(String, usize)>, active: Seq<char>) -> Seq<WorkspaceSidebarEntry> {
    workspaces.map_values(|w: (String, usize)| entry_of(w.0, w.1, active))
}

/// The sidebar's entries: one per workspace, sorted by name, the active
/// workspace flagged.
pub fn workspace_sidebar_entries(workspaces: Vec<(String, usize)>, active: &str) -> (r: Vec<WorkspaceSidebarEntry>)
    ensures
        names_sorted(r@),
        r@.to_multiset() == entries_of(workspaces@, active@).to_multiset(),
{
    let ghost ws = workspaces@;
    let mut entries: Vec<WorkspaceSidebarEntry> = Vec::new();
    let mut i: usize = 0;
    while i < workspaces.len()
        invariant
            ws == workspaces@,
            i <= workspaces.len(),
            entries@ =~= entries_of(ws.subrange(0, i as int), active@),
        decreases workspaces.len() - i,
    {
        let name = workspaces[i].0.clone();
        let is_active = str_eq(name.as_str(), active);
        entries.push(WorkspaceSidebarEntry { name, windows: workspaces[i].1, is_active });
        i += 1;
        proof {
            assert(entries@ =~= entries_of(ws.subrange(0, i as int), active@));
        }
    }
    assert(ws.subrange(0, ws.len() as int) =~= ws);
    sort_by_name(entries)
}

proof fn lemma_name_order(a: WorkspaceSidebarEntry, b: WorkspaceSidebarEntry, c: WorkspaceSidebarEntry)
    ensures
        !lex_lt(a.name@, a.name@),
        lex_lt(a.name@, b.name@) ==> !lex_lt(b.name@, a.name@),
        lex_lt(a.name@, b.name@) && lex_lt(b.name@, c.name@) ==> lex_lt(a.name@, c.name@),
        !lex_lt(a.name@, b.name@) && !lex_lt(b.name@, a.name@) ==> a.name@ == b.name@,
{
    lemma_lex_irreflexive(a.name@);
    lemma_lex_asymmetric(a.name@, b.name@);
    lemma_lex_transitive(a.name@, b.name@, c.name@);
    lemma_lex_total(a.name@, b.name@);
}

/// Sorts `entries` by name (`sort` on the names).
fn sort_by_name(entries: Vec<WorkspaceSidebarEntry>) -> (r: Vec<WorkspaceSidebarEntry>)
    ensures
        names_sorted(r@),
        r@.to_multiset() == entries@.to_multiset(),
{
    let ghost orig = entries@;
    let mut input = entries;
    let mut out: Vec<WorkspaceSidebarEntry> = Vec::new();
    assert(orig.subrange(orig.len() as int, orig.len() as int) =~= Seq::<WorkspaceSidebarEntry>::empty());
    while input.len() > 0
        invariant
            input@ == orig.subrange(0, input.len() as int),
            input.len() <= orig.len(),
            names_sorted(out@),
            out@.to_multiset() == orig.subrange(input.len() as int, orig.len() as int).to_multiset(),
        decreases input.len(),
    {
        let ghost before = input.len();
        let e = input.pop().unwrap();
        let mut p: usize = 0;
        while p < out.len() && str_lt(out[p].name.as_str(), e.name.as_str())
            invariant
                p <= out.len(),
                forall|k: int| 0 <= k < p ==> lex_lt(#[trigger] out@[k].name@, e.name@),
            decreases out.len() - p,
        {
            p += 1;
        }
        let ghost old_out = out@;
        proof {
            assert forall|k: int| p <= k < old_out.len() implies !lex_lt(#[trigger] old_out[k].name@, e.name@) by {
                assert(!lex_lt(old_out[p as int].name@, e.name@));
                if k > p {
                    assert(!lex_lt(old_out[k].name@, old_out[p as int].name@));
                    lemma_name_order(old_out[k], old_out[p as int], e);
                    lemma_name_order(old_out[p as int], old_out[k], e);
                    lemma_name_order(e, old_out[k], old_out[p as int]);
                }
            }
        }
        out.insert(p, e);
        proof {
            assert forall|i: int, j: int| 0 <= i < j < out@.len() implies !lex_lt(
                #[trigger] out@[j].name@,
                #[trigger] out@[i].name@,
            ) by {
                if j < p {
                    assert(out@[i] == old_out[i] && out@[j] == old_out[j]);
                } else if j == p {
                    lemma_name_order(out@[i], e, e);
                } else if i == p {
                    assert(out@[j] == old_out[j - 1]);
                } else if i < p {
                    assert(out@[j] == old_out[j - 1] && out@[i] == old_out[i]);
                } else {
                    assert(out@[j] == old_out[j - 1] && out@[i] == old_out[i - 1]);
                }
            }
            assert(out@.remove(p as int) =~= old_out);
            assert(out@.to_multiset() =~= old_out.to_multiset().insert(e)) by {
                assert(out@.contains(out@[p as int]));
                assert(out@.to_multiset().remove(e) == old_out.to_multiset());
            }
            let s_new = orig.subrange(input.len() as int, orig.len() as int);
            let s_old = orig.subrange(before as int, orig.len() as int);
            assert(s_new =~= seq![e] + s_old);
            vstd::seq_lib::lemma_multiset_commutative(seq![e], s_old);
            assert(seq![e] =~= Seq::<WorkspaceSidebarEntry>::empty().push(e));
            assert(Seq::<WorkspaceSidebarEntry>::empty().to_multiset() =~= Multiset::<WorkspaceSidebarEntry>::empty());
            assert(s_new.to_multiset() =~= old_out.to_multiset().insert(e));
        }
    }
    assert(orig.subrange(0, orig.len() as int) =~= orig);
    out
}

/// What a left click on a sidebar row asks for.
pub enum SidebarClick {
    Nothing,
    /// prompt for a new name of this workspace
    Rename(String),
    /// switch to this workspace
    Switch(String),
}

/// How close (in milliseconds) two clicks on one row must be to make a
/// double click.
pub const DOUBLE_CLICK_MS: u64 = 500;

/// The time from `earlier` to `now`, 0 if `now` is not later.
pub open spec fn elapsed(now: u64, earlier: u64) -> int {
    if now >= earlier { now - earlier } else { 0 }
}

/// A click on `row` at `now` completes a double click after `last`.
pub open spec fn is_double_click(last: Option<(u64, usize)>, row: usize, now: u64) -> bool {
    match last {
        Some((when, prev)) => prev == row && elapsed(now, when) < DOUBLE_CLICK_MS,
        None => false,
    }
}

impl TermWindow {
    /// Handles a left click on sidebar row `row` (0 is the header) at time
    /// `now_ms`: a double click on a workspace asks to rename it; a single
    /// click switches to it unless it is already active. Clicks off the
    /// list are ignored and not remembered.
    pub fn workspace_sidebar_click(&mut self, row: usize, now_ms: u64) -> (r: SidebarClick)
        ensures
            final(self).workspaces == old(self).workspaces,
            final(self).tabs == old(self).tabs,
            final(self).modal == old(self).modal,
            match row_name_spec(old(self).workspaces@, row as int) {
                None => r is Nothing && final(self).sidebar_last_click == old(self).sidebar_last_click,
                Some(name) => {
                    let entry = old(self).workspaces@[row - SIDEBAR_HEADER_ROWS];
                    let double = is_double_click(old(self).sidebar_last_click, row, now_ms);
                    &&& final(self).sidebar_last_click == (if double { None } else { Some((now_ms, row)) })
                    &&& if double {
                        r matches SidebarClick::Rename(n) && n@ == name
                    } else if entry.is_active {
                        r is Nothing
                    } else {
                        r matches SidebarClick::Switch(n) && n@ == name
                    }
                },
            },
    {
        if row < SIDEBAR_HEADER_ROWS || row - SIDEBAR_HEADER_ROWS >= self.workspaces.len() {
            return SidebarClick::Nothing;
        }
        let k = row - SIDEBAR_HEADER_ROWS;
        let double = match self.sidebar_last_click {
            Some((when, prev)) => {
                let dt: u64 = if now_ms >= when { now_ms - when } else { 0 };
                prev == row && dt < DOUBLE_CLICK_MS
            },
            None => false,
        };
        self.sidebar_last_click = if double { None } else { Some((now_ms, row)) };
        if double {
            return SidebarClick::Rename(self.workspaces[k].name.clone());
        }
        if self.workspaces[k].is_active {
            return SidebarClick::Nothing;
        }
        SidebarClick::Switch(self.workspaces[k].name.clone())
    }

    /// Handles a right click on sidebar row `row`: opens, at `(x, y)`, the
    /// menu for the workspace on that row, or the general one on the
    /// header and blank rows.
    pub fn workspace_sidebar_context_menu(&mut self, row: usize, x: isize, y: isize)
        ensures
            final(self).modal matches Some(Modal::ContextMenu(m)) && m.x == x && m.y == y && m.selected is None
                && sidebar_items_ok(m.items@, match row_name_spec(old(self).workspaces@, row as int) {
                    Some(n) => Some((n, old(self).workspaces@[row - SIDEBAR_HEADER_ROWS].is_active)),
                    None => None,
                }),
            final(self).workspaces == old(self).workspaces,
            final(self).tabs == old(self).tabs,
    {
        let entry = if row >= SIDEBAR_HEADER_ROWS && row - SIDEBAR_HEADER_ROWS < self.workspaces.len() {
            let e = &self.workspaces[row - SIDEBAR_HEADER_ROWS];
            Some((e.name.clone(), e.is_active))
        } else {
            None
        };
        let items = sidebar_menu_items(entry);
        proof {
            assert(items@.len() >= 2);
        }
        self.show_menu_at(items, x, y);
    }
}

/// `ss` joined with `sep` between them.
pub open spec fn join(ss: Seq<Seq<char>>, sep: Seq<char>) -> Seq<char>
    decreases ss.len(),
{
    if ss.len() == 0 {
        Seq::empty()
    } else if ss.len() == 1 {
        ss[0]
    } else {
        join(ss.drop_last(), sep) + sep + ss.last()
    }
}

/// The last component of a process path (the path itself when it has
/// none).
pub open spec fn base_name(p: Seq<char>) -> Seq<char> {
    match path_file_name_of(p) {
        Some(f) => f,
        None => p,
    }
}

/// The names of the programs running in `panes` (each pane's foreground
/// process, if known), each once, in order of first appearance.
pub open spec fn program_names(panes: Seq<Option<String>>) -> Seq<Seq<char>>
    decreases panes.len(),
{
    if panes.len() == 0 {
        Seq::empty()
    } else {
        let prev = program_names(panes.drop_last());
        match panes.last() {
            None => prev,
            Some(p) => if prev.contains(base_name(p@)) {
                prev
            } else {
                prev.push(base_name(p@))
            },
        }
    }
}

/// All the panes of `tabs`, in order.
pub open spec fn panes_of(tabs: Seq<Seq<Option<String>>>) -> Seq<Option<String>>
    decreases tabs.len(),
{
    if tabs.len() == 0 {
        Seq::empty()
    } else {
        panes_of(tabs.drop_last()) + tabs.last()
    }
}

proof fn lemma_panes_of_prefix(tabs: Seq<Seq<Option<String>>>, i: int)
    requires
        0 <= i <= tabs.len(),
    ensures
        panes_of(tabs.subrange(0, i)).len() <= panes_of(tabs).len(),
    decreases tabs.len(),
{
    if i == tabs.len() {
        assert(tabs.subrange(0, i) =~= tabs);
    } else {
        assert(tabs.subrange(0, i) =~= tabs.drop_last().subrange(0, i));
        lemma_panes_of_prefix(tabs.drop_last(), i);
    }
}

/// The message that asks whether to close workspace `name`: what it would
/// kill, the programs running, and a warning when it is the last one.
pub open spec fn close_message_spec(name: Seq<char>, windows: nat, tabs: nat, panes: nat, programs: Seq<Seq<char>>, is_last: bool) -> Seq<char> {
    "🛑 Really close workspace '"@ + name + "'?\n\nThis will kill "@ + dec(windows) + " window(s), "@
        + dec(tabs) + " tab(s) and "@ + dec(panes) + " pane(s)."@
        + (if programs.len() > 0 { "\nRunning: "@ + join(programs, ", "@) } else { Seq::empty() })
        + (if is_last { "\n\nThis is the last workspace; closing it will quit ezterm."@ } else { Seq::empty() })
}

/// The confirmation message for closing workspace `name`, which has
/// `windows` windows; `tabs` holds, for each of its tabs, the foreground
/// process of each pane (if known); `is_last` tells whether it is the
/// only workspace.
pub fn close_workspace_message(name: &str, windows: usize, tabs: &Vec<Vec<Option<String>>>, is_last: bool) -> (r: String)
    requires
        panes_of(tabs@.map_values(|t: Vec<Option<String>>| t@)).len() <= usize::MAX,
    ensures
        r@ == close_message_spec(
            name@,
            windows as nat,
            tabs@.len(),
            panes_of(tabs@.map_values(|t: Vec<Option<String>>| t@)).len(),
            program_names(panes_of(tabs@.map_values(|t: Vec<Option<String>>| t@))),
            is_last,
        ),
{
    let ghost tv = tabs@.map_values(|t: Vec<Option<String>>| t@);
    let mut procs: Vec<String> = Vec::new();
    let mut panes: usize = 0;
    let mut i: usize = 0;
    while i < tabs.len()
        invariant
            tv == tabs@.map_values(|t: Vec<Option<String>>| t@),
            panes_of(tv).len() <= usize::MAX,
            i <= tabs.len(),
            panes == panes_of(tv.subrange(0, i as int)).len(),
            procs@.map_values(|p: String| p@) == program_names(panes_of(tv.subrange(0, i as int))),
        decreases tabs.len() - i,
    {
        let tab = &tabs[i];
        let ghost before = panes_of(tv.subrange(0, i as int));
        let mut j: usize = 0;
        proof {
            lemma_panes_of_prefix(tv, i + 1);
            assert(tv.subrange(0, i + 1).drop_last() =~= tv.subrange(0, i as int));
            assert(panes_of(tv.subrange(0, i + 1)) == before + tv[i as int]);
            assert(before + tv[i as int].subrange(0, 0) =~= before);
        }
        while j < tab.len()
            invariant
                tv == tabs@.map_values(|t: Vec<Option<String>>| t@),
                i < tabs.len(),
                *tab == tabs@[i as int],
                j <= tab.len(),
                panes_of(tv.subrange(0, i + 1)) == before + tv[i as int],
                panes_of(tv.subrange(0, i + 1)).len() <= usize::MAX,
                panes == (before + tv[i as int].subrange(0, j as int)).len(),
                procs@.map_values(|p: String| p@) == program_names(before + tv[i as int].subrange(0, j as int)),
            decreases tab.len() - j,
        {
            let ghost prefix = before + tv[i as int].subrange(0, j as int);
            proof {
                assert((before + tv[i as int].subrange(0, j + 1)).drop_last() =~= prefix);
                assert((before + tv[i as int].subrange(0, j + 1)).last() == tab@[j as int]);
            }
            panes = panes + 1;
            match &tab[j] {
                None => {},
                Some(proc_name) => {
                    let base = match path_file_name(proc_name.as_str()) {
                        Some(f) => f,
                        None => proc_name.clone(),
                    };
                    let mut found = false;
                    let mut k: usize = 0;
                    while k < procs.len()
                        invariant
                            k <= procs.len(),
                            found == exists|m: int| 0 <= m < k && procs@[m]@ == base@,
                        decreases procs.len() - k,
                    {
                        if str_eq(procs[k].as_str(), base.as_str()) {
                            found = true;
                        }
                        k += 1;
                    }
                    proof {
                        let pv = procs@.map_values(|p: String| p@);
                        assert(found == pv.contains(base@)) by {
                            if found {
                                let m = choose|m: int| 0 <= m < procs@.len() && procs@[m]@ == base@;
                                assert(pv[m] == base@);
                            }
                            if pv.contains(base@) {
                                let m = choose|m: int| 0 <= m < pv.len() && pv[m] == base@;
                                assert(procs@[m]@ == base@);
                            }
                        }
                    }
                    if !found {
                        procs.push(base);
                        proof {
                            assert(procs@.map_values(|p: String| p@) =~= program_names(prefix).push(base@));
                        }
                    }
                },
            }
            j += 1;
        }
        proof {
            assert(tv[i as int].subrange(0, tab.len() as int) =~= tv[i as int]);
        }
        i += 1;
    }
    proof {
        assert(tv.subrange(0, tabs.len() as int) =~= tv);
    }
    let mut message = to_string("🛑 Really close workspace '");
    push_str(&mut message, name);
    push_str(&mut message, "'?\n\nThis will kill ");
    push_decimal(&mut message, windows as u128);
    push_str(&mut message, " window(s), ");
    push_decimal(&mut message, tabs.len() as u128);
    push_str(&mut message, " tab(s) and ");
    push_decimal(&mut message, panes as u128);
    push_str(&mut message, " pane(s).");
    let ghost head = message@;
    let ghost pv = procs@.map_values(|p: String| p@);
    if procs.len() > 0 {
        push_str(&mut message, "\nRunning: ");
        let mut k: usize = 0;
        while k < procs.len()
            invariant
                pv == procs@.map_values(|p: String| p@),
                0 < procs.len(),
                k <= procs.len(),
                message@ == head + "\nRunning: "@ + join(pv.subrange(0, k as int), ", "@),
            decreases procs.len() - k,
        {
            proof {
                assert(pv.subrange(0, k + 1).drop_last() =~= pv.subrange(0, k as int));
                if k == 0 {
                    assert(pv.subrange(0, 1) =~= seq![pv[0]]);
                }
            }
            if k > 0 {
                push_str(&mut message, ", ");
            }
            push_str(&mut message, procs[k].as_str());
            k += 1;
        }
        proof {
            assert(pv.subrange(0, procs.len() as int) =~= pv);
        }
    }
    if is_last {
        push_str(&mut message, "\n\nThis is the last workspace; closing it will quit ezterm.");
    }
    message
}

/// The text of the sidebar row for entry number `idx` (counting from 0):
/// a `*` for the active workspace, the number (from 1, right-aligned in
/// two columns), the name and the window count.
pub open spec fn row_text_spec(idx: int, e: WorkspaceSidebarEntry) -> Seq<char> {
    (if e.is_active { "*"@ } else { " "@ }) + pad_left(dec((idx + 1) as nat), 2) + " "@ + e.name@ + " ("@
        + dec(e.windows as nat) + ")"@
}

/// The text of the sidebar row for entry number `idx`.
pub fn sidebar_row_text(idx: usize, e: &WorkspaceSidebarEntry) -> (r: String)
    ensures
        r@ == row_text_spec(idx as int, *e),
{
    let mut out = if e.is_active { to_string("*") } else { to_string(" ") };
    let mut num = String::new();
    push_decimal(&mut num, idx as u128 + 1);
    assert(num@ =~= dec((idx + 1) as nat));
    push_padded_left(&mut out, num.as_str(), 2);
    push_str(&mut out, " ");
    push_str(&mut out, e.name.as_str());
    push_str(&mut out, " (");
    push_decimal(&mut out, e.windows as u128);
    push_str(&mut out, ")");
    out
}

/// Row `k` of a sidebar `rows` rows high listing `entries`: the header
/// (highlighted), one row per workspace (the active one highlighted),
/// then blank rows.
pub open spec fn sidebar_row_spec(entries: Seq<WorkspaceSidebarEntry>, k: int) -> (Seq<char>, bool) {
    if k == 0 {
        (" Workspaces"@, true)
    } else if k - 1 < entries.len() {
        (row_text_spec(k - 1, entries[k - 1]), entries[k - 1].is_active)
    } else {
        (Seq::empty(), false)
    }
}

/// The rows of text of a sidebar `rows` rows high, each with whether it
/// is highlighted, before they are fitted to the sidebar's width.
pub fn sidebar_rows(entries: &Vec<WorkspaceSidebarEntry>, rows: usize) -> (r: Vec<(String, bool)>)
    ensures
        r@.len() == rows,
        forall|k: int| 0 <= k < rows ==> (#[trigger] r@[k]).0@ == sidebar_row_spec(entries@, k).0 && r@[k].1
            == sidebar_row_spec(entries@, k).1,
{
    let mut out: Vec<(String, bool)> = Vec::new();
    let mut k: usize = 0;
    while k < rows
        invariant
            k <= rows,
            out@.len() == k,
            forall|m: int| 0 <= m < k ==> (#[trigger] out@[m]).0@ == sidebar_row_spec(entries@, m).0 && out@[m].1
                == sidebar_row_spec(entries@, m).1,
        decreases rows - k,
    {
        let row = if k == 0 {
            (to_string(" Workspaces"), true)
        } else if k - 1 < entries.len() {
            (sidebar_row_text(k - 1, &entries[k - 1]), entries[k - 1].is_active)
        } else {
            (String::new(), false)
        };
        out.push(row);
        k += 1;
    }
    out
}

/// The total of the first `k` widths.
pub open spec fn width_sum(ws: Seq<usize>, k: int) -> int
    decreases k,
{
    if k <= 0 {
        0
    } else {
        width_sum(ws, k - 1) + ws[k - 1]
    }
}

/// How many characters, from `i` on, fit in `room` columns when the ones
/// before `i` took `used`: characters are kept until one would overflow.
pub open spec fn fit_count(ws: Seq<usize>, room: int, used: int, i: int) -> int
    decreases ws.len() - i,
{
    if i < 0 || i >= ws.len() || used + ws[i] > room {
        i
    } else {
        fit_count(ws, room, used + ws[i], i + 1)
    }
}

/// `text` (whose characters are `ws` columns wide) cut to `room` columns,
/// padded with spaces to fill them, then the separator `│`.
pub open spec fn fit_spec(text: Seq<char>, ws: Seq<usize>, room: nat) -> Seq<char> {
    let k = fit_count(ws, room as int, 0, 0);
    text.subrange(0, k) + repeat_char(' ', (room - width_sum(ws, k)) as nat) + seq!['\u{2502}']
}

proof fn lemma_fit_count(ws: Seq<usize>, room: int, i: int)
    requires
        0 <= i <= ws.len(),
        width_sum(ws, i) <= room,
    ensures
        i <= fit_count(ws, room, width_sum(ws, i), i) <= ws.len(),
        width_sum(ws, fit_count(ws, room, width_sum(ws, i), i)) <= room,
    decreases ws.len() - i,
{
    if i < ws.len() && width_sum(ws, i) + ws[i] <= room {
        assert(width_sum(ws, i + 1) == width_sum(ws, i) + ws[i]);
        lemma_fit_count(ws, room, i + 1);
    }
}

/// Fits `text`, whose characters take `widths` columns each, to a sidebar
/// row of `text_width` columns followed by the separator.
pub fn fit_row(text: &str, widths: &Vec<usize>, text_width: usize) -> (r: String)
    requires
        widths@.len() == text@.len(),
    ensures
        r@ == fit_spec(text@, widths@, text_width as nat),
{
    let cs = chars_of(text);
    let mut out = String::new();
    let mut w: u128 = 0;
    let mut i: usize = 0;
    let ghost ws = widths@;
    let ghost room = text_width as int;
    proof {
        lemma_fit_count(ws, room, 0);
    }
    while i < cs.len() && w + (widths[i] as u128) <= (text_width as u128)
        invariant
            cs@ == text@,
            ws == widths@,
            ws.len() == cs@.len(),
            room == text_width,
            i <= cs.len(),
            w == width_sum(ws, i as int),
            w <= room,
            fit_count(ws, room, 0, 0) == fit_count(ws, room, w as int, i as int),
            out@ == cs@.subrange(0, i as int),
        decreases cs.len() - i,
    {
        out.push(cs[i]);
        w = w + widths[i] as u128;
        i += 1;
        proof {
            assert(out@ =~= cs@.subrange(0, i as int));
        }
    }
    assert(fit_count(ws, room, w as int, i as int) == i);
    push_repeat(&mut out, ' ', (text_width as u128 - w) as usize);
    out.push('\u{2502}');
    out
}
/// The sidebar numbers its rows to match `SwitchToWorkspaceByIndex`:
/// row `i + 1` (below the header) shows workspace `i` with the number
/// `i + 1`, and is the row a click or drop on it refers to.
pub proof fn law_sidebar_numbering(entries: Seq<WorkspaceSidebarEntry>, i: int)
    requires
        0 <= i < entries.len(),
    ensures
        row_name_spec(entries, i + 1) == Some(entries[i].name@),
        sidebar_row_spec(entries, i + 1).0 == row_text_spec(i, entries[i]),
        sidebar_row_spec(entries, i + 1).1 == entries[i].is_active,
{
}

/// A second click on the same row less than 500 ms after a single click
/// is a double click; the click after a double click starts afresh.
pub proof fn law_double_click(row: usize, t1: u64, t2: u64)
    requires
        t1 <= t2,
        t2 - t1 < DOUBLE_CLICK_MS,
    ensures
        is_double_click(Some((t1, row)), row, t2),
        forall|t3: u64| !is_double_click(None, row, t3),
        forall|other: usize| other != row ==> !is_double_click(Some((t1, row)), other, t2),
{
}

} // verus!
