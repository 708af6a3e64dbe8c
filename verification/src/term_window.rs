//! The window state that the context menu, tab commands, drags and the
//! workspace sidebar act on, and the tab commands themselves.
use vstd::prelude::*;
use crate::menus::{
    ContextMenu, ContextMenuKind, MenuAction, MenuItem, terminal_menu_items, tab_menu_items,
    items_are, terminal_items_spec, tab_items_spec,
};
use crate::sidebars::TabId;
use crate::drag::{TabDrag, PaneDrag};
use crate::workspaces::WorkspaceSidebarEntry;

verus! {

/// A tab of the window, as far as closing it is concerned.
#[derive(Clone, Copy, PartialEq, Eq, Structural, Debug)]
pub struct TabInfo {
    pub id: TabId,
    /// closing the tab would normally ask for confirmation (a program
    /// other than a shell runs in it)
    pub close_prompts: bool,
}

/// The tabs of the window's mux window.
pub struct WindowTabs {
    pub tabs: Vec<TabInfo>,
    /// index of the active tab
    pub active: usize,
    /// the workspace the window belongs to
    pub workspace: String,
}

/// The modal shown over the window.
pub enum Modal {
    ContextMenu(ContextMenu),
    /// a modal of another kind (command palette, launcher, ...)
    Other,
}

/// The window state that the commands here read and change. The mux
/// window behind it (`tabs`) is `None` once it is gone.
pub struct TermWindow {
    pub tabs: Option<WindowTabs>,
    pub modal: Option<Modal>,
    pub tab_drag: Option<TabDrag>,
    pub pane_drag: Option<PaneDrag>,
    /// the workspace sidebar's entries, in the order shown
    pub workspaces: Vec<WorkspaceSidebarEntry>,
    /// time (in milliseconds) and row of the last click on the sidebar
    pub sidebar_last_click: Option<(u64, usize)>,
}

/// What closing a set of tabs comes to.
pub enum CloseTabs {
    /// no tab to close
    Nothing,
    /// close these tabs now
    Remove(Vec<TabId>),
    /// ask once for confirmation, then close these tabs
    Confirm(Vec<TabId>),
}

/// The ids of `tabs`, in order.
pub open spec fn ids_of(tabs: Seq<TabInfo>) -> Seq<TabId> {
    tabs.map_values(|t: TabInfo| t.id)
}

/// Some tab of `tabs` would ask before closing.
pub open spec fn any_prompts(tabs: Seq<TabInfo>) -> bool {
    exists|i: int| 0 <= i < tabs.len() && #[trigger] tabs[i].close_prompts
}

/// `r` closes `sel`: nothing when it is empty, after one confirmation
/// when `confirm` is set and some tab would ask, else at once.
pub open spec fn close_tabs_spec(sel: Seq<TabInfo>, confirm: bool, r: CloseTabs) -> bool {
    if sel.len() == 0 {
        r is Nothing
    } else if confirm && any_prompts(sel) {
        r matches CloseTabs::Confirm(v) && v@ == ids_of(sel)
    } else {
        r matches CloseTabs::Remove(v) && v@ == ids_of(sel)
    }
}

/// The tabs of `tabs` other than the one at `active`, in order.
pub open spec fn tabs_except(tabs: Seq<TabInfo>, active: int) -> Seq<TabInfo>
    decreases tabs.len(),
{
    if tabs.len() == 0 {
        Seq::empty()
    } else {
        let rest = tabs_except(tabs.drop_last(), active);
        if tabs.len() - 1 == active {
            rest
        } else {
            rest.push(tabs.last())
        }
    }
}

/// The tabs of `tabs` after the one at `active`.
pub open spec fn tabs_right_of(tabs: Seq<TabInfo>, active: int) -> Seq<TabInfo> {
    if active + 1 >= tabs.len() {
        Seq::empty()
    } else {
        tabs.subrange(active + 1, tabs.len() as int)
    }
}

proof fn lemma_tabs_except(tabs: Seq<TabInfo>, active: int)
    ensures
        tabs_except(tabs, active).len() == tabs.len() - (if 0 <= active < tabs.len() { 1int } else { 0 }),
        forall|x: TabInfo| #[trigger] tabs_except(tabs, active).contains(x) <==> exists|i: int|
            0 <= i < tabs.len() && i != active && tabs[i] == x,
    decreases tabs.len(),
{
    if tabs.len() > 0 {
        let rest = tabs.drop_last();
        lemma_tabs_except(rest, active);
        let n = tabs.len() - 1;
        assert forall|x: TabInfo| #[trigger] tabs_except(tabs, active).contains(x) <==> exists|i: int|
            0 <= i < tabs.len() && i != active && tabs[i] == x by {
            if tabs_except(tabs, active).contains(x) {
                if tabs_except(rest, active).contains(x) {
                    let i = choose|i: int| 0 <= i < rest.len() && i != active && rest[i] == x;
                    assert(tabs[i] == x);
                } else {
                    assert(n != active && x == tabs[n]);
                }
            }
            if exists|i: int| 0 <= i < tabs.len() && i != active && tabs[i] == x {
                let i = choose|i: int| 0 <= i < tabs.len() && i != active && tabs[i] == x;
                if i < n {
                    assert(rest[i] == x);
                    assert(tabs_except(rest, active).contains(x));
                    if n != active {
                        assert(tabs_except(tabs, active) == tabs_except(rest, active).push(tabs.last()));
                        assert(tabs_except(tabs, active).contains(x)) by {
                            let k = choose|k: int| 0 <= k < tabs_except(rest, active).len() && tabs_except(rest, active)[k] == x;
                            assert(tabs_except(tabs, active)[k] == x);
                        }
                    }
                } else {
                    assert(tabs_except(tabs, active) == tabs_except(rest, active).push(tabs.last()));
                    assert(tabs_except(tabs, active)[tabs_except(tabs, active).len() - 1] == x);
                }
            }
        }
    }
}

/// "Close other tabs" closes every tab but the active one and never the
/// active one; "close tabs to the right" closes exactly the tabs after
/// the active one. (Tab ids are distinct.)
pub proof fn law_closing_spares_active(tabs: Seq<TabInfo>, active: int)
    requires
        0 <= active < tabs.len(),
        forall|i: int, j: int| 0 <= i < tabs.len() && 0 <= j < tabs.len() && i != j ==> tabs[i].id != tabs[j].id,
    ensures
        ids_of(tabs_except(tabs, active)).len() == tabs.len() - 1,
        forall|i: int| 0 <= i < tabs.len() ==> (ids_of(tabs_except(tabs, active)).contains(#[trigger] tabs[i].id) <==> i != active),
        forall|i: int| 0 <= i < tabs.len() ==> (ids_of(tabs_right_of(tabs, active)).contains(#[trigger] tabs[i].id) <==> i > active),
{
    lemma_tabs_except(tabs, active);
    let others = tabs_except(tabs, active);
    let right = tabs_right_of(tabs, active);
    assert forall|i: int| 0 <= i < tabs.len() implies (ids_of(others).contains(#[trigger] tabs[i].id) <==> i != active) by {
        if i != active {
            assert(others.contains(tabs[i]) <==> exists|k: int| 0 <= k < tabs.len() && k != active && tabs[k] == tabs[i]);
            assert(0 <= i < tabs.len() && i != active && tabs[i] == tabs[i]);
            assert(others.contains(tabs[i]));
            let k = choose|k: int| 0 <= k < others.len() && others[k] == tabs[i];
            assert(ids_of(others)[k] == tabs[i].id);
        }
        if ids_of(others).contains(tabs[i].id) {
            let k = choose|k: int| 0 <= k < ids_of(others).len() && ids_of(others)[k] == tabs[i].id;
            assert(others.contains(others[k]));
            let m = choose|m: int| 0 <= m < tabs.len() && m != active && tabs[m] == others[k];
            assert(tabs[m].id == tabs[i].id);
        }
    }
    assert forall|i: int| 0 <= i < tabs.len() implies (ids_of(right).contains(#[trigger] tabs[i].id) <==> i > active) by {
        if i > active {
            assert(right[i - active - 1] == tabs[i]);
            assert(ids_of(right)[i - active - 1] == tabs[i].id);
        }
        if ids_of(right).contains(tabs[i].id) {
            let k = choose|k: int| 0 <= k < ids_of(right).len() && ids_of(right)[k] == tabs[i].id;
            assert(right[k] == tabs[k + active + 1]);
            assert(tabs[k + active + 1].id == tabs[i].id);
        }
    }
}

/// Decides how to close `sel` (see `close_tabs_spec`).
fn close_tabs(sel: Vec<TabInfo>, confirm: bool) -> (r: CloseTabs)
    ensures
        close_tabs_spec(sel@, confirm, r),
{
    if sel.len() == 0 {
        return CloseTabs::Nothing;
    }
    let mut prompts = false;
    let mut ids: Vec<TabId> = Vec::new();
    let mut i: usize = 0;
    while i < sel.len()
        invariant
            i <= sel.len(),
            ids@ == ids_of(sel@.subrange(0, i as int)),
            prompts == exists|j: int| 0 <= j < i && #[trigger] sel@[j].close_prompts,
        decreases sel.len() - i,
    {
        proof {
            assert(sel@.subrange(0, i + 1).drop_last() =~= sel@.subrange(0, i as int));
        }
        ids.push(sel[i].id);
        prompts = prompts || sel[i].close_prompts;
        i += 1;
        proof {
            assert(ids@ =~= ids_of(sel@.subrange(0, i as int)));
        }
    }
    assert(sel@.subrange(0, sel.len() as int) =~= sel@);
    if confirm && prompts {
        CloseTabs::Confirm(ids)
    } else {
        CloseTabs::Remove(ids)
    }
}

impl TermWindow {
    /// Whether the modal shown is a context menu.
    pub fn context_menu_is_open(&self) -> (r: bool)
        ensures
            r == (self.modal matches Some(Modal::ContextMenu(_))),
    {
        match &self.modal {
            Some(Modal::ContextMenu(_)) => true,
            _ => false,
        }
    }

    /// Activates item `idx` of the open context menu: the menu closes and
    /// the item's action is handed back for the window to carry out. With
    /// no menu open, or no item `idx`, nothing happens.
    pub fn context_menu_activate(&mut self, idx: usize) -> (r: Option<MenuAction>)
        ensures
            match old(self).modal {
                Some(Modal::ContextMenu(m)) if idx < m.items@.len() => {
                    &&& r == Some(m.items@[idx as int].action)
                    &&& final(self).modal is None
                },
                _ => r is None && final(self).modal == old(self).modal,
            },
            final(self).tabs == old(self).tabs,
            final(self).tab_drag == old(self).tab_drag,
            final(self).pane_drag == old(self).pane_drag,
            final(self).workspaces == old(self).workspaces,
            final(self).sidebar_last_click == old(self).sidebar_last_click,
    {
        let modal = self.modal.take();
        match modal {
            Some(Modal::ContextMenu(mut menu)) => {
                if idx < menu.items.len() {
                    let item = menu.items.remove(idx);
                    Some(item.action)
                } else {
                    self.modal = Some(Modal::ContextMenu(menu));
                    None
                }
            },
            other => {
                self.modal = other;
                None
            },
        }
    }

    /// Opens a menu with `items` at pixel position `(x, y)`; an empty list
    /// opens nothing.
    pub fn show_menu_at(&mut self, items: Vec<MenuItem>, x: isize, y: isize)
        ensures
            if items@.len() == 0 {
                final(self).modal == old(self).modal
            } else {
                final(self).modal matches Some(Modal::ContextMenu(m)) && m.items == items && m.x == x
                    && m.y == y && m.selected is None
            },
            final(self).tabs == old(self).tabs,
            final(self).tab_drag == old(self).tab_drag,
            final(self).pane_drag == old(self).pane_drag,
            final(self).workspaces == old(self).workspaces,
            final(self).sidebar_last_click == old(self).sidebar_last_click,
    {
        if items.len() == 0 {
            return;
        }
        self.modal = Some(Modal::ContextMenu(ContextMenu::new(items, x, y)));
    }

    /// The tab count and active tab of the window, if it still exists.
    pub open spec fn spec_tab_counts(&self) -> Option<(usize, usize)> {
        match self.tabs {
            Some(w) => Some((w.tabs@.len() as usize, w.active)),
            None => None,
        }
    }

    /// Opens the built-in context menu of `kind` at `(x, y)`; `has_link`
    /// says whether the mouse hovers a link (for the terminal menu).
    pub fn open_default_context_menu(&mut self, kind: ContextMenuKind, has_link: bool, x: isize, y: isize)
        ensures
            match kind {
                ContextMenuKind::Terminal => final(self).modal matches Some(Modal::ContextMenu(m))
                    && items_are(m.items@, terminal_items_spec(has_link)) && m.x == x && m.y == y
                    && m.selected is None,
                ContextMenuKind::Tab(i) => match old(self).spec_tab_counts() {
                    None => final(self).modal == old(self).modal,
                    Some((count, active)) => final(self).modal matches Some(Modal::ContextMenu(m))
                        && items_are(m.items@, tab_items_spec(i, count, active)) && m.x == x && m.y
                        == y && m.selected is None,
                },
            },
            final(self).tabs == old(self).tabs,
            final(self).tab_drag == old(self).tab_drag,
            final(self).pane_drag == old(self).pane_drag,
    {
        let items = match kind {
            ContextMenuKind::Terminal => terminal_menu_items(has_link),
            ContextMenuKind::Tab(idx) => {
                let counts = match &self.tabs {
                    Some(w) => Some((w.tabs.len(), w.active)),
                    None => None,
                };
                tab_menu_items(idx, counts)
            },
        };
        proof {
            if kind is Terminal {
                assert(items@.len() > 0) by {
                    assert(terminal_items_spec(has_link).len() > 0);
                }
            } else if self.tabs is Some {
                assert(items@.len() > 0) by {
                    let (count, active) = self.spec_tab_counts().unwrap();
                    assert(tab_items_spec(kind->0, count, active).len() > 0);
                }
            }
        }
        self.show_menu_at(items, x, y);
    }

    /// Closes every tab but the active one (see `close_tabs_spec`); with
    /// the window gone, nothing.
    pub fn close_other_tabs(&self, confirm: bool) -> (r: CloseTabs)
        ensures
            match self.tabs {
                None => r is Nothing,
                Some(w) => close_tabs_spec(tabs_except(w.tabs@, w.active as int), confirm, r),
            },
    {
        let w = match &self.tabs {
            None => return CloseTabs::Nothing,
            Some(w) => w,
        };
        let mut sel: Vec<TabInfo> = Vec::new();
        let mut i: usize = 0;
        while i < w.tabs.len()
            invariant
                i <= w.tabs.len(),
                sel@ == tabs_except(w.tabs@.subrange(0, i as int), w.active as int),
            decreases w.tabs.len() - i,
        {
            proof {
                assert(w.tabs@.subrange(0, i + 1).drop_last() =~= w.tabs@.subrange(0, i as int));
            }
            if i != w.active {
                sel.push(w.tabs[i]);
            }
            i += 1;
        }
        assert(w.tabs@.subrange(0, w.tabs.len() as int) =~= w.tabs@);
        close_tabs(sel, confirm)
    }

    /// Closes the tabs to the right of the active one (see
    /// `close_tabs_spec`); with the window gone, nothing.
    pub fn close_tabs_to_the_right(&self, confirm: bool) -> (r: CloseTabs)
        ensures
            match self.tabs {
                None => r is Nothing,
                Some(w) => close_tabs_spec(tabs_right_of(w.tabs@, w.active as int), confirm, r),
            },
    {
        let w = match &self.tabs {
            None => return CloseTabs::Nothing,
            Some(w) => w,
        };
        let mut sel: Vec<TabInfo> = Vec::new();
        if w.active < w.tabs.len() {
            let mut i: usize = w.active + 1;
            while i < w.tabs.len()
                invariant
                    w.active < i <= w.tabs.len(),
                    sel@ == w.tabs@.subrange(w.active + 1, i as int),
                decreases w.tabs.len() - i,
            {
                sel.push(w.tabs[i]);
                i += 1;
                proof {
                    assert(sel@ =~= w.tabs@.subrange(w.active + 1, i as int));
                }
            }
        }
        proof {
            if w.active + 1 >= w.tabs@.len() {
                assert(sel@ =~= tabs_right_of(w.tabs@, w.active as int));
            }
        }
        close_tabs(sel, confirm)
    }

    /// Which tab moving the active tab into a new window detaches: the
    /// active one, unless the window is gone or the tab is alone in it.
    pub fn move_tab_to_new_window(&self) -> (r: Option<usize>)
        ensures
            r == match self.tabs {
                None => None,
                Some(w) => if w.tabs@.len() < 2 { None } else { Some(w.active) },
            },
    {
        match &self.tabs {
            None => None,
            Some(w) => if w.tabs.len() < 2 {
                None
            } else {
                Some(w.active)
            },
        }
    }

    /// Activates tab `tab_idx` before a tab-scoped action: false (the
    /// action is skipped) when the window is gone or has no tab; an index
    /// past the last tab leaves the active tab as it is.
    pub fn with_tab_activated(&mut self, tab_idx: usize) -> (r: bool)
        ensures
            r == (old(self).tabs matches Some(w) && w.tabs@.len() > 0),
            match old(self).tabs {
                None => final(self).tabs is None,
                Some(w) => final(self).tabs matches Some(w2) && w2.tabs == w.tabs && w2.workspace
                    == w.workspace && w2.active == (if tab_idx < w.tabs@.len() {
                    tab_idx
                } else {
                    w.active
                }),
            },
            final(self).modal == old(self).modal,
            final(self).tab_drag == old(self).tab_drag,
            final(self).pane_drag == old(self).pane_drag,
            final(self).workspaces == old(self).workspaces,
            final(self).sidebar_last_click == old(self).sidebar_last_click,
    {
        match &mut self.tabs {
            None => false,
            Some(w) => {
                if w.tabs.len() == 0 {
                    return false;
                }
                if tab_idx < w.tabs.len() {
                    w.active = tab_idx;
                }
                true
            },
        }
    }
}

/// Where moving a tab to another workspace puts it.
pub enum WorkspaceMove {
    Nothing,
    /// take the tab at `tab_idx` out of this window and add it to window
    /// `window_id` (the workspace's first), as its active tab
    IntoWindow { tab_idx: usize, window_id: usize },
    /// take the tab at `tab_idx` out of this window and open a new window
    /// of the workspace with it
    NewWindow { tab_idx: usize },
}

/// The index of the first tab of `tabs` with id `id`, if any.
pub open spec fn index_of_id(tabs: Seq<TabInfo>, id: TabId) -> Option<int> {
    if exists|i: int| 0 <= i < tabs.len() && #[trigger] tabs[i].id == id {
        Some(choose|i: int| 0 <= i < tabs.len() && #[trigger] tabs[i].id == id && forall|j: int| 0 <= j < i ==> (#[trigger] tabs[j]).id != id)
    } else {
        None
    }
}

fn find_tab(tabs: &Vec<TabInfo>, id: TabId) -> (r: Option<usize>)
    ensures
        match r {
            Some(i) => index_of_id(tabs@, id) == Some(i as int),
            None => index_of_id(tabs@, id) is None,
        },
{
    let mut i: usize = 0;
    while i < tabs.len()
        invariant
            i <= tabs.len(),
            forall|j: int| 0 <= j < i ==> (#[trigger] tabs@[j]).id != id,
        decreases tabs.len() - i,
    {
        if tabs[i].id == id {
            proof {
                let c = choose|k: int| 0 <= k < tabs@.len() && #[trigger] tabs@[k].id == id && forall|j: int| 0 <= j < k ==> (#[trigger] tabs@[j]).id != id;
                assert(tabs@[i as int].id == id);
                if c < i {
                    assert(tabs@[c].id != id);
                } else if c > i {
                    assert(tabs@[i as int].id != id);
                }
            }
            return Some(i);
        }
        i += 1;
    }
    None
}

impl TermWindow {
    /// The id of the tab at `tab_idx`, if the window has one there.
    pub fn tab_id_at(&self, tab_idx: usize) -> (r: Option<TabId>)
        ensures
            r == match self.tabs {
                Some(w) => if tab_idx < w.tabs@.len() { Some(w.tabs@[tab_idx as int].id) } else { None },
                None => None,
            },
    {
        match &self.tabs {
            Some(w) => if tab_idx < w.tabs.len() {
                Some(w.tabs[tab_idx].id)
            } else {
                None
            },
            None => None,
        }
    }

    /// Moving tab `tab_id` out of this window into workspace `workspace`,
    /// whose first window is `dest_window` (`None`: it has none). Nothing
    /// happens when the window is gone, already belongs to that workspace,
    /// or has no such tab.
    pub fn move_tab_to_workspace(&self, tab_id: TabId, workspace: &str, dest_window: Option<usize>) -> (r: WorkspaceMove)
        ensures
            match self.tabs {
                None => r is Nothing,
                Some(w) => if w.workspace@ == workspace@ {
                    r is Nothing
                } else {
                    match index_of_id(w.tabs@, tab_id) {
                        None => r is Nothing,
                        Some(i) => match dest_window {
                            Some(win) => r == WorkspaceMove::IntoWindow { tab_idx: i as usize, window_id: win },
                            None => r == WorkspaceMove::NewWindow { tab_idx: i as usize },
                        },
                    }
                },
            },
    {
        let w = match &self.tabs {
            None => return WorkspaceMove::Nothing,
            Some(w) => w,
        };
        if crate::text::str_eq(w.workspace.as_str(), workspace) {
            return WorkspaceMove::Nothing;
        }
        match find_tab(&w.tabs, tab_id) {
            None => WorkspaceMove::Nothing,
            Some(i) => match dest_window {
                Some(win) => WorkspaceMove::IntoWindow { tab_idx: i, window_id: win },
                None => WorkspaceMove::NewWindow { tab_idx: i },
            },
        }
    }

    /// Merging tab `src_tab_id` (`src_exists`: it still exists) into the
    /// tab at `dest_idx`: the id of that tab, or `None` (nothing happens)
    /// when either tab is missing or they are the same tab.
    pub fn merge_tab_into(&self, src_tab_id: TabId, src_exists: bool, dest_idx: usize) -> (r: Option<TabId>)
        ensures
            r == match self.tabs {
                Some(w) => if src_exists && dest_idx < w.tabs@.len() && w.tabs@[dest_idx as int].id != src_tab_id {
                    Some(w.tabs@[dest_idx as int].id)
                } else {
                    None
                },
                None => None,
            },
    {
        if !src_exists {
            return None;
        }
        match self.tab_id_at(dest_idx) {
            Some(id) => if id == src_tab_id {
                None
            } else {
                Some(id)
            },
            None => None,
        }
    }
}

/// The text "copy working directory" puts on the clipboard for the
/// pane's working directory URL (`url_text`): for a `file` URL, the local
/// path it converts to (`file_path`, when it converts); otherwise, or when
/// it does not convert, the URL's text.
pub fn working_dir_clipboard_text(url_text: String, is_file_scheme: bool, file_path: Option<String>) -> (r: String)
    ensures
        r == (if is_file_scheme && file_path is Some { file_path.unwrap() } else { url_text }),
{
    if is_file_scheme {
        match file_path {
            Some(p) => p,
            None => url_text,
        }
    } else {
        url_text
    }
}

/// The directory a duplicated tab starts in: the local path of the
/// pane's `file` working directory URL (`file_path`, when it converts);
/// none for other schemes.
pub fn duplicate_tab_cwd(is_file_scheme: bool, file_path: Option<String>) -> (r: Option<String>)
    ensures
        r == (if is_file_scheme { file_path } else { None }),
{
    if is_file_scheme {
        file_path
    } else {
        None
    }
}

} // verus!
