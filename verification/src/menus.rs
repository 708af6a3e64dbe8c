//! Context menus: what the terminal, tab and workspace sidebar menus
//! offer, and a menu's keyboard selection.
use vstd::prelude::*;
use crate::input::{Key, KeyInput};
use crate::text::{push_str, to_string};

verus! {

/// What a menu item does; the window carries it out.
#[derive(Clone, PartialEq, Eq, Structural, Debug)]
pub enum MenuCommand {
    OpenLink,
    Copy,
    Paste,
    CopyMode,
    SplitRight,
    SplitDown,
    TogglePaneZoom,
    ClosePane,
    NewTab,
    CopyWorkingDir,
    FileManager,
    CommandPalette,
    ActivateTab(usize),
    DuplicateTab(usize),
    RenameTab(usize),
    MoveTabLeft(usize),
    MoveTabRight(usize),
    MergeIntoLeftTab(usize),
    MergeIntoRightTab(usize),
    MoveTabToNewWindow(usize),
    CloseTab(usize),
    CloseOtherTabs(usize),
    CloseTabsToTheRight(usize),
    NewWorkspace,
    HideSidebar,
}

/// Commands about a named workspace (kept apart from `MenuCommand` so
/// that `MenuCommand` has structural equality).
#[derive(Clone, Debug)]
pub enum WorkspaceCommand {
    Switch(String),
    Rename(String),
    NewWindow(String),
    Close(String),
}

/// An item's action.
#[derive(Clone, Debug)]
pub enum MenuAction {
    Command(MenuCommand),
    Workspace(WorkspaceCommand),
    Separator,
}

/// One line of a menu.
#[derive(Clone, Debug)]
pub struct MenuItem {
    pub label: String,
    pub action: MenuAction,
}

/// Which part of the window a context menu was requested for.
#[derive(Clone, Copy, PartialEq, Eq, Structural, Debug)]
pub enum ContextMenuKind {
    /// the terminal area of the active pane
    Terminal,
    /// a tab in the tab bar
    Tab(usize),
}

impl ContextMenuKind {
    /// The `kind` handed to the `context-menu` event.
    pub fn lua_name(&self) -> (r: &'static str)
        ensures
            r@ == (match *self {
                ContextMenuKind::Terminal => "terminal"@,
                ContextMenuKind::Tab(_) => "tab"@,
            }),
    {
        match self {
            ContextMenuKind::Terminal => "terminal",
            ContextMenuKind::Tab(_) => "tab",
        }
    }

    /// The tab index handed to the `context-menu` event.
    pub fn tab_idx(&self) -> (r: Option<usize>)
        ensures
            r == (match *self {
                ContextMenuKind::Terminal => None,
                ContextMenuKind::Tab(i) => Some(i),
            }),
    {
        match self {
            ContextMenuKind::Terminal => None,
            ContextMenuKind::Tab(i) => Some(*i),
        }
    }
}

impl MenuItem {
    /// An item running `command`.
    pub fn command(label: &str, command: MenuCommand) -> (r: MenuItem)
        ensures
            r.label@ == label@,
            r.action == MenuAction::Command(command),
    {
        MenuItem { label: to_string(label), action: MenuAction::Command(command) }
    }

    /// A separator line.
    pub fn separator() -> (r: MenuItem)
        ensures
            r.label@.len() == 0,
            r.action == MenuAction::Separator,
    {
        MenuItem { label: String::new(), action: MenuAction::Separator }
    }

    pub open spec fn spec_is_separator(&self) -> bool {
        self.action is Separator
    }

    pub fn is_separator(&self) -> (r: bool)
        ensures
            r == self.spec_is_separator(),
    {
        match self.action {
            MenuAction::Separator => true,
            _ => false,
        }
    }
}

/// An item with `label` and command `c` (`None`: a separator).
pub open spec fn item_is(i: MenuItem, label: Seq<char>, c: Option<MenuCommand>) -> bool {
    match c {
        Some(c) => i.label@ == label && i.action == MenuAction::Command(c),
        None => i.action is Separator,
    }
}

/// The items as (label, command) pairs, separators as `None`.
pub open spec fn items_are(items: Seq<MenuItem>, expected: Seq<(Seq<char>, Option<MenuCommand>)>) -> bool {
    &&& items.len() == expected.len()
    &&& forall|i: int| 0 <= i < items.len() ==> item_is(#[trigger] items[i], expected[i].0, expected[i].1)
}

/// A separator line.
pub open spec fn sep() -> Seq<(Seq<char>, Option<MenuCommand>)> {
    seq![(Seq::<char>::empty(), None)]
}

/// An item.
pub open spec fn it(label: Seq<char>, c: MenuCommand) -> Seq<(Seq<char>, Option<MenuCommand>)> {
    seq![(label, Some(c))]
}

/// The terminal menu: "Open link" (and a separator) when a link is
/// hovered, then copy/paste/copy mode, splits, zoom and close, new tab
/// and copying the working directory, file manager and command palette.
pub open spec fn terminal_items_spec(has_link: bool) -> Seq<(Seq<char>, Option<MenuCommand>)> {
    (if has_link { it("Open link"@, MenuCommand::OpenLink) + sep() } else { Seq::empty() })
        + it("Copy"@, MenuCommand::Copy) + it("Paste"@, MenuCommand::Paste)
        + it("Select all (copy mode)"@, MenuCommand::CopyMode) + sep()
        + it("Split right"@, MenuCommand::SplitRight) + it("Split down"@, MenuCommand::SplitDown)
        + it("Toggle pane zoom"@, MenuCommand::TogglePaneZoom) + it("Close pane"@, MenuCommand::ClosePane)
        + sep() + it("New tab"@, MenuCommand::NewTab)
        + it("Copy working directory"@, MenuCommand::CopyWorkingDir) + sep()
        + it("File manager"@, MenuCommand::FileManager)
        + it("Command palette"@, MenuCommand::CommandPalette)
}

/// The label that names what command `c` does.
pub open spec fn command_label(c: MenuCommand) -> Seq<char> {
    match c {
        MenuCommand::OpenLink => "Open link"@,
        MenuCommand::Copy => "Copy"@,
        MenuCommand::Paste => "Paste"@,
        MenuCommand::CopyMode => "Select all (copy mode)"@,
        MenuCommand::SplitRight => "Split right"@,
        MenuCommand::SplitDown => "Split down"@,
        MenuCommand::TogglePaneZoom => "Toggle pane zoom"@,
        MenuCommand::ClosePane => "Close pane"@,
        MenuCommand::NewTab => "New tab"@,
        MenuCommand::CopyWorkingDir => "Copy working directory"@,
        MenuCommand::FileManager => "File manager"@,
        MenuCommand::CommandPalette => "Command palette"@,
        MenuCommand::ActivateTab(_) => "Activate tab"@,
        MenuCommand::DuplicateTab(_) => "Duplicate tab"@,
        MenuCommand::RenameTab(_) => "Rename tab"@,
        MenuCommand::MoveTabLeft(_) => "Move tab left"@,
        MenuCommand::MoveTabRight(_) => "Move tab right"@,
        MenuCommand::MergeIntoLeftTab(_) => "Merge into left tab"@,
        MenuCommand::MergeIntoRightTab(_) => "Merge into right tab"@,
        MenuCommand::MoveTabToNewWindow(_) => "Move tab to new window"@,
        MenuCommand::CloseTab(_) => "Close tab"@,
        MenuCommand::CloseOtherTabs(_) => "Close other tabs"@,
        MenuCommand::CloseTabsToTheRight(_) => "Close tabs to the right"@,
        MenuCommand::NewWorkspace => "New workspace..."@,
        MenuCommand::HideSidebar => "Hide sidebar"@,
    }
}

/// The tab a command acts on, if it acts on one.
pub open spec fn command_tab(c: MenuCommand) -> Option<usize> {
    match c {
        MenuCommand::ActivateTab(i) | MenuCommand::DuplicateTab(i) | MenuCommand::RenameTab(i)
        | MenuCommand::MoveTabLeft(i) | MenuCommand::MoveTabRight(i) | MenuCommand::MergeIntoLeftTab(i)
        | MenuCommand::MergeIntoRightTab(i) | MenuCommand::MoveTabToNewWindow(i) | MenuCommand::CloseTab(i)
        | MenuCommand::CloseOtherTabs(i) | MenuCommand::CloseTabsToTheRight(i) => Some(i),
        _ => None,
    }
}

/// Every item of `s` is labelled with what its command does, and acts
/// on tab `tab` when it acts on a tab at all.
pub open spec fn labels_match(s: Seq<(Seq<char>, Option<MenuCommand>)>, tab: Option<usize>) -> bool {
    forall|k: int| 0 <= k < s.len() ==> match #[trigger] s[k] {
        (l, Some(c)) => l == command_label(c) && (command_tab(c) is Some ==> command_tab(c) == tab),
        (_, None) => true,
    }
}

proof fn lemma_labels_match_add(a: Seq<(Seq<char>, Option<MenuCommand>)>, b: Seq<(Seq<char>, Option<MenuCommand>)>, tab: Option<usize>)
    requires
        labels_match(a, tab),
        labels_match(b, tab),
    ensures
        labels_match(a + b, tab),
{
    assert forall|k: int| 0 <= k < (a + b).len() implies match #[trigger] (a + b)[k] {
        (l, Some(c)) => l == command_label(c) && (command_tab(c) is Some ==> command_tab(c) == tab),
        (_, None) => true,
    } by {
        if k < a.len() {
            assert((a + b)[k] == a[k]);
        } else {
            assert((a + b)[k] == b[k - a.len()]);
        }
    }
}

proof fn lemma_labels_match_item(c: MenuCommand, tab: Option<usize>)
    requires
        command_tab(c) is Some ==> command_tab(c) == tab,
    ensures
        labels_match(it(command_label(c), c), tab),
        labels_match(sep(), tab),
        labels_match(Seq::empty(), tab),
{
    assert(it(command_label(c), c)[0] == (command_label(c), Some(c)));
}

/// In the tab menu of tab `tab_idx`, every item says what it does: its
/// label names its command (so "Close tabs to the right" closes only the
/// tabs to the right, and "Close other tabs" every other tab), and every
/// command that acts on a tab acts on `tab_idx`.
pub proof fn law_tab_menu_labels_match(tab_idx: usize, count: usize, active: usize)
    ensures
        labels_match(tab_items_spec(tab_idx, count, active), Some(tab_idx)),
{
    let t = Some(tab_idx);
    let i = tab_idx;
    lemma_labels_match_item(MenuCommand::ActivateTab(i), t);
    let a = if active != i { it("Activate tab"@, MenuCommand::ActivateTab(i)) + sep() } else { Seq::empty() };
    lemma_labels_match_add(it("Activate tab"@, MenuCommand::ActivateTab(i)), sep(), t);
    let ps = seq![
        it("New tab"@, MenuCommand::NewTab),
        it("Duplicate tab"@, MenuCommand::DuplicateTab(i)),
        it("Rename tab"@, MenuCommand::RenameTab(i)),
        sep(),
        (if i > 0 { it("Move tab left"@, MenuCommand::MoveTabLeft(i)) } else { Seq::empty() }),
        (if i + 1 < count { it("Move tab right"@, MenuCommand::MoveTabRight(i)) } else { Seq::empty() }),
        (if i > 0 { it("Merge into left tab"@, MenuCommand::MergeIntoLeftTab(i)) } else { Seq::empty() }),
        (if i + 1 < count { it("Merge into right tab"@, MenuCommand::MergeIntoRightTab(i)) } else { Seq::empty() }),
        (if count > 1 { it("Move tab to new window"@, MenuCommand::MoveTabToNewWindow(i)) } else { Seq::empty() }),
        sep(),
        it("Close tab"@, MenuCommand::CloseTab(i)),
        (if count > 1 { it("Close other tabs"@, MenuCommand::CloseOtherTabs(i)) } else { Seq::empty() }),
        (if i + 1 < count { it("Close tabs to the right"@, MenuCommand::CloseTabsToTheRight(i)) } else { Seq::empty() }),
    ];
    lemma_labels_match_item(MenuCommand::NewTab, t);
    lemma_labels_match_item(MenuCommand::DuplicateTab(i), t);
    lemma_labels_match_item(MenuCommand::RenameTab(i), t);
    lemma_labels_match_item(MenuCommand::MoveTabLeft(i), t);
    lemma_labels_match_item(MenuCommand::MoveTabRight(i), t);
    lemma_labels_match_item(MenuCommand::MergeIntoLeftTab(i), t);
    lemma_labels_match_item(MenuCommand::MergeIntoRightTab(i), t);
    lemma_labels_match_item(MenuCommand::MoveTabToNewWindow(i), t);
    lemma_labels_match_item(MenuCommand::CloseTab(i), t);
    lemma_labels_match_item(MenuCommand::CloseOtherTabs(i), t);
    lemma_labels_match_item(MenuCommand::CloseTabsToTheRight(i), t);
    let s1 = a + ps[0];
    lemma_labels_match_add(a, ps[0], t);
    let s2 = s1 + ps[1];
    lemma_labels_match_add(s1, ps[1], t);
    let s3 = s2 + ps[2];
    lemma_labels_match_add(s2, ps[2], t);
    let s4 = s3 + ps[3];
    lemma_labels_match_add(s3, ps[3], t);
    let s5 = s4 + ps[4];
    lemma_labels_match_add(s4, ps[4], t);
    let s6 = s5 + ps[5];
    lemma_labels_match_add(s5, ps[5], t);
    let s7 = s6 + ps[6];
    lemma_labels_match_add(s6, ps[6], t);
    let s8 = s7 + ps[7];
    lemma_labels_match_add(s7, ps[7], t);
    let s9 = s8 + ps[8];
    lemma_labels_match_add(s8, ps[8], t);
    let s10 = s9 + ps[9];
    lemma_labels_match_add(s9, ps[9], t);
    let s11 = s10 + ps[10];
    lemma_labels_match_add(s10, ps[10], t);
    let s12 = s11 + ps[11];
    lemma_labels_match_add(s11, ps[11], t);
    let s13 = s12 + ps[12];
    lemma_labels_match_add(s12, ps[12], t);
    assert(s13 == tab_items_spec(tab_idx, count, active));
}

/// In the terminal menu every item says what it does: its label names
/// its command, and no command acts on a tab.
pub proof fn law_terminal_menu_labels_match(has_link: bool)
    ensures
        labels_match(terminal_items_spec(has_link), None),
{
    let t: Option<usize> = None;
    let cs = seq![
        MenuCommand::OpenLink, MenuCommand::Copy, MenuCommand::Paste, MenuCommand::CopyMode,
        MenuCommand::SplitRight, MenuCommand::SplitDown, MenuCommand::TogglePaneZoom, MenuCommand::ClosePane,
        MenuCommand::NewTab, MenuCommand::CopyWorkingDir, MenuCommand::FileManager, MenuCommand::CommandPalette,
    ];
    assert forall|j: int| 0 <= j < cs.len() implies labels_match(it(command_label(#[trigger] cs[j]), cs[j]), t) by {
        lemma_labels_match_item(cs[j], t);
    }
    lemma_labels_match_item(MenuCommand::Copy, t);
    let l0 = it("Open link"@, MenuCommand::OpenLink) + sep();
    assert(labels_match(it(command_label(cs[0]), cs[0]), t));
    lemma_labels_match_add(it("Open link"@, MenuCommand::OpenLink), sep(), t);
    let a = if has_link { l0 } else { Seq::empty() };
    let s1 = a + it("Copy"@, MenuCommand::Copy);
    assert(labels_match(it(command_label(cs[1]), cs[1]), t));
    lemma_labels_match_add(a, it("Copy"@, MenuCommand::Copy), t);
    let s2 = s1 + it("Paste"@, MenuCommand::Paste);
    assert(labels_match(it(command_label(cs[2]), cs[2]), t));
    lemma_labels_match_add(s1, it("Paste"@, MenuCommand::Paste), t);
    let s3 = s2 + it("Select all (copy mode)"@, MenuCommand::CopyMode);
    assert(labels_match(it(command_label(cs[3]), cs[3]), t));
    lemma_labels_match_add(s2, it("Select all (copy mode)"@, MenuCommand::CopyMode), t);
    let s4 = s3 + sep();
    lemma_labels_match_add(s3, sep(), t);
    let s5 = s4 + it("Split right"@, MenuCommand::SplitRight);
    assert(labels_match(it(command_label(cs[4]), cs[4]), t));
    lemma_labels_match_add(s4, it("Split right"@, MenuCommand::SplitRight), t);
    let s6 = s5 + it("Split down"@, MenuCommand::SplitDown);
    assert(labels_match(it(command_label(cs[5]), cs[5]), t));
    lemma_labels_match_add(s5, it("Split down"@, MenuCommand::SplitDown), t);
    let s7 = s6 + it("Toggle pane zoom"@, MenuCommand::TogglePaneZoom);
    assert(labels_match(it(command_label(cs[6]), cs[6]), t));
    lemma_labels_match_add(s6, it("Toggle pane zoom"@, MenuCommand::TogglePaneZoom), t);
    let s8 = s7 + it("Close pane"@, MenuCommand::ClosePane);
    assert(labels_match(it(command_label(cs[7]), cs[7]), t));
    lemma_labels_match_add(s7, it("Close pane"@, MenuCommand::ClosePane), t);
    let s9 = s8 + sep();
    lemma_labels_match_add(s8, sep(), t);
    let s10 = s9 + it("New tab"@, MenuCommand::NewTab);
    assert(labels_match(it(command_label(cs[8]), cs[8]), t));
    lemma_labels_match_add(s9, it("New tab"@, MenuCommand::NewTab), t);
    let s11 = s10 + it("Copy working directory"@, MenuCommand::CopyWorkingDir);
    assert(labels_match(it(command_label(cs[9]), cs[9]), t));
    lemma_labels_match_add(s10, it("Copy working directory"@, MenuCommand::CopyWorkingDir), t);
    let s12 = s11 + sep();
    lemma_labels_match_add(s11, sep(), t);
    let s13 = s12 + it("File manager"@, MenuCommand::FileManager);
    assert(labels_match(it(command_label(cs[10]), cs[10]), t));
    lemma_labels_match_add(s12, it("File manager"@, MenuCommand::FileManager), t);
    let s14 = s13 + it("Command palette"@, MenuCommand::CommandPalette);
    assert(labels_match(it(command_label(cs[11]), cs[11]), t));
    lemma_labels_match_add(s13, it("Command palette"@, MenuCommand::CommandPalette), t);
    assert(s14 == terminal_items_spec(has_link));
}

/// Appends an item, keeping track of the expected pairs.
fn push_item(items: &mut Vec<MenuItem>, label: &str, c: MenuCommand)
    ensures
        final(items)@.len() == old(items)@.len() + 1,
        forall|i: int| 0 <= i < old(items)@.len() ==> final(items)@[i] == old(items)@[i],
        item_is(final(items)@[old(items)@.len() as int], label@, Some(c)),
{
    items.push(MenuItem::command(label, c));
}

fn push_sep(items: &mut Vec<MenuItem>)
    ensures
        final(items)@.len() == old(items)@.len() + 1,
        forall|i: int| 0 <= i < old(items)@.len() ==> final(items)@[i] == old(items)@[i],
        item_is(final(items)@[old(items)@.len() as int], Seq::empty(), None),
{
    items.push(MenuItem::separator());
}

/// The items of the terminal menu (see `terminal_items_spec`).
pub fn terminal_menu_items(has_link: bool) -> (r: Vec<MenuItem>)
    ensures
        items_are(r@, terminal_items_spec(has_link)),
{
    let mut items: Vec<MenuItem> = Vec::new();
    let ghost mut exp: Seq<(Seq<char>, Option<MenuCommand>)> = Seq::empty();
    if has_link {
        push_item(&mut items, "Open link", MenuCommand::OpenLink);
        push_sep(&mut items);
        proof { exp = exp + it("Open link"@, MenuCommand::OpenLink) + sep(); }
    }
    assert(items_are(items@, exp));
    push_item(&mut items, "Copy", MenuCommand::Copy);
    proof { exp = exp + it("Copy"@, MenuCommand::Copy); }
    assert(items_are(items@, exp));
    push_item(&mut items, "Paste", MenuCommand::Paste);
    proof { exp = exp + it("Paste"@, MenuCommand::Paste); }
    assert(items_are(items@, exp));
    push_item(&mut items, "Select all (copy mode)", MenuCommand::CopyMode);
    push_sep(&mut items);
    proof { exp = exp + it("Select all (copy mode)"@, MenuCommand::CopyMode) + sep(); }
    assert(items_are(items@, exp));
    push_item(&mut items, "Split right", MenuCommand::SplitRight);
    push_item(&mut items, "Split down", MenuCommand::SplitDown);
    proof { exp = exp + it("Split right"@, MenuCommand::SplitRight) + it("Split down"@, MenuCommand::SplitDown); }
    assert(items_are(items@, exp));
    push_item(&mut items, "Toggle pane zoom", MenuCommand::TogglePaneZoom);
    push_item(&mut items, "Close pane", MenuCommand::ClosePane);
    push_sep(&mut items);
    proof { exp = exp + it("Toggle pane zoom"@, MenuCommand::TogglePaneZoom) + it("Close pane"@, MenuCommand::ClosePane) + sep(); }
    assert(items_are(items@, exp));
    push_item(&mut items, "New tab", MenuCommand::NewTab);
    push_item(&mut items, "Copy working directory", MenuCommand::CopyWorkingDir);
    push_sep(&mut items);
    proof { exp = exp + it("New tab"@, MenuCommand::NewTab) + it("Copy working directory"@, MenuCommand::CopyWorkingDir) + sep(); }
    assert(items_are(items@, exp));
    push_item(&mut items, "File manager", MenuCommand::FileManager);
    push_item(&mut items, "Command palette", MenuCommand::CommandPalette);
    proof { exp = exp + it("File manager"@, MenuCommand::FileManager) + it("Command palette"@, MenuCommand::CommandPalette); }
    assert(items_are(items@, exp));
    assert(exp =~= terminal_items_spec(has_link));
    items
}


/// The tab menu for tab `tab_idx` of a window with `count` tabs whose
/// active tab is `active`: activating it (unless active), new tab,
/// duplicate, rename, moving left/right and merging into the left/right
/// neighbour where there is one, moving to a new window and closing the
/// others when there are several tabs, closing it and the tabs to its
/// right.
pub open spec fn tab_items_spec(tab_idx: usize, count: usize, active: usize) -> Seq<(Seq<char>, Option<MenuCommand>)> {
    let i = tab_idx;
    let has_left = i > 0;
    let has_right = i + 1 < count;
    let several = count > 1;
    (if active != i { it("Activate tab"@, MenuCommand::ActivateTab(i)) + sep() } else { Seq::empty() })
        + it("New tab"@, MenuCommand::NewTab) + it("Duplicate tab"@, MenuCommand::DuplicateTab(i))
        + it("Rename tab"@, MenuCommand::RenameTab(i)) + sep()
        + (if has_left { it("Move tab left"@, MenuCommand::MoveTabLeft(i)) } else { Seq::empty() })
        + (if has_right { it("Move tab right"@, MenuCommand::MoveTabRight(i)) } else { Seq::empty() })
        + (if has_left { it("Merge into left tab"@, MenuCommand::MergeIntoLeftTab(i)) } else { Seq::empty() })
        + (if has_right { it("Merge into right tab"@, MenuCommand::MergeIntoRightTab(i)) } else { Seq::empty() })
        + (if several { it("Move tab to new window"@, MenuCommand::MoveTabToNewWindow(i)) } else { Seq::empty() })
        + sep() + it("Close tab"@, MenuCommand::CloseTab(i))
        + (if several { it("Close other tabs"@, MenuCommand::CloseOtherTabs(i)) } else { Seq::empty() })
        + (if has_right { it("Close tabs to the right"@, MenuCommand::CloseTabsToTheRight(i)) } else { Seq::empty() })
}

/// The items of the tab menu (see `tab_items_spec`); none when the window
/// is gone (`tabs` is `None`). `tabs` is the window's tab count and active
/// tab index.
#[verifier::rlimit(60)]
pub fn tab_menu_items(tab_idx: usize, tabs: Option<(usize, usize)>) -> (r: Vec<MenuItem>)
    ensures
        match tabs {
            None => r@.len() == 0,
            Some((count, active)) => items_are(r@, tab_items_spec(tab_idx, count, active)),
        },
{
    let mut items: Vec<MenuItem> = Vec::new();
    let (count, active) = match tabs {
        None => return items,
        Some(t) => t,
    };
    let i = tab_idx;
    let has_left = i > 0;
    let has_right = count > 0 && i < count - 1;
    let several = count > 1;
    let ghost mut exp: Seq<(Seq<char>, Option<MenuCommand>)> = Seq::empty();
    if active != i {
        push_item(&mut items, "Activate tab", MenuCommand::ActivateTab(i));
        push_sep(&mut items);
        proof { exp = exp + it("Activate tab"@, MenuCommand::ActivateTab(i)) + sep(); }
    }
    assert(items_are(items@, exp));
    push_item(&mut items, "New tab", MenuCommand::NewTab);
    push_item(&mut items, "Duplicate tab", MenuCommand::DuplicateTab(i));
    proof { exp = exp + it("New tab"@, MenuCommand::NewTab) + it("Duplicate tab"@, MenuCommand::DuplicateTab(i)); }
    assert(items_are(items@, exp));
    push_item(&mut items, "Rename tab", MenuCommand::RenameTab(i));
    push_sep(&mut items);
    proof { exp = exp + it("Rename tab"@, MenuCommand::RenameTab(i)) + sep(); }
    assert(items_are(items@, exp));
    if has_left {
        push_item(&mut items, "Move tab left", MenuCommand::MoveTabLeft(i));
        proof { exp = exp + it("Move tab left"@, MenuCommand::MoveTabLeft(i)); }
    }
    assert(items_are(items@, exp));
    if has_right {
        push_item(&mut items, "Move tab right", MenuCommand::MoveTabRight(i));
        proof { exp = exp + it("Move tab right"@, MenuCommand::MoveTabRight(i)); }
    }
    assert(items_are(items@, exp));
    if has_left {
        push_item(&mut items, "Merge into left tab", MenuCommand::MergeIntoLeftTab(i));
        proof { exp = exp + it("Merge into left tab"@, MenuCommand::MergeIntoLeftTab(i)); }
    }
    assert(items_are(items@, exp));
    if has_right {
        push_item(&mut items, "Merge into right tab", MenuCommand::MergeIntoRightTab(i));
        proof { exp = exp + it("Merge into right tab"@, MenuCommand::MergeIntoRightTab(i)); }
    }
    assert(items_are(items@, exp));
    if several {
        push_item(&mut items, "Move tab to new window", MenuCommand::MoveTabToNewWindow(i));
        proof { exp = exp + it("Move tab to new window"@, MenuCommand::MoveTabToNewWindow(i)); }
    }
    assert(items_are(items@, exp));
    push_sep(&mut items);
    push_item(&mut items, "Close tab", MenuCommand::CloseTab(i));
    proof { exp = exp + sep() + it("Close tab"@, MenuCommand::CloseTab(i)); }
    assert(items_are(items@, exp));
    if several {
        push_item(&mut items, "Close other tabs", MenuCommand::CloseOtherTabs(i));
        proof { exp = exp + it("Close other tabs"@, MenuCommand::CloseOtherTabs(i)); }
    }
    assert(items_are(items@, exp));
    if has_right {
        push_item(&mut items, "Close tabs to the right", MenuCommand::CloseTabsToTheRight(i));
        proof { exp = exp + it("Close tabs to the right"@, MenuCommand::CloseTabsToTheRight(i)); }
    }
    assert(items_are(items@, exp));
    assert(exp =~= tab_items_spec(tab_idx, count, active));
    items
}

/// The workspace sidebar menu for a row: for a workspace, switching to it
/// (unless it is the active one), renaming it, a new window in it and
/// closing it; then, on any row, a new workspace and hiding the sidebar.
pub open spec fn sidebar_items_ok(items: Seq<MenuItem>, entry: Option<(Seq<char>, bool)>) -> bool {
    let tail = seq![("New workspace..."@, Some(MenuCommand::NewWorkspace)), ("Hide sidebar"@, Some(MenuCommand::HideSidebar))];
    match entry {
        None => items_are(items, tail),
        Some((name, is_active)) => {
            let k: int = if is_active { 0 } else { 1 };
            &&& items.len() == k + 7
            &&& (!is_active ==> (items[0].label@ == "Switch to '"@ + name + "'"@ && (items[0].action matches MenuAction::Workspace(WorkspaceCommand::Switch(n)) && n@ == name)))
            &&& items[k].label@ == "Rename workspace..."@
            &&& (items[k].action matches MenuAction::Workspace(WorkspaceCommand::Rename(n)) && n@ == name)
            &&& items[k + 1].label@ == "New window in workspace"@
            &&& (items[k + 1].action matches MenuAction::Workspace(WorkspaceCommand::NewWindow(n)) && n@ == name)
            &&& items[k + 2].action is Separator
            &&& items[k + 3].label@ == "Close workspace..."@
            &&& (items[k + 3].action matches MenuAction::Workspace(WorkspaceCommand::Close(n)) && n@ == name)
            &&& items[k + 4].action is Separator
            &&& items_are(items.subrange(k + 5, k + 7), tail)
        },
    }
}

/// The items of the workspace sidebar menu for `entry`, the workspace on
/// the row (its name and whether it is active), if any.
pub fn sidebar_menu_items(entry: Option<(String, bool)>) -> (r: Vec<MenuItem>)
    ensures
        sidebar_items_ok(r@, match entry { Some((n, a)) => Some((n@, a)), None => None }),
{
    let mut items: Vec<MenuItem> = Vec::new();
    match entry {
        Some((name, is_active)) => {
            if !is_active {
                let mut label = to_string("Switch to '");
                push_str(&mut label, name.as_str());
                push_str(&mut label, "'");
                items.push(MenuItem { label, action: MenuAction::Workspace(WorkspaceCommand::Switch(name.clone())) });
            }
            items.push(MenuItem { label: to_string("Rename workspace..."), action: MenuAction::Workspace(WorkspaceCommand::Rename(name.clone())) });
            items.push(MenuItem { label: to_string("New window in workspace"), action: MenuAction::Workspace(WorkspaceCommand::NewWindow(name.clone())) });
            push_sep(&mut items);
            items.push(MenuItem { label: to_string("Close workspace..."), action: MenuAction::Workspace(WorkspaceCommand::Close(name.clone())) });
            push_sep(&mut items);
        },
        None => {},
    }
    let ghost k = items@.len() as int;
    push_item(&mut items, "New workspace...", MenuCommand::NewWorkspace);
    push_item(&mut items, "Hide sidebar", MenuCommand::HideSidebar);
    proof {
        let tail = seq![("New workspace..."@, Some(MenuCommand::NewWorkspace)), ("Hide sidebar"@, Some(MenuCommand::HideSidebar))];
        assert(items_are(items@.subrange(k, k + 2), tail));
        if k == 0 {
            assert(items@ =~= items@.subrange(0, 2));
        }
    }
    items
}

/// An open context menu: its items, the pixel position of its top-left
/// corner (usually the mouse cursor) and the keyboard selection.
pub struct ContextMenu {
    pub items: Vec<MenuItem>,
    pub x: isize,
    pub y: isize,
    pub selected: Option<usize>,
}

/// The index reached after `k` steps from `start` in direction `forward`
/// round a menu of `n` items.
pub open spec fn step_index(start: int, forward: bool, n: int, k: int) -> int {
    if forward { (start + k) % n } else { (start - k) % n }
}

/// The first index, `k` or more steps from `start` (at most `n`), that
/// is not a separator.
pub open spec fn first_selectable(items: Seq<MenuItem>, start: int, forward: bool, k: int) -> Option<int>
    decreases items.len() + 1 - k,
{
    let n = items.len() as int;
    if k < 1 || k > n {
        None
    } else if !items[step_index(start, forward, n, k)].spec_is_separator() {
        Some(step_index(start, forward, n, k))
    } else {
        first_selectable(items, start, forward, k + 1)
    }
}

/// Where the keyboard selection starts counting from: the selected item,
/// or just before the first (just after the last) item when nothing is
/// selected.
pub open spec fn selection_start(sel: Option<usize>, forward: bool, n: int) -> int {
    match sel {
        Some(i) => i as int,
        None => if forward { -1 } else { n },
    }
}

/// The index reached after `k` steps of `delta` from `start` round a
/// menu of `n` items.
pub open spec fn step_by(start: int, delta: int, n: int, k: int) -> int {
    (start + k * delta) % n
}

/// The first index, `k` or more steps of `delta` from `start` (at most
/// `n` steps), that is not a separator.
pub open spec fn first_selectable_by(items: Seq<MenuItem>, start: int, delta: int, k: int) -> Option<int>
    decreases items.len() + 1 - k,
{
    let n = items.len() as int;
    if k < 1 || k > n {
        None
    } else if !items[step_by(start, delta, n, k)].spec_is_separator() {
        Some(step_by(start, delta, n, k))
    } else {
        first_selectable_by(items, start, delta, k + 1)
    }
}

/// Where the keyboard selection starts counting from: the selected item,
/// or, when nothing is selected, just before the first item for a step
/// forward and just after the last one otherwise.
pub open spec fn selection_start_by(sel: Option<usize>, delta: int, n: int) -> int {
    match sel {
        Some(i) => i as int,
        None => if delta > 0 { -1 } else { n },
    }
}

/// Where the keyboard selection of `items` moves from `sel` by steps of
/// `delta` (taken round the menu): to the first item so reached that is
/// not a separator, within as many steps as there are items; it stays
/// when none is.
pub open spec fn moved_selection(items: Seq<MenuItem>, sel: Option<usize>, delta: int) -> Option<usize> {
    match first_selectable_by(items, selection_start_by(sel, delta, items.len() as int), delta, 1) {
        Some(i) => Some(i as usize),
        None => sel,
    }
}

/// With steps of 1 or -1, stepping by `delta` is stepping forward or
/// backward one item at a time.
proof fn lemma_unit_steps(items: Seq<MenuItem>, start: int, delta: int, k: int)
    requires
        delta == 1 || delta == -1,
        k >= 1,
    ensures
        first_selectable_by(items, start, delta, k) == first_selectable(items, start, delta == 1, k),
    decreases items.len() + 1 - k,
{
    let n = items.len() as int;
    assert(k * delta == (if delta == 1 { k } else { -k })) by (nonlinear_arith)
        requires delta == 1 || delta == -1;
    assert(step_by(start, delta, n, k) == step_index(start, delta == 1, n, k));
    if k <= n {
        lemma_unit_steps(items, start, delta, k + 1);
    }
}

/// Moving by steps of 1 or -1 is `moved_selection` with one item at a
/// time.
proof fn lemma_unit_moves(items: Seq<MenuItem>, sel: Option<usize>, delta: int)
    requires
        delta == 1 || delta == -1,
    ensures
        moved_selection(items, sel, delta) == match first_selectable(items, selection_start(sel, delta == 1, items.len() as int), delta == 1, 1) {
            Some(i) => Some(i as usize),
            None => sel,
        },
{
    let n = items.len() as int;
    assert(selection_start_by(sel, delta, n) == selection_start(sel, delta == 1, n));
    lemma_unit_steps(items, selection_start(sel, delta == 1, n), delta, 1);
}

/// One more step of `delta` round the menu: the index after `k + 1`
/// steps is `cur`, the index after `k` steps (or `start` when `k` is 0),
/// moved by `d` (`delta` brought into `0..n`) and brought back into
/// `0..n`.
proof fn lemma_step_by_next(start: int, delta: int, n: int, k: int, cur: int, d: int)
    requires
        n > 0,
        k >= 0,
        -1 <= start <= n,
        cur == (if k == 0 { start } else { step_by(start, delta, n, k) }),
        d == delta % n,
    ensures
        -1 <= cur <= n,
        -1 <= cur + d < 2 * n,
        step_by(start, delta, n, k + 1) == (if cur + d < 0 { cur + d + n } else if cur + d >= n { cur + d - n } else { cur + d }),
{
    let x = start + k * delta;
    let x1 = start + (k + 1) * delta;
    assert(x1 == x + delta) by (nonlinear_arith)
        requires x == start + k * delta, x1 == start + (k + 1) * delta;
    vstd::arithmetic::div_mod::lemma_fundamental_div_mod(x, n);
    vstd::arithmetic::div_mod::lemma_fundamental_div_mod(delta, n);
    let q = x / n;
    let t = delta / n;
    let qc: int = if k == 0 { 0 } else { q };
    if k == 0 {
        assert(k * delta == 0) by (nonlinear_arith)
            requires k == 0;
    }
    assert(cur == x - qc * n);
    let s = cur + d;
    assert(x1 == (qc + t) * n + s) by (nonlinear_arith)
        requires
            x1 == x + delta,
            cur == x - qc * n,
            delta == n * t + d,
            s == cur + d;
    if s < 0 {
        assert(x1 == (qc + t - 1) * n + (s + n)) by (nonlinear_arith)
            requires x1 == (qc + t) * n + s;
        vstd::arithmetic::div_mod::lemma_fundamental_div_mod_converse(x1, n, qc + t - 1, s + n);
    } else if s >= n {
        assert(x1 == (qc + t + 1) * n + (s - n)) by (nonlinear_arith)
            requires x1 == (qc + t) * n + s;
        vstd::arithmetic::div_mod::lemma_fundamental_div_mod_converse(x1, n, qc + t + 1, s - n);
    } else {
        vstd::arithmetic::div_mod::lemma_fundamental_div_mod_converse(x1, n, qc + t, s);
    }
}

/// The index after `k` steps round a menu of `n > 0` items is an index of
/// it.
proof fn lemma_step_index_bounds(start: int, forward: bool, n: int, k: int)
    requires
        n > 0,
    ensures
        0 <= step_index(start, forward, n, k) < n,
{
    let x = if forward { start + k } else { start - k };
    vstd::arithmetic::div_mod::lemma_fundamental_div_mod(x, n);
}

/// Every index `j` of a menu of `n` items is reached within `n` steps.
proof fn lemma_step_index_reaches(start: int, forward: bool, n: int, j: int) -> (k: int)
    requires
        n > 0,
        0 <= j < n,
    ensures
        1 <= k <= n,
        step_index(start, forward, n, k) == j,
{
    let d = if forward { j - start } else { start - j };
    vstd::arithmetic::div_mod::lemma_fundamental_div_mod(d, n);
    let t = d / n;
    let k0 = d % n;
    let k = if k0 == 0 { n } else { k0 };
    if forward {
        assert(start + k == (if k0 == 0 { 1 - t } else { -t }) * n + j) by (nonlinear_arith)
            requires d == j - start, d == n * t + k0, k == (if k0 == 0 { n } else { k0 });
        vstd::arithmetic::div_mod::lemma_fundamental_div_mod_converse(start + k, n, if k0 == 0 { 1 - t } else { -t }, j);
    } else {
        assert(start - k == (if k0 == 0 { t - 1 } else { t }) * n + j) by (nonlinear_arith)
            requires d == start - j, d == n * t + k0, k == (if k0 == 0 { n } else { k0 });
        vstd::arithmetic::div_mod::lemma_fundamental_div_mod_converse(start - k, n, if k0 == 0 { t - 1 } else { t }, j);
    }
    k
}

/// When some step from `k` on (up to `n`) reaches an item that is not a
/// separator, `first_selectable` finds one.
proof fn lemma_first_selectable_found(items: Seq<MenuItem>, start: int, forward: bool, k: int, k2: int)
    requires
        items.len() > 0,
        1 <= k <= k2 <= items.len(),
        !items[step_index(start, forward, items.len() as int, k2)].spec_is_separator(),
    ensures
        first_selectable(items, start, forward, k) matches Some(i) && 0 <= i < items.len()
            && !items[i].spec_is_separator(),
    decreases k2 - k,
{
    let n = items.len() as int;
    lemma_step_index_bounds(start, forward, n, k);
    if items[step_index(start, forward, n, k)].spec_is_separator() {
        lemma_first_selectable_found(items, start, forward, k + 1, k2);
    }
}

/// Moving the keyboard selection of a menu that has an item other than
/// a separator one item down or up always lands on such an item,
/// whatever was selected.
pub proof fn law_selection_lands_on_item(items: Seq<MenuItem>, sel: Option<usize>, delta: int, j: int)
    requires
        delta == 1 || delta == -1,
        items.len() <= usize::MAX,
        0 <= j < items.len(),
        !items[j].spec_is_separator(),
    ensures
        moved_selection(items, sel, delta) matches Some(i) && i < items.len()
            && !items[i as int].spec_is_separator(),
{
    let n = items.len() as int;
    let forward = delta == 1;
    lemma_unit_moves(items, sel, delta);
    let start = selection_start(sel, forward, n);
    let k = lemma_step_index_reaches(start, forward, n, j);
    lemma_first_selectable_found(items, start, forward, 1, k);
}

/// `first_selectable` from step `m` finds the item `K` steps away when
/// every step from `m` up to `K` lands on a separator and step `K` does
/// not.
proof fn lemma_first_selectable_is(items: Seq<MenuItem>, start: int, forward: bool, m: int, big_k: int)
    requires
        1 <= m <= big_k <= items.len(),
        forall|k: int| m <= k < big_k ==> items[#[trigger] step_index(start, forward, items.len() as int, k)].spec_is_separator(),
        !items[step_index(start, forward, items.len() as int, big_k)].spec_is_separator(),
    ensures
        first_selectable(items, start, forward, m) == Some(step_index(start, forward, items.len() as int, big_k)),
    decreases big_k - m,
{
    if m < big_k {
        assert(items[step_index(start, forward, items.len() as int, m)].spec_is_separator());
        lemma_first_selectable_is(items, start, forward, m + 1, big_k);
    }
}

/// What `first_selectable` from step `m` found: the item `K` steps away,
/// with separators at every step from `m` up to `K`.
proof fn lemma_first_selectable_found_at(items: Seq<MenuItem>, start: int, forward: bool, m: int) -> (big_k: int)
    requires
        1 <= m,
        first_selectable(items, start, forward, m) is Some,
    ensures
        m <= big_k <= items.len(),
        first_selectable(items, start, forward, m) == Some(step_index(start, forward, items.len() as int, big_k)),
        !items[step_index(start, forward, items.len() as int, big_k)].spec_is_separator(),
        forall|k: int| m <= k < big_k ==> items[#[trigger] step_index(start, forward, items.len() as int, k)].spec_is_separator(),
    decreases items.len() + 1 - m,
{
    let n = items.len() as int;
    if !items[step_index(start, forward, n, m)].spec_is_separator() {
        m
    } else {
        lemma_first_selectable_found_at(items, start, forward, m + 1)
    }
}

/// Moving the keyboard selection from an item (not a separator) down and
/// then back up, or up and then back down, returns to that item.
pub proof fn law_selection_moves_are_undone(items: Seq<MenuItem>, i: usize, delta: int)
    requires
        delta == 1 || delta == -1,
        items.len() <= usize::MAX,
        i < items.len(),
        !items[i as int].spec_is_separator(),
    ensures
        moved_selection(items, moved_selection(items, Some(i), delta), -delta) == Some(i),
{
    let n = items.len() as int;
    let forward = delta == 1;
    let back = !forward;
    lemma_unit_moves(items, Some(i), delta);
    let k = lemma_step_index_reaches(i as int, forward, n, i as int);
    lemma_first_selectable_found(items, i as int, forward, 1, k);
    let k1 = lemma_first_selectable_found_at(items, i as int, forward, 1);
    let j = step_index(i as int, forward, n, k1);
    lemma_step_index_bounds(i as int, forward, n, k1);
    assert(moved_selection(items, Some(i), delta) == Some(j as usize));
    lemma_unit_moves(items, Some(j as usize), -delta);
    assert(selection_start(Some(j as usize), back, n) == j);
    // stepping back `k2` from `j` is stepping `k1 - k2` from `i`
    let x = if forward { i + k1 } else { i - k1 };
    vstd::arithmetic::div_mod::lemma_fundamental_div_mod(x, n);
    let q = x / n;
    assert(x == n * q + j);
    assert forall|k2: int| 1 <= k2 <= k1 implies #[trigger] step_index(j, back, n, k2) == step_index(i as int, forward, n, k1 - k2) by {
        let y = if forward { i + (k1 - k2) } else { i - (k1 - k2) };
        vstd::arithmetic::div_mod::lemma_fundamental_div_mod(y, n);
        let t = y / n;
        let r = y % n;
        let z = if back { j + k2 } else { j - k2 };
        assert(z == (t - q) * n + r) by (nonlinear_arith)
            requires
                x == n * q + j,
                y == n * t + r,
                x == (if forward { i + k1 } else { i - k1 }),
                y == (if forward { i + (k1 - k2) } else { i - (k1 - k2) }),
                z == (if back { j + k2 } else { j - k2 }),
                back == !forward;
        vstd::arithmetic::div_mod::lemma_fundamental_div_mod_converse(z, n, t - q, r);
    }
    vstd::arithmetic::div_mod::lemma_small_mod(i as nat, n as nat);
    assert(step_index(i as int, forward, n, 0) == i);
    assert forall|k2: int| 1 <= k2 < k1 implies items[#[trigger] step_index(j, back, n, k2)].spec_is_separator() by {
        assert(step_index(j, back, n, k2) == step_index(i as int, forward, n, k1 - k2));
        assert(1 <= k1 - k2 < k1);
    }
    lemma_first_selectable_is(items, j, back, 1, k1);
}

/// What a key press in an open context menu does.
#[derive(Clone, Copy, PartialEq, Eq, Structural, Debug)]
pub enum MenuKey {
    /// close the menu
    Cancel,
    /// the selection moved; redraw
    Moved,
    /// run the item at this index (closing the menu)
    Activate(usize),
    /// nothing; the key is swallowed
    Swallow,
}

impl ContextMenu {
    /// A menu at `(x, y)` with nothing selected.
    pub fn new(items: Vec<MenuItem>, x: isize, y: isize) -> (r: ContextMenu)
        ensures
            r.items == items,
            r.x == x,
            r.y == y,
            r.selected is None,
    {
        ContextMenu { items, x, y, selected: None }
    }

    pub open spec fn wf(&self) -> bool {
        &&& self.items@.len() < isize::MAX
        &&& (self.selected matches Some(i) ==> i < self.items@.len())
    }

    /// Moves the keyboard selection by steps of `delta` (taken round the
    /// menu) to the first item so reached that is not a separator.
    pub fn move_selection(&mut self, delta: isize)
        requires
            old(self).wf(),
        ensures
            final(self).wf(),
            final(self).items == old(self).items,
            final(self).selected == moved_selection(old(self).items@, old(self).selected, delta as int),
    {
        let n = self.items.len();
        if n == 0 {
            return;
        }
        let ghost ni = n as int;
        let ghost start: int = selection_start_by(self.selected, delta as int, ni);
        let ghost items = self.items@;
        let nn: i128 = n as i128;
        let dl: i128 = delta as i128;
        let d: i128 = if dl >= 0 {
            ((dl as u128) % (nn as u128)) as i128
        } else {
            let m: i128 = (((-dl) as u128) % (nn as u128)) as i128;
            proof {
                vstd::arithmetic::div_mod::lemma_fundamental_div_mod(-dl as int, nn as int);
                let a = (-dl as int) / (nn as int);
                if m == 0 {
                    assert(dl == (-a) * nn + 0) by (nonlinear_arith)
                        requires -dl == nn * a + m, m == 0;
                    vstd::arithmetic::div_mod::lemma_fundamental_div_mod_converse(dl as int, nn as int, -a, 0);
                } else {
                    assert(dl == (-a - 1) * nn + (nn - m)) by (nonlinear_arith)
                        requires -dl == nn * a + m;
                    vstd::arithmetic::div_mod::lemma_fundamental_div_mod_converse(dl as int, nn as int, -a - 1, nn - m);
                }
            }
            if m == 0 { 0 } else { nn - m }
        };
        assert(d == (delta as int) % ni);
        let mut idx: i128 = match self.selected {
            Some(i) => i as i128,
            None => if delta > 0 { -1 } else { nn },
        };
        let mut k: usize = 0;
        while k < n
            invariant
                n == self.items@.len(),
                items == self.items@,
                ni == n,
                nn == n,
                0 < n < isize::MAX,
                d == (delta as int) % ni,
                k <= n,
                idx == if k == 0 { start } else { step_by(start, delta as int, ni, k as int) },
                -1 <= start <= ni,
                first_selectable_by(items, start, delta as int, 1) == first_selectable_by(items, start, delta as int, k + 1),
                self.wf(),
                self.items == old(self).items,
                self.selected == old(self).selected,
                start == selection_start_by(self.selected, delta as int, ni),
            decreases n - k,
        {
            proof {
                lemma_step_by_next(start, delta as int, ni, k as int, idx as int, d as int);
            }
            let mut next = idx + d;
            if next < 0 {
                next = next + nn;
            } else if next >= nn {
                next = next - nn;
            }
            k = k + 1;
            idx = next;
            if !self.items[idx as usize].is_separator() {
                self.selected = Some(idx as usize);
                return;
            }
        }
    }

    /// Handles a key press: Escape or Ctrl-G closes the menu, Up/`k`/
    /// Ctrl-P and Down/`j`/Ctrl-N move the selection, Enter runs the
    /// selected item; every other key is swallowed.
    pub fn key_down(&mut self, k: &KeyInput) -> (r: MenuKey)
        requires
            old(self).wf(),
        ensures
            final(self).wf(),
            final(self).items == old(self).items,
            if (k.key == Key::Escape && k.mods.spec_is_none()) || (k.key == Key::Char('g') && k.mods.spec_is_ctrl_only()) {
                r == MenuKey::Cancel && final(self).selected == old(self).selected
            } else if (k.key == Key::UpArrow && k.mods.spec_is_none()) || (k.key == Key::Char('k') && k.mods.spec_is_none()) || (k.key == Key::Char('p') && k.mods.spec_is_ctrl_only()) {
                r == MenuKey::Moved && final(self).selected == moved_selection(old(self).items@, old(self).selected, -1)
            } else if (k.key == Key::DownArrow && k.mods.spec_is_none()) || (k.key == Key::Char('j') && k.mods.spec_is_none()) || (k.key == Key::Char('n') && k.mods.spec_is_ctrl_only()) {
                r == MenuKey::Moved && final(self).selected == moved_selection(old(self).items@, old(self).selected, 1)
            } else if k.key == Key::Enter && k.mods.spec_is_none() {
                final(self).selected == old(self).selected && r == match old(self).selected {
                    Some(i) => MenuKey::Activate(i),
                    None => MenuKey::Swallow,
                }
            } else {
                r == MenuKey::Swallow && final(self).selected == old(self).selected
            },
    {
        let none = k.mods.is_none();
        let ctrl = k.mods.is_ctrl_only();
        let is_char = |c: char| -> (b: bool)
            ensures
                b == (k.key == Key::Char(c)),
        {
            match k.key {
                Key::Char(d) => d == c,
                _ => false,
            }
        };
        if (k.key == Key::Escape && none) || (is_char('g') && ctrl) {
            MenuKey::Cancel
        } else if (k.key == Key::UpArrow && none) || (is_char('k') && none) || (is_char('p') && ctrl) {
            self.move_selection(-1);
            MenuKey::Moved
        } else if (k.key == Key::DownArrow && none) || (is_char('j') && none) || (is_char('n') && ctrl) {
            self.move_selection(1);
            MenuKey::Moved
        } else if k.key == Key::Enter && none {
            match self.selected {
                Some(i) => MenuKey::Activate(i),
                None => MenuKey::Swallow,
            }
        } else {
            MenuKey::Swallow
        }
    }
}
} // verus!
