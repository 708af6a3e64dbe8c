use ezterm_gui::term_window::{duplicate_tab_cwd, working_dir_clipboard_text};
use ezterm_gui::drag::{
    pane_drag_label, plan_pane_drop, tab_drag_label, BarHit, DropLayout, PaneDrag,
    PaneDropFacts, PaneDropPlan, PaneDropTarget, PanePointer, PaneZone, PointerEvent,
    SidebarArea, SplitDirection, TabDropAction, TabDropTarget, TabItem, ZoneHighlight,
};
use ezterm_gui::input::{Key, KeyInput, Modifiers};
use ezterm_gui::menus::{
    sidebar_menu_items, tab_menu_items, terminal_menu_items, ContextMenu, ContextMenuKind,
    MenuAction, MenuCommand, MenuItem, MenuKey, WorkspaceCommand,
};
use ezterm_gui::term_window::{CloseTabs, Modal, TabInfo, TermWindow, WindowTabs, WorkspaceMove};
use ezterm_gui::workspaces::WorkspaceSidebarEntry;

fn mods() -> Modifiers {
    Modifiers { shift: false, ctrl: false, alt: false, super_key: false, other: false }
}

fn ctrl() -> Modifiers {
    Modifiers { shift: false, ctrl: true, alt: false, super_key: false, other: false }
}

fn labels(items: &[MenuItem]) -> Vec<String> {
    items.iter().map(|i| i.label.clone()).collect()
}

fn command(item: &MenuItem) -> Option<MenuCommand> {
    match &item.action {
        MenuAction::Command(c) => Some(c.clone()),
        _ => None,
    }
}

fn tabs(ids: &[usize], prompts: &[bool], active: usize) -> WindowTabs {
    WindowTabs {
        tabs: ids.iter().zip(prompts).map(|(id, p)| TabInfo { id: *id, close_prompts: *p }).collect(),
        active,
        workspace: "default".to_string(),
    }
}

fn window(t: Option<WindowTabs>) -> TermWindow {
    TermWindow {
        tabs: t,
        modal: None,
        tab_drag: None,
        pane_drag: None,
        workspaces: vec![
            WorkspaceSidebarEntry { name: "default".to_string(), windows: 2, is_active: true },
            WorkspaceSidebarEntry { name: "work".to_string(), windows: 1, is_active: false },
        ],
        sidebar_last_click: None,
    }
}

fn ev(x: isize, y: isize) -> PointerEvent {
    PointerEvent { x, y, screen_x: x + 1000, screen_y: y + 500, shift: false }
}

fn layout() -> DropLayout {
    DropLayout {
        pixel_width: 800,
        pixel_height: 600,
        sidebar: Some(SidebarArea { left: 0, width: 100, top: 0, cell_height: 20 }),
        tabs: vec![
            TabItem { tab_idx: 1, x: 200, width: 100, y: 0 },
            TabItem { tab_idx: 0, x: 100, width: 100, y: 0 },
            TabItem { tab_idx: 2, x: 300, width: 100, y: 0 },
        ],
        bar_above: 30,
        bar_below: 60,
    }
}

#[test]
fn terminal_menu_with_and_without_link() {
    let items = terminal_menu_items(false);
    assert_eq!(
        labels(&items),
        vec![
            "Copy", "Paste", "Select all (copy mode)", "", "Split right", "Split down",
            "Toggle pane zoom", "Close pane", "", "New tab", "Copy working directory", "",
            "File manager", "Command palette",
        ]
    );
    assert!(items[3].is_separator());
    let with_link = terminal_menu_items(true);
    assert_eq!(with_link.len(), items.len() + 2);
    assert_eq!(command(&with_link[0]), Some(MenuCommand::OpenLink));
    assert!(with_link[1].is_separator());
}

#[test]
fn tab_menu_depends_on_position() {
    let middle = tab_menu_items(1, Some((3, 0)));
    assert_eq!(
        labels(&middle),
        vec![
            "Activate tab", "", "New tab", "Duplicate tab", "Rename tab", "", "Move tab left",
            "Move tab right", "Merge into left tab", "Merge into right tab",
            "Move tab to new window", "", "Close tab", "Close other tabs", "Close tabs to the right",
        ]
    );
    assert_eq!(command(&middle[0]), Some(MenuCommand::ActivateTab(1)));
    let only = tab_menu_items(0, Some((1, 0)));
    assert_eq!(labels(&only), vec!["New tab", "Duplicate tab", "Rename tab", "", "", "Close tab"]);
    assert!(tab_menu_items(0, None).is_empty());
}

#[test]
fn sidebar_menu_for_rows() {
    let items = sidebar_menu_items(Some(("work".to_string(), false)));
    assert_eq!(
        labels(&items),
        vec![
            "Switch to 'work'", "Rename workspace...", "New window in workspace", "",
            "Close workspace...", "", "New workspace...", "Hide sidebar",
        ]
    );
    assert!(matches!(&items[0].action, MenuAction::Workspace(WorkspaceCommand::Switch(n)) if n == "work"));
    let active = sidebar_menu_items(Some(("default".to_string(), true)));
    assert_eq!(active.len(), 7);
    let blank = sidebar_menu_items(None);
    assert_eq!(labels(&blank), vec!["New workspace...", "Hide sidebar"]);
}

#[test]
fn menu_keyboard_skips_separators_and_wraps() {
    let mut menu = ContextMenu::new(terminal_menu_items(false), 10, 20);
    menu.move_selection(1);
    assert_eq!(menu.selected, Some(0));
    menu.move_selection(-1);
    assert_eq!(menu.selected, Some(13));
    menu.selected = Some(2);
    menu.move_selection(1);
    assert_eq!(menu.selected, Some(4));
    menu.move_selection(-1);
    assert_eq!(menu.selected, Some(2));
    let mut seps = ContextMenu::new(vec![MenuItem::separator(), MenuItem::separator()], 0, 0);
    seps.move_selection(1);
    assert_eq!(seps.selected, None);
}

#[test]
fn menu_key_handling() {
    let mut menu = ContextMenu::new(terminal_menu_items(false), 0, 0);
    let down = KeyInput { key: Key::Char('j'), mods: mods() };
    assert_eq!(menu.key_down(&down), MenuKey::Moved);
    assert_eq!(menu.selected, Some(0));
    let ctrl_n = KeyInput { key: Key::Char('n'), mods: ctrl() };
    assert_eq!(menu.key_down(&ctrl_n), MenuKey::Moved);
    assert_eq!(menu.selected, Some(1));
    let enter = KeyInput { key: Key::Enter, mods: mods() };
    assert_eq!(menu.key_down(&enter), MenuKey::Activate(1));
    let other = KeyInput { key: Key::Char('x'), mods: mods() };
    assert_eq!(menu.key_down(&other), MenuKey::Swallow);
    let esc = KeyInput { key: Key::Escape, mods: mods() };
    assert_eq!(menu.key_down(&esc), MenuKey::Cancel);
    let ctrl_g = KeyInput { key: Key::Char('g'), mods: ctrl() };
    assert_eq!(menu.key_down(&ctrl_g), MenuKey::Cancel);
}

#[test]
fn context_menu_kind_names() {
    assert_eq!(ContextMenuKind::Terminal.lua_name(), "terminal");
    assert_eq!(ContextMenuKind::Tab(3).lua_name(), "tab");
    assert_eq!(ContextMenuKind::Tab(3).tab_idx(), Some(3));
    assert_eq!(ContextMenuKind::Terminal.tab_idx(), None);
}

#[test]
fn showing_and_activating_a_menu() {
    let mut w = window(Some(tabs(&[7, 8], &[false, false], 0)));
    assert!(!w.context_menu_is_open());
    w.show_menu_at(vec![], 5, 5);
    assert!(!w.context_menu_is_open());
    w.open_default_context_menu(ContextMenuKind::Terminal, false, 5, 6);
    assert!(w.context_menu_is_open());
    assert!(w.context_menu_activate(99).is_none());
    assert!(w.context_menu_is_open());
    let action = w.context_menu_activate(1).unwrap();
    assert!(matches!(action, MenuAction::Command(MenuCommand::Paste)));
    assert!(!w.context_menu_is_open());
    assert!(w.context_menu_activate(0).is_none());
    w.modal = Some(Modal::Other);
    assert!(!w.context_menu_is_open());
}

#[test]
fn tab_menu_needs_the_window() {
    let mut gone = window(None);
    gone.open_default_context_menu(ContextMenuKind::Tab(0), false, 0, 0);
    assert!(!gone.context_menu_is_open());
    let mut w = window(Some(tabs(&[7, 8], &[false, false], 1)));
    w.open_default_context_menu(ContextMenuKind::Tab(0), false, 0, 0);
    match &w.modal {
        Some(Modal::ContextMenu(m)) => assert_eq!(m.items[0].label, "Activate tab"),
        _ => panic!("no menu"),
    }
}

#[test]
fn close_other_tabs_and_to_the_right() {
    let w = window(Some(tabs(&[1, 2, 3, 4], &[false, true, false, false], 1)));
    match w.close_other_tabs(false) {
        CloseTabs::Remove(ids) => assert_eq!(ids, vec![1, 3, 4]),
        _ => panic!("expected removal"),
    }
    match w.close_tabs_to_the_right(true) {
        CloseTabs::Remove(ids) => assert_eq!(ids, vec![3, 4]),
        _ => panic!("expected removal"),
    }
    let w2 = window(Some(tabs(&[1, 2, 3], &[false, false, true], 0)));
    match w2.close_other_tabs(true) {
        CloseTabs::Confirm(ids) => assert_eq!(ids, vec![2, 3]),
        _ => panic!("expected confirmation"),
    }
    let last = window(Some(tabs(&[1, 2], &[true, true], 1)));
    assert!(matches!(last.close_tabs_to_the_right(true), CloseTabs::Nothing));
    assert!(matches!(window(None).close_other_tabs(true), CloseTabs::Nothing));
}

#[test]
fn move_tab_to_new_window_needs_two_tabs() {
    assert_eq!(window(Some(tabs(&[1], &[false], 0))).move_tab_to_new_window(), None);
    assert_eq!(window(Some(tabs(&[1, 2], &[false, false], 1))).move_tab_to_new_window(), Some(1));
    assert_eq!(window(None).move_tab_to_new_window(), None);
}

#[test]
fn activating_a_tab_first() {
    let mut w = window(Some(tabs(&[1, 2, 3], &[false, false, false], 0)));
    assert!(w.with_tab_activated(2));
    assert_eq!(w.tabs.as_ref().unwrap().active, 2);
    assert!(w.with_tab_activated(9));
    assert_eq!(w.tabs.as_ref().unwrap().active, 2);
    let mut gone = window(None);
    assert!(!gone.with_tab_activated(0));
}

#[test]
fn tab_ids_and_workspace_moves() {
    let w = window(Some(tabs(&[10, 20, 30], &[false, false, false], 0)));
    assert_eq!(w.tab_id_at(1), Some(20));
    assert_eq!(w.tab_id_at(3), None);
    assert!(matches!(w.move_tab_to_workspace(20, "work", Some(5)), WorkspaceMove::IntoWindow { tab_idx: 1, window_id: 5 }));
    assert!(matches!(w.move_tab_to_workspace(30, "work", None), WorkspaceMove::NewWindow { tab_idx: 2 }));
    assert!(matches!(w.move_tab_to_workspace(20, "default", Some(5)), WorkspaceMove::Nothing));
    assert!(matches!(w.move_tab_to_workspace(99, "work", Some(5)), WorkspaceMove::Nothing));
    assert_eq!(w.merge_tab_into(10, true, 1), Some(20));
    assert_eq!(w.merge_tab_into(20, true, 1), None);
    assert_eq!(w.merge_tab_into(10, false, 1), None);
    assert_eq!(w.merge_tab_into(10, true, 7), None);
}

fn dragging_tab(idx: usize) -> TermWindow {
    let mut w = window(Some(tabs(&[10, 20, 30], &[false, false, false], 0)));
    w.begin_tab_drag(idx, Some((20, "shell".to_string())), ev(250, 10));
    w
}

#[test]
fn tab_drag_threshold() {
    let mut w = dragging_tab(1);
    assert!(!w.tab_drag_is_active());
    assert!(!w.update_tab_drag(ev(255, 10)));
    assert!(!w.tab_drag_is_active());
    assert!(w.update_tab_drag(ev(256, 10)));
    assert!(w.tab_drag_is_active());
    assert!(w.update_tab_drag(ev(250, 10)));
    assert!(w.cancel_tab_drag());
    assert!(!w.cancel_tab_drag());
    assert!(!w.update_tab_drag(ev(0, 0)));
}

#[test]
fn tab_drop_targets() {
    let w = dragging_tab(1);
    let l = layout();
    assert!(matches!(w.tab_drop_target(ev(-5, 10), &l), TabDropTarget::NewWindow { x: 995, y: 510 }));
    assert!(matches!(w.tab_drop_target(ev(50, 30), &l), TabDropTarget::Workspace { ref name, row: 1 } if name == "default"));
    assert!(matches!(w.tab_drop_target(ev(50, 45), &l), TabDropTarget::Workspace { ref name, row: 2 } if name == "work"));
    assert!(matches!(w.tab_drop_target(ev(50, 5), &l), TabDropTarget::Nowhere));
    assert!(matches!(w.tab_drop_target(ev(50, 70), &l), TabDropTarget::Nowhere));
    assert!(matches!(w.tab_drop_target(ev(120, 10), &l), TabDropTarget::TabBar { insert_idx: 0, x: 100 }));
    assert!(matches!(w.tab_drop_target(ev(160, 10), &l), TabDropTarget::TabBar { insert_idx: 1, x: 200 }));
    assert!(matches!(w.tab_drop_target(ev(390, 10), &l), TabDropTarget::TabBar { insert_idx: 3, x: 400 }));
    assert!(matches!(w.tab_drop_target(ev(120, 100), &l), TabDropTarget::Nowhere));
    let mut shifted = ev(320, 10);
    shifted.shift = true;
    assert!(matches!(w.tab_drop_target(shifted, &l), TabDropTarget::Merge { tab_idx: 2, x: 300, width: 100 }));
    let mut own = ev(220, 10);
    own.shift = true;
    assert!(matches!(w.tab_drop_target(own, &l), TabDropTarget::TabBar { insert_idx: 1, x: 200 }));
    assert!(matches!(window(None).tab_drop_target(ev(1, 1), &l), TabDropTarget::Nowhere));
}

#[test]
fn finishing_tab_drags() {
    let l = layout();
    let mut w = dragging_tab(1);
    assert!(matches!(w.finish_tab_drag(ev(390, 10), &l), TabDropAction::Nothing));
    assert!(w.tab_drag.is_none());

    let mut w = dragging_tab(1);
    w.update_tab_drag(ev(390, 10));
    assert!(matches!(w.finish_tab_drag(ev(390, 10), &l), TabDropAction::Move { from: 1, to: 2 }));

    let mut w = dragging_tab(1);
    w.update_tab_drag(ev(260, 10));
    assert!(matches!(w.finish_tab_drag(ev(260, 10), &l), TabDropAction::Nothing));

    let mut w = dragging_tab(1);
    w.update_tab_drag(ev(120, 10));
    assert!(matches!(w.finish_tab_drag(ev(120, 10), &l), TabDropAction::Move { from: 1, to: 0 }));

    let mut w = dragging_tab(1);
    w.update_tab_drag(ev(900, 10));
    assert!(matches!(w.finish_tab_drag(ev(900, 10), &l), TabDropAction::NewWindow { tab_idx: 1, x: 1860, y: 500 }));

    let mut w = dragging_tab(1);
    w.update_tab_drag(PointerEvent { x: -1, y: -1, screen_x: 20, screen_y: 3, shift: false });
    let r = w.finish_tab_drag(PointerEvent { x: -1, y: -1, screen_x: 20, screen_y: 3, shift: false }, &l);
    assert!(matches!(r, TabDropAction::NewWindow { tab_idx: 1, x: 0, y: 0 }));

    let mut w = dragging_tab(1);
    w.update_tab_drag(ev(50, 45));
    assert!(matches!(w.finish_tab_drag(ev(50, 45), &l), TabDropAction::ToWorkspace { tab_id: 20, ref name } if name == "work"));
}

#[test]
fn drag_labels() {
    assert_eq!(tab_drag_label("vim", &TabDropTarget::NewWindow { x: 0, y: 0 }), "vim  → new window");
    assert_eq!(tab_drag_label("vim", &TabDropTarget::Merge { tab_idx: 2, x: 0, width: 1 }), "vim  → merge into tab 3");
    assert_eq!(tab_drag_label("vim", &TabDropTarget::Workspace { name: "work".to_string(), row: 2 }), "vim  → work");
    assert_eq!(tab_drag_label("vim", &TabDropTarget::TabBar { insert_idx: 0, x: 0 }), "vim");
    let split = PaneDropTarget::Split { pane_id: 1, direction: SplitDirection::Vertical, second: true };
    assert_eq!(pane_drag_label("top", &split), "top  → below pane");
    assert_eq!(pane_drag_label("top", &PaneDropTarget::Swap { pane_id: 1 }), "top  ⇄ swap");
    assert_eq!(pane_drag_label("top", &PaneDropTarget::Tab { tab_idx: 0 }), "top  → tab 1");
    assert_eq!(pane_drag_label("top", &PaneDropTarget::NewTab), "top  → new tab");
    assert_eq!(pane_drag_label("top", &PaneDropTarget::Nowhere), "top");
}

fn dragging_pane() -> TermWindow {
    let mut w = window(Some(tabs(&[10, 20], &[false, false], 0)));
    assert!(w.begin_pane_drag(ev(400, 300), Some((5, "htop".to_string())), Some(10)));
    w
}

fn pointer(hits: Vec<BarHit>, pane: Option<(usize, PaneZone)>) -> PanePointer {
    PanePointer { bar_hits: hits, pane, active_tab: Some(0) }
}

#[test]
fn pane_drag_lifecycle() {
    let mut w = window(None);
    assert!(!w.begin_pane_drag(ev(1, 1), None, Some(1)));
    assert!(!w.begin_pane_drag(ev(1, 1), Some((1, "x".to_string())), None));
    let mut w = dragging_pane();
    assert!(!w.pane_drag_is_active());
    assert!(w.update_pane_drag(ev(401, 300)));
    assert!(!w.pane_drag_is_active());
    assert!(w.update_pane_drag(ev(400, 294)));
    assert!(w.pane_drag_is_active());
    assert!(w.cancel_pane_drag());
    assert!(!w.update_pane_drag(ev(0, 0)));
}

#[test]
fn pane_drop_targets_and_zones() {
    let l = layout();
    let mut w = dragging_pane();
    w.update_pane_drag(ev(500, 300));
    let none = pointer(vec![], None);
    assert!(matches!(w.pane_drop_target(ev(900, 1), &l, &none), PaneDropTarget::NewWindow { x: 1900, y: 501 }));
    assert!(matches!(w.pane_drop_target(ev(400, 10), &l, &pointer(vec![BarHit::Tab(1)], None)), PaneDropTarget::Tab { tab_idx: 1 }));
    assert!(matches!(w.pane_drop_target(ev(400, 10), &l, &pointer(vec![BarHit::Tab(0)], None)), PaneDropTarget::Nowhere));
    assert!(matches!(w.pane_drop_target(ev(400, 10), &l, &pointer(vec![BarHit::Empty, BarHit::Tab(1)], None)), PaneDropTarget::NewTab));
    assert!(matches!(w.pane_drop_target(ev(400, 10), &l, &pointer(vec![BarHit::Other], None)), PaneDropTarget::Nowhere));
    assert!(matches!(w.pane_drop_target(ev(400, 300), &l, &pointer(vec![], Some((5, PaneZone::Left)))), PaneDropTarget::Nowhere));
    assert!(matches!(
        w.pane_drop_target(ev(400, 300), &l, &pointer(vec![], Some((6, PaneZone::Left)))),
        PaneDropTarget::Split { pane_id: 6, direction: SplitDirection::Horizontal, second: false }
    ));
    assert!(matches!(w.pane_drop_target(ev(400, 300), &l, &pointer(vec![], Some((6, PaneZone::Centre)))), PaneDropTarget::Swap { pane_id: 6 }));
    assert_eq!(
        w.paint_pane_drag_zone(&l, &pointer(vec![], Some((6, PaneZone::Bottom)))),
        Some(ZoneHighlight { pane_id: 6, zone: PaneZone::Bottom, alpha_percent: 35 })
    );
    assert_eq!(
        w.paint_pane_drag_zone(&l, &pointer(vec![], Some((6, PaneZone::Centre)))),
        Some(ZoneHighlight { pane_id: 6, zone: PaneZone::Centre, alpha_percent: 20 })
    );
    assert_eq!(w.paint_pane_drag_zone(&l, &none), None);
    let (label, _) = w.paint_pane_drag(&l, &pointer(vec![], Some((6, PaneZone::Right)))).unwrap();
    assert_eq!(label, "htop  → right of pane");
    let (d, t) = w.finish_pane_drag(ev(400, 300), &l, &pointer(vec![], Some((6, PaneZone::Top)))).unwrap();
    assert_eq!(d.pane_id, 5);
    assert!(matches!(t, PaneDropTarget::Split { pane_id: 6, direction: SplitDirection::Vertical, second: false }));
    assert!(w.pane_drag.is_none());
}

fn facts(src: Option<usize>, tabs: Option<usize>, ws: Option<&str>, target: Option<usize>) -> PaneDropFacts {
    PaneDropFacts {
        src_pane_count: src,
        window_tab_count: tabs,
        workspace: ws.map(|s| s.to_string()),
        target_tab_id: target,
    }
}

fn drag() -> PaneDrag {
    let e = ev(0, 0);
    PaneDrag { pane_id: 5, tab_id: 10, title: "t".to_string(), start: e, current: e, active: true }
}

#[test]
fn pane_drop_plans() {
    let d = drag();
    assert!(matches!(plan_pane_drop(&d, PaneDropTarget::NewTab, &facts(Some(1), Some(3), Some("a"), None)), PaneDropPlan::Nothing));
    assert!(matches!(plan_pane_drop(&d, PaneDropTarget::NewTab, &facts(Some(2), Some(3), Some("a"), None)), PaneDropPlan::ToNewTab));
    assert!(matches!(plan_pane_drop(&d, PaneDropTarget::Swap { pane_id: 6 }, &facts(None, Some(3), Some("a"), None)), PaneDropPlan::TabMissing));
    assert!(matches!(plan_pane_drop(&d, PaneDropTarget::Swap { pane_id: 6 }, &facts(Some(2), Some(3), Some("a"), None)), PaneDropPlan::Swap { tab_id: 10, pane_id: 5, with: 6 }));
    let split = PaneDropTarget::Split { pane_id: 6, direction: SplitDirection::Horizontal, second: true };
    assert!(matches!(plan_pane_drop(&d, split.clone(), &facts(Some(1), Some(3), Some("a"), None)), PaneDropPlan::Nothing));
    assert!(matches!(plan_pane_drop(&d, split, &facts(Some(2), Some(3), Some("a"), None)), PaneDropPlan::Split { beside: 6, second: true, .. }));
    assert!(matches!(plan_pane_drop(&d, PaneDropTarget::Tab { tab_idx: 1 }, &facts(Some(2), Some(3), Some("a"), None)), PaneDropPlan::NoTabAt(1)));
    assert!(matches!(plan_pane_drop(&d, PaneDropTarget::Tab { tab_idx: 0 }, &facts(Some(2), Some(3), Some("a"), Some(10))), PaneDropPlan::Nothing));
    assert!(matches!(plan_pane_drop(&d, PaneDropTarget::Tab { tab_idx: 1 }, &facts(Some(2), Some(3), Some("a"), Some(11))), PaneDropPlan::ToTab { tab_idx: 1 }));
    let ws = PaneDropTarget::Workspace { name: "a".to_string(), row: 1 };
    assert!(matches!(plan_pane_drop(&d, ws.clone(), &facts(Some(1), Some(3), Some("a"), None)), PaneDropPlan::Nothing));
    assert!(matches!(plan_pane_drop(&d, ws, &facts(Some(2), Some(3), Some("a"), None)), PaneDropPlan::ToWorkspace { ref name } if name == "a"));
    let nw = PaneDropTarget::NewWindow { x: 30, y: 300 };
    assert!(matches!(plan_pane_drop(&d, nw.clone(), &facts(Some(1), Some(1), Some("a"), None)), PaneDropPlan::Nothing));
    match plan_pane_drop(&d, nw, &facts(Some(1), Some(2), Some("a"), None)) {
        PaneDropPlan::ToNewWindow { workspace, x, y } => {
            assert_eq!(workspace, Some("a".to_string()));
            assert_eq!((x, y), (0, 290));
        },
        _ => panic!("expected a new window"),
    }
}

#[test]
fn menu_selection_by_larger_steps() {
    let mut menu = ContextMenu::new(terminal_menu_items(false), 0, 0);
    menu.move_selection(2);
    assert_eq!(menu.selected, Some(1));
    menu.move_selection(2);
    assert_eq!(menu.selected, Some(5));
    menu.move_selection(-3);
    assert_eq!(menu.selected, Some(2));
    menu.move_selection(14);
    assert_eq!(menu.selected, Some(2));
    menu.selected = Some(3);
    menu.move_selection(0);
    assert_eq!(menu.selected, Some(3));
    menu.move_selection(isize::MIN);
    // (3 + isize::MIN) taken round 14 items is 9
    assert_eq!(menu.selected, Some(9));
}

#[test]
fn working_directory_texts() {
    assert_eq!(working_dir_clipboard_text("file:///home/me".to_string(), true, Some("/home/me".to_string())), "/home/me");
    assert_eq!(working_dir_clipboard_text("file://host/x".to_string(), true, None), "file://host/x");
    assert_eq!(working_dir_clipboard_text("ssh://h/x".to_string(), false, None), "ssh://h/x");
    assert_eq!(duplicate_tab_cwd(true, Some("/a".to_string())), Some("/a".to_string()));
    assert_eq!(duplicate_tab_cwd(false, Some("/a".to_string())), None);
}

#[test]
fn finishing_a_pane_drag_uses_the_target_of_its_release() {
    let l = layout();
    let mut w = dragging_pane();
    w.update_pane_drag(ev(500, 300));
    let p = pointer(vec![BarHit::Tab(1)], None);
    let before = w.pane_drop_target(ev(400, 10), &l, &p);
    let (_, t) = w.finish_pane_drag(ev(400, 10), &l, &p).unwrap();
    assert!(matches!((before, t), (PaneDropTarget::Tab { tab_idx: 1 }, PaneDropTarget::Tab { tab_idx: 1 })));
}
