use ezterm_gui::input::{InputEvent, Key, KeyInput, Modifiers, MouseButtons, MouseInput};
use ezterm_gui::menus::{MenuAction, WorkspaceCommand};
use ezterm_gui::picker::{
    accept_new_name, kdialog_args, output_to_path, powershell_script, prompt_heading_line,
    rename_workspace_heading, zenity_args, PickKind, PickRequest,
};
use ezterm_gui::sidebars::SidebarRegistry;
use ezterm_gui::term_window::{Modal, TermWindow};
use ezterm_gui::workspace_overlay::{WorkspaceSidebar, WsCommand};
use ezterm_gui::workspaces::{
    close_workspace_message, fit_row, sidebar_row_text, sidebar_rows, workspace_sidebar_entries,
    SidebarClick, WorkspaceSidebarEntry,
};

fn mods() -> Modifiers {
    Modifiers { shift: false, ctrl: false, alt: false, super_key: false, other: false }
}

fn key(k: Key) -> InputEvent {
    InputEvent::Key(KeyInput { key: k, mods: mods() })
}

fn entry(name: &str, windows: usize, is_active: bool) -> WorkspaceSidebarEntry {
    WorkspaceSidebarEntry { name: name.to_string(), windows, is_active }
}

fn names(e: &[WorkspaceSidebarEntry]) -> Vec<String> {
    e.iter().map(|x| x.name.clone()).collect()
}

fn window() -> TermWindow {
    TermWindow {
        tabs: None,
        modal: None,
        tab_drag: None,
        pane_drag: None,
        workspaces: workspace_sidebar_entries(
            vec![("work".to_string(), 1), ("default".to_string(), 2), ("Zed".to_string(), 3)],
            "work",
        ),
        sidebar_last_click: None,
    }
}

#[test]
fn entries_sorted_with_active_flag() {
    let w = window();
    assert_eq!(names(&w.workspaces), vec!["Zed", "default", "work"]);
    assert!(w.workspaces[2].is_active);
    assert!(!w.workspaces[0].is_active);
    assert_eq!(w.workspaces[1].windows, 2);
}

#[test]
fn row_names_skip_the_header() {
    let w = window();
    assert_eq!(w.workspace_sidebar_row_name(0), None);
    assert_eq!(w.workspace_sidebar_row_name(1), Some("Zed".to_string()));
    assert_eq!(w.workspace_sidebar_row_name(3), Some("work".to_string()));
    assert_eq!(w.workspace_sidebar_row_name(4), None);
}

#[test]
fn clicks_switch_and_double_clicks_rename() {
    let mut w = window();
    assert!(matches!(w.workspace_sidebar_click(0, 100), SidebarClick::Nothing));
    assert_eq!(w.sidebar_last_click, None);
    assert!(matches!(w.workspace_sidebar_click(1, 1000), SidebarClick::Switch(ref n) if n == "Zed"));
    assert!(matches!(w.workspace_sidebar_click(1, 1499), SidebarClick::Rename(ref n) if n == "Zed"));
    assert_eq!(w.sidebar_last_click, None);
    assert!(matches!(w.workspace_sidebar_click(1, 1600), SidebarClick::Switch(_)));
    assert!(matches!(w.workspace_sidebar_click(1, 2100), SidebarClick::Switch(_)));
    assert_eq!(w.sidebar_last_click, Some((2100, 1)));
    // the active workspace: a single click does nothing
    assert!(matches!(w.workspace_sidebar_click(3, 5000), SidebarClick::Nothing));
    assert!(matches!(w.workspace_sidebar_click(2, 5100), SidebarClick::Switch(ref n) if n == "default"));
    assert!(matches!(w.workspace_sidebar_click(9, 5200), SidebarClick::Nothing));
    assert_eq!(w.sidebar_last_click, Some((5100, 2)));
}

#[test]
fn sidebar_context_menu() {
    let mut w = window();
    w.workspace_sidebar_context_menu(3, 4, 5);
    match &w.modal {
        Some(Modal::ContextMenu(m)) => {
            assert_eq!((m.x, m.y), (4, 5));
            assert_eq!(m.items.len(), 7);
            assert_eq!(m.items[0].label, "Rename workspace...");
            assert!(matches!(&m.items[0].action, MenuAction::Workspace(WorkspaceCommand::Rename(n)) if n == "work"));
        },
        _ => panic!("no menu"),
    }
    w.workspace_sidebar_context_menu(0, 1, 1);
    match &w.modal {
        Some(Modal::ContextMenu(m)) => assert_eq!(m.items.len(), 2),
        _ => panic!("no menu"),
    }
}

#[test]
fn close_message_lists_programs_once() {
    let tabs = vec![
        vec![Some("/usr/bin/vim".to_string()), Some("/bin/bash".to_string())],
        vec![Some("vim".to_string()), None],
        vec![],
    ];
    assert_eq!(
        close_workspace_message("dev", 2, &tabs, false),
        "🛑 Really close workspace 'dev'?\n\nThis will kill 2 window(s), 3 tab(s) and 4 pane(s).\nRunning: vim, bash"
    );
    assert_eq!(
        close_workspace_message("x", 1, &vec![vec![None]], true),
        "🛑 Really close workspace 'x'?\n\nThis will kill 1 window(s), 1 tab(s) and 1 pane(s).\n\nThis is the last workspace; closing it will quit ezterm."
    );
}

#[test]
fn sidebar_rows_and_fitting() {
    let e = vec![entry("default", 2, true), entry("work", 10, false)];
    assert_eq!(sidebar_row_text(0, &e[0]), "* 1 default (2)");
    assert_eq!(sidebar_row_text(11, &e[1]), " 12 work (10)");
    let rows = sidebar_rows(&e, 5);
    assert_eq!(rows.len(), 5);
    assert_eq!(rows[0], (" Workspaces".to_string(), true));
    assert_eq!(rows[1], ("* 1 default (2)".to_string(), true));
    assert_eq!(rows[2], ("  2 work (10)".to_string(), false));
    assert_eq!(rows[3], (String::new(), false));
    assert_eq!(sidebar_rows(&e, 2).len(), 2);
    assert_eq!(fit_row("abc", &vec![1, 1, 1], 5), "abc  │");
    assert_eq!(fit_row("abcdef", &vec![1, 1, 1, 1, 1, 1], 4), "abcd│");
    assert_eq!(fit_row("a漢b", &vec![1, 2, 1], 2), "a │");
    assert_eq!(fit_row("", &vec![], 0), "│");
}

#[test]
fn workspace_list_overlay() {
    let entries = vec![entry("a", 1, false), entry("b", 2, true), entry("c", 1, false)];
    let mut s = WorkspaceSidebar::new(entries);
    assert_eq!(s.active_idx, 1);
    s.set_screen_rows(10);
    assert_eq!(s.max_items, 7);
    assert!(matches!(s.handle_event(key(Key::DownArrow)), WsCommand::Continue));
    assert_eq!(s.active_idx, 2);
    assert!(matches!(s.handle_event(key(Key::Enter)), WsCommand::Switch(ref n) if n == "c"));
    assert_eq!(s.status, "Switched to c");
    assert!(matches!(s.handle_event(key(Key::Char('r'))), WsCommand::Refresh));
    assert_eq!(s.status, "");
    assert!(matches!(s.handle_event(key(Key::Char('n'))), WsCommand::PromptNew));
    assert_eq!(s.new_workspace_entered(Some("  new one ".to_string())), Some("new one".to_string()));
    assert_eq!(s.status, "Switched to new one");
    assert_eq!(s.new_workspace_entered(Some("   ".to_string())), None);
    assert_eq!(s.status, "Cancelled");
    assert!(matches!(s.handle_event(key(Key::Char('q'))), WsCommand::Quit));
    s.refresh(vec![entry("x", 1, false)]);
    assert_eq!(s.active_idx, 0);
    let rows = s.visible_rows();
    assert_eq!(rows, vec![("   x (1)".to_string(), true)]);
}

#[test]
fn workspace_list_mouse() {
    let entries = vec![entry("a", 1, true), entry("b", 2, false)];
    let mut s = WorkspaceSidebar::new(entries);
    let mut left = MouseButtons::none();
    left.left = true;
    let click = InputEvent::Mouse(MouseInput { x: 3, y: 3, buttons: left, mods: mods() });
    assert!(matches!(s.handle_event(click), WsCommand::Continue));
    assert_eq!(s.active_idx, 1);
    // still held: no new press
    assert!(matches!(s.handle_event(click), WsCommand::Continue));
    let release = InputEvent::Mouse(MouseInput { x: 3, y: 3, buttons: MouseButtons::none(), mods: mods() });
    s.handle_event(release);
    assert!(matches!(s.handle_event(click), WsCommand::Switch(ref n) if n == "b"));
    let mut wheel = MouseButtons::none();
    wheel.vert_wheel = true;
    wheel.wheel_positive = true;
    s.handle_event(InputEvent::Mouse(MouseInput { x: 0, y: 0, buttons: wheel, mods: mods() }));
    assert_eq!(s.active_idx, 0);
}

#[test]
fn picker_command_lines() {
    let open = PickRequest { kind: PickKind::OpenFile, title: "Upload", start_dir: Some("/home/me"), default_name: None };
    assert_eq!(
        zenity_args(&open),
        vec!["--file-selection", "--title=Upload", "--filename=/home/me/"]
    );
    let save = PickRequest { kind: PickKind::SaveFile, title: "Save", start_dir: Some("/tmp"), default_name: Some("a.txt") };
    assert_eq!(
        zenity_args(&save),
        vec!["--file-selection", "--title=Save", "--save", "--confirm-overwrite", "--filename=/tmp/a.txt"]
    );
    let folder = PickRequest { kind: PickKind::OpenFolder, title: "Go", start_dir: None, default_name: None };
    assert_eq!(zenity_args(&folder), vec!["--file-selection", "--title=Go", "--directory"]);
    assert_eq!(kdialog_args(&folder), vec!["--title", "Go", "--getexistingdirectory", "."]);
    assert_eq!(kdialog_args(&save), vec!["--title", "Save", "--getsavefilename", "/tmp/a.txt"]);
    assert_eq!(kdialog_args(&open), vec!["--title", "Upload", "--getopenfilename", "/home/me"]);
}

#[test]
fn powershell_scripts_escape_quotes() {
    let req = PickRequest { kind: PickKind::OpenFile, title: "It's", start_dir: Some("C:\\x"), default_name: None };
    assert_eq!(
        powershell_script(&req),
        "Add-Type -AssemblyName System.Windows.Forms; $d = New-Object System.Windows.Forms.OpenFileDialog; $d.Title = 'It''s'; $d.InitialDirectory = 'C:\\x'; if ($d.ShowDialog() -eq 'OK') { Write-Output $d.FileName }"
    );
    let save = PickRequest { kind: PickKind::SaveFile, title: "S", start_dir: None, default_name: Some("o'k") };
    assert_eq!(
        powershell_script(&save),
        "Add-Type -AssemblyName System.Windows.Forms; $d = New-Object System.Windows.Forms.SaveFileDialog; $d.Title = 'S'; $d.InitialDirectory = ''; $d.FileName = 'o''k'; if ($d.ShowDialog() -eq 'OK') { Write-Output $d.FileName }"
    );
}

#[test]
fn picker_output() {
    assert_eq!(output_to_path(true, &b"/tmp/x\n".to_vec()), Some("/tmp/x".to_string()));
    assert_eq!(output_to_path(false, &b"/tmp/x\n".to_vec()), None);
    assert_eq!(output_to_path(true, &b"  \n".to_vec()), None);
    assert_eq!(output_to_path(true, &vec![b'a', 0xff, b'b']), Some("a\u{fffd}b".to_string()));
}

#[test]
fn rename_prompt_values() {
    assert_eq!(accept_new_name(Some("  new ".to_string()), "old"), Some("new".to_string()));
    assert_eq!(accept_new_name(Some("old".to_string()), "old"), None);
    assert_eq!(accept_new_name(Some("   ".to_string()), "old"), None);
    assert_eq!(accept_new_name(None, "old"), None);
    assert_eq!(rename_workspace_heading("dev"), "Rename workspace 'dev'");
    assert_eq!(prompt_heading_line("Rename tab"), "Rename tab (Escape to cancel)\r\n");
}

#[test]
fn sidebar_registry_toggles() {
    let mut reg = SidebarRegistry::new();
    assert_eq!(reg.get(1), None);
    reg.register(1, 10);
    reg.register(2, 20);
    assert_eq!(reg.get(1), Some(10));
    reg.unregister(1, 99);
    assert_eq!(reg.get(1), Some(10));
    reg.unregister(1, 10);
    assert_eq!(reg.get(1), None);
    assert_eq!(reg.take(2), Some(20));
    assert_eq!(reg.take(2), None);
}
