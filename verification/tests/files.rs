use ezterm_gui::paths::download_dir_from;
use ezterm_gui::paths::first_free_dest;
use ezterm_gui::file_manager::UploadSource;
use ezterm_gui::picker::{download_pick_request, folder_pick_request, upload_pick_request, PickKind};
use ezterm_gui::entries::{remote_entries, sort_entries, FmEntry, RemoteDirEntry};
use ezterm_gui::file_manager::{
    confirm_answer, entry_line, has_name, position_of_name, transfer_progress, FileManager,
    FmAction, FmCommand, FmMenu, ListingPurpose, ScreenSize,
};
use ezterm_gui::input::{InputEvent, Key, KeyInput, Modifiers, MouseButtons, MouseInput};
use ezterm_gui::paths::{
    expand_tilde_with, join_local, local_dest_candidate, remote_join, remote_parent,
    unique_local_dest,
};
use ezterm_gui::size::human_size;

fn no_mods() -> Modifiers {
    Modifiers { shift: false, ctrl: false, alt: false, super_key: false, other: false }
}

fn key(k: Key) -> InputEvent {
    InputEvent::Key(KeyInput { key: k, mods: no_mods() })
}

fn ch(c: char) -> InputEvent {
    key(Key::Char(c))
}

fn buttons() -> MouseButtons {
    MouseButtons::none()
}

fn mouse(x: u16, y: u16, b: MouseButtons) -> InputEvent {
    InputEvent::Mouse(MouseInput { x, y, buttons: b, mods: no_mods() })
}

fn file(name: &str, size: u64) -> FmEntry {
    FmEntry { name: name.to_string(), is_dir: false, size: Some(size) }
}

fn dir(name: &str) -> FmEntry {
    FmEntry { name: name.to_string(), is_dir: true, size: None }
}

fn names(entries: &[FmEntry]) -> Vec<String> {
    entries.iter().map(|e| e.name.clone()).collect()
}

/// The size formatting as written with floating point.
fn float_human_size(size: u64) -> String {
    let units = ["B", "KB", "MB", "GB", "TB"];
    let mut value = size as f64;
    let mut unit = 0;
    while value >= 1024.0 && unit < units.len() - 1 {
        value /= 1024.0;
        unit += 1;
    }
    if unit == 0 {
        format!("{size} B")
    } else {
        format!("{value:.1} {}", units[unit])
    }
}

#[test]
fn human_size_exact_values() {
    assert_eq!(human_size(0), "0 B");
    assert_eq!(human_size(1023), "1023 B");
    assert_eq!(human_size(1024), "1.0 KB");
    assert_eq!(human_size(1536), "1.5 KB");
    assert_eq!(human_size(1024 * 1024), "1.0 MB");
    assert_eq!(human_size(5 * 1024 * 1024 * 1024), "5.0 GB");
    assert_eq!(human_size(2048 * 1024 * 1024 * 1024 * 1024), "2048.0 TB");
}

#[test]
fn human_size_matches_float_formatting() {
    let samples: Vec<u64> = vec![
        1, 999, 1024, 1075, 1076, 1126, 1127, 10_000, 123_456, 1_048_575, 1_048_576,
        987_654_321, 1_099_511_627_775, 1_099_511_627_776, 12_345_678_901_234,
        u64::MAX / 3, u64::MAX - 1, u64::MAX, 9_007_199_254_740_993,
    ];
    for s in samples {
        assert_eq!(human_size(s), float_human_size(s), "size {s}");
    }
    let mut x: u64 = 7;
    for _ in 0..2000 {
        x = x.wrapping_mul(6364136223846793005).wrapping_add(1442695040888963407);
        let s = x >> (x % 64);
        assert_eq!(human_size(s), float_human_size(s), "size {s}");
    }
}

#[test]
fn remote_join_adds_one_separator() {
    assert_eq!(remote_join("/home/me", "a.txt"), "/home/me/a.txt");
    assert_eq!(remote_join("/home/me/", "a.txt"), "/home/me/a.txt");
    assert_eq!(remote_join("/", "etc"), "/etc");
    assert_eq!(remote_join("", "x"), "/x");
}

#[test]
fn remote_parent_of_paths() {
    assert_eq!(remote_parent("/"), None);
    assert_eq!(remote_parent("/home/me"), Some("/home".to_string()));
    assert_eq!(remote_parent("/home/me/"), Some("/home".to_string()));
    assert_eq!(remote_parent("/home"), Some("/".to_string()));
    assert_eq!(remote_parent("relative"), None);
}

#[test]
fn join_local_like_path_join() {
    assert_eq!(join_local("/tmp", "a"), "/tmp/a");
    assert_eq!(join_local("/tmp/", "a"), "/tmp/a");
    assert_eq!(join_local("/tmp", "/etc"), "/etc");
    assert_eq!(join_local("", "a"), "a");
    assert_eq!(join_local("/tmp", ""), "/tmp/");
}

#[test]
fn download_candidates_number_the_stem() {
    assert_eq!(local_dest_candidate("/dl", "report.pdf", 0), "/dl/report.pdf");
    assert_eq!(local_dest_candidate("/dl", "report.pdf", 1), "/dl/report (1).pdf");
    assert_eq!(local_dest_candidate("/dl", "archive.tar.gz", 12), "/dl/archive.tar (12).gz");
    assert_eq!(local_dest_candidate("/dl", ".bashrc", 2), "/dl/.bashrc (2)");
    assert_eq!(local_dest_candidate("/dl", "README", 3), "/dl/README (3)");
}

#[test]
fn unique_dest_skips_existing_paths() {
    assert_eq!(
        unique_local_dest("/no/such/dir/for/this/test", "a.txt"),
        "/no/such/dir/for/this/test/a.txt"
    );
    // "/" joined with an empty name is "/", which exists; the first
    // numbered candidate is free.
    assert_eq!(unique_local_dest("/", ""), "/ (1)");
}

#[test]
fn tilde_expansion() {
    let home = Some("/home/me".to_string());
    assert_eq!(expand_tilde_with("~", home.clone()), "/home/me");
    assert_eq!(expand_tilde_with("~/docs", home.clone()), "/home/me/docs");
    assert_eq!(expand_tilde_with("~other/docs", home.clone()), "~other/docs");
    assert_eq!(expand_tilde_with("/abs", home), "/abs");
    assert_eq!(expand_tilde_with("~/docs", None), "~/docs");
}

#[test]
fn entries_sort_dirs_first_then_name() {
    let sorted = sort_entries(vec![file("b.txt", 1), dir("zeta"), file("a.txt", 2), dir("alpha")]);
    assert_eq!(names(&sorted), vec!["alpha", "zeta", "a.txt", "b.txt"]);
}

#[test]
fn remote_listing_drops_dot_entries() {
    let rows = vec![
        RemoteDirEntry { file_name: Some(".".to_string()), is_dir: true, is_file: false, size: None },
        RemoteDirEntry { file_name: Some("..".to_string()), is_dir: true, is_file: false, size: None },
        RemoteDirEntry { file_name: None, is_dir: false, is_file: true, size: Some(3) },
        RemoteDirEntry { file_name: Some("src".to_string()), is_dir: true, is_file: false, size: Some(4096) },
        RemoteDirEntry { file_name: Some("x.rs".to_string()), is_dir: false, is_file: true, size: Some(10) },
    ];
    let e = remote_entries(&rows);
    assert_eq!(names(&e), vec!["src", "x.rs"]);
    assert!(e[0].is_dir);
    assert_eq!(e[0].size, None);
    assert_eq!(e[1].size, Some(10));
}

#[test]
fn action_labels_and_menu_geometry() {
    assert_eq!(FmAction::Open.label(), "Open");
    assert_eq!(FmAction::Quit.label(), "Close file manager");
    let menu = FmMenu { items: vec![FmAction::Open, FmAction::Quit], selected: 0, x: 10, y: 5 };
    assert_eq!(menu.width(), "Close file manager".len() + 4);
    assert_eq!(menu.height(), 4);
    assert_eq!(menu.hit(11, 6), Some(0));
    assert_eq!(menu.hit(11, 7), Some(1));
    assert_eq!(menu.hit(10, 6), None);
    assert_eq!(menu.hit(11, 8), None);
}

fn manager() -> FileManager {
    let fm = FileManager::new(
        None,
        "/home/me".to_string(),
        Ok(vec![file("notes.txt", 10), dir("src"), dir("docs")]),
    );
    let mut fm = fm.ok().unwrap();
    fm.set_screen_rows(20);
    fm
}

#[test]
fn new_manager_lists_sorted() {
    let fm = manager();
    assert_eq!(names(&fm.entries), vec!["docs", "src", "notes.txt"]);
    assert_eq!(fm.active_idx, 0);
    assert_eq!(fm.max_items, 17);
    assert!(fm.listing_request().is_none());
    let err = FileManager::new(None, "/x".to_string(), Err("denied".to_string()));
    assert_eq!(err.err(), Some("denied".to_string()));
}

#[test]
fn enter_then_back_then_forward() {
    let mut fm = manager();
    // Enter opens the selected directory "docs"
    let cmd = fm.handle_event(key(Key::Enter), None);
    assert_eq!(cmd, FmCommand::Continue);
    assert_eq!(fm.listing_request(), Some(&"/home/me/docs".to_string()));
    fm.complete_listing(Ok(vec![file("a.md", 1)]));
    assert_eq!(fm.cwd, "/home/me/docs");
    assert_eq!(fm.back_stack, vec!["/home/me".to_string()]);
    assert!(fm.fwd_stack.is_empty());
    assert!(fm.listing_request().is_none());

    // a right click goes back
    let mut right = buttons();
    right.right = true;
    fm.handle_event(mouse(5, 5, right), None);
    assert_eq!(fm.cwd, "/home/me");
    fm.complete_listing(Ok(vec![dir("docs"), dir("src")]));
    assert!(fm.back_stack.is_empty());
    assert_eq!(fm.fwd_stack, vec!["/home/me/docs".to_string()]);

    // release, then a middle click goes forward
    fm.handle_event(mouse(5, 5, buttons()), None);
    let mut middle = buttons();
    middle.middle = true;
    fm.handle_event(mouse(5, 5, middle), None);
    assert_eq!(fm.cwd, "/home/me/docs");
    fm.complete_listing(Ok(vec![]));
    assert_eq!(fm.back_stack, vec!["/home/me".to_string()]);
    assert!(fm.fwd_stack.is_empty());
}

#[test]
fn back_with_empty_history_reports() {
    let mut fm = manager();
    fm.go_back();
    assert_eq!(fm.status, "No previous directory");
    fm.go_forward();
    assert_eq!(fm.status, "No next directory");
    assert!(fm.listing_request().is_none());
}

#[test]
fn failed_navigation_returns_to_prior_directory() {
    let mut fm = manager();
    fm.navigate_to("/root".to_string(), true);
    assert_eq!(fm.listing_request(), Some(&"/root".to_string()));
    fm.complete_listing(Err("permission denied".to_string()));
    assert_eq!(fm.status, "Error: permission denied");
    assert_eq!(fm.cwd, "/home/me");
    assert!(matches!(fm.pending, Some(ListingPurpose::Quiet)));
    assert_eq!(fm.listing_request(), Some(&"/home/me".to_string()));
    fm.complete_listing(Ok(vec![dir("a")]));
    assert!(fm.back_stack.is_empty());
    assert_eq!(fm.status, "Error: permission denied");
}

#[test]
fn parent_and_movement_keys() {
    let mut fm = manager();
    fm.handle_event(key(Key::DownArrow), None);
    assert_eq!(fm.active_idx, 1);
    fm.handle_event(ch('j'), None);
    assert_eq!(fm.active_idx, 2);
    fm.handle_event(ch('j'), None);
    assert_eq!(fm.active_idx, 2);
    fm.handle_event(ch('k'), None);
    assert_eq!(fm.active_idx, 1);
    fm.handle_event(key(Key::Backspace), None);
    assert_eq!(fm.listing_request(), Some(&"/home".to_string()));
    assert_eq!(fm.handle_event(ch('q'), None), FmCommand::Quit);
}

#[test]
fn keys_ask_for_operations() {
    let mut fm = manager();
    assert_eq!(fm.handle_event(ch('d'), None), FmCommand::Download);
    assert_eq!(fm.handle_event(ch('u'), None), FmCommand::Upload);
    assert_eq!(fm.handle_event(key(Key::Function(2)), None), FmCommand::Rename);
    assert_eq!(fm.handle_event(key(Key::Delete), None), FmCommand::Delete);
    assert_eq!(fm.handle_event(key(Key::Escape), None), FmCommand::Quit);
}

#[test]
fn selecting_a_file_then_clicking_it_views_it() {
    let mut fm = manager();
    let mut left = buttons();
    left.left = true;
    // row 4 is the third entry (two header rows)
    assert_eq!(fm.handle_event(mouse(3, 4, left), None), FmCommand::Continue);
    assert_eq!(fm.active_idx, 2);
    // the release of the click does nothing
    fm.handle_event(mouse(3, 4, left), None);
    fm.handle_event(mouse(3, 4, buttons()), None);
    assert_eq!(fm.handle_event(mouse(3, 4, left), None), FmCommand::View);
    let req = fm.view_request().ok().unwrap();
    assert_eq!(req.name, "notes.txt");
    assert_eq!(req.path, "/home/me/notes.txt");
}

#[test]
fn action_menu_runs_refresh() {
    let mut fm = manager();
    let screen = Some(ScreenSize { cols: 80, rows: 24 });
    fm.handle_event(ch('m'), screen);
    let menu = fm.menu.as_ref().unwrap();
    assert_eq!(
        menu.items,
        vec![
            FmAction::Open, FmAction::Rename, FmAction::Delete, FmAction::Parent, FmAction::GoToFolder,
            FmAction::Refresh, FmAction::Quit,
        ]
    );
    for _ in 0..5 {
        fm.handle_event(ch('j'), screen);
    }
    assert_eq!(fm.menu.as_ref().unwrap().selected, 5);
    let cmd = fm.handle_event(key(Key::Enter), screen);
    assert_eq!(cmd, FmCommand::Continue);
    assert!(fm.menu.is_none());
    assert!(matches!(fm.pending, Some(ListingPurpose::Reload)));
    assert_eq!(fm.run_menu_action(FmAction::Quit), FmCommand::Quit);
}

#[test]
fn rename_flow() {
    let mut fm = manager();
    fm.handle_event(ch('j'), None);
    assert_eq!(fm.rename_begin(), Some("src".to_string()));
    let op = fm.rename_decide(Some("  lib  ".to_string())).unwrap();
    assert_eq!(op.old_name, "src");
    assert_eq!(op.new_name, "lib");
    assert_eq!(op.src, "/home/me/src");
    assert_eq!(op.dst, "/home/me/lib");
    assert_eq!(fm.rename_decide(Some("src".to_string())).map(|o| o.new_name), None);
    assert_eq!(fm.rename_decide(Some("docs".to_string())).map(|o| o.new_name), None);
}

#[test]
fn listing_rows_and_helpers() {
    assert_eq!(entry_line(&file("a.txt", 1536)), "    1.5 KB  a.txt");
    assert_eq!(entry_line(&dir("src")), "     <dir>  src/");
    let entries = vec![dir("a"), file("b", 1)];
    assert!(has_name(&entries, "b"));
    assert!(!has_name(&entries, "c"));
    assert_eq!(position_of_name(&entries, &"b".to_string()), Some(1));
    assert_eq!(transfer_progress("Downloading", "f", 50, Some(200)), "Downloading f: 50 B / 200 B (25%)");
    assert_eq!(confirm_answer(&ch('y')), Some(true));
    assert_eq!(confirm_answer(&ch('n')), Some(false));
}

#[test]
fn download_dir_and_tilde_with_the_environment() {
    assert_eq!(download_dir_from(Some("/dl".to_string()), Some("/home/me".to_string())), "/dl");
    assert_eq!(download_dir_from(None, Some("/home/me".to_string())), "/home/me");
    assert_eq!(download_dir_from(None, None), ".");
    assert_eq!(ezterm_gui::paths::expand_tilde("/abs/path"), "/abs/path");
}

#[test]
fn first_free_destination_from_existence_answers() {
    assert_eq!(first_free_dest("/dl", "a.txt", &vec![false]), Some("/dl/a.txt".to_string()));
    assert_eq!(first_free_dest("/dl", "a.txt", &vec![true, true, false, false]), Some("/dl/a (2).txt".to_string()));
    assert_eq!(first_free_dest("/dl", "a.tar.gz", &vec![true, false]), Some("/dl/a.tar (1).gz".to_string()));
    assert_eq!(first_free_dest("/dl", ".bashrc", &vec![true, false]), Some("/dl/.bashrc (1)".to_string()));
    assert_eq!(first_free_dest("/dl", "a.txt", &vec![true, true]), None);
}

#[test]
fn menu_box_rows() {
    let menu = FmMenu { items: vec![FmAction::Open, FmAction::Quit], selected: 1, x: 0, y: 0 };
    let lines = menu.box_lines();
    assert_eq!(lines.len(), 4);
    assert_eq!(lines[0], format!("┌{}┐", "─".repeat(20)));
    assert_eq!(lines[1], format!("│ {:<18} │", "Open"));
    assert_eq!(lines[2], "│ Close file manager │");
    assert_eq!(lines[3], format!("└{}┘", "─".repeat(20)));
}

fn remote_manager() -> FileManager {
    let fm = FileManager::new(
        Some("host".to_string()),
        "/srv".to_string(),
        Ok(vec![file("data.csv", 5), dir("logs")]),
    );
    fm.ok().unwrap()
}

#[test]
fn go_to_folder_on_local_panes_only() {
    let mut fm = manager();
    fm.handle_event(ch('m'), None);
    assert!(fm.menu.as_ref().unwrap().items.contains(&FmAction::GoToFolder));
    assert_eq!(FmAction::GoToFolder.label(), "Go to folder...");
    assert_eq!(fm.run_menu_action(FmAction::GoToFolder), FmCommand::GoToFolder);
    fm.folder_picked(Ok(None));
    assert!(fm.listing_request().is_none());
    fm.folder_picked(Err("no native file dialog available".to_string()));
    assert_eq!(fm.status, "Error: no native file dialog available");
    fm.folder_picked(Ok(Some("/var/log".to_string())));
    assert_eq!(fm.listing_request(), Some(&"/var/log".to_string()));
    fm.complete_listing(Ok(vec![]));
    assert_eq!(fm.back_stack, vec!["/home/me".to_string()]);

    let mut remote = remote_manager();
    remote.handle_event(ch('m'), None);
    assert!(!remote.menu.as_ref().unwrap().items.contains(&FmAction::GoToFolder));
}

#[test]
fn upload_picker_outcomes() {
    let mut fm = remote_manager();
    assert!(matches!(fm.upload_picked(Err("none".to_string())), UploadSource::Prompt));
    assert!(matches!(fm.upload_picked(Ok(Some("/tmp/x.bin".to_string()))), UploadSource::Path(ref p) if p == "/tmp/x.bin"));
    assert!(matches!(fm.upload_picked(Ok(None)), UploadSource::Cancelled));
    assert_eq!(fm.status, "Upload cancelled");
    let op = fm.upload_target("/tmp/x.bin").unwrap();
    assert_eq!(op.remote_path, "/srv/x.bin");
}

#[test]
fn download_dialog_outcomes() {
    let mut fm = remote_manager();
    fm.handle_event(ch('j'), None);
    let op = fm.download_begin().unwrap();
    assert_eq!(op.name, "data.csv");
    assert_eq!(op.remote_path, "/srv/data.csv");
    assert_eq!(fm.download_destination(&op, Ok(Some("/home/me/d.csv".to_string())), "/dl"), Some("/home/me/d.csv".to_string()));
    assert_eq!(fm.download_destination(&op, Ok(None), "/dl"), None);
    assert_eq!(fm.status, "Download cancelled");
    assert_eq!(
        fm.download_destination(&op, Err("none".to_string()), "/no/such/dir/for/this/test"),
        Some("/no/such/dir/for/this/test/data.csv".to_string())
    );
}

#[test]
fn picker_requests() {
    let u = upload_pick_request();
    assert_eq!(u.kind, PickKind::OpenFile);
    assert_eq!(u.start_dir, None);
    let d = download_pick_request("/dl", "a.txt");
    assert_eq!(d.kind, PickKind::SaveFile);
    assert_eq!(d.start_dir, Some("/dl"));
    assert_eq!(d.default_name, Some("a.txt"));
    let f = folder_pick_request("/home/me");
    assert_eq!(f.kind, PickKind::OpenFolder);
    assert_eq!(f.start_dir, Some("/home/me"));
}

#[test]
fn parent_of_a_joined_remote_entry() {
    assert_eq!(remote_parent(&remote_join("/srv/data", "logs")), Some("/srv/data".to_string()));
    assert_eq!(remote_parent(&remote_join("/", "etc")), Some("/".to_string()));
}
