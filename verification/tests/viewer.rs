use ezterm_gui::input::{InputEvent, Key, KeyInput, Modifiers};
use ezterm_gui::viewer::{find_line, lines_of, text_lines, too_large_message, ViewerCommand, ViewerState};

fn mods() -> Modifiers {
    Modifiers { shift: false, ctrl: false, alt: false, super_key: false, other: false }
}

fn key(k: Key) -> InputEvent {
    InputEvent::Key(KeyInput { key: k, mods: mods() })
}

fn ctrl(c: char) -> InputEvent {
    InputEvent::Key(KeyInput { key: Key::Char(c), mods: Modifiers { shift: false, ctrl: true, alt: false, super_key: false, other: false } })
}

fn numbered(n: usize) -> Vec<String> {
    (0..n).map(|i| format!("line {i}")).collect()
}

#[test]
fn lines_split_and_tabs_expand() {
    assert_eq!(lines_of("a\n\tb\r\nc"), vec!["a", "    b", "c"]);
    assert_eq!(lines_of("x\n"), vec!["x"]);
    assert!(lines_of("").is_empty());
}

#[test]
fn binary_files_are_refused() {
    assert_eq!(text_lines("f.bin", &vec![b'a', 0, b'b']).err(), Some("f.bin looks like a binary file".to_string()));
    assert_eq!(text_lines("f.txt", &b"one\ntwo".to_vec()).ok(), Some(vec!["one".to_string(), "two".to_string()]));
    assert_eq!(too_large_message("big"), "big is too large to view");
}

#[test]
fn scrolling_stays_in_range() {
    let lines = numbered(30);
    let mut v = ViewerState::new();
    // 11 rows: 10 rows of text, last useful top is 20
    v.handle_event(key(Key::Char('j')), &lines, 11);
    assert_eq!(v.top, 1);
    v.handle_event(key(Key::Char('k')), &lines, 11);
    v.handle_event(key(Key::Char('k')), &lines, 11);
    assert_eq!(v.top, 0);
    v.handle_event(ctrl('D'), &lines, 11);
    assert_eq!(v.top, 5);
    v.handle_event(key(Key::PageDown), &lines, 11);
    assert_eq!(v.top, 15);
    v.handle_event(key(Key::Char(' ')), &lines, 11);
    assert_eq!(v.top, 20);
    v.handle_event(key(Key::Char('g')), &lines, 11);
    assert_eq!(v.top, 0);
    v.handle_event(key(Key::End), &lines, 11);
    assert_eq!(v.top, 20);
    assert_eq!(v.handle_event(key(Key::Char('/')), &lines, 11), ViewerCommand::Search);
    assert_eq!(v.handle_event(key(Key::Escape), &lines, 11), ViewerCommand::Quit);
}

#[test]
fn searching_moves_to_matches() {
    let lines = vec!["alpha".to_string(), "beta".to_string(), "alphabet".to_string(), "gamma".to_string()];
    assert_eq!(find_line(&lines, 1, "alpha", true), Some(2));
    assert_eq!(find_line(&lines, 2, "alpha", false), Some(0));
    assert_eq!(find_line(&lines, 0, "", true), None);
    let mut v = ViewerState::new();
    v.search_entered(Some("gam".to_string()), &lines, 40);
    assert_eq!(v.pattern, "gam");
    // four lines fit on the screen: the scroll position stays at 0
    assert_eq!(v.top, 0);
    let long = numbered(50);
    let mut w = ViewerState::new();
    w.search_entered(Some("line 4".to_string()), &long, 11);
    assert_eq!(w.top, 4);
    w.handle_event(key(Key::Char('n')), &long, 11);
    assert_eq!(w.top, 40);
    w.handle_event(key(Key::Char('N')), &long, 11);
    assert_eq!(w.top, 4);
    assert_eq!(w.status_line("f", 50, 11), " f - 5/50 (28%)  j/k scroll  / search  q close  /line 4");
}
