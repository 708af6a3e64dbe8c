//! The read-only file viewer: turning a file's bytes into lines, and a
//! vi-style pager over them (`j`/`k`, half and full pages, `g`/`G`, `/`
//! search with `n`/`N`, `q` to leave).
use vstd::prelude::*;
use crate::input::{InputEvent, Key, KeyInput, MouseInput, is_plain_char, plain_char, any_char};
use crate::text::{chars_of, contains_sub, chars_contain, dec, push_decimal, push_str};

verus! {

/// Only this many leading bytes are looked at to tell a binary file.
pub const BINARY_PROBE: usize = 8192;

/// The index of the first `c` in `s`, or -1.
pub open spec fn find_first(s: Seq<char>, c: char) -> int
    decreases s.len(),
{
    if s.len() == 0 {
        -1
    } else if s[0] == c {
        0
    } else {
        let r = find_first(s.drop_first(), c);
        if r < 0 {
            -1
        } else {
            r + 1
        }
    }
}

proof fn lemma_find_first(s: Seq<char>, c: char, k: int)
    requires
        0 <= k <= s.len(),
        forall|i: int| 0 <= i < k ==> s[i] != c,
    ensures
        k < s.len() && s[k] == c ==> find_first(s, c) == k,
        k == s.len() ==> find_first(s, c) == -1,
    decreases k,
{
    if k > 0 {
        lemma_find_first(s.drop_first(), c, k - 1);
    }
}

/// The lines of `s` as `str::lines` yields them: split at `\n`, a `\r`
/// before the `\n` dropped, and no empty line after a final `\n`.
pub open spec fn split_lines(s: Seq<char>) -> Seq<Seq<char>>
    decreases s.len(),
{
    if s.len() == 0 {
        Seq::empty()
    } else {
        let k = find_first(s, '\n');
        if k < 0 || k >= s.len() {
            seq![s]
        } else {
            let line = s.subrange(0, k);
            let line = if line.len() > 0 && line.last() == '\r' { line.drop_last() } else { line };
            seq![line] + split_lines(s.subrange(k + 1, s.len() as int))
        }
    }
}

/// `line` with each tab replaced by four spaces.
pub open spec fn expand_tabs(line: Seq<char>) -> Seq<char>
    decreases line.len(),
{
    if line.len() == 0 {
        Seq::empty()
    } else {
        let rest = expand_tabs(line.drop_last());
        if line.last() == '\t' {
            rest + seq![' ', ' ', ' ', ' ']
        } else {
            rest.push(line.last())
        }
    }
}

/// The viewer's lines of `text`.
pub open spec fn viewer_lines(text: Seq<char>) -> Seq<Seq<char>> {
    split_lines(text).map_values(|l: Seq<char>| expand_tabs(l))
}

/// The characters of a list of strings.
pub open spec fn views(v: Seq<String>) -> Seq<Seq<char>> {
    v.map_values(|s: String| s@)
}

proof fn lemma_split_prefix(s: Seq<char>, start: int, k: int)
    requires
        0 <= start <= k < s.len(),
        s[k] == '\n',
        forall|i: int| start <= i < k ==> s[i] != '\n',
    ensures
        split_lines(s.subrange(start, s.len() as int)) == seq![
            if k > start && s[k - 1] == '\r' { s.subrange(start, k - 1) } else { s.subrange(start, k) },
        ] + split_lines(s.subrange(k + 1, s.len() as int)),
{
    let t = s.subrange(start, s.len() as int);
    lemma_find_first(t, '\n', k - start);
    assert(t.subrange(0, k - start) =~= s.subrange(start, k));
    assert(t.subrange(k - start + 1, t.len() as int) =~= s.subrange(k + 1, s.len() as int));
    if k > start && s[k - 1] == '\r' {
        assert(s.subrange(start, k).drop_last() =~= s.subrange(start, k - 1));
    }
}

proof fn lemma_split_last(s: Seq<char>, start: int)
    requires
        0 <= start <= s.len(),
        forall|i: int| start <= i < s.len() ==> s[i] != '\n',
    ensures
        start < s.len() ==> split_lines(s.subrange(start, s.len() as int)) == seq![s.subrange(start, s.len() as int)],
        start == s.len() ==> split_lines(s.subrange(start, s.len() as int)) == Seq::<Seq<char>>::empty(),
{
    let t = s.subrange(start, s.len() as int);
    lemma_find_first(t, '\n', t.len() as int);
}

/// Appends `line` with its tabs expanded to `out`.
fn push_expanded(out: &mut String, v: &Vec<char>, from: usize, to: usize)
    requires
        from <= to <= v.len(),
    ensures
        final(out)@ == old(out)@ + expand_tabs(v@.subrange(from as int, to as int)),
{
    let ghost start = out@;
    let mut i = from;
    while i < to
        invariant
            from <= i <= to <= v.len(),
            out@ == start + expand_tabs(v@.subrange(from as int, i as int)),
        decreases to - i,
    {
        assert(v@.subrange(from as int, i + 1).drop_last() =~= v@.subrange(from as int, i as int));
        if v[i] == '\t' {
            out.push(' ');
            out.push(' ');
            out.push(' ');
            out.push(' ');
        } else {
            out.push(v[i]);
        }
        i += 1;
        assert(out@ =~= start + expand_tabs(v@.subrange(from as int, i as int)));
    }
}

/// The viewer's lines of `text`: `str::lines`, each with tabs expanded
/// to four spaces.
pub fn lines_of(text: &str) -> (r: Vec<String>)
    ensures
        views(r@) == viewer_lines(text@),
{
    let v = chars_of(text);
    let n = v.len();
    let ghost s = v@;
    let mut out: Vec<String> = Vec::new();
    let mut start: usize = 0;
    let mut i: usize = 0;
    assert(s.subrange(0, n as int) =~= s);
    while i < n
        invariant
            n == v@.len(),
            s == v@,
            s == text@,
            start <= i <= n,
            forall|j: int| start <= j < i ==> s[j] != '\n',
            views(out@) + viewer_lines(s.subrange(start as int, n as int)) == viewer_lines(s),
        decreases n - i,
    {
        if v[i] == '\n' {
            let end = if i > start && v[i - 1] == '\r' { i - 1 } else { i };
            let mut line = String::new();
            push_expanded(&mut line, &v, start, end);
            proof {
                lemma_split_prefix(s, start as int, i as int);
                let rest = split_lines(s.subrange(i + 1, n as int));
                let f = |l: Seq<char>| expand_tabs(l);
                assert(seq![s.subrange(start as int, end as int)].map_values(f) =~= seq![line@]);
                assert((seq![s.subrange(start as int, end as int)] + rest).map_values(f) =~= seq![line@] + rest.map_values(f));
            }
            let ghost before = out@;
            out.push(line);
            proof {
                assert(views(out@) =~= views(before).push(line@));
                assert(views(out@) + viewer_lines(s.subrange(i + 1, n as int)) =~= views(before) + viewer_lines(s.subrange(start as int, n as int)));
            }
            start = i + 1;
        }
        i += 1;
    }
    proof {
        lemma_split_last(s, start as int);
    }
    if start < n {
        let mut line = String::new();
        push_expanded(&mut line, &v, start, n);
        let ghost before = out@;
        out.push(line);
        proof {
            let f = |l: Seq<char>| expand_tabs(l);
            assert(seq![s.subrange(start as int, n as int)].map_values(f) =~= seq![line@]);
            assert(views(out@) =~= views(before).push(line@));
            assert(views(out@) =~= views(before) + viewer_lines(s.subrange(start as int, n as int)));
        }
    } else {
        proof {
            assert(viewer_lines(s.subrange(start as int, n as int)) =~= Seq::<Seq<char>>::empty());
            assert(views(out@) =~= views(out@) + Seq::<Seq<char>>::empty());
        }
    }
    out
}


/// The text of a file's bytes as `String::from_utf8_lossy` decodes it.
pub uninterp spec fn utf8_lossy(bytes: Seq<u8>) -> Seq<char>;

/// `String::from_utf8_lossy`: invalid sequences become U+FFFD. The
/// result is named, not described.
#[verifier::external_body]
pub(crate) fn decode_lossy(bytes: &[u8]) -> (r: String)
    ensures
        r@ == utf8_lossy(bytes@),
{
    String::from_utf8_lossy(bytes).into_owned()
}

/// Whether a NUL byte occurs among the first `BINARY_PROBE` bytes.
pub open spec fn looks_binary(bytes: Seq<u8>) -> bool {
    exists|i: int| 0 <= i < bytes.len() && i < BINARY_PROBE && bytes[i] == 0
}

/// The lines the viewer shows for file `name` with content `bytes`:
/// refused when it looks binary, else the lossily decoded text split as
/// `lines_of` splits it.
pub fn text_lines(name: &str, bytes: &Vec<u8>) -> (r: Result<Vec<String>, String>)
    ensures
        match r {
            Err(e) => looks_binary(bytes@) && e@ == name@ + " looks like a binary file"@,
            Ok(l) => !looks_binary(bytes@) && views(l@) == viewer_lines(utf8_lossy(bytes@)),
        },
{
    let mut i: usize = 0;
    while i < bytes.len() && i < BINARY_PROBE
        invariant
            i <= bytes@.len(),
            i <= BINARY_PROBE,
            forall|k: int| 0 <= k < i ==> bytes@[k] != 0,
        decreases bytes.len() - i,
    {
        if bytes[i] == 0 {
            let mut m = String::from_str(name);
            push_str(&mut m, " looks like a binary file");
            return Err(m);
        }
        i += 1;
    }
    let text = decode_lossy(bytes.as_slice());
    Ok(lines_of(text.as_str()))
}

/// The message when a remote file turns out larger than the viewer
/// takes.
pub fn too_large_message(name: &str) -> (r: String)
    ensures
        r@ == name@ + " is too large to view"@,
{
    let mut m = String::from_str(name);
    push_str(&mut m, " is too large to view");
    m
}

/// `a + b`, saturating at `usize::MAX`.
pub open spec fn sat_add(a: usize, b: usize) -> usize {
    if a + b <= usize::MAX { (a + b) as usize } else { usize::MAX }
}

/// `a - b`, saturating at 0.
pub open spec fn sat_sub(a: usize, b: usize) -> usize {
    if a >= b { (a - b) as usize } else { 0 }
}

pub open spec fn min_int(a: int, b: int) -> int {
    if a <= b { a } else { b }
}

/// The first line at or after `from` containing `pattern` (going
/// forward), or the last one before `from` (going backward); never one
/// for an empty pattern.
pub open spec fn find_spec(lines: Seq<Seq<char>>, from: int, pattern: Seq<char>, forward: bool, hit: Option<int>) -> bool {
    if pattern.len() == 0 {
        hit is None
    } else if forward {
        match hit {
            Some(i) => from <= i < lines.len() && contains_sub(lines[i], pattern) && forall|j: int|
                from <= j < i ==> !contains_sub(#[trigger] lines[j], pattern),
            None => forall|j: int| from <= j < lines.len() ==> !contains_sub(#[trigger] lines[j], pattern),
        }
    } else {
        match hit {
            Some(i) => 0 <= i < from && i < lines.len() && contains_sub(lines[i], pattern) && forall|j: int|
                i < j < from && j < lines.len() ==> !contains_sub(#[trigger] lines[j], pattern),
            None => forall|j: int| 0 <= j < from && j < lines.len() ==> !contains_sub(#[trigger] lines[j], pattern),
        }
    }
}

/// Searches `lines` for `pattern` (see `find_spec`).
pub fn find_line(lines: &Vec<String>, from: usize, pattern: &str, forward: bool) -> (r: Option<usize>)
    ensures
        find_spec(views(lines@), from as int, pattern@, forward, match r { Some(i) => Some(i as int), None => None }),
{
    let pv = chars_of(pattern);
    if pv.len() == 0 {
        return None;
    }
    let ghost ls = views(lines@);
    if forward {
        let mut i = from;
        while i < lines.len()
            invariant
                forward,
                from <= i,
                ls == views(lines@),
                pv@ == pattern@,
                pv@.len() > 0,
                forall|j: int| from <= j < i ==> !contains_sub(#[trigger] ls[j], pattern@),
            decreases lines.len() - i,
        {
            let lv = chars_of(lines[i].as_str());
            if chars_contain(&lv, &pv) {
                assert(ls[i as int] == lines@[i as int]@);
                return Some(i);
            }
            assert(ls[i as int] == lines@[i as int]@);
            i += 1;
        }
        None
    } else {
        let mut i = if from < lines.len() { from } else { lines.len() };
        while i > 0
            invariant
                !forward,
                i <= from,
                i <= lines@.len(),
                ls == views(lines@),
                pv@ == pattern@,
                pv@.len() > 0,
                forall|j: int| i <= j < from && j < lines.len() ==> !contains_sub(#[trigger] ls[j], pattern@),
            decreases i,
        {
            let lv = chars_of(lines[i - 1].as_str());
            if chars_contain(&lv, &pv) {
                assert(ls[i - 1] == lines@[i - 1]@);
                return Some(i - 1);
            }
            assert(ls[i - 1] == lines@[i - 1]@);
            i -= 1;
        }
        None
    }
}

/// What the caller has to do after an input event in the viewer.
#[derive(Clone, Copy, PartialEq, Eq, Structural, Debug)]
pub enum ViewerCommand {
    Continue,
    /// leave the viewer
    Quit,
    /// prompt for a search pattern, then call `search_entered`
    Search,
}

/// The pager's state: the first line shown and the last search pattern.
pub struct ViewerState {
    pub top: usize,
    pub pattern: String,
}

/// Rows of text shown on a screen of `rows` rows (at least one).
pub open spec fn content_rows(rows: usize) -> usize {
    if rows >= 2 { (rows - 1) as usize } else { 1 }
}

/// The last useful scroll position.
pub open spec fn max_top(len: nat, rows: usize) -> usize {
    if len >= content_rows(rows) { (len - content_rows(rows)) as usize } else { 0 }
}

/// Where a search from the top line lands: the match, or the last scroll
/// position if the match is further down.
pub open spec fn land(hit: Option<int>, top: usize, len: nat, rows: usize) -> usize {
    match hit {
        Some(i) => min_int(i, max_top(len, rows) as int) as usize,
        None => top,
    }
}

/// The scroll position after key or mouse input `ev` (searches aside).
pub open spec fn scrolled(top: usize, ev: InputEvent, len: nat, rows: usize) -> usize {
    let cr = content_rows(rows);
    let mt = max_top(len, rows);
    let down = |k: usize| min_int(sat_add(top, k) as int, mt as int) as usize;
    match ev {
        InputEvent::Key(k) => {
            if is_plain_char(k, 'j') || k.key == Key::DownArrow {
                down(1)
            } else if is_plain_char(k, 'k') || k.key == Key::UpArrow {
                sat_sub(top, 1)
            } else if k.key == Key::Char('D') && k.mods.spec_is_ctrl_only() {
                down((cr / 2) as usize)
            } else if k.key == Key::Char('U') && k.mods.spec_is_ctrl_only() {
                sat_sub(top, (cr / 2) as usize)
            } else if k.key == Key::PageDown || is_plain_char(k, ' ') {
                down(cr)
            } else if k.key == Key::PageUp {
                sat_sub(top, cr)
            } else if is_plain_char(k, 'g') || k.key == Key::Home {
                0
            } else if k.key == Key::Char('G') || k.key == Key::End {
                mt
            } else {
                top
            }
        },
        InputEvent::Mouse(m) => if m.buttons.vert_wheel {
            if m.buttons.wheel_positive { sat_sub(top, 3) } else { down(3) }
        } else {
            top
        },
        _ => top,
    }
}

impl ViewerState {
    /// The pager at the first line, with no pattern.
    pub fn new() -> (r: ViewerState)
        ensures
            r.top == 0,
            r.pattern@.len() == 0,
    {
        ViewerState { top: 0, pattern: String::new() }
    }

    /// Handles one input event on a screen of `rows` rows: `q`/Escape
    /// leaves, `/` asks for a pattern, `n`/`N` go to the next/previous
    /// match of the last pattern, anything else scrolls as `scrolled`
    /// says.
    pub fn handle_event(&mut self, ev: InputEvent, lines: &Vec<String>, rows: usize) -> (cmd: ViewerCommand)
        ensures
            viewer_event_step(*final(self), *old(self), ev, lines@, rows, cmd),
    {
        let cr = if rows >= 2 { rows - 1 } else { 1 };
        let mt = lines.len().saturating_sub(cr);
        match ev {
            InputEvent::Key(k) => {
                if plain_char(&k, 'q') || k.key == Key::Escape {
                    return ViewerCommand::Quit;
                }
                if plain_char(&k, '/') {
                    return ViewerCommand::Search;
                }
                if plain_char(&k, 'n') {
                    let ghost t0 = self.top;
                    let hit = find_line(lines, self.top.saturating_add(1), self.pattern.as_str(), true);
                    match hit {
                        Some(h) => self.top = if h < mt { h } else { mt },
                        None => {},
                    }
                    proof {
                        let hi = match hit { Some(h) => Some(h as int), None => None };
                        assert(find_spec(views(lines@), sat_add(t0, 1) as int, self.pattern@, true, hi));
                        assert(self.top == land(hi, t0, lines@.len(), rows));
                    }
                    return ViewerCommand::Continue;
                }
                if any_char(&k, 'N') {
                    let ghost t0 = self.top;
                    let hit = find_line(lines, self.top, self.pattern.as_str(), false);
                    match hit {
                        Some(h) => self.top = if h < mt { h } else { mt },
                        None => {},
                    }
                    proof {
                        let hi = match hit { Some(h) => Some(h as int), None => None };
                        assert(find_spec(views(lines@), t0 as int, self.pattern@, false, hi));
                        assert(self.top == land(hi, t0, lines@.len(), rows));
                    }
                    return ViewerCommand::Continue;
                }
                if plain_char(&k, 'j') || k.key == Key::DownArrow {
                    self.top = min_usize(self.top.saturating_add(1), mt);
                } else if plain_char(&k, 'k') || k.key == Key::UpArrow {
                    self.top = self.top.saturating_sub(1);
                } else if any_char(&k, 'D') && k.mods.is_ctrl_only() {
                    self.top = min_usize(self.top.saturating_add(cr / 2), mt);
                } else if any_char(&k, 'U') && k.mods.is_ctrl_only() {
                    self.top = self.top.saturating_sub(cr / 2);
                } else if k.key == Key::PageDown || plain_char(&k, ' ') {
                    self.top = min_usize(self.top.saturating_add(cr), mt);
                } else if k.key == Key::PageUp {
                    self.top = self.top.saturating_sub(cr);
                } else if plain_char(&k, 'g') || k.key == Key::Home {
                    self.top = 0;
                } else if any_char(&k, 'G') || k.key == Key::End {
                    self.top = mt;
                }
                ViewerCommand::Continue
            },
            InputEvent::Mouse(m) => {
                if m.buttons.vert_wheel {
                    if m.buttons.wheel_positive {
                        self.top = self.top.saturating_sub(3);
                    } else {
                        self.top = min_usize(self.top.saturating_add(3), mt);
                    }
                }
                ViewerCommand::Continue
            },
            _ => ViewerCommand::Continue,
        }
    }

    /// The pattern typed at the search prompt (`None` if cancelled): a
    /// non-empty pattern replaces the last one and the view moves to its
    /// next match after the top line, wrapping round to the start.
    pub fn search_entered(&mut self, line: Option<String>, lines: &Vec<String>, rows: usize)
        ensures
            viewer_search_step(*final(self), *old(self), line, lines@, rows),
    {
        let l = match line {
            Some(l) => l,
            None => return,
        };
        if l.unicode_len() == 0 {
            return;
        }
        let cr = if rows >= 2 { rows - 1 } else { 1 };
        let mt = lines.len().saturating_sub(cr);
        let h1 = find_line(lines, self.top.saturating_add(1), l.as_str(), true);
        let h2 = find_line(lines, 0, l.as_str(), true);
        let hit = match h1 {
            Some(h) => Some(h),
            None => h2,
        };
        let ghost t0 = self.top;
        match hit {
            Some(h) => self.top = if h < mt { h } else { mt },
            None => {},
        }
        self.pattern = l;
        proof {
            let a = match h1 { Some(h) => Some(h as int), None => None };
            let b = match h2 { Some(h) => Some(h as int), None => None };
            assert(find_spec(views(lines@), sat_add(t0, 1) as int, l@, true, a));
            assert(find_spec(views(lines@), 0, l@, true, b));
            assert(self.top == land(if a is Some { a } else { b }, t0, lines@.len(), rows));
        }
    }

    /// The status line: `" {title} - {line}/{count} ({percent}%)  j/k
    /// scroll  / search  q close "`, then `" /{pattern}"` when there is a
    /// pattern. The percentage is of the lines seen so far, with
    /// `rows - 1` rows of text.
    pub fn status_line(&self, title: &str, count: usize, rows: usize) -> (r: String)
        ensures
            r@ == status_spec(title@, self.top as nat, count as nat, if rows >= 1 { (rows - 1) as nat } else { 0 }, self.pattern@),
    {
        let cr: u128 = if rows >= 1 { (rows - 1) as u128 } else { 0 };
        let top = self.top as u128;
        let n = count as u128;
        let percent: u128 = if n == 0 {
            100
        } else {
            let seen = if top + cr < n { top + cr } else { n };
            seen * 100 / n
        };
        let line_no: u128 = if top + 1 < (if n >= 1 { n } else { 1 }) { top + 1 } else { if n >= 1 { n } else { 1 } };
        let mut out = String::new();
        out.push(' ');
        push_str(&mut out, title);
        push_str(&mut out, " - ");
        push_decimal(&mut out, line_no);
        out.push('/');
        push_decimal(&mut out, n);
        push_str(&mut out, " (");
        push_decimal(&mut out, percent);
        push_str(&mut out, "%)  j/k scroll  / search  q close ");
        if self.pattern.unicode_len() > 0 {
            push_str(&mut out, " /");
            push_str(&mut out, self.pattern.as_str());
        }
        proof {
            assert(out@ =~= status_spec(title@, self.top as nat, count as nat, cr as nat, self.pattern@));
        }
        out
    }
}

/// What one input event does to the pager on a screen of `rows` rows
/// showing `lines` (see `ViewerState::handle_event`).
pub open spec fn viewer_event_step(new: ViewerState, old: ViewerState, ev: InputEvent, lines: Seq<String>, rows: usize, cmd: ViewerCommand) -> bool {
    &&& new.pattern == old.pattern
    &&& match ev {
        InputEvent::Key(k) => if is_plain_char(k, 'q') || k.key == Key::Escape {
            cmd == ViewerCommand::Quit && new.top == old.top
        } else if is_plain_char(k, '/') {
            cmd == ViewerCommand::Search && new.top == old.top
        } else if is_plain_char(k, 'n') {
            cmd == ViewerCommand::Continue && exists|hit: Option<int>|
                find_spec(views(lines), sat_add(old.top, 1) as int, old.pattern@, true, hit)
                && new.top == land(hit, old.top, lines.len(), rows)
        } else if k.key == Key::Char('N') {
            cmd == ViewerCommand::Continue && exists|hit: Option<int>|
                find_spec(views(lines), old.top as int, old.pattern@, false, hit)
                && new.top == land(hit, old.top, lines.len(), rows)
        } else {
            cmd == ViewerCommand::Continue && new.top == scrolled(old.top, ev, lines.len(), rows)
        },
        _ => cmd == ViewerCommand::Continue && new.top == scrolled(old.top, ev, lines.len(), rows),
    }
}

/// What a pattern typed at the search prompt does to the pager (see
/// `ViewerState::search_entered`).
pub open spec fn viewer_search_step(new: ViewerState, old: ViewerState, line: Option<String>, lines: Seq<String>, rows: usize) -> bool {
    match line {
        Some(l) if l@.len() > 0 => {
            &&& new.pattern == l
            &&& exists|h1: Option<int>, h2: Option<int>|
                find_spec(views(lines), sat_add(old.top, 1) as int, l@, true, h1)
                && find_spec(views(lines), 0, l@, true, h2)
                && new.top == land(if h1 is Some { h1 } else { h2 }, old.top, lines.len(), rows)
        },
        _ => new.pattern == old.pattern && new.top == old.top,
    }
}

/// One step of a viewing session: an input event or a search.
pub open spec fn viewer_moved(new: ViewerState, old: ViewerState, lines: Seq<String>, rows: usize) -> bool {
    ||| exists|ev: InputEvent, cmd: ViewerCommand| viewer_event_step(new, old, ev, lines, rows, cmd)
    ||| exists|line: Option<String>| viewer_search_step(new, old, line, lines, rows)
}

proof fn lemma_viewer_step_in_range(new: ViewerState, old: ViewerState, lines: Seq<String>, rows: usize)
    requires
        old.top <= max_top(lines.len(), rows),
        viewer_moved(new, old, lines, rows),
    ensures
        new.top <= max_top(lines.len(), rows),
{
    if exists|ev: InputEvent, cmd: ViewerCommand| viewer_event_step(new, old, ev, lines, rows, cmd) {
        let (ev, cmd) = choose|ev: InputEvent, cmd: ViewerCommand| viewer_event_step(new, old, ev, lines, rows, cmd);
        assert(scrolled(old.top, ev, lines.len(), rows) <= max_top(lines.len(), rows));
    }
}

/// Over a whole viewing session (events and searches, on a screen whose
/// size stays the same) the first line shown never goes past the last
/// useful scroll position, starting from the top.
pub proof fn law_viewer_stays_in_range(states: Seq<ViewerState>, lines: Seq<String>, rows: usize)
    requires
        states.len() > 0,
        states[0].top == 0,
        forall|i: int| 0 <= i < states.len() - 1 ==> viewer_moved(#[trigger] states[i + 1], states[i], lines, rows),
    ensures
        forall|i: int| 0 <= i < states.len() ==> (#[trigger] states[i]).top <= max_top(lines.len(), rows),
    decreases states.len(),
{
    if states.len() > 1 {
        let prev = states.drop_last();
        assert forall|i: int| 0 <= i < prev.len() - 1 implies viewer_moved(#[trigger] prev[i + 1], prev[i], lines, rows) by {
            assert(prev[i + 1] == states[i + 1]);
            assert(prev[i] == states[i]);
        }
        law_viewer_stays_in_range(prev, lines, rows);
        let n = states.len() - 1;
        assert(states[n - 1] == prev[n - 1]);
        assert(viewer_moved(states[(n - 1) + 1], states[n - 1], lines, rows));
        lemma_viewer_step_in_range(states[n], states[n - 1], lines, rows);
        assert forall|i: int| 0 <= i < states.len() implies (#[trigger] states[i]).top <= max_top(lines.len(), rows) by {
            if i < n {
                assert(states[i] == prev[i]);
            }
        }
    }
}

/// PageUp scrolls back one full page: the first line shown moves up by the
/// number of text rows (all rows but the status line, at least one),
/// stopping at the first line.
pub proof fn law_page_up_scrolls_a_page(
    new: ViewerState,
    old: ViewerState,
    k: KeyInput,
    lines: Seq<String>,
    rows: usize,
    cmd: ViewerCommand,
)
    requires
        k.key == Key::PageUp,
        viewer_event_step(new, old, InputEvent::Key(k), lines, rows, cmd),
    ensures
        cmd == ViewerCommand::Continue,
        new.pattern == old.pattern,
        ({
            let page: int = if rows >= 2 { rows - 1 } else { 1 };
            new.top == (if old.top >= page { old.top - page } else { 0 })
        }),
{
}

/// PageDown (or a plain space) scrolls on one full page: the first line
/// shown moves down by the number of text rows, but not past the last
/// useful position (where the last line sits on the bottom text row).
pub proof fn law_page_down_scrolls_a_page(
    new: ViewerState,
    old: ViewerState,
    k: KeyInput,
    lines: Seq<String>,
    rows: usize,
    cmd: ViewerCommand,
)
    requires
        k.key == Key::PageDown || is_plain_char(k, ' '),
        lines.len() <= usize::MAX,
        viewer_event_step(new, old, InputEvent::Key(k), lines, rows, cmd),
    ensures
        cmd == ViewerCommand::Continue,
        new.pattern == old.pattern,
        ({
            let page: int = if rows >= 2 { rows - 1 } else { 1 };
            let last: int = if lines.len() >= page { lines.len() - page } else { 0 };
            new.top == (if old.top + page <= last { old.top + page } else { last })
        }),
{
    let cr = content_rows(rows);
    let mt = max_top(lines.len(), rows);
    assert(new.top == scrolled(old.top, InputEvent::Key(k), lines.len(), rows));
    assert(new.top == min_int(sat_add(old.top, cr) as int, mt as int) as usize);
}

/// The mouse wheel scrolls the viewer three lines: up (`wheel_positive`)
/// stopping at the first line, down stopping at the last useful position.
pub proof fn law_wheel_scrolls_three_lines(
    new: ViewerState,
    old: ViewerState,
    m: MouseInput,
    lines: Seq<String>,
    rows: usize,
    cmd: ViewerCommand,
)
    requires
        m.buttons.vert_wheel,
        lines.len() <= usize::MAX,
        viewer_event_step(new, old, InputEvent::Mouse(m), lines, rows, cmd),
    ensures
        cmd == ViewerCommand::Continue,
        new.pattern == old.pattern,
        m.buttons.wheel_positive ==> new.top == (if old.top >= 3 { old.top - 3 } else { 0 }),
        ({
            let page: int = if rows >= 2 { rows - 1 } else { 1 };
            let last: int = if lines.len() >= page { lines.len() - page } else { 0 };
            !m.buttons.wheel_positive ==> new.top == (if old.top + 3 <= last { old.top + 3 } else { last })
        }),
{
    let mt = max_top(lines.len(), rows);
    assert(new.top == scrolled(old.top, InputEvent::Mouse(m), lines.len(), rows));
    if !m.buttons.wheel_positive {
        assert(new.top == min_int(sat_add(old.top, 3) as int, mt as int) as usize);
    }
}

/// PageUp then PageDown (or PageDown then PageUp) leaves the view where it
/// was, wherever a full page fits on that side of it: above the first
/// line shown for PageUp first, below it for PageDown first.
pub proof fn law_page_up_down_round_trip(
    s0: ViewerState,
    s1: ViewerState,
    s2: ViewerState,
    up: KeyInput,
    down: KeyInput,
    lines: Seq<String>,
    rows: usize,
    c1: ViewerCommand,
    c2: ViewerCommand,
)
    requires
        up.key == Key::PageUp,
        down.key == Key::PageDown,
        s0.top <= max_top(lines.len(), rows),
    ensures
        ({
            let page: int = if rows >= 2 { rows - 1 } else { 1 };
            page <= s0.top && viewer_event_step(s1, s0, InputEvent::Key(up), lines, rows, c1)
                && viewer_event_step(s2, s1, InputEvent::Key(down), lines, rows, c2) ==> s2.top == s0.top
        }),
        ({
            let page: int = if rows >= 2 { rows - 1 } else { 1 };
            s0.top + page <= max_top(lines.len(), rows) && viewer_event_step(s1, s0, InputEvent::Key(down), lines, rows, c1)
                && viewer_event_step(s2, s1, InputEvent::Key(up), lines, rows, c2) ==> s2.top == s0.top
        }),
{
}

/// The viewer's status line (see `ViewerState::status_line`).
pub open spec fn status_spec(title: Seq<char>, top: nat, count: nat, content: nat, pattern: Seq<char>) -> Seq<char> {
    let percent = if count == 0 { 100 } else { min_int((top + content) as int, count as int) * 100 / (count as int) };
    let line_no = min_int((top + 1) as int, if count >= 1 { count as int } else { 1 });
    let head = seq![' '] + title + " - "@ + dec(line_no as nat) + seq!['/'] + dec(count) + " ("@ + dec(percent as nat)
        + "%)  j/k scroll  / search  q close "@;
    if pattern.len() > 0 {
        head + " /"@ + pattern
    } else {
        head
    }
}

fn min_usize(a: usize, b: usize) -> (r: usize)
    ensures
        r == min_int(a as int, b as int),
{
    if a <= b { a } else { b }
}

} // verus!
