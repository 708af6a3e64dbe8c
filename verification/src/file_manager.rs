//! The file manager: a listing of one directory, local or on the remote
//! end of an SFTP session, with browser-style back/forward history and a
//! small action menu.
//!
//! Reading directories and files is left to the caller: an operation
//! that needs a listing records why (`pending`) and the caller answers
//! `listing_request` with `complete_listing` until no request is left.
use vstd::prelude::*;
use crate::entries::{FmEntry, entries_sorted, sort_entries};
use crate::input::{InputEvent, Key, KeyInput, MouseButtons, MouseInput, plain_char, any_char, is_plain_char};
use crate::paths::{dest_candidate_spec, first_free_spec, unique_local_dest, expand_tilde, expand_tilde_spec, join_local, path_join, remote_join, remote_join_spec, remote_parent, remote_parent_spec};
use crate::size::{human_size, human_size_spec};
use crate::text::{dec, opt_view, pad_left, pad_right, push_decimal, push_padded_left, push_padded_right, push_repeat, push_str, repeat_char, str_eq, str_has_char, to_string, trim, trimmed};

verus! {

/// Rows above the file listing (location header and help line).
pub const HEADER_ROWS: usize = 2;

/// Rows taken by the header and the status line.
pub const ROW_OVERHEAD: usize = 3;

/// An entry of the action menu.
#[derive(Clone, Copy, PartialEq, Eq, Structural, Debug)]
pub enum FmAction {
    Open,
    View,
    Parent,
    GoToFolder,
    Back,
    Forward,
    Refresh,
    Download,
    Upload,
    Rename,
    Delete,
    Quit,
}

/// The label shown for an action.
pub open spec fn action_label(a: FmAction) -> Seq<char> {
    match a {
        FmAction::Open => "Open"@,
        FmAction::View => "View file"@,
        FmAction::Parent => "Go to parent"@,
        FmAction::GoToFolder => "Go to folder..."@,
        FmAction::Back => "Back"@,
        FmAction::Forward => "Forward"@,
        FmAction::Refresh => "Refresh"@,
        FmAction::Download => "Download"@,
        FmAction::Upload => "Upload here..."@,
        FmAction::Rename => "Rename..."@,
        FmAction::Delete => "Delete..."@,
        FmAction::Quit => "Close file manager"@,
    }
}

impl FmAction {
    /// The label shown for this action.
    pub fn label(&self) -> (r: &'static str)
        ensures
            r@ == action_label(*self),
    {
        match self {
            FmAction::Open => "Open",
            FmAction::View => "View file",
            FmAction::Parent => "Go to parent",
            FmAction::GoToFolder => "Go to folder...",
            FmAction::Back => "Back",
            FmAction::Forward => "Forward",
            FmAction::Refresh => "Refresh",
            FmAction::Download => "Download",
            FmAction::Upload => "Upload here...",
            FmAction::Rename => "Rename...",
            FmAction::Delete => "Delete...",
            FmAction::Quit => "Close file manager",
        }
    }
}

/// The longest label among `items`, 0 for none.
pub open spec fn max_label_len(items: Seq<FmAction>) -> nat
    decreases items.len(),
{
    if items.len() == 0 {
        0
    } else {
        let rest = max_label_len(items.drop_last());
        let l = action_label(items.last()).len();
        if l > rest {
            l
        } else {
            rest
        }
    }
}

/// A small popup menu drawn over the listing.
pub struct FmMenu {
    pub items: Vec<FmAction>,
    pub selected: usize,
    /// top-left cell of the box (including its border)
    pub x: usize,
    pub y: usize,
}

impl FmMenu {
    /// Box width: the longest label plus border and padding.
    pub open spec fn spec_width(&self) -> nat {
        max_label_len(self.items@) + 4
    }

    /// Box height: one row per item plus the border.
    pub open spec fn spec_height(&self) -> nat {
        self.items@.len() + 2
    }

    /// The item under cell `(x, y)`: inside the border, on row `y`.
    pub open spec fn spec_hit(&self, x: int, y: int) -> Option<int> {
        if x > self.x && x < self.x + self.spec_width() - 1 && y > self.y && y < self.y
            + self.spec_height() - 1 {
            Some(y - self.y - 1)
        } else {
            None
        }
    }

    pub open spec fn wf(&self) -> bool {
        self.items@.len() > 0 && self.selected < self.items@.len()
    }

    /// Box width: the longest label plus border and padding.
    pub fn width(&self) -> (r: usize)
        ensures
            r == self.spec_width(),
    {
        let mut m: usize = 0;
        let mut i: usize = 0;
        while i < self.items.len()
            invariant
                i <= self.items@.len(),
                m == max_label_len(self.items@.take(i as int)),
                m <= 32,
            decreases self.items.len() - i,
        {
            let l = self.items[i].label().unicode_len();
            proof {
                assert(self.items@.take(i + 1).drop_last() =~= self.items@.take(i as int));
                assert(self.items@.take(i + 1).last() == self.items@[i as int]);
                reveal_strlit("Open");
                reveal_strlit("View file");
                reveal_strlit("Go to parent");
                reveal_strlit("Go to folder...");
                reveal_strlit("Back");
                reveal_strlit("Forward");
                reveal_strlit("Refresh");
                reveal_strlit("Download");
                reveal_strlit("Upload here...");
                reveal_strlit("Rename...");
                reveal_strlit("Delete...");
                reveal_strlit("Close file manager");
            }
            if l > m {
                m = l;
            }
            i += 1;
        }
        assert(self.items@.take(self.items@.len() as int) =~= self.items@);
        m + 4
    }

    /// Box height: one row per item plus the border (the count of items
    /// leaves room for the two border rows).
    pub fn height(&self) -> (r: usize)
        requires
            self.items@.len() <= usize::MAX - 2,
        ensures
            r == self.spec_height(),
    {
        self.items.len() + 2
    }

    /// Maps a cell position to an item index, if it is over one.
    pub fn hit(&self, x: usize, y: usize) -> (r: Option<usize>)
        requires
            self.items@.len() <= usize::MAX - 2,
        ensures
            match r {
                Some(i) => self.spec_hit(x as int, y as int) == Some(i as int),
                None => self.spec_hit(x as int, y as int) is None,
            },
    {
        let w = self.width();
        let h = self.height();
        if x > self.x && x - self.x < w - 1 && y > self.y && y - self.y < h - 1 {
            Some(y - self.y - 1)
        } else {
            None
        }
    }
}

/// The top (`'┌'`, `'┐'`) or bottom (`'└'`, `'┘'`) border of a menu box
/// `width` wide.
pub open spec fn box_border(left: char, right: char, width: nat) -> Seq<char> {
    seq![left] + repeat_char('─', (width - 2) as nat) + seq![right]
}

/// The row of a menu box `width` wide for action `a`: its label
/// left-aligned between a space on each side, inside the side borders.
pub open spec fn box_row(a: FmAction, width: nat) -> Seq<char> {
    seq!['│', ' '] + pad_right(action_label(a), (width - 4) as nat) + seq![' ', '│']
}

/// Row `k` of the menu box `width` wide for `items`: the top border, one
/// row per item, and the bottom border.
pub open spec fn box_line(items: Seq<FmAction>, width: nat, k: int) -> Seq<char> {
    if k == 0 {
        box_border('┌', '┐', width)
    } else if k <= items.len() {
        box_row(items[k - 1], width)
    } else {
        box_border('└', '┘', width)
    }
}

impl FmMenu {
    /// The rows of the menu box (see `box_line`); the selected item is row
    /// `selected + 1`.
    pub fn box_lines(&self) -> (r: Vec<String>)
        requires
            self.items@.len() <= usize::MAX - 2,
        ensures
            r@.len() == self.items@.len() + 2,
            forall|k: int| 0 <= k < r@.len() ==> (#[trigger] r@[k])@ == box_line(self.items@, self.spec_width(), k),
    {
        let w = self.width();
        let inner = w - 2;
        let mut lines: Vec<String> = Vec::new();
        let mut top = String::new();
        top.push('┌');
        push_repeat(&mut top, '─', inner);
        top.push('┐');
        assert(top@ =~= box_border('┌', '┐', w as nat));
        lines.push(top);
        let mut i: usize = 0;
        while i < self.items.len()
            invariant
                i <= self.items@.len(),
                w == self.spec_width(),
                inner == w - 2,
                w >= 4,
                lines@.len() == i + 1,
                forall|k: int| 0 <= k < lines@.len() ==> (#[trigger] lines@[k])@ == box_line(self.items@, w as nat, k),
            decreases self.items.len() - i,
        {
            let mut row = String::new();
            row.push('│');
            row.push(' ');
            push_padded_right(&mut row, self.items[i].label(), inner - 2);
            row.push(' ');
            row.push('│');
            assert(row@ =~= box_row(self.items@[i as int], w as nat));
            lines.push(row);
            i += 1;
        }
        let mut bottom = String::new();
        bottom.push('└');
        push_repeat(&mut bottom, '─', inner);
        bottom.push('┘');
        assert(bottom@ =~= box_border('└', '┘', w as nat));
        lines.push(bottom);
        lines
    }
}

/// The actions offered by the menu: open/view for the selection (and
/// download on a remote pane), upload on a remote pane, rename/delete
/// when something is selected, then parent, going to a folder chosen in
/// the folder picker on a local pane, back/forward when there is
/// history, refresh and quit.
pub open spec fn menu_items_spec(
    selected_is_dir: Option<bool>,
    remote: bool,
    has_back: bool,
    has_forward: bool,
) -> Seq<FmAction> {
    let a = match selected_is_dir {
        Some(true) => seq![FmAction::Open],
        Some(false) => if remote {
            seq![FmAction::View, FmAction::Download]
        } else {
            seq![FmAction::View]
        },
        None => Seq::<FmAction>::empty(),
    };
    let b = if remote {
        seq![FmAction::Upload]
    } else {
        Seq::<FmAction>::empty()
    };
    let c = if selected_is_dir is Some {
        seq![FmAction::Rename, FmAction::Delete]
    } else {
        Seq::<FmAction>::empty()
    };
    let d = if remote {
        seq![FmAction::Parent]
    } else {
        seq![FmAction::Parent, FmAction::GoToFolder]
    };
    let e = if has_back {
        seq![FmAction::Back]
    } else {
        Seq::<FmAction>::empty()
    };
    let f = if has_forward {
        seq![FmAction::Forward]
    } else {
        Seq::<FmAction>::empty()
    };
    a + b + c + d + e + f + seq![FmAction::Refresh, FmAction::Quit]
}

/// Why a directory listing was asked for, which decides what its result
/// does.
pub enum ListingPurpose {
    /// entering `cwd`, coming from `prior`; `record` adds it to history
    Navigate { prior: String, record: bool },
    /// going back to `cwd` from `prior`
    Back { prior: String },
    /// going forward to `cwd` from `prior`
    Forward { prior: String },
    /// a refresh: a failure is reported on the status line
    Reload,
    /// a refresh whose failure is ignored
    Quiet,
    /// a refresh after renaming an entry to `new_name`, which is then
    /// selected
    AfterRename { new_name: String },
}

/// The size of the terminal, in cells.
#[derive(Clone, Copy)]
pub struct ScreenSize {
    pub cols: usize,
    pub rows: usize,
}

/// What the caller has to do after an input event.
#[derive(Clone, Copy, PartialEq, Eq, Structural, Debug)]
pub enum FmCommand {
    /// nothing beyond redrawing
    Continue,
    /// close the file manager
    Quit,
    /// show the selected file in the viewer
    View,
    /// prompt for a new name for the selected entry
    Rename,
    /// ask whether to delete the selected entry
    Delete,
    /// download the selected remote file
    Download,
    /// ask for a local file to upload (see `upload_picked`)
    Upload,
    /// ask the folder picker for a folder to go to (see `folder_picked`)
    GoToFolder,
}

/// The file manager's state.
pub struct FileManager {
    /// `None` for the local filesystem, else the remote pane's label
    pub remote_label: Option<String>,
    pub cwd: String,
    pub entries: Vec<FmEntry>,
    pub active_idx: usize,
    pub top_row: usize,
    pub max_items: usize,
    pub status: String,
    /// browser-style navigation history
    pub back_stack: Vec<String>,
    pub fwd_stack: Vec<String>,
    /// a click delivers a press and a release both carrying the button;
    /// this tracks the edge so that each click acts once
    pub prev_mouse_buttons: MouseButtons,
    /// an open action menu
    pub menu: Option<FmMenu>,
    /// a listing of `cwd` that is still owed, and why
    pub pending: Option<ListingPurpose>,
}

/// The state after a successful reload of `entries`: the sorted listing,
/// with the selection and scroll position at the top.
pub open spec fn loaded(fm: FileManager, old: FileManager, entries: Seq<FmEntry>) -> bool {
    &&& entries_sorted(fm.entries@)
    &&& fm.entries@.to_multiset() == entries.to_multiset()
    &&& fm.active_idx == 0
    &&& fm.top_row == 0
}

impl FileManager {
    /// The selection is on an entry (or at 0 when there is none), the
    /// scroll position is within the listing and an open menu is well
    /// formed.
    pub open spec fn wf(&self) -> bool {
        &&& (self.entries@.len() == 0 ==> self.active_idx == 0)
        &&& (self.entries@.len() > 0 ==> self.active_idx < self.entries@.len())
        &&& self.top_row <= self.entries@.len()
        &&& (self.menu matches Some(m) ==> m.wf() && m.items@.len() <= 16)
    }

    pub open spec fn spec_is_remote(&self) -> bool {
        self.remote_label is Some
    }

    /// The selected entry, if any.
    pub open spec fn spec_selected(&self) -> Option<FmEntry> {
        if self.active_idx < self.entries@.len() {
            Some(self.entries@[self.active_idx as int])
        } else {
            None
        }
    }

    /// Everything but the listing, the selection and the status line is
    /// as in `old`.
    pub open spec fn same_history(&self, old: &FileManager) -> bool {
        &&& self.back_stack@ == old.back_stack@
        &&& self.fwd_stack@ == old.fwd_stack@
    }

    /// A file manager showing the listing of `cwd`; fails with the
    /// listing's error.
    pub fn new(remote_label: Option<String>, cwd: String, listing: Result<Vec<FmEntry>, String>) -> (r:
        Result<FileManager, String>)
        ensures
            match (listing, r) {
                (Ok(l), Ok(fm)) => {
                    &&& fm.wf()
                    &&& fm.remote_label == remote_label
                    &&& fm.cwd == cwd
                    &&& entries_sorted(fm.entries@)
                    &&& fm.entries@.to_multiset() == l@.to_multiset()
                    &&& fm.active_idx == 0 && fm.top_row == 0 && fm.max_items == 0
                    &&& fm.status@.len() == 0
                    &&& fm.back_stack@.len() == 0 && fm.fwd_stack@.len() == 0
                    &&& fm.prev_mouse_buttons == MouseButtons::spec_none()
                    &&& fm.menu is None && fm.pending is None
                },
                (Err(e), Err(e2)) => e2 == e,
                _ => false,
            },
    {
        match listing {
            Ok(l) => {
                let entries = sort_entries(l);
                proof {
                    broadcast use vstd::seq_lib::group_to_multiset_ensures;
                }
                Ok(FileManager {
                    remote_label,
                    cwd,
                    entries,
                    active_idx: 0,
                    top_row: 0,
                    max_items: 0,
                    status: String::new(),
                    back_stack: Vec::new(),
                    fwd_stack: Vec::new(),
                    prev_mouse_buttons: MouseButtons::none(),
                    menu: None,
                    pending: None,
                })
            },
            Err(e) => Err(e),
        }
    }

    pub fn is_remote(&self) -> (r: bool)
        ensures
            r == self.spec_is_remote(),
    {
        self.remote_label.is_some()
    }

    /// The directory whose listing is owed, if any.
    pub fn listing_request(&self) -> (r: Option<&String>)
        ensures
            r == (if self.pending is Some { Some(&self.cwd) } else { None }),
    {
        if self.pending.is_some() {
            Some(&self.cwd)
        } else {
            None
        }
    }

    fn load(&mut self, listing: Vec<FmEntry>)
        ensures
            entries_sorted(final(self).entries@),
            final(self).entries@.to_multiset() == listing@.to_multiset(),
            final(self).active_idx == 0,
            final(self).top_row == 0,
            final(self).remote_label == old(self).remote_label,
            final(self).cwd == old(self).cwd,
            final(self).max_items == old(self).max_items,
            final(self).status == old(self).status,
            final(self).back_stack == old(self).back_stack,
            final(self).fwd_stack == old(self).fwd_stack,
            final(self).prev_mouse_buttons == old(self).prev_mouse_buttons,
            final(self).menu == old(self).menu,
            final(self).pending == old(self).pending,
    {
        self.entries = sort_entries(listing);
        self.active_idx = 0;
        self.top_row = 0;
    }

    fn set_error_status(&mut self, err: &String)
        ensures
            final(self).status@ == "Error: "@ + err@,
            final(self).remote_label == old(self).remote_label,
            final(self).cwd == old(self).cwd,
            final(self).entries == old(self).entries,
            final(self).active_idx == old(self).active_idx,
            final(self).top_row == old(self).top_row,
            final(self).max_items == old(self).max_items,
            final(self).back_stack == old(self).back_stack,
            final(self).fwd_stack == old(self).fwd_stack,
            final(self).prev_mouse_buttons == old(self).prev_mouse_buttons,
            final(self).menu == old(self).menu,
            final(self).pending == old(self).pending,
    {
        let mut s = String::new();
        push_str(&mut s, "Error: ");
        push_str(&mut s, err.as_str());
        self.status = s;
    }

    /// Hands over the listing of `cwd` that `listing_request` asked for.
    /// On success the listing is shown and the history updated as the
    /// purpose says; a failed navigation reports the error, returns to the
    /// prior directory and asks for its listing; a failed refresh reports
    /// the error (`Reload`, `AfterRename`) or is ignored (`Quiet`).
    pub fn complete_listing(&mut self, listing: Result<Vec<FmEntry>, String>)
        requires
            old(self).wf(),
        ensures
            final(self).wf(),
            final(self).remote_label == old(self).remote_label,
            final(self).max_items == old(self).max_items,
            final(self).prev_mouse_buttons == old(self).prev_mouse_buttons,
            final(self).menu == old(self).menu,
            match (old(self).pending, listing) {
                (None, _) => *final(self) == *old(self),
                (Some(ListingPurpose::Navigate { prior, record }), Ok(l)) => {
                    &&& loaded(*final(self), *old(self), l@)
                    &&& final(self).cwd == old(self).cwd
                    &&& final(self).status == old(self).status
                    &&& final(self).back_stack@ == (if record { old(self).back_stack@.push(prior) } else { old(self).back_stack@ })
                    &&& final(self).fwd_stack@ == (if record { Seq::<String>::empty() } else { old(self).fwd_stack@ })
                    &&& final(self).pending is None
                },
                (Some(ListingPurpose::Back { prior }), Ok(l)) => {
                    &&& loaded(*final(self), *old(self), l@)
                    &&& final(self).cwd == old(self).cwd
                    &&& final(self).status == old(self).status
                    &&& final(self).back_stack@ == old(self).back_stack@
                    &&& final(self).fwd_stack@ == old(self).fwd_stack@.push(prior)
                    &&& final(self).pending is None
                },
                (Some(ListingPurpose::Forward { prior }), Ok(l)) => {
                    &&& loaded(*final(self), *old(self), l@)
                    &&& final(self).cwd == old(self).cwd
                    &&& final(self).status == old(self).status
                    &&& final(self).back_stack@ == old(self).back_stack@.push(prior)
                    &&& final(self).fwd_stack@ == old(self).fwd_stack@
                    &&& final(self).pending is None
                },
                (Some(ListingPurpose::Navigate { prior, record: _ }), Err(e))
                | (Some(ListingPurpose::Back { prior }), Err(e))
                | (Some(ListingPurpose::Forward { prior }), Err(e)) => {
                    &&& final(self).status@ == "Error: "@ + e@
                    &&& final(self).cwd == prior
                    &&& final(self).entries == old(self).entries
                    &&& final(self).active_idx == old(self).active_idx
                    &&& final(self).top_row == old(self).top_row
                    &&& final(self).same_history(&*old(self))
                    &&& final(self).pending == Some(ListingPurpose::Quiet)
                },
                (Some(ListingPurpose::Reload), Err(e)) | (Some(ListingPurpose::AfterRename { .. }), Err(e)) => {
                    &&& final(self).status@ == "Error: "@ + e@
                    &&& final(self).cwd == old(self).cwd
                    &&& final(self).entries == old(self).entries
                    &&& final(self).top_row == old(self).top_row
                    &&& final(self).same_history(&*old(self))
                    &&& final(self).pending is None
                    &&& (old(self).pending matches Some(ListingPurpose::Reload) ==> final(self).active_idx == old(self).active_idx)
                },
                (Some(ListingPurpose::Quiet), Err(_)) => {
                    &&& final(self).cwd == old(self).cwd
                    &&& final(self).status == old(self).status
                    &&& final(self).entries == old(self).entries
                    &&& final(self).active_idx == old(self).active_idx
                    &&& final(self).top_row == old(self).top_row
                    &&& final(self).same_history(&*old(self))
                    &&& final(self).pending is None
                },
                (Some(ListingPurpose::Reload), Ok(l)) | (Some(ListingPurpose::Quiet), Ok(l)) | (Some(ListingPurpose::AfterRename { .. }), Ok(l)) => {
                    &&& entries_sorted(final(self).entries@)
                    &&& final(self).entries@.to_multiset() == l@.to_multiset()
                    &&& final(self).top_row == 0
                    &&& final(self).cwd == old(self).cwd
                    &&& final(self).status == old(self).status
                    &&& final(self).same_history(&*old(self))
                    &&& final(self).pending is None
                    &&& (!(old(self).pending matches Some(ListingPurpose::AfterRename { .. })) ==> final(self).active_idx == 0)
                },
            },
            listing is Ok ==> history_settled(*final(self), *old(self)),
            old(self).pending matches Some(ListingPurpose::AfterRename { new_name }) ==> {
                match first_named(final(self).entries@, new_name@) {
                    Some(i) => final(self).active_idx == i,
                    None => final(self).active_idx == (if listing is Ok { 0 } else { old(self).active_idx as int }),
                }
            },
    {
        let purpose = self.pending.take();
        match purpose {
            None => {},
            Some(ListingPurpose::Navigate { prior, record }) => {
                match listing {
                    Ok(l) => {
                        self.load(l);
                        if record {
                            self.back_stack.push(prior);
                            self.fwd_stack = Vec::new();
                        }
                    },
                    Err(e) => {
                        self.set_error_status(&e);
                        self.cwd = prior;
                        self.pending = Some(ListingPurpose::Quiet);
                    },
                }
            },
            Some(ListingPurpose::Back { prior }) => {
                match listing {
                    Ok(l) => {
                        self.load(l);
                        self.fwd_stack.push(prior);
                    },
                    Err(e) => {
                        self.set_error_status(&e);
                        self.cwd = prior;
                        self.pending = Some(ListingPurpose::Quiet);
                    },
                }
            },
            Some(ListingPurpose::Forward { prior }) => {
                match listing {
                    Ok(l) => {
                        self.load(l);
                        self.back_stack.push(prior);
                    },
                    Err(e) => {
                        self.set_error_status(&e);
                        self.cwd = prior;
                        self.pending = Some(ListingPurpose::Quiet);
                    },
                }
            },
            Some(ListingPurpose::Reload) => {
                match listing {
                    Ok(l) => self.load(l),
                    Err(e) => self.set_error_status(&e),
                }
            },
            Some(ListingPurpose::Quiet) => {
                match listing {
                    Ok(l) => self.load(l),
                    Err(_) => {},
                }
            },
            Some(ListingPurpose::AfterRename { new_name }) => {
                match listing {
                    Ok(l) => self.load(l),
                    Err(e) => self.set_error_status(&e),
                }
                match position_of_name(&self.entries, &new_name) {
                    Some(i) => self.active_idx = i,
                    None => {},
                }
            },
        }
    }
}

/// The local parent directory of `p` as `std::path::Path::parent` gives
/// it.
pub uninterp spec fn path_parent_of(p: Seq<char>) -> Option<Seq<char>>;

/// `Path::new(p).parent()`, converted with `to_string_lossy` (lossless,
/// as the path came from a `str`). The result is named, not described.
#[verifier::external_body]
fn local_parent(p: &str) -> (r: Option<String>)
    ensures
        opt_view(r) == path_parent_of(p@),
{
    std::path::Path::new(p).parent().map(|q| q.to_string_lossy().to_string())
}

/// The fields that say what is listed and where the selection is.
pub open spec fn view_kept(new: FileManager, old: FileManager) -> bool {
    &&& new.remote_label == old.remote_label
    &&& new.entries == old.entries
    &&& new.active_idx == old.active_idx
    &&& new.top_row == old.top_row
    &&& new.max_items == old.max_items
}

/// The fields that say where the file manager is and how it got there.
pub open spec fn nav_kept(new: FileManager, old: FileManager) -> bool {
    &&& new.cwd == old.cwd
    &&& new.pending == old.pending
    &&& new.back_stack@ == old.back_stack@
    &&& new.fwd_stack@ == old.fwd_stack@
}

/// Everything but the selection and scroll position is kept.
pub open spec fn cursor_only(new: FileManager, old: FileManager) -> bool {
    &&& new.remote_label == old.remote_label
    &&& new.entries == old.entries
    &&& new.max_items == old.max_items
    &&& nav_kept(new, old)
}

/// `new` asks for the listing of `target`, coming from `old`'s directory
/// (nothing happens when `target` is where `old` already is).
pub open spec fn navigated(new: FileManager, old: FileManager, target: Seq<char>, record: bool) -> bool {
    &&& view_kept(new, old)
    &&& if target == old.cwd@ {
        nav_kept(new, old)
    } else {
        &&& new.cwd@ == target
        &&& new.pending == Some(ListingPurpose::Navigate { prior: old.cwd, record })
        &&& new.back_stack@ == old.back_stack@
        &&& new.fwd_stack@ == old.fwd_stack@
    }
}

/// A listing that arrived settles the history as its purpose says:
/// entering a directory (when recorded) pushes the one left on the back
/// stack and clears the forward stack; going back pushes the directory
/// left on the forward stack; going forward pushes it on the back stack.
/// The current directory stays, and nothing is pending any more.
pub open spec fn history_settled(new: FileManager, old: FileManager) -> bool {
    &&& new.cwd == old.cwd
    &&& new.pending is None
    &&& match old.pending {
        Some(ListingPurpose::Navigate { prior, record }) => {
            &&& new.back_stack@ == (if record { old.back_stack@.push(prior) } else { old.back_stack@ })
            &&& new.fwd_stack@ == (if record { Seq::<String>::empty() } else { old.fwd_stack@ })
        },
        Some(ListingPurpose::Back { prior }) => new.back_stack@ == old.back_stack@ && new.fwd_stack@
            == old.fwd_stack@.push(prior),
        Some(ListingPurpose::Forward { prior }) => new.back_stack@ == old.back_stack@.push(prior)
            && new.fwd_stack@ == old.fwd_stack@,
        _ => new.back_stack@ == old.back_stack@ && new.fwd_stack@ == old.fwd_stack@,
    }
}

/// Browser-style history: after entering directory `target` from `s0`'s
/// directory (and its listing arriving), going back returns to the
/// directory left, with the history as it was and `target` next forward;
/// going forward from there returns to `target`, with the directory left
/// back on the back stack and nothing forward.
pub proof fn law_back_and_forward_undo(
    s0: FileManager,
    s1: FileManager,
    s2: FileManager,
    s3: FileManager,
    s4: FileManager,
    s5: FileManager,
    s6: FileManager,
    target: Seq<char>,
)
    requires
        s0.pending is None,
        target != s0.cwd@,
        navigated(s1, s0, target, true),
        history_settled(s2, s1),
        went_back(s3, s2, s2.status@),
        history_settled(s4, s3),
        went_forward(s5, s4, s4.status@),
        history_settled(s6, s5),
    ensures
        s4.cwd == s0.cwd,
        s4.back_stack@ == s0.back_stack@,
        s4.fwd_stack@ == seq![s1.cwd],
        s1.cwd@ == target,
        s6.cwd@ == target,
        s6.back_stack@ == s0.back_stack@.push(s0.cwd),
        s6.fwd_stack@.len() == 0,
{
    assert(s2.back_stack@ == s0.back_stack@.push(s0.cwd));
    assert(s3.back_stack@ =~= s0.back_stack@);
    assert(s4.fwd_stack@ =~= seq![s1.cwd]);
    assert(s5.fwd_stack@ =~= Seq::<String>::empty());
}

/// Going back one step in the history; `status` is the status line kept
/// when there is a step to go back to.
pub open spec fn went_back(new: FileManager, old: FileManager, status: Seq<char>) -> bool {
    &&& view_kept(new, old)
    &&& if old.back_stack@.len() == 0 {
        nav_kept(new, old) && new.status@ == "No previous directory"@
    } else {
        &&& new.back_stack@ == old.back_stack@.drop_last()
        &&& new.cwd == old.back_stack@.last()
        &&& new.pending == Some(ListingPurpose::Back { prior: old.cwd })
        &&& new.fwd_stack@ == old.fwd_stack@
        &&& new.status@ == status
    }
}

/// Going forward one step in the history.
pub open spec fn went_forward(new: FileManager, old: FileManager, status: Seq<char>) -> bool {
    &&& view_kept(new, old)
    &&& if old.fwd_stack@.len() == 0 {
        nav_kept(new, old) && new.status@ == "No next directory"@
    } else {
        &&& new.fwd_stack@ == old.fwd_stack@.drop_last()
        &&& new.cwd == old.fwd_stack@.last()
        &&& new.pending == Some(ListingPurpose::Forward { prior: old.cwd })
        &&& new.back_stack@ == old.back_stack@
        &&& new.status@ == status
    }
}

/// The parent of the current directory, in the backend's notation.
pub open spec fn parent_of(fm: FileManager) -> Option<Seq<char>> {
    if fm.spec_is_remote() {
        remote_parent_spec(fm.cwd@)
    } else {
        path_parent_of(fm.cwd@)
    }
}

/// Going up to the parent directory, if there is one.
pub open spec fn went_parent(new: FileManager, old: FileManager) -> bool {
    match parent_of(old) {
        None => view_kept(new, old) && nav_kept(new, old),
        Some(p) => navigated(new, old, p, true),
    }
}

/// The path of entry `name` of the current directory.
pub open spec fn entry_path(fm: FileManager, name: Seq<char>) -> Seq<char> {
    if fm.spec_is_remote() {
        remote_join_spec(fm.cwd@, name)
    } else {
        path_join(fm.cwd@, name)
    }
}

/// Opening the selection: a directory is entered, a file is left to the
/// viewer (`view`), no selection does nothing.
pub open spec fn entered(new: FileManager, old: FileManager, view: bool) -> bool {
    match old.spec_selected() {
        Some(e) => if e.is_dir {
            !view && navigated(new, old, entry_path(old, e.name@), true)
        } else {
            view && view_kept(new, old) && nav_kept(new, old)
        },
        None => !view && view_kept(new, old) && nav_kept(new, old),
    }
}

/// The selection and scroll position after moving up `count` rows.
pub open spec fn up_pos(active: nat, top: nat, count: nat) -> (nat, nat) {
    let a = if active >= count { (active - count) as nat } else { 0 };
    (a, if a < top { a } else { top })
}

/// The selection and scroll position after moving down `count` rows in a
/// listing of `len > 0` entries showing `max` + 1 rows.
pub open spec fn down_pos(active: nat, top: nat, max: nat, len: nat, count: nat) -> (nat, nat) {
    let a = if active + count < len { active + count } else { (len - 1) as nat };
    (a, if a > top + max { (a - max) as nat } else { top })
}

/// `x` moved left so that `w` cells fit within `limit` (as far as they
/// can).
pub open spec fn fit_pos(x: nat, w: nat, limit: nat) -> nat {
    if x + w > limit {
        if limit >= w { (limit - w) as nat } else { 0 }
    } else {
        x
    }
}

/// `new` has the action menu open at `(x, y)` (kept inside the screen)
/// for the entry at `active`.
pub open spec fn menu_opened(new: FileManager, old: FileManager, active: nat, x: nat, y: nat, screen: Option<ScreenSize>) -> bool {
    let sel = if active < old.entries@.len() { Some(old.entries@[active as int].is_dir) } else { None };
    let items = menu_items_spec(sel, old.spec_is_remote(), old.back_stack@.len() > 0, old.fwd_stack@.len() > 0);
    match new.menu {
        Some(m) => {
            let probe = FmMenu { items: m.items, selected: 0, x: 0, y: 0 };
            &&& m.items@ == items
            &&& m.selected == 0
            &&& m.x == (match screen { Some(s) => fit_pos(x, probe.spec_width(), s.cols as nat), None => x })
            &&& m.y == (match screen { Some(s) => fit_pos(y, probe.spec_height(), s.rows as nat), None => y })
        },
        None => false,
    }
}

impl FileManager {
    /// Changes directory to `new_cwd`, asking for its listing; `record`
    /// adds the move to the history once the listing arrives.
    pub fn navigate_to(&mut self, new_cwd: String, record: bool)
        ensures
            navigated(*final(self), *old(self), new_cwd@, record),
            final(self).status == old(self).status,
            final(self).menu == old(self).menu,
            final(self).prev_mouse_buttons == old(self).prev_mouse_buttons,
            new_cwd@ != old(self).cwd@ ==> final(self).cwd == new_cwd,
    {
        if str_eq(new_cwd.as_str(), self.cwd.as_str()) {
            return;
        }
        let mut prior = new_cwd;
        std::mem::swap(&mut self.cwd, &mut prior);
        self.pending = Some(ListingPurpose::Navigate { prior, record });
    }

    /// Goes back to the previous directory of the history.
    pub fn go_back(&mut self)
        ensures
            went_back(*final(self), *old(self), old(self).status@),
            final(self).menu == old(self).menu,
            final(self).prev_mouse_buttons == old(self).prev_mouse_buttons,
    {
        match self.back_stack.pop() {
            None => {
                self.status = to_string("No previous directory");
            },
            Some(dir) => {
                let mut prior = dir;
                std::mem::swap(&mut self.cwd, &mut prior);
                self.pending = Some(ListingPurpose::Back { prior });
            },
        }
    }

    /// Goes forward to the next directory of the history.
    pub fn go_forward(&mut self)
        ensures
            went_forward(*final(self), *old(self), old(self).status@),
            final(self).menu == old(self).menu,
            final(self).prev_mouse_buttons == old(self).prev_mouse_buttons,
    {
        match self.fwd_stack.pop() {
            None => {
                self.status = to_string("No next directory");
            },
            Some(dir) => {
                let mut prior = dir;
                std::mem::swap(&mut self.cwd, &mut prior);
                self.pending = Some(ListingPurpose::Forward { prior });
            },
        }
    }

    /// Goes up to the parent directory.
    pub fn go_parent(&mut self)
        ensures
            went_parent(*final(self), *old(self)),
            final(self).status == old(self).status,
            final(self).menu == old(self).menu,
            final(self).prev_mouse_buttons == old(self).prev_mouse_buttons,
    {
        let parent = if self.is_remote() {
            remote_parent(self.cwd.as_str())
        } else {
            local_parent(self.cwd.as_str())
        };
        match parent {
            None => {},
            Some(p) => self.navigate_to(p, true),
        }
    }

    /// The selected entry, if any.
    pub fn selected(&self) -> (r: Option<&FmEntry>)
        ensures
            match r {
                Some(e) => self.spec_selected() == Some(*e),
                None => self.spec_selected() is None,
            },
    {
        if self.active_idx < self.entries.len() {
            Some(&self.entries[self.active_idx])
        } else {
            None
        }
    }

    /// The path of entry `name` of the current directory.
    pub fn entry_path(&self, name: &str) -> (r: String)
        ensures
            r@ == entry_path(*self, name@),
    {
        if self.is_remote() {
            remote_join(self.cwd.as_str(), name)
        } else {
            join_local(self.cwd.as_str(), name)
        }
    }

    /// Opens the selection: enters a directory; for a file returns true,
    /// leaving it to the caller to show it in the viewer.
    pub fn enter_selected(&mut self) -> (view: bool)
        ensures
            entered(*final(self), *old(self), view),
            final(self).status == old(self).status,
            final(self).menu == old(self).menu,
            final(self).prev_mouse_buttons == old(self).prev_mouse_buttons,
    {
        let target = match self.selected() {
            None => return false,
            Some(e) => {
                if !e.is_dir {
                    return true;
                }
                self.entry_path(e.name.as_str())
            },
        };
        self.navigate_to(target, true);
        false
    }

    /// Moves the selection up `count` rows, scrolling to keep it shown.
    pub fn move_up(&mut self, count: usize)
        requires
            old(self).wf(),
        ensures
            final(self).wf(),
            cursor_only(*final(self), *old(self)),
            (final(self).active_idx as nat, final(self).top_row as nat) == up_pos(old(self).active_idx as nat, old(self).top_row as nat, count as nat),
            final(self).status == old(self).status,
            final(self).menu == old(self).menu,
            final(self).prev_mouse_buttons == old(self).prev_mouse_buttons,
    {
        self.active_idx = self.active_idx.saturating_sub(count);
        if self.active_idx < self.top_row {
            self.top_row = self.active_idx;
        }
    }

    /// Moves the selection down `count` rows (stopping at the last entry),
    /// scrolling to keep it shown.
    pub fn move_down(&mut self, count: usize)
        requires
            old(self).wf(),
        ensures
            final(self).wf(),
            cursor_only(*final(self), *old(self)),
            old(self).entries@.len() == 0 ==> final(self).active_idx == old(self).active_idx && final(self).top_row == old(self).top_row,
            old(self).entries@.len() > 0 ==> (final(self).active_idx as nat, final(self).top_row as nat) == down_pos(old(self).active_idx as nat, old(self).top_row as nat, old(self).max_items as nat, old(self).entries@.len(), count as nat),
            final(self).status == old(self).status,
            final(self).menu == old(self).menu,
            final(self).prev_mouse_buttons == old(self).prev_mouse_buttons,
    {
        if self.entries.len() == 0 {
            return;
        }
        let last = self.entries.len() - 1;
        if count < self.entries.len() - self.active_idx {
            self.active_idx = self.active_idx + count;
        } else {
            self.active_idx = last;
        }
        if self.active_idx > self.top_row && self.active_idx - self.top_row > self.max_items {
            self.top_row = self.active_idx - self.max_items;
        }
    }

    /// Records the screen height: the listing shows all but the header and
    /// status rows.
    pub fn set_screen_rows(&mut self, rows: usize)
        ensures
            final(self).max_items == (if rows >= ROW_OVERHEAD { rows - ROW_OVERHEAD } else { 0 }),
            final(self).remote_label == old(self).remote_label,
            final(self).entries == old(self).entries,
            final(self).active_idx == old(self).active_idx,
            final(self).top_row == old(self).top_row,
            final(self).status == old(self).status,
            nav_kept(*final(self), *old(self)),
            final(self).menu == old(self).menu,
            final(self).prev_mouse_buttons == old(self).prev_mouse_buttons,
    {
        self.max_items = rows.saturating_sub(ROW_OVERHEAD);
    }

    /// The actions the menu offers for the current selection.
    #[verifier::rlimit(40)]
    pub fn menu_items(&self) -> (items: Vec<FmAction>)
        ensures
            items@ == menu_items_spec(
                if (self.active_idx as nat) < self.entries@.len() { Some(self.entries@[self.active_idx as int].is_dir) } else { None },
                self.spec_is_remote(),
                self.back_stack@.len() > 0,
                self.fwd_stack@.len() > 0,
            ),
            items@.len() <= 10,
            items@.len() > 0,
    {
        let remote = self.is_remote();
        let sel = match self.selected() {
            Some(e) => Some(e.is_dir),
            None => None,
        };
        let mut items: Vec<FmAction> = Vec::new();
        match sel {
            Some(true) => items.push(FmAction::Open),
            Some(false) => {
                items.push(FmAction::View);
                if remote {
                    items.push(FmAction::Download);
                }
            },
            None => {},
        }
        if remote {
            items.push(FmAction::Upload);
        }
        if sel.is_some() {
            items.push(FmAction::Rename);
            items.push(FmAction::Delete);
        }
        items.push(FmAction::Parent);
        if !remote {
            items.push(FmAction::GoToFolder);
        }
        if self.back_stack.len() > 0 {
            items.push(FmAction::Back);
        }
        if self.fwd_stack.len() > 0 {
            items.push(FmAction::Forward);
        }
        items.push(FmAction::Refresh);
        items.push(FmAction::Quit);
        proof {
            let spec_sel = if (self.active_idx as nat) < self.entries@.len() { Some(self.entries@[self.active_idx as int].is_dir) } else { None };
            assert(sel == spec_sel);
            assert(items@ =~= menu_items_spec(spec_sel, remote, self.back_stack@.len() > 0, self.fwd_stack@.len() > 0));
        }
        items
    }

    /// Opens the action menu for the selected entry near cell `(x, y)`,
    /// moved so that it fits on the screen.
    pub fn open_menu(&mut self, x: usize, y: usize, screen: Option<ScreenSize>)
        requires
            old(self).wf(),
        ensures
            final(self).wf(),
            menu_opened(*final(self), *old(self), old(self).active_idx as nat, x as nat, y as nat, screen),
            view_kept(*final(self), *old(self)),
            nav_kept(*final(self), *old(self)),
            final(self).status == old(self).status,
            final(self).prev_mouse_buttons == old(self).prev_mouse_buttons,
    {
        let items = self.menu_items();
        let mut menu = FmMenu { items, selected: 0, x, y };
        match screen {
            Some(size) => {
                let w = menu.width();
                let h = menu.height();
                if menu.x > size.cols || w > size.cols - menu.x {
                    menu.x = size.cols.saturating_sub(w);
                }
                if menu.y > size.rows || h > size.rows - menu.y {
                    menu.y = size.rows.saturating_sub(h);
                }
            },
            None => {},
        }
        proof {
            let probe = FmMenu { items: menu.items, selected: 0, x: 0, y: 0 };
            assert(probe.spec_width() == menu.spec_width());
            assert(probe.spec_height() == menu.spec_height());
        }
        self.menu = Some(menu);
    }
}

/// Nothing but the fields named elsewhere changes: listing, navigation,
/// status and menu are kept.
pub open spec fn kept_all(new: FileManager, old: FileManager) -> bool {
    &&& view_kept(new, old)
    &&& nav_kept(new, old)
    &&& new.status == old.status
    &&& new.menu == old.menu
}

/// The selection and scroll position are `pos`, all else but the mouse
/// state is kept.
pub open spec fn moved_to(new: FileManager, old: FileManager, pos: (nat, nat)) -> bool {
    &&& cursor_only(new, old)
    &&& (new.active_idx as nat, new.top_row as nat) == pos
    &&& new.status == old.status
    &&& new.menu == old.menu
}

/// Where moving down `count` rows leads (nowhere in an empty listing).
pub open spec fn down_result(old: FileManager, count: nat) -> (nat, nat) {
    if old.entries@.len() == 0 {
        (old.active_idx as nat, old.top_row as nat)
    } else {
        down_pos(old.active_idx as nat, old.top_row as nat, old.max_items as nat, old.entries@.len(), count)
    }
}

/// A refresh of the current directory has been asked for.
pub open spec fn reload_requested(new: FileManager, old: FileManager) -> bool {
    &&& view_kept(new, old)
    &&& new.cwd == old.cwd
    &&& new.back_stack@ == old.back_stack@
    &&& new.fwd_stack@ == old.fwd_stack@
    &&& new.pending == Some(ListingPurpose::Reload)
}

/// The command that opening the selection hands to the caller.
pub open spec fn enter_command(view: bool) -> FmCommand {
    if view {
        FmCommand::View
    } else {
        FmCommand::Continue
    }
}

/// Running menu action `a`: the status line is cleared, then the action
/// is taken here or handed to the caller as `cmd`.
pub open spec fn ran_action(new: FileManager, old: FileManager, a: FmAction, cmd: FmCommand) -> bool {
    match a {
        FmAction::Open | FmAction::View => {
            &&& entered(new, old, cmd == FmCommand::View)
            &&& cmd == enter_command(cmd == FmCommand::View)
            &&& new.status@.len() == 0
        },
        FmAction::Parent => went_parent(new, old) && new.status@.len() == 0 && cmd == FmCommand::Continue,
        FmAction::Back => went_back(new, old, Seq::empty()) && cmd == FmCommand::Continue,
        FmAction::Forward => went_forward(new, old, Seq::empty()) && cmd == FmCommand::Continue,
        FmAction::Refresh => reload_requested(new, old) && new.status@.len() == 0 && cmd == FmCommand::Continue,
        _ => {
            &&& view_kept(new, old)
            &&& nav_kept(new, old)
            &&& new.status@.len() == 0
            &&& cmd == match a {
                FmAction::Download => FmCommand::Download,
                FmAction::Upload => FmCommand::Upload,
                FmAction::Rename => FmCommand::Rename,
                FmAction::Delete => FmCommand::Delete,
                FmAction::GoToFolder => FmCommand::GoToFolder,
                _ => FmCommand::Quit,
            }
        },
    }
}

/// A key press while no menu is open.
pub open spec fn key_step(new: FileManager, old: FileManager, k: KeyInput, screen: Option<ScreenSize>, cmd: FmCommand) -> bool {
    let page = if old.max_items >= 1 { old.max_items as nat } else { 1 };
    if is_plain_char(k, 'q') || k.key == Key::Escape {
        kept_all(new, old) && cmd == FmCommand::Quit
    } else if k.key == Key::Function(2) {
        kept_all(new, old) && cmd == FmCommand::Rename
    } else if k.key == Key::Delete {
        kept_all(new, old) && cmd == FmCommand::Delete
    } else if is_plain_char(k, 'm') {
        let diff = if old.active_idx >= old.top_row { old.active_idx - old.top_row } else { 0 };
        let row = if diff + HEADER_ROWS <= usize::MAX { diff + HEADER_ROWS } else { usize::MAX as int };
        &&& menu_opened(new, old, old.active_idx as nat, 2, row as nat, screen)
        &&& view_kept(new, old) && nav_kept(new, old) && new.status == old.status
        &&& cmd == FmCommand::Continue
    } else if k.key == Key::UpArrow || is_plain_char(k, 'k') {
        moved_to(new, old, up_pos(old.active_idx as nat, old.top_row as nat, 1)) && cmd == FmCommand::Continue
    } else if k.key == Key::DownArrow || is_plain_char(k, 'j') {
        moved_to(new, old, down_result(old, 1)) && cmd == FmCommand::Continue
    } else if k.key == Key::PageUp {
        moved_to(new, old, up_pos(old.active_idx as nat, old.top_row as nat, page)) && cmd == FmCommand::Continue
    } else if k.key == Key::PageDown {
        moved_to(new, old, down_result(old, page)) && cmd == FmCommand::Continue
    } else if k.key == Key::Enter || k.key == Key::RightArrow {
        &&& entered(new, old, cmd == FmCommand::View)
        &&& cmd == enter_command(cmd == FmCommand::View)
        &&& new.status@.len() == 0 && new.menu == old.menu
    } else if k.key == Key::Backspace || k.key == Key::LeftArrow {
        went_parent(new, old) && new.status@.len() == 0 && new.menu == old.menu && cmd == FmCommand::Continue
    } else if is_plain_char(k, 'r') {
        reload_requested(new, old) && new.status@.len() == 0 && new.menu == old.menu && cmd == FmCommand::Continue
    } else if is_plain_char(k, 'd') {
        kept_all(new, old) && cmd == FmCommand::Download
    } else if is_plain_char(k, 'u') {
        kept_all(new, old) && cmd == FmCommand::Upload
    } else {
        kept_all(new, old) && cmd == FmCommand::Continue
    }
}

/// A mouse report (other than wheel motion) while no menu is open: a
/// click on the selected row opens it, on another row selects it;
/// Shift/Ctrl + right click opens the menu for the row under the pointer;
/// a right click goes back, a middle click forward. Only the press edge
/// of a button acts.
pub open spec fn mouse_step(new: FileManager, old: FileManager, m: MouseInput, screen: Option<ScreenSize>, cmd: FmCommand) -> bool {
    let left_e = m.buttons.left && !old.prev_mouse_buttons.left;
    let right_e = m.buttons.right && !old.prev_mouse_buttons.right;
    let middle_e = m.buttons.middle && !old.prev_mouse_buttons.middle;
    let row = m.y as nat;
    let on_row = row >= HEADER_ROWS && old.top_row + (row - HEADER_ROWS) < old.entries@.len();
    let idx = old.top_row + row - HEADER_ROWS;
    &&& new.prev_mouse_buttons == m.buttons
    &&& if left_e {
        if on_row && idx == old.active_idx {
            &&& entered(new, old, cmd == FmCommand::View)
            &&& cmd == enter_command(cmd == FmCommand::View)
            &&& new.status@.len() == 0 && new.menu == old.menu
        } else if on_row {
            moved_to(new, old, (idx as nat, old.top_row as nat)) && cmd == FmCommand::Continue
        } else {
            kept_all(new, old) && cmd == FmCommand::Continue
        }
    } else if right_e && (m.mods.shift || m.mods.ctrl) {
        let a = if on_row { idx as nat } else { old.active_idx as nat };
        &&& new.active_idx == a
        &&& new.top_row == old.top_row
        &&& menu_opened(new, old, a, m.x as nat, m.y as nat, screen)
        &&& new.remote_label == old.remote_label && new.entries == old.entries && new.max_items == old.max_items
        &&& nav_kept(new, old) && new.status == old.status
        &&& cmd == FmCommand::Continue
    } else if right_e {
        went_back(new, old, Seq::empty()) && new.menu == old.menu && cmd == FmCommand::Continue
    } else if middle_e {
        went_forward(new, old, Seq::empty()) && new.menu == old.menu && cmd == FmCommand::Continue
    } else {
        kept_all(new, old) && cmd == FmCommand::Continue
    }
}

/// An input event while no menu is open.
pub open spec fn main_step(new: FileManager, old: FileManager, ev: InputEvent, screen: Option<ScreenSize>, cmd: FmCommand) -> bool {
    match ev {
        InputEvent::Key(k) => new.prev_mouse_buttons == old.prev_mouse_buttons && key_step(new, old, k, screen, cmd),
        InputEvent::Mouse(m) => if m.buttons.vert_wheel {
            &&& new.prev_mouse_buttons == old.prev_mouse_buttons
            &&& cmd == FmCommand::Continue
            &&& if m.buttons.wheel_positive {
                moved_to(new, old, up_pos(old.active_idx as nat, old.top_row as nat, 3))
            } else {
                moved_to(new, old, down_result(old, 3))
            }
        } else {
            mouse_step(new, old, m, screen, cmd)
        },
        _ => kept_all(new, old) && new.prev_mouse_buttons == old.prev_mouse_buttons && cmd == FmCommand::Continue,
    }
}

/// The open menu `m` of `new` is `old`'s with selection `sel`.
pub open spec fn menu_selected(new: FileManager, old: FileManager, sel: int) -> bool {
    match (new.menu, old.menu) {
        (Some(a), Some(b)) => a.items == b.items && a.x == b.x && a.y == b.y && a.selected == sel,
        _ => false,
    }
}

/// Everything but the menu (and the mouse state) is kept.
pub open spec fn all_but_menu(new: FileManager, old: FileManager) -> bool {
    view_kept(new, old) && nav_kept(new, old) && new.status == old.status
}

/// An input event while the action menu is open: Escape, `q` or `m`
/// closes it, Up/`k` and Down/`j` move the selection round, Enter runs the
/// selected action; the pointer selects the item under it and a click
/// runs it, a click outside closes the menu.
pub open spec fn menu_step(new: FileManager, old: FileManager, ev: InputEvent, cmd: FmCommand) -> bool {
    match old.menu {
        None => false,
        Some(m) => {
            let n = m.items@.len();
            match ev {
                InputEvent::Key(k) => {
                    &&& new.prev_mouse_buttons == old.prev_mouse_buttons
                    &&& if k.key == Key::Escape || k.key == Key::Char('q') || k.key == Key::Char('m') {
                        new.menu is None && all_but_menu(new, old) && cmd == FmCommand::Continue
                    } else if k.key == Key::UpArrow || k.key == Key::Char('k') {
                        menu_selected(new, old, (m.selected + n - 1) % (n as int)) && all_but_menu(new, old) && cmd == FmCommand::Continue
                    } else if k.key == Key::DownArrow || k.key == Key::Char('j') {
                        menu_selected(new, old, (m.selected + 1) % (n as int)) && all_but_menu(new, old) && cmd == FmCommand::Continue
                    } else if k.key == Key::Enter {
                        new.menu is None && ran_action(new, old, m.items@[m.selected as int], cmd)
                    } else {
                        kept_all(new, old) && cmd == FmCommand::Continue
                    }
                },
                InputEvent::Mouse(mi) => {
                    let pressed = mi.buttons.left && !old.prev_mouse_buttons.left;
                    let any_new = !mi.buttons.spec_is_empty() && old.prev_mouse_buttons.spec_is_empty();
                    &&& new.prev_mouse_buttons == mi.buttons
                    &&& match m.spec_hit(mi.x as int, mi.y as int) {
                        Some(i) => if pressed {
                            new.menu is None && ran_action(new, old, m.items@[i], cmd)
                        } else {
                            menu_selected(new, old, i) && all_but_menu(new, old) && cmd == FmCommand::Continue
                        },
                        None => if any_new {
                            new.menu is None && all_but_menu(new, old) && cmd == FmCommand::Continue
                        } else {
                            kept_all(new, old) && cmd == FmCommand::Continue
                        },
                    }
                },
                _ => kept_all(new, old) && new.prev_mouse_buttons == old.prev_mouse_buttons && cmd == FmCommand::Continue,
            }
        },
    }
}

impl FileManager {
    /// Runs a menu action: clears the status line, then takes the action
    /// or hands it to the caller.
    pub fn run_menu_action(&mut self, action: FmAction) -> (cmd: FmCommand)
        requires
            old(self).wf(),
        ensures
            final(self).wf(),
            ran_action(*final(self), *old(self), action, cmd),
            final(self).menu == old(self).menu,
            final(self).prev_mouse_buttons == old(self).prev_mouse_buttons,
    {
        self.status = String::new();
        match action {
            FmAction::Open | FmAction::View => {
                if self.enter_selected() {
                    FmCommand::View
                } else {
                    FmCommand::Continue
                }
            },
            FmAction::Parent => {
                self.go_parent();
                FmCommand::Continue
            },
            FmAction::Back => {
                self.go_back();
                FmCommand::Continue
            },
            FmAction::Forward => {
                self.go_forward();
                FmCommand::Continue
            },
            FmAction::Refresh => {
                self.pending = Some(ListingPurpose::Reload);
                FmCommand::Continue
            },
            FmAction::Download => FmCommand::Download,
            FmAction::Upload => FmCommand::Upload,
            FmAction::Rename => FmCommand::Rename,
            FmAction::Delete => FmCommand::Delete,
            FmAction::GoToFolder => FmCommand::GoToFolder,
            FmAction::Quit => FmCommand::Quit,
        }
    }

    fn handle_menu_event(&mut self, ev: InputEvent) -> (cmd: FmCommand)
        requires
            old(self).wf(),
            old(self).menu is Some,
        ensures
            final(self).wf(),
            menu_step(*final(self), *old(self), ev, cmd),
    {
        let ghost old_self = *self;
        let (n, sel) = match &self.menu {
            Some(m) => (m.items.len(), m.selected),
            None => return FmCommand::Continue,
        };
        match ev {
            InputEvent::Key(k) => {
                if k.key == Key::Escape || any_char(&k, 'q') || any_char(&k, 'm') {
                    self.menu = None;
                    return FmCommand::Continue;
                }
                if k.key == Key::UpArrow || any_char(&k, 'k') {
                    match &mut self.menu {
                        Some(m) => m.selected = (sel + n - 1) % n,
                        None => {},
                    }
                    return FmCommand::Continue;
                }
                if k.key == Key::DownArrow || any_char(&k, 'j') {
                    match &mut self.menu {
                        Some(m) => m.selected = (sel + 1) % n,
                        None => {},
                    }
                    return FmCommand::Continue;
                }
                if k.key == Key::Enter {
                    let action = match &self.menu {
                        Some(m) => m.items[sel],
                        None => return FmCommand::Continue,
                    };
                    self.menu = None;
                    return self.run_menu_action(action);
                }
                FmCommand::Continue
            },
            InputEvent::Mouse(mi) => {
                let pressed = mi.buttons.left && !self.prev_mouse_buttons.left;
                let any_new = !mi.buttons.is_empty() && self.prev_mouse_buttons.is_empty();
                self.prev_mouse_buttons = mi.buttons;
                let hit = match &self.menu {
                    Some(m) => m.hit(mi.x as usize, mi.y as usize),
                    None => None,
                };
                match hit {
                    Some(i) => {
                        if pressed {
                            let action = match &self.menu {
                                Some(m) => m.items[i],
                                None => return FmCommand::Continue,
                            };
                            self.menu = None;
                            self.run_menu_action(action)
                        } else {
                            match &mut self.menu {
                                Some(m) => m.selected = i,
                                None => {},
                            }
                            FmCommand::Continue
                        }
                    },
                    None => {
                        if any_new {
                            self.menu = None;
                        }
                        FmCommand::Continue
                    },
                }
            },
            _ => FmCommand::Continue,
        }
    }

    /// Handles one input event: with the menu open as `menu_step` says,
    /// otherwise as `main_step` says. The returned command is for the
    /// caller to carry out; a listing it may owe is in `listing_request`.
    pub fn handle_event(&mut self, ev: InputEvent, screen: Option<ScreenSize>) -> (cmd: FmCommand)
        requires
            old(self).wf(),
            old(self).pending is None,
        ensures
            final(self).wf(),
            old(self).menu is Some ==> menu_step(*final(self), *old(self), ev, cmd),
            old(self).menu is None ==> main_step(*final(self), *old(self), ev, screen, cmd),
    {
        if self.menu.is_some() {
            return self.handle_menu_event(ev);
        }
        match ev {
            InputEvent::Key(k) => self.handle_key(&k, screen),
            InputEvent::Mouse(m) => {
                if m.buttons.vert_wheel {
                    if m.buttons.wheel_positive {
                        self.move_up(3);
                    } else {
                        self.move_down(3);
                    }
                    FmCommand::Continue
                } else {
                    self.handle_click(&m, screen)
                }
            },
            _ => FmCommand::Continue,
        }
    }

    fn handle_key(&mut self, k: &KeyInput, screen: Option<ScreenSize>) -> (cmd: FmCommand)
        requires
            old(self).wf(),
            old(self).menu is None,
        ensures
            final(self).wf(),
            final(self).prev_mouse_buttons == old(self).prev_mouse_buttons,
            key_step(*final(self), *old(self), *k, screen, cmd),
    {
        let page = if self.max_items >= 1 { self.max_items } else { 1 };
        if plain_char(k, 'q') || k.key == Key::Escape {
            FmCommand::Quit
        } else if k.key == Key::Function(2) {
            FmCommand::Rename
        } else if k.key == Key::Delete {
            FmCommand::Delete
        } else if plain_char(k, 'm') {
            let row = self.active_idx.saturating_sub(self.top_row).saturating_add(HEADER_ROWS);
            self.open_menu(2, row, screen);
            FmCommand::Continue
        } else if k.key == Key::UpArrow || plain_char(k, 'k') {
            self.move_up(1);
            FmCommand::Continue
        } else if k.key == Key::DownArrow || plain_char(k, 'j') {
            self.move_down(1);
            FmCommand::Continue
        } else if k.key == Key::PageUp {
            self.move_up(page);
            FmCommand::Continue
        } else if k.key == Key::PageDown {
            self.move_down(page);
            FmCommand::Continue
        } else if k.key == Key::Enter || k.key == Key::RightArrow {
            self.status = String::new();
            if self.enter_selected() {
                FmCommand::View
            } else {
                FmCommand::Continue
            }
        } else if k.key == Key::Backspace || k.key == Key::LeftArrow {
            self.status = String::new();
            self.go_parent();
            FmCommand::Continue
        } else if plain_char(k, 'r') {
            self.status = String::new();
            self.pending = Some(ListingPurpose::Reload);
            FmCommand::Continue
        } else if plain_char(k, 'd') {
            FmCommand::Download
        } else if plain_char(k, 'u') {
            FmCommand::Upload
        } else {
            FmCommand::Continue
        }
    }

    fn handle_click(&mut self, m: &MouseInput, screen: Option<ScreenSize>) -> (cmd: FmCommand)
        requires
            old(self).wf(),
            old(self).menu is None,
        ensures
            final(self).wf(),
            mouse_step(*final(self), *old(self), *m, screen, cmd),
    {
        let left_e = m.buttons.left && !self.prev_mouse_buttons.left;
        let right_e = m.buttons.right && !self.prev_mouse_buttons.right;
        let middle_e = m.buttons.middle && !self.prev_mouse_buttons.middle;
        self.prev_mouse_buttons = m.buttons;
        let row = m.y as usize;
        let on_row = row >= HEADER_ROWS && row - HEADER_ROWS < self.entries.len() - self.top_row;
        if left_e {
            if on_row {
                let idx = self.top_row + (row - HEADER_ROWS);
                if idx == self.active_idx {
                    self.status = String::new();
                    if self.enter_selected() {
                        return FmCommand::View;
                    }
                    return FmCommand::Continue;
                }
                self.active_idx = idx;
            }
            FmCommand::Continue
        } else if right_e && (m.mods.shift || m.mods.ctrl) {
            if on_row {
                self.active_idx = self.top_row + (row - HEADER_ROWS);
            }
            self.open_menu(m.x as usize, m.y as usize, screen);
            FmCommand::Continue
        } else if right_e {
            self.status = String::new();
            self.go_back();
            FmCommand::Continue
        } else if middle_e {
            self.status = String::new();
            self.go_forward();
            FmCommand::Continue
        } else {
            FmCommand::Continue
        }
    }
}

/// Files larger than this are not shown in the viewer.
pub const VIEW_MAX: u64 = 4 * 1024 * 1024;

/// What the viewer needs read: the selected file's name and path.
pub struct ViewRequest {
    pub name: String,
    pub path: String,
}

/// A rename the user asked for.
pub struct RenameOp {
    pub old_name: String,
    pub new_name: String,
    /// full path of the entry now
    pub src: String,
    /// full path it is renamed to
    pub dst: String,
}

/// A deletion to confirm and carry out.
pub struct DeleteOp {
    pub name: String,
    pub path: String,
    pub is_dir: bool,
}

/// A download to carry out.
pub struct DownloadOp {
    pub name: String,
    pub remote_path: String,
    pub total: Option<u64>,
}

/// An upload to carry out.
pub struct UploadOp {
    pub name: String,
    pub remote_path: String,
}

/// Where the file to upload comes from, after asking the file picker.
pub enum UploadSource {
    /// no picker is available: ask for the path at the typed prompt
    Prompt,
    /// the picker was cancelled: nothing is uploaded
    Cancelled,
    /// upload this local file
    Path(String),
}

/// The last component of a local path as `std::path::Path::file_name`
/// gives it.
pub uninterp spec fn path_file_name_of(p: Seq<char>) -> Option<Seq<char>>;

/// `Path::new(p).file_name()`, converted with `to_string_lossy`
/// (lossless, as the path came from a `str`). The result is named, not
/// described.
#[verifier::external_body]
pub(crate) fn path_file_name(p: &str) -> (r: Option<String>)
    ensures
        opt_view(r) == path_file_name_of(p@),
{
    std::path::Path::new(p).file_name().map(|q| q.to_string_lossy().to_string())
}

/// The status line is `msg` and nothing else changes.
pub open spec fn status_set(new: FileManager, old: FileManager, msg: Seq<char>) -> bool {
    &&& view_kept(new, old)
    &&& nav_kept(new, old)
    &&& new.menu == old.menu
    &&& new.prev_mouse_buttons == old.prev_mouse_buttons
    &&& new.status@ == msg
}

/// Nothing changes.
pub open spec fn unchanged(new: FileManager, old: FileManager) -> bool {
    status_set(new, old, old.status@)
}

/// Whether `s` contains a path separator (`/` or `\`).
pub open spec fn has_separator(s: Seq<char>) -> bool {
    s.contains('/') || s.contains('\\')
}

/// Whether some entry is named `name`.
pub open spec fn has_entry_named(entries: Seq<FmEntry>, name: Seq<char>) -> bool {
    exists|i: int| 0 <= i < entries.len() && #[trigger] entries[i].name@ == name
}

/// The progress line of a transfer: `"{verb} {name}: {copied} / {total}
/// ({percent}%)"` when the total is known and non-zero, otherwise
/// `"{verb} {name}: {copied}"`, sizes in `human_size` form.
pub open spec fn progress_spec(verb: Seq<char>, name: Seq<char>, copied: nat, total: Option<u64>) -> Seq<char> {
    let head = verb + seq![' '] + name + seq![':', ' '] + human_size_spec(copied);
    match total {
        Some(t) => if t > 0 {
            head + seq![' ', '/', ' '] + human_size_spec(t as nat) + seq![' ', '('] + dec(copied * 100 / (t as nat)) + seq!['%', ')']
        } else {
            head
        },
        None => head,
    }
}

/// The progress line of a transfer (see `progress_spec`).
pub fn transfer_progress(verb: &str, name: &str, copied: u64, total: Option<u64>) -> (r: String)
    requires
        copied * 100 <= u64::MAX,
    ensures
        r@ == progress_spec(verb@, name@, copied as nat, total),
{
    let mut out = String::new();
    push_str(&mut out, verb);
    out.push(' ');
    push_str(&mut out, name);
    out.push(':');
    out.push(' ');
    let c = human_size(copied);
    push_str(&mut out, c.as_str());
    match total {
        Some(t) => {
            if t > 0 {
                out.push(' ');
                out.push('/');
                out.push(' ');
                let ts = human_size(t);
                push_str(&mut out, ts.as_str());
                out.push(' ');
                out.push('(');
                push_decimal(&mut out, ((copied * 100) / t) as u128);
                out.push('%');
                out.push(')');
            }
        },
        None => {},
    }
    proof {
        assert(out@ =~= progress_spec(verb@, name@, copied as nat, total));
    }
    out
}

/// Whether some entry is named `name`.
pub fn has_name(entries: &Vec<FmEntry>, name: &str) -> (r: bool)
    ensures
        r == has_entry_named(entries@, name@),
{
    let mut i: usize = 0;
    while i < entries.len()
        invariant
            i <= entries@.len(),
            forall|k: int| 0 <= k < i ==> entries@[k].name@ != name@,
        decreases entries.len() - i,
    {
        if str_eq(entries[i].name.as_str(), name) {
            return true;
        }
        i += 1;
    }
    false
}

/// `"{a}{b}"`.
fn cat2(a: &str, b: &str) -> (r: String)
    ensures
        r@ == a@ + b@,
{
    let mut out = to_string(a);
    push_str(&mut out, b);
    out
}

/// `"{a}{b}{c}"`.
fn cat3(a: &str, b: &str, c: &str) -> (r: String)
    ensures
        r@ == a@ + b@ + c@,
{
    let mut out = to_string(a);
    push_str(&mut out, b);
    push_str(&mut out, c);
    out
}

impl FileManager {
    fn set_status(&mut self, msg: String)
        ensures
            status_set(*final(self), *old(self), msg@),
    {
        self.status = msg;
    }

    /// Replaces the status line.
    pub fn report(&mut self, msg: &str)
        ensures
            status_set(*final(self), *old(self), msg@),
    {
        self.status = to_string(msg);
    }

    /// What to read for the viewer: the selected file, unless nothing or
    /// a directory is selected or the file is known to exceed `VIEW_MAX`.
    pub fn view_request(&self) -> (r: Result<ViewRequest, String>)
        ensures
            match self.spec_selected() {
                None => r matches Err(e) && e@ == "nothing selected"@,
                Some(e) => if e.is_dir {
                    r matches Err(m) && m@ == "not a file"@
                } else if e.size matches Some(sz) && sz > VIEW_MAX {
                    r matches Err(m) && m@ == e.name@ + " is too large to view ("@ + human_size_spec(e.size->0 as nat) + ")"@
                } else {
                    r matches Ok(req) && req.name@ == e.name@ && req.path@ == entry_path(*self, e.name@)
                },
            },
    {
        let e = match self.selected() {
            None => return Err(to_string("nothing selected")),
            Some(e) => e,
        };
        if e.is_dir {
            return Err(to_string("not a file"));
        }
        match e.size {
            Some(sz) => {
                if sz > VIEW_MAX {
                    let hs = human_size(sz);
                    let mut m = to_string(e.name.as_str());
                    push_str(&mut m, " is too large to view (");
                    push_str(&mut m, hs.as_str());
                    push_str(&mut m, ")");
                    return Err(m);
                }
            },
            None => {},
        }
        let path = self.entry_path(e.name.as_str());
        Ok(ViewRequest { name: e.name.clone(), path })
    }

    /// The viewer could not be started: the error is shown.
    pub fn view_failed(&mut self, err: &str)
        ensures
            status_set(*final(self), *old(self), err@),
    {
        self.report(err);
    }

    /// The viewer failed while running.
    pub fn viewer_failed(&mut self, err: &str)
        ensures
            status_set(*final(self), *old(self), "Viewer error: "@ + err@),
    {
        self.set_status(cat2("Viewer error: ", err));
    }

    /// Starts a rename: the name of the selected entry, or `None` (and a
    /// status line saying so) when nothing is selected.
    pub fn rename_begin(&mut self) -> (r: Option<String>)
        ensures
            match old(self).spec_selected() {
                None => r is None && status_set(*final(self), *old(self), "Nothing selected"@),
                Some(e) => r == Some(e.name) && unchanged(*final(self), *old(self)),
            },
    {
        match self.selected() {
            None => {
                self.report("Nothing selected");
                None
            },
            Some(e) => Some(e.name.clone()),
        }
    }

    /// Decides on the name typed for the selected entry (`None` when the
    /// prompt was cancelled): an empty or unchanged name cancels, a name
    /// with a path separator or one already listed is refused, each with
    /// a status line; otherwise the rename to carry out.
    pub fn rename_decide(&mut self, line: Option<String>) -> (r: Option<RenameOp>)
        ensures
            match old(self).spec_selected() {
                None => r is None && status_set(*final(self), *old(self), "Nothing selected"@),
                Some(e) => {
                    let new_name = match line { Some(l) => trim(l@), None => Seq::<char>::empty() };
                    if new_name.len() == 0 || new_name == e.name@ {
                        r is None && status_set(*final(self), *old(self), "Rename cancelled"@)
                    } else if has_separator(new_name) {
                        r is None && status_set(*final(self), *old(self), "The new name must not contain path separators"@)
                    } else if has_entry_named(old(self).entries@, new_name) {
                        r is None && status_set(*final(self), *old(self), "'"@ + new_name + "' already exists"@)
                    } else {
                        &&& unchanged(*final(self), *old(self))
                        &&& r matches Some(op)
                        &&& op.old_name == e.name
                        &&& op.new_name@ == new_name
                        &&& op.src@ == entry_path(*old(self), e.name@)
                        &&& op.dst@ == entry_path(*old(self), new_name)
                    }
                },
            },
    {
        let old_name = match self.selected() {
            None => {
                self.report("Nothing selected");
                return None;
            },
            Some(e) => e.name.clone(),
        };
        let new_name = match line {
            Some(l) => trimmed(l.as_str()),
            None => String::new(),
        };
        if new_name.unicode_len() == 0 || str_eq(new_name.as_str(), old_name.as_str()) {
            self.report("Rename cancelled");
            return None;
        }
        if str_has_char(new_name.as_str(), '/') || str_has_char(new_name.as_str(), '\\') {
            self.report("The new name must not contain path separators");
            return None;
        }
        if has_name(&self.entries, new_name.as_str()) {
            let msg = cat3("'", new_name.as_str(), "' already exists");
            self.set_status(msg);
            return None;
        }
        let src = self.entry_path(old_name.as_str());
        let dst = self.entry_path(new_name.as_str());
        Some(RenameOp { old_name, new_name, src, dst })
    }

    /// The outcome of carrying out `op`: on success the listing is
    /// refreshed and the renamed entry selected.
    pub fn rename_finish(&mut self, op: &RenameOp, result: Result<(), String>)
        ensures
            match result {
                Ok(()) => {
                    &&& view_kept(*final(self), *old(self))
                    &&& final(self).cwd == old(self).cwd
                    &&& final(self).back_stack@ == old(self).back_stack@
                    &&& final(self).fwd_stack@ == old(self).fwd_stack@
                    &&& final(self).menu == old(self).menu
                    &&& final(self).prev_mouse_buttons == old(self).prev_mouse_buttons
                    &&& final(self).status@ == "Renamed to "@ + op.new_name@
                    &&& final(self).pending == Some(ListingPurpose::AfterRename { new_name: op.new_name })
                },
                Err(e) => status_set(*final(self), *old(self), "Could not rename '"@ + op.old_name@ + "': "@ + e@),
            },
    {
        match result {
            Ok(()) => {
                self.set_status(cat2("Renamed to ", op.new_name.as_str()));
                self.pending = Some(ListingPurpose::AfterRename { new_name: op.new_name.clone() });
            },
            Err(e) => {
                let mut m = cat3("Could not rename '", op.old_name.as_str(), "': ");
                push_str(&mut m, e.as_str());
                self.set_status(m);
            },
        }
    }

    /// Starts a deletion of the selected entry, or reports that nothing
    /// is selected.
    pub fn delete_begin(&mut self) -> (r: Option<DeleteOp>)
        ensures
            match old(self).spec_selected() {
                None => r is None && status_set(*final(self), *old(self), "Nothing selected"@),
                Some(e) => {
                    &&& unchanged(*final(self), *old(self))
                    &&& r matches Some(op)
                    &&& op.name == e.name
                    &&& op.is_dir == e.is_dir
                    &&& op.path@ == entry_path(*old(self), e.name@)
                },
            },
    {
        match self.selected() {
            None => {
                self.report("Nothing selected");
                None
            },
            Some(e) => {
                let path = self.entry_path(e.name.as_str());
                Some(DeleteOp { name: e.name.clone(), path, is_dir: e.is_dir })
            },
        }
    }

    /// The user declined the deletion.
    pub fn delete_cancelled(&mut self)
        ensures
            status_set(*final(self), *old(self), "Delete cancelled"@),
    {
        self.report("Delete cancelled");
    }

    /// The outcome of carrying out `op`: on success the listing is
    /// refreshed.
    pub fn delete_finish(&mut self, op: &DeleteOp, result: Result<(), String>)
        ensures
            match result {
                Ok(()) => {
                    &&& reload_requested(*final(self), *old(self))
                    &&& final(self).menu == old(self).menu
                    &&& final(self).prev_mouse_buttons == old(self).prev_mouse_buttons
                    &&& final(self).status@ == "Deleted "@ + op.name@
                },
                Err(e) => status_set(*final(self), *old(self), if op.is_dir {
                    "Could not delete '"@ + op.name@ + "' (only empty directories can be deleted): "@ + e@
                } else {
                    "Could not delete '"@ + op.name@ + "': "@ + e@
                }),
            },
    {
        match result {
            Ok(()) => {
                self.set_status(cat2("Deleted ", op.name.as_str()));
                self.pending = Some(ListingPurpose::Reload);
            },
            Err(e) => {
                let mut m = cat2("Could not delete '", op.name.as_str());
                if op.is_dir {
                    push_str(&mut m, "' (only empty directories can be deleted): ");
                } else {
                    push_str(&mut m, "': ");
                }
                push_str(&mut m, e.as_str());
                self.set_status(m);
            },
        }
    }

    /// Starts a download of the selected remote file, or reports why
    /// there is none to do.
    pub fn download_begin(&mut self) -> (r: Option<DownloadOp>)
        ensures
            match old(self).spec_selected() {
                None => r is None && status_set(*final(self), *old(self), "Nothing selected"@),
                Some(e) => if e.is_dir {
                    r is None && status_set(*final(self), *old(self), "Directory download is not supported yet"@)
                } else if !old(self).spec_is_remote() {
                    r is None && status_set(*final(self), *old(self), "Download requires a remote (ssh domain) pane"@)
                } else {
                    &&& unchanged(*final(self), *old(self))
                    &&& r matches Some(op)
                    &&& op.name == e.name
                    &&& op.total == e.size
                    &&& op.remote_path@ == remote_join_spec(old(self).cwd@, e.name@)
                },
            },
    {
        let (name, is_dir, size) = match self.selected() {
            None => {
                self.report("Nothing selected");
                return None;
            },
            Some(e) => (e.name.clone(), e.is_dir, e.size),
        };
        if is_dir {
            self.report("Directory download is not supported yet");
            return None;
        }
        if !self.is_remote() {
            self.report("Download requires a remote (ssh domain) pane");
            return None;
        }
        let remote_path = remote_join(self.cwd.as_str(), name.as_str());
        Some(DownloadOp { name, remote_path, total: size })
    }

    /// The outcome of a download to `dest`.
    pub fn download_finish(&mut self, op: &DownloadOp, dest: &str, result: Result<u64, String>)
        ensures
            match result {
                Ok(c) => status_set(*final(self), *old(self), "Downloaded "@ + op.name@ + " ("@ + human_size_spec(c as nat) + ") -> "@ + dest@),
                Err(e) => status_set(*final(self), *old(self), "Download failed: "@ + e@),
            },
    {
        match result {
            Ok(c) => {
                let mut m = cat3("Downloaded ", op.name.as_str(), " (");
                let hs = human_size(c);
                push_str(&mut m, hs.as_str());
                push_str(&mut m, ") -> ");
                push_str(&mut m, dest);
                self.set_status(m);
            },
            Err(e) => self.set_status(cat2("Download failed: ", e.as_str())),
        }
    }

    /// Starts an upload: only a remote pane can take one.
    pub fn upload_begin(&mut self) -> (r: bool)
        ensures
            r == old(self).spec_is_remote(),
            r ==> unchanged(*final(self), *old(self)),
            !r ==> status_set(*final(self), *old(self), "Upload requires a remote (ssh domain) pane"@),
    {
        if !self.is_remote() {
            self.report("Upload requires a remote (ssh domain) pane");
            return false;
        }
        true
    }

    /// The local file named at the upload prompt (`None` when it was
    /// cancelled): blank input cancels; otherwise the trimmed path with a
    /// leading `~` expanded.
    pub fn upload_source(&mut self, line: Option<String>) -> (r: Option<String>)
        ensures
            match line {
                Some(l) if trim(l@).len() > 0 => {
                    &&& unchanged(*final(self), *old(self))
                    &&& r matches Some(p)
                    &&& exists|home: Option<Seq<char>>| p@ == expand_tilde_spec(trim(l@), home)
                },
                _ => r is None && status_set(*final(self), *old(self), "Upload cancelled"@),
            },
    {
        match line {
            Some(l) => {
                let t = trimmed(l.as_str());
                if t.unicode_len() > 0 {
                    return Some(expand_tilde(t.as_str()));
                }
                self.report("Upload cancelled");
                None
            },
            None => {
                self.report("Upload cancelled");
                None
            },
        }
    }

    /// After the file picker was asked for a local file to upload: no
    /// picker available (an error) falls back to the typed prompt
    /// (`upload_source`); a cancelled picker uploads nothing; a chosen path
    /// is the file to upload.
    pub fn upload_picked(&mut self, picked: Result<Option<String>, String>) -> (r: UploadSource)
        ensures
            match picked {
                Err(_) => r is Prompt && unchanged(*final(self), *old(self)),
                Ok(None) => r is Cancelled && status_set(*final(self), *old(self), "Upload cancelled"@),
                Ok(Some(p)) => (r matches UploadSource::Path(q) && q@ == p@) && unchanged(*final(self), *old(self)),
            },
    {
        match picked {
            Err(_) => UploadSource::Prompt,
            Ok(None) => {
                self.report("Upload cancelled");
                UploadSource::Cancelled
            },
            Ok(Some(p)) => UploadSource::Path(p),
        }
    }

    /// After the save dialog was asked where download `op` goes (starting
    /// in `download_dir` with the file's name): a chosen path is the
    /// destination; a cancelled dialog downloads nothing; with no dialog
    /// available the destination is `unique_local_dest` in
    /// `download_dir`.
    pub fn download_destination(&mut self, op: &DownloadOp, picked: Result<Option<String>, String>, download_dir: &str) -> (r: Option<String>)
        ensures
            match picked {
                Ok(Some(p)) => (r matches Some(d) && d@ == p@) && unchanged(*final(self), *old(self)),
                Ok(None) => r is None && status_set(*final(self), *old(self), "Download cancelled"@),
                Err(_) => unchanged(*final(self), *old(self)) && (r matches Some(d) && exists|taken: Seq<bool>| {
                    ||| first_free_spec(download_dir@, op.name@, taken) == Some(d@)
                    ||| (taken.len() == u64::MAX + 1 && (forall|k: int| 0 <= k < taken.len() ==> #[trigger] taken[k])
                        && d@ == dest_candidate_spec(download_dir@, op.name@, u64::MAX as nat))
                }),
            },
    {
        match picked {
            Ok(Some(p)) => Some(p),
            Ok(None) => {
                self.report("Download cancelled");
                None
            },
            Err(_) => Some(unique_local_dest(download_dir, op.name.as_str())),
        }
    }

    /// After the folder picker was asked for a folder to go to: a chosen
    /// folder is entered (recorded in the history); a cancelled picker
    /// changes nothing; with no picker available the error is reported.
    pub fn folder_picked(&mut self, picked: Result<Option<String>, String>)
        ensures
            match picked {
                Ok(Some(p)) => {
                    &&& navigated(*final(self), *old(self), p@, true)
                    &&& final(self).status == old(self).status
                    &&& final(self).menu == old(self).menu
                    &&& final(self).prev_mouse_buttons == old(self).prev_mouse_buttons
                },
                Ok(None) => unchanged(*final(self), *old(self)),
                Err(e) => status_set(*final(self), *old(self), "Error: "@ + e@),
            },
    {
        match picked {
            Ok(Some(p)) => self.navigate_to(p, true),
            Ok(None) => {},
            Err(e) => self.set_status(cat2("Error: ", e.as_str())),
        }
    }

    /// The chosen local path is not a regular file.
    pub fn upload_not_a_file(&mut self, path: &str)
        ensures
            status_set(*final(self), *old(self), "Not a file: "@ + path@),
    {
        self.set_status(cat2("Not a file: ", path));
    }

    /// Where the local file `local_path` goes: its file name in the
    /// current remote directory; a path without a file name is refused.
    pub fn upload_target(&mut self, local_path: &str) -> (r: Option<UploadOp>)
        ensures
            match path_file_name_of(local_path@) {
                None => r is None && status_set(*final(self), *old(self), "Invalid path"@),
                Some(n) => {
                    &&& unchanged(*final(self), *old(self))
                    &&& r matches Some(op)
                    &&& op.name@ == n
                    &&& op.remote_path@ == remote_join_spec(old(self).cwd@, n)
                },
            },
    {
        match path_file_name(local_path) {
            None => {
                self.report("Invalid path");
                None
            },
            Some(name) => {
                let remote_path = remote_join(self.cwd.as_str(), name.as_str());
                Some(UploadOp { name, remote_path })
            },
        }
    }

    /// The outcome of an upload: on success the listing is refreshed
    /// (a failure of that refresh is ignored).
    pub fn upload_finish(&mut self, op: &UploadOp, result: Result<u64, String>)
        ensures
            match result {
                Ok(c) => {
                    &&& view_kept(*final(self), *old(self))
                    &&& final(self).cwd == old(self).cwd
                    &&& final(self).back_stack@ == old(self).back_stack@
                    &&& final(self).fwd_stack@ == old(self).fwd_stack@
                    &&& final(self).menu == old(self).menu
                    &&& final(self).prev_mouse_buttons == old(self).prev_mouse_buttons
                    &&& final(self).status@ == "Uploaded "@ + op.name@ + " ("@ + human_size_spec(c as nat) + ") -> "@ + op.remote_path@
                    &&& final(self).pending == Some(ListingPurpose::Quiet)
                },
                Err(e) => status_set(*final(self), *old(self), "Upload failed: "@ + e@),
            },
    {
        match result {
            Ok(c) => {
                let mut m = cat3("Uploaded ", op.name.as_str(), " (");
                let hs = human_size(c);
                push_str(&mut m, hs.as_str());
                push_str(&mut m, ") -> ");
                push_str(&mut m, op.remote_path.as_str());
                self.set_status(m);
                self.pending = Some(ListingPurpose::Quiet);
            },
            Err(e) => self.set_status(cat2("Upload failed: ", e.as_str())),
        }
    }
}

/// Whether an answer to a yes/no question is in: `y` or `Y` says yes,
/// any other key no; other events leave the question open.
pub fn confirm_answer(ev: &InputEvent) -> (r: Option<bool>)
    ensures
        r == match *ev {
            InputEvent::Key(k) => Some(k.key == Key::Char('y') || k.key == Key::Char('Y')),
            _ => None,
        },
{
    match ev {
        InputEvent::Key(k) => Some(any_char(k, 'y') || any_char(k, 'Y')),
        _ => None,
    }
}

/// The size column of an entry: `<dir>` for directories, the
/// `human_size` of files with a known size, blank otherwise.
pub open spec fn size_column(e: FmEntry) -> Seq<char> {
    if e.is_dir {
        "<dir>"@
    } else {
        match e.size {
            Some(sz) => human_size_spec(sz as nat),
            None => Seq::<char>::empty(),
        }
    }
}

/// The listing row of an entry: the size right-aligned in nine columns,
/// then the name, with a trailing `/` for directories.
pub open spec fn entry_line_spec(e: FmEntry) -> Seq<char> {
    seq![' '] + pad_left(size_column(e), 9) + seq![' ', ' '] + e.name@ + (if e.is_dir { seq!['/'] } else { Seq::<char>::empty() })
}

/// The listing row of an entry.
pub fn entry_line(e: &FmEntry) -> (r: String)
    ensures
        r@ == entry_line_spec(*e),
{
    let size = if e.is_dir {
        to_string("<dir>")
    } else {
        match e.size {
            Some(sz) => human_size(sz),
            None => String::new(),
        }
    };
    let mut out = String::new();
    out.push(' ');
    push_padded_left(&mut out, size.as_str(), 9);
    out.push(' ');
    out.push(' ');
    push_str(&mut out, e.name.as_str());
    if e.is_dir {
        out.push('/');
    }
    proof {
        assert(out@ =~= entry_line_spec(*e));
    }
    out
}

impl FileManager {
    /// The location shown in the header: `local: {cwd}` or
    /// `{label}: {cwd}`.
    pub fn location(&self) -> (r: String)
        ensures
            r@ == (match self.remote_label {
                Some(l) => l@,
                None => "local"@,
            }) + ": "@ + self.cwd@,
    {
        let mut out = match &self.remote_label {
            Some(l) => l.clone(),
            None => to_string("local"),
        };
        push_str(&mut out, ": ");
        push_str(&mut out, self.cwd.as_str());
        out
    }

    /// The help line: the remote one mentions download/upload.
    pub fn help_text(&self) -> (r: &'static str)
        ensures
            r@ == (if self.spec_is_remote() {
                "Enter: open  BS: up  RClick: back  m: menu  d/u: down/upload  F2/Del: rename/delete  q"@
            } else {
                "Enter: open  BS: up  RClick: back  MClick: fwd  m: menu  F2/Del: rename/delete  q"@
            }),
    {
        if self.is_remote() {
            "Enter: open  BS: up  RClick: back  m: menu  d/u: down/upload  F2/Del: rename/delete  q"
        } else {
            "Enter: open  BS: up  RClick: back  MClick: fwd  m: menu  F2/Del: rename/delete  q"
        }
    }

    /// The entries drawn, as an index range: from the scroll position,
    /// one more than `max_items` rows at most.
    pub fn visible_range(&self) -> (r: (usize, usize))
        requires
            self.wf(),
        ensures
            r.0 == self.top_row,
            r.1 == (if self.top_row + self.max_items + 1 < self.entries@.len() { self.top_row + self.max_items + 1 } else { self.entries@.len() as int }),
    {
        let len = self.entries.len();
        let room = len - self.top_row;
        if self.max_items < room && self.max_items + 1 < room {
            (self.top_row, self.top_row + self.max_items + 1)
        } else {
            (self.top_row, len)
        }
    }
}

/// The index of the first entry named `name`.
pub open spec fn first_named(entries: Seq<FmEntry>, name: Seq<char>) -> Option<int> {
    if exists|i: int| 0 <= i < entries.len() && entries[i].name@ == name {
        let i = choose|i: int|
            0 <= i < entries.len() && entries[i].name@ == name && forall|k: int|
                0 <= k < i ==> entries[k].name@ != name;
        Some(i)
    } else {
        None
    }
}

/// `entries.iter().position(|e| e.name == name)`.
pub fn position_of_name(entries: &Vec<FmEntry>, name: &String) -> (r: Option<usize>)
    ensures
        match r {
            Some(i) => first_named(entries@, name@) == Some(i as int) && i < entries@.len(),
            None => first_named(entries@, name@) is None,
        },
{
    let mut i: usize = 0;
    while i < entries.len()
        invariant
            i <= entries@.len(),
            forall|k: int| 0 <= k < i ==> entries@[k].name@ != name@,
        decreases entries.len() - i,
    {
        if str_eq(entries[i].name.as_str(), name.as_str()) {
            proof {
                let j = choose|j: int|
                    0 <= j < entries@.len() && entries@[j].name@ == name@ && forall|k: int|
                        0 <= k < j ==> entries@[k].name@ != name@;
                assert(j == i as int) by {
                    if j < i {
                    } else if j > i {
                        assert(entries@[i as int].name@ == name@);
                    }
                }
            }
            return Some(i);
        }
        i += 1;
    }
    None
}


/// The mouse wheel scrolls the listing by three rows: turned up
/// (`wheel_positive`) with no menu open, the selection moves three entries
/// towards the top (stopping at the first), so it never goes down and
/// goes up whenever it is not already at the top; turned down, it moves
/// three entries towards the end (stopping at the last), never up. The
/// listing, history and menu stay as they were.
pub proof fn law_wheel_moves_selection(
    new: FileManager,
    old: FileManager,
    m: MouseInput,
    screen: Option<ScreenSize>,
    cmd: FmCommand,
)
    requires
        old.wf(),
        old.menu is None,
        m.buttons.vert_wheel,
        main_step(new, old, InputEvent::Mouse(m), screen, cmd),
    ensures
        cmd == FmCommand::Continue,
        new.entries == old.entries,
        new.cwd == old.cwd,
        new.menu is None,
        m.buttons.wheel_positive ==> {
            &&& new.active_idx <= old.active_idx
            &&& (old.active_idx > 0 ==> new.active_idx < old.active_idx)
            &&& new.active_idx == (if old.active_idx >= 3 { old.active_idx - 3 } else { 0 })
        },
        !m.buttons.wheel_positive ==> {
            &&& new.active_idx >= old.active_idx
            &&& (old.active_idx + 1 < old.entries@.len() ==> new.active_idx > old.active_idx)
            &&& (old.entries@.len() > 0 ==> new.active_idx == (if old.active_idx + 3 < old.entries@.len() {
                old.active_idx + 3
            } else {
                old.entries@.len() - 1
            }))
        },
{
}

/// The movement keys, with no menu open, move the selection: Up/`k` one
/// entry towards the top and Down/`j` one towards the end, PageUp and
/// PageDown a screenful (`max_items`, at least one), each stopping at the
/// first or last entry; nothing else changes but the scroll position.
pub proof fn law_keys_move_selection(
    new: FileManager,
    old: FileManager,
    k: KeyInput,
    screen: Option<ScreenSize>,
    cmd: FmCommand,
)
    requires
        old.wf(),
        old.menu is None,
        main_step(new, old, InputEvent::Key(k), screen, cmd),
    ensures
        ({
            let page: int = if old.max_items >= 1 { old.max_items as int } else { 1 };
            let len = old.entries@.len();
            let up = |n: int| if old.active_idx >= n { old.active_idx - n } else { 0 };
            let down = |n: int| if old.active_idx + n < len { old.active_idx + n } else { len - 1 };
            &&& (k.key == Key::UpArrow || is_plain_char(k, 'k')) ==> new.active_idx == up(1)
            &&& (k.key == Key::DownArrow || is_plain_char(k, 'j')) && len > 0 ==> new.active_idx == down(1)
            &&& k.key == Key::PageUp ==> new.active_idx == up(page)
            &&& k.key == Key::PageDown && len > 0 ==> new.active_idx == down(page)
            &&& (k.key == Key::UpArrow || is_plain_char(k, 'k') || k.key == Key::DownArrow || is_plain_char(k, 'j')
                || k.key == Key::PageUp || k.key == Key::PageDown) ==> {
                &&& cmd == FmCommand::Continue
                &&& new.entries == old.entries
                &&& new.cwd == old.cwd
                &&& new.menu is None
            }
        }),
{
}

} // verus!
