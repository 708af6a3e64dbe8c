//! File and folder pickers: the command lines that ask `zenity`,
//! `kdialog` or PowerShell for a path, and what their output means.
//! Running the programs is the caller's business.
use vstd::prelude::*;
use crate::paths::{join_local, path_join};
use crate::text::{chars_of, push_str, to_string, trim, trimmed};
use crate::viewer::{decode_lossy, utf8_lossy};

verus! {

/// What the picker is for.
#[derive(Clone, Copy, PartialEq, Eq, Structural, Debug)]
pub enum PickKind {
    OpenFile,
    OpenFolder,
    SaveFile,
}

/// A request for a path.
pub struct PickRequest<'a> {
    pub kind: PickKind,
    pub title: &'a str,
    pub start_dir: Option<&'a str>,
    /// default file name for `SaveFile`
    pub default_name: Option<&'a str>,
}

/// The `--filename` zenity starts at: the default name in the start
/// directory when saving, else the start directory with a trailing
/// separator (so that zenity treats it as a directory); empty when there
/// is neither.
pub open spec fn zenity_filename(kind: PickKind, start: Option<Seq<char>>, name: Option<Seq<char>>) -> Seq<char> {
    let dir = match start { Some(d) => d, None => Seq::empty() };
    if kind == PickKind::SaveFile && name is Some {
        path_join(dir, name.unwrap())
    } else if dir.len() > 0 {
        path_join(dir, Seq::empty())
    } else {
        dir
    }
}

/// The views of an optional `&str`.
pub open spec fn opt_str(o: Option<&str>) -> Option<Seq<char>> {
    match o {
        Some(s) => Some(s@),
        None => None,
    }
}

/// The arguments for `zenity`.
pub open spec fn zenity_args_spec(req: PickRequest) -> Seq<Seq<char>> {
    let f = zenity_filename(req.kind, opt_str(req.start_dir), opt_str(req.default_name));
    seq!["--file-selection"@, "--title="@ + req.title@]
        + match req.kind {
            PickKind::OpenFile => Seq::empty(),
            PickKind::OpenFolder => seq!["--directory"@],
            PickKind::SaveFile => seq!["--save"@, "--confirm-overwrite"@],
        }
        + if f.len() > 0 { seq!["--filename="@ + f] } else { Seq::empty() }
}

/// The characters of each string.
pub open spec fn views_of(v: Seq<String>) -> Seq<Seq<char>> {
    v.map_values(|s: String| s@)
}

/// The arguments `zenity` is run with for `req`.
pub fn zenity_args(req: &PickRequest) -> (r: Vec<String>)
    ensures
        views_of(r@) == zenity_args_spec(*req),
{
    let mut args: Vec<String> = Vec::new();
    args.push(to_string("--file-selection"));
    let mut t = to_string("--title=");
    push_str(&mut t, req.title);
    args.push(t);
    match req.kind {
        PickKind::OpenFile => {},
        PickKind::OpenFolder => {
            args.push(to_string("--directory"));
        },
        PickKind::SaveFile => {
            args.push(to_string("--save"));
            args.push(to_string("--confirm-overwrite"));
        },
    }
    let dir: &str = match req.start_dir {
        Some(d) => d,
        None => "",
    };
    proof {
        reveal_strlit("");
        assert(""@ =~= Seq::<char>::empty());
    }
    let filename = match (req.kind, req.default_name) {
        (PickKind::SaveFile, Some(name)) => join_local(dir, name),
        _ => {
            if dir.unicode_len() > 0 {
                join_local(dir, "")
            } else {
                to_string(dir)
            }
        },
    };
    if filename.as_str().unicode_len() > 0 {
        let mut a = to_string("--filename=");
        push_str(&mut a, filename.as_str());
        args.push(a);
    }
    proof {
        assert(views_of(args@) =~= zenity_args_spec(*req));
    }
    args
}

/// The request for the file to upload: an open-file dialog.
pub fn upload_pick_request() -> (r: PickRequest<'static>)
    ensures
        r.kind == PickKind::OpenFile,
        r.title@ == "Choose a file to upload"@,
        r.start_dir is None,
        r.default_name is None,
{
    PickRequest { kind: PickKind::OpenFile, title: "Choose a file to upload", start_dir: None, default_name: None }
}

/// The request for where a download goes: a save dialog that starts in
/// the download folder with the file's name.
pub fn download_pick_request<'a>(download_dir: &'a str, name: &'a str) -> (r: PickRequest<'a>)
    ensures
        r.kind == PickKind::SaveFile,
        r.title@ == "Save download as"@,
        r.start_dir == Some(download_dir),
        r.default_name == Some(name),
{
    PickRequest { kind: PickKind::SaveFile, title: "Save download as", start_dir: Some(download_dir), default_name: Some(name) }
}

/// The request for a folder to go to: a folder dialog that starts in
/// the current directory.
pub fn folder_pick_request<'a>(cwd: &'a str) -> (r: PickRequest<'a>)
    ensures
        r.kind == PickKind::OpenFolder,
        r.title@ == "Go to folder"@,
        r.start_dir == Some(cwd),
        r.default_name is None,
{
    PickRequest { kind: PickKind::OpenFolder, title: "Go to folder", start_dir: Some(cwd), default_name: None }
}

/// The arguments for `kdialog`: the title, then the kind of dialog with
/// the start directory (`.` when there is none), the default name joined
/// onto it when saving.
pub open spec fn kdialog_args_spec(req: PickRequest) -> Seq<Seq<char>> {
    let start = match req.start_dir { Some(d) => d@, None => "."@ };
    seq!["--title"@, req.title@] + match req.kind {
        PickKind::OpenFile => seq!["--getopenfilename"@, start],
        PickKind::OpenFolder => seq!["--getexistingdirectory"@, start],
        PickKind::SaveFile => seq![
            "--getsavefilename"@,
            match req.default_name { Some(n) => path_join(start, n@), None => start },
        ],
    }
}

/// The arguments `kdialog` is run with for `req`.
pub fn kdialog_args(req: &PickRequest) -> (r: Vec<String>)
    ensures
        views_of(r@) == kdialog_args_spec(*req),
{
    let mut args: Vec<String> = Vec::new();
    args.push(to_string("--title"));
    args.push(to_string(req.title));
    let start = match req.start_dir {
        Some(d) => to_string(d),
        None => to_string("."),
    };
    match req.kind {
        PickKind::OpenFile => {
            args.push(to_string("--getopenfilename"));
            args.push(start);
        },
        PickKind::OpenFolder => {
            args.push(to_string("--getexistingdirectory"));
            args.push(start);
        },
        PickKind::SaveFile => {
            args.push(to_string("--getsavefilename"));
            let p = match req.default_name {
                Some(n) => join_local(start.as_str(), n),
                None => start,
            };
            args.push(p);
        },
    }
    proof {
        assert(views_of(args@) =~= kdialog_args_spec(*req));
    }
    args
}

/// `s` with each `'` doubled, as a PowerShell single-quoted string needs.
pub open spec fn ps_escape(s: Seq<char>) -> Seq<char>
    decreases s.len(),
{
    if s.len() == 0 {
        Seq::empty()
    } else {
        ps_escape(s.drop_last()) + if s.last() == '\'' { seq!['\'', '\''] } else { seq![s.last()] }
    }
}

/// Appends `s` escaped for a single-quoted PowerShell string.
fn push_ps_escaped(out: &mut String, s: &str)
    ensures
        final(out)@ == old(out)@ + ps_escape(s@),
{
    let cs = chars_of(s);
    let ghost start = out@;
    let mut i: usize = 0;
    while i < cs.len()
        invariant
            cs@ == s@,
            i <= cs.len(),
            out@ == start + ps_escape(cs@.subrange(0, i as int)),
        decreases cs.len() - i,
    {
        proof {
            assert(cs@.subrange(0, i + 1).drop_last() =~= cs@.subrange(0, i as int));
        }
        if cs[i] == '\'' {
            out.push('\'');
            out.push('\'');
        } else {
            out.push(cs[i]);
        }
        i += 1;
        proof {
            assert(out@ =~= start + ps_escape(cs@.subrange(0, i as int)));
        }
    }
    assert(cs@.subrange(0, cs.len() as int) =~= cs@);
}

/// The PowerShell script that shows the WinForms dialog for `req` and
/// writes the chosen path.
pub open spec fn powershell_script_spec(req: PickRequest) -> Seq<char> {
    let title = ps_escape(req.title@);
    let dir = match req.start_dir { Some(d) => ps_escape(d@), None => Seq::empty() };
    match req.kind {
        PickKind::OpenFile => "Add-Type -AssemblyName System.Windows.Forms; $d = New-Object System.Windows.Forms.OpenFileDialog; $d.Title = '"@
            + title + "'; $d.InitialDirectory = '"@ + dir
            + "'; if ($d.ShowDialog() -eq 'OK') { Write-Output $d.FileName }"@,
        PickKind::OpenFolder => "Add-Type -AssemblyName System.Windows.Forms; $d = New-Object System.Windows.Forms.FolderBrowserDialog; $d.Description = '"@
            + title + "'; $d.SelectedPath = '"@ + dir
            + "'; if ($d.ShowDialog() -eq 'OK') { Write-Output $d.SelectedPath }"@,
        PickKind::SaveFile => "Add-Type -AssemblyName System.Windows.Forms; $d = New-Object System.Windows.Forms.SaveFileDialog; $d.Title = '"@
            + title + "'; $d.InitialDirectory = '"@ + dir + "'; $d.FileName = '"@
            + ps_escape(match req.default_name { Some(n) => n@, None => Seq::empty() })
            + "'; if ($d.ShowDialog() -eq 'OK') { Write-Output $d.FileName }"@,
    }
}

/// The PowerShell script for `req`.
pub fn powershell_script(req: &PickRequest) -> (r: String)
    ensures
        r@ == powershell_script_spec(*req),
{
    let dir: &str = match req.start_dir {
        Some(d) => d,
        None => "",
    };
    proof {
        reveal_strlit("");
        assert(""@ =~= Seq::<char>::empty());
        assert(ps_escape(Seq::<char>::empty()) =~= Seq::<char>::empty());
    }
    let mut s = String::new();
    match req.kind {
        PickKind::OpenFile => {
            push_str(&mut s, "Add-Type -AssemblyName System.Windows.Forms; $d = New-Object System.Windows.Forms.OpenFileDialog; $d.Title = '");
            push_ps_escaped(&mut s, req.title);
            push_str(&mut s, "'; $d.InitialDirectory = '");
            push_ps_escaped(&mut s, dir);
            push_str(&mut s, "'; if ($d.ShowDialog() -eq 'OK') { Write-Output $d.FileName }");
        },
        PickKind::OpenFolder => {
            push_str(&mut s, "Add-Type -AssemblyName System.Windows.Forms; $d = New-Object System.Windows.Forms.FolderBrowserDialog; $d.Description = '");
            push_ps_escaped(&mut s, req.title);
            push_str(&mut s, "'; $d.SelectedPath = '");
            push_ps_escaped(&mut s, dir);
            push_str(&mut s, "'; if ($d.ShowDialog() -eq 'OK') { Write-Output $d.SelectedPath }");
        },
        PickKind::SaveFile => {
            let name: &str = match req.default_name {
                Some(n) => n,
                None => "",
            };
            push_str(&mut s, "Add-Type -AssemblyName System.Windows.Forms; $d = New-Object System.Windows.Forms.SaveFileDialog; $d.Title = '");
            push_ps_escaped(&mut s, req.title);
            push_str(&mut s, "'; $d.InitialDirectory = '");
            push_ps_escaped(&mut s, dir);
            push_str(&mut s, "'; $d.FileName = '");
            push_ps_escaped(&mut s, name);
            push_str(&mut s, "'; if ($d.ShowDialog() -eq 'OK') { Write-Output $d.FileName }");
        },
    }
    proof {
        assert(s@ =~= powershell_script_spec(*req));
    }
    s
}

/// What a picker's run means: nothing chosen when it failed (cancelling
/// exits non-zero) or wrote only white space; else the path it wrote,
/// trimmed.
pub open spec fn picked_path_spec(success: bool, stdout: Seq<u8>) -> Option<Seq<char>> {
    if !success || trim(utf8_lossy(stdout)).len() == 0 {
        None
    } else {
        Some(trim(utf8_lossy(stdout)))
    }
}

/// The path a picker chose, from its exit status and output.
pub fn output_to_path(success: bool, stdout: &Vec<u8>) -> (r: Option<String>)
    ensures
        match r {
            Some(p) => picked_path_spec(success, stdout@) == Some(p@),
            None => picked_path_spec(success, stdout@) is None,
        },
{
    if !success {
        return None;
    }
    let text = decode_lossy(stdout.as_slice());
    let s = trimmed(text.as_str());
    if s.as_str().unicode_len() == 0 {
        None
    } else {
        Some(s)
    }
}

/// The value a name prompt settles on: the entered line trimmed, unless
/// the prompt was cancelled (`None`), or the trimmed line is empty or the
/// old name.
pub open spec fn accepted_name_spec(line: Option<Seq<char>>, old_name: Seq<char>) -> Option<Seq<char>> {
    match line {
        None => None,
        Some(l) => if trim(l).len() == 0 || trim(l) == old_name {
            None
        } else {
            Some(trim(l))
        },
    }
}

/// The new name from a rename prompt's `line` (see
/// `accepted_name_spec`).
pub fn accept_new_name(line: Option<String>, old_name: &str) -> (r: Option<String>)
    ensures
        match r {
            Some(n) => accepted_name_spec(crate::text::opt_view(line), old_name@) == Some(n@),
            None => accepted_name_spec(crate::text::opt_view(line), old_name@) is None,
        },
{
    match line {
        None => None,
        Some(l) => {
            let t = trimmed(l.as_str());
            if t.as_str().unicode_len() == 0 || crate::text::str_eq(t.as_str(), old_name) {
                None
            } else {
                Some(t)
            }
        },
    }
}

/// The heading of the rename prompt for workspace `old_name`.
pub fn rename_workspace_heading(old_name: &str) -> (r: String)
    ensures
        r@ == "Rename workspace '"@ + old_name@ + "'"@,
{
    let mut s = to_string("Rename workspace '");
    push_str(&mut s, old_name);
    push_str(&mut s, "'");
    s
}

/// The first line of a name prompt: the heading and how to cancel.
pub fn prompt_heading_line(heading: &str) -> (r: String)
    ensures
        r@ == heading@ + " (Escape to cancel)\r\n"@,
{
    let mut s = to_string(heading);
    push_str(&mut s, " (Escape to cancel)\r\n");
    s
}

/// A name prompt settles only on a name that has something besides
/// white space and differs from the old one.
pub proof fn law_accepted_name_is_new(line: Option<Seq<char>>, old_name: Seq<char>)
    ensures
        accepted_name_spec(line, old_name) matches Some(n) ==> n.len() > 0 && n != old_name,
{
}

/// On Windows a folder request opens the WinForms folder browser: the
/// script loads WinForms, creates a `FolderBrowserDialog` whose
/// description is the request's title (escaped), and on OK writes the
/// folder chosen (`$d.SelectedPath`). No request of another kind gives
/// that script.
pub proof fn law_folder_script_browses_folders(req: PickRequest, other: PickRequest)
    requires
        req.kind == PickKind::OpenFolder,
    ensures
        ({
            let s = powershell_script_spec(req);
            let head = "Add-Type -AssemblyName System.Windows.Forms; $d = New-Object System.Windows.Forms.FolderBrowserDialog; $d.Description = '"@;
            let tail = "Write-Output $d.SelectedPath }"@;
            let t = ps_escape(req.title@);
            &&& s.len() >= head.len() + t.len() + tail.len()
            &&& s.subrange(0, head.len() as int) == head
            &&& s.subrange(head.len() as int, (head.len() + t.len()) as int) == t
            &&& s.subrange(s.len() - tail.len(), s.len() as int) == tail
        }),
        other.kind != PickKind::OpenFolder ==> powershell_script_spec(other) != powershell_script_spec(req),
{
    reveal_strlit("Add-Type -AssemblyName System.Windows.Forms; $d = New-Object System.Windows.Forms.FolderBrowserDialog; $d.Description = '");
    reveal_strlit("Write-Output $d.SelectedPath }");
    reveal_strlit("'; $d.SelectedPath = '");
    reveal_strlit("'; if ($d.ShowDialog() -eq 'OK') { Write-Output $d.SelectedPath }");
    reveal_strlit("Add-Type -AssemblyName System.Windows.Forms; $d = New-Object System.Windows.Forms.OpenFileDialog; $d.Title = '");
    reveal_strlit("Add-Type -AssemblyName System.Windows.Forms; $d = New-Object System.Windows.Forms.SaveFileDialog; $d.Title = '");
    let head = "Add-Type -AssemblyName System.Windows.Forms; $d = New-Object System.Windows.Forms.FolderBrowserDialog; $d.Description = '"@;
    let mid = "'; $d.SelectedPath = '"@;
    let end = "'; if ($d.ShowDialog() -eq 'OK') { Write-Output $d.SelectedPath }"@;
    let tail = "Write-Output $d.SelectedPath }"@;
    let t = ps_escape(req.title@);
    let dir = match req.start_dir { Some(d) => ps_escape(d@), None => Seq::empty() };
    let s = powershell_script_spec(req);
    assert(s == head + t + mid + dir + end);
    assert(s.subrange(0, head.len() as int) =~= head);
    assert(s.subrange(head.len() as int, (head.len() + t.len()) as int) =~= t);
    assert(end.subrange(end.len() - tail.len(), end.len() as int) =~= tail);
    assert(s.subrange(s.len() - tail.len(), s.len() as int) =~= tail);
    assert(s[82] == 'F');
    if other.kind != PickKind::OpenFolder {
        let o = powershell_script_spec(other);
        let ohead = match other.kind {
            PickKind::OpenFile => "Add-Type -AssemblyName System.Windows.Forms; $d = New-Object System.Windows.Forms.OpenFileDialog; $d.Title = '"@,
            _ => "Add-Type -AssemblyName System.Windows.Forms; $d = New-Object System.Windows.Forms.SaveFileDialog; $d.Title = '"@,
        };
        assert(o.subrange(0, ohead.len() as int) =~= ohead);
        assert(o[82] == ohead[82]);
        assert(o[82] != 'F');
    }
}

/// On Linux the dialog asked for is the one the request names: kdialog
/// is run with `--title`, the title, then `--getexistingdirectory` for a
/// folder, `--getopenfilename` for a file to open and `--getsavefilename`
/// for a file to save, and then where to start (the start directory, or
/// `.`, when no file name is proposed). zenity is asked for a file
/// selection with the title, which is a directory selection exactly for a
/// folder request and a save dialog exactly for a save request.
pub proof fn law_dialog_follows_request_kind(req: PickRequest)
    ensures
        ({
            let k = kdialog_args_spec(req);
            let start = match req.start_dir { Some(d) => d@, None => "."@ };
            &&& k.len() == 4
            &&& k[0] == "--title"@
            &&& k[1] == req.title@
            &&& k[2] == match req.kind {
                PickKind::OpenFolder => "--getexistingdirectory"@,
                PickKind::OpenFile => "--getopenfilename"@,
                PickKind::SaveFile => "--getsavefilename"@,
            }
            &&& (req.kind != PickKind::SaveFile || req.default_name is None) ==> k[3] == start
        }),
        ({
            let z = zenity_args_spec(req);
            &&& z[0] == "--file-selection"@
            &&& z[1] == "--title="@ + req.title@
            &&& (z.contains("--directory"@) <==> req.kind == PickKind::OpenFolder)
            &&& (z.contains("--save"@) <==> req.kind == PickKind::SaveFile)
        }),
{
    reveal_strlit("--file-selection");
    reveal_strlit("--title=");
    reveal_strlit("--directory");
    reveal_strlit("--save");
    reveal_strlit("--confirm-overwrite");
    reveal_strlit("--filename=");
    let z = zenity_args_spec(req);
    let f = zenity_filename(req.kind, opt_str(req.start_dir), opt_str(req.default_name));
    assert(("--title="@ + req.title@)[2] == 't');
    assert(("--filename="@ + f)[2] == 'f');
    if req.kind == PickKind::OpenFolder {
        assert(z[2] == "--directory"@);
    } else {
        assert(forall|i: int| 0 <= i < z.len() ==> z[i][2] != 'd');
        assert(!z.contains("--directory"@)) by {
            if z.contains("--directory"@) {
                let i = choose|i: int| 0 <= i < z.len() && z[i] == "--directory"@;
                assert(z[i][2] == 'd');
            }
        }
    }
    if req.kind == PickKind::SaveFile {
        assert(z[2] == "--save"@);
    } else {
        assert(forall|i: int| 0 <= i < z.len() ==> z[i][2] != 's');
        assert(!z.contains("--save"@)) by {
            if z.contains("--save"@) {
                let i = choose|i: int| 0 <= i < z.len() && z[i] == "--save"@;
                assert(z[i][2] == 's');
            }
        }
    }
}

} // verus!
