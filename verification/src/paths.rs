//! Path arithmetic on strings: joining and splitting local (`/`-separated,
//! as on Unix) and remote (SFTP) paths, `~` expansion, and the choice of a
//! download destination that does not clobber an existing file.
use vstd::prelude::*;
use crate::text::{opt_view, chars_of, dec, push_decimal, string_from_chars, to_string};

verus! {

/// `Path::join` on Unix: an absolute `p` replaces `base`; otherwise `p` is
/// appended, with a `/` between them unless `base` is empty or already
/// ends with one.
pub open spec fn path_join(base: Seq<char>, p: Seq<char>) -> Seq<char> {
    if p.len() > 0 && p[0] == '/' {
        p
    } else if base.len() == 0 || base.last() == '/' {
        base + p
    } else {
        base + seq!['/'] + p
    }
}

/// Joins `p` onto the local directory `base`.
pub fn join_local(base: &str, p: &str) -> (r: String)
    ensures
        r@ == path_join(base@, p@),
{
    let pv = chars_of(p);
    if pv.len() > 0 && pv[0] == '/' {
        return to_string(p);
    }
    let bv = chars_of(base);
    let mut out = to_string(base);
    if !(bv.len() == 0 || bv[bv.len() - 1] == '/') {
        out.push('/');
    }
    out.append(p);
    proof {
        if !(base@.len() == 0 || base@.last() == '/') {
            assert(out@ =~= base@ + seq!['/'] + p@);
        }
    }
    out
}

/// Joining a name onto a remote directory with `/` separators.
pub open spec fn remote_join_spec(dir: Seq<char>, name: Seq<char>) -> Seq<char> {
    if dir.len() > 0 && dir.last() == '/' {
        dir + name
    } else {
        dir + seq!['/'] + name
    }
}

/// Join a path onto a remote directory using `/` separators.
pub fn remote_join(dir: &str, name: &str) -> (r: String)
    ensures
        r@ == remote_join_spec(dir@, name@),
{
    let dv = chars_of(dir);
    let mut out = to_string(dir);
    if !(dv.len() > 0 && dv[dv.len() - 1] == '/') {
        out.push('/');
    }
    out.append(name);
    proof {
        if !(dir@.len() > 0 && dir@.last() == '/') {
            assert(out@ =~= dir@ + seq!['/'] + name@);
        }
    }
    out
}

/// `s` without trailing `/` characters (`trim_end_matches('/')`).
pub open spec fn strip_trailing_slashes(s: Seq<char>) -> Seq<char>
    decreases s.len(),
{
    if s.len() > 0 && s.last() == '/' {
        strip_trailing_slashes(s.drop_last())
    } else {
        s
    }
}

/// Index of the last occurrence of `c` in `s`, or -1.
pub open spec fn rfind(s: Seq<char>, c: char) -> int
    decreases s.len(),
{
    if s.len() == 0 {
        -1
    } else if s.last() == c {
        s.len() - 1
    } else {
        rfind(s.drop_last(), c)
    }
}

pub proof fn lemma_rfind_bounds(s: Seq<char>, c: char)
    ensures
        -1 <= rfind(s, c) < s.len(),
        rfind(s, c) >= 0 ==> s[rfind(s, c)] == c,
        forall|k: int| rfind(s, c) < k < s.len() ==> s[k] != c,
    decreases s.len(),
{
    if s.len() > 0 && s.last() != c {
        lemma_rfind_bounds(s.drop_last(), c);
        assert forall|k: int| rfind(s, c) < k < s.len() implies s[k] != c by {
            if k < s.len() - 1 {
                assert(s[k] == s.drop_last()[k]);
            }
        }
    }
}

/// The parent of a remote path: `None` for `/` and for a path without any
/// `/` once trailing slashes are removed; `/` for a top-level entry.
pub open spec fn remote_parent_spec(path: Seq<char>) -> Option<Seq<char>> {
    if path == seq!['/'] {
        None
    } else {
        let t = strip_trailing_slashes(path);
        let k = rfind(t, '/');
        if k < 0 {
            None
        } else if k == 0 {
            Some(seq!['/'])
        } else {
            Some(t.subrange(0, k))
        }
    }
}

/// The last `c` of `a + b`, when `a` ends with `c` and `b` holds none,
/// is the one that ends `a`.
proof fn lemma_rfind_after(a: Seq<char>, b: Seq<char>, c: char)
    requires
        a.len() > 0,
        a.last() == c,
        !b.contains(c),
    ensures
        rfind(a + b, c) == a.len() - 1,
    decreases b.len(),
{
    if b.len() == 0 {
        assert(a + b =~= a);
    } else {
        assert((a + b).drop_last() =~= a + b.drop_last());
        assert((a + b).last() == b.last());
        assert(b.drop_last().contains(c) ==> b.contains(c)) by {
            if b.drop_last().contains(c) {
                let i = choose|i: int| 0 <= i < b.drop_last().len() && b.drop_last()[i] == c;
                assert(b[i] == c);
            }
        }
        assert(b.last() != c) by {
            assert(b[b.len() - 1] == b.last());
        }
        lemma_rfind_after(a, b.drop_last(), c);
    }
}

/// The parent of a remote directory's entry is that directory: for a
/// directory `d` that is `/` or starts with `/` and does not end with
/// one, and an entry name `n` that is not empty and holds no `/`,
/// `remote_parent(remote_join(d, n))` is `d`.
pub proof fn law_remote_parent_of_join(d: Seq<char>, n: Seq<char>)
    requires
        d == seq!['/'] || (d.len() > 0 && d[0] == '/' && d.last() != '/'),
        n.len() > 0,
        !n.contains('/'),
    ensures
        remote_parent_spec(remote_join_spec(d, n)) == Some(d),
{
    let j = remote_join_spec(d, n);
    let a = if d == seq!['/'] { d } else { d + seq!['/'] };
    assert(j =~= a + n);
    assert(j.last() == n.last()) by {
        assert(j[j.len() - 1] == n[n.len() - 1]);
    }
    assert(n.last() != '/') by {
        assert(n[n.len() - 1] == n.last());
    }
    assert(j != seq!['/']) by {
        assert(j.len() >= 2);
    }
    assert(strip_trailing_slashes(j) == j);
    assert(a.last() == '/') by {
        assert(a[a.len() - 1] == '/');
    }
    lemma_rfind_after(a, n, '/');
    if d == seq!['/'] {
        assert(rfind(j, '/') == 0);
    } else {
        assert(rfind(j, '/') == d.len());
        assert(j.subrange(0, d.len() as int) =~= d);
    }
}

fn last_index_of(v: &Vec<char>, end: usize, c: char) -> (r: Option<usize>)
    requires
        end <= v.len(),
    ensures
        match r {
            Some(k) => k as int == rfind(v@.subrange(0, end as int), c) && k < end && v@[k as int]
                == c,
            None => rfind(v@.subrange(0, end as int), c) == -1,
        },
{
    proof {
        lemma_rfind_bounds(v@.subrange(0, end as int), c);
    }
    let mut j: usize = end;
    while j > 0 && v[j - 1] != c
        invariant
            j <= end <= v.len(),
            rfind(v@.subrange(0, end as int), c) == rfind(v@.subrange(0, j as int), c),
        decreases j,
    {
        assert(v@.subrange(0, j as int).drop_last() =~= v@.subrange(0, j - 1));
        j -= 1;
    }
    if j == 0 {
        assert(v@.subrange(0, 0) =~= Seq::<char>::empty());
        None
    } else {
        assert(v@.subrange(0, j as int).last() == v@[j - 1]);
        Some(j - 1)
    }
}

/// The parent directory of a remote path.
pub fn remote_parent(path: &str) -> (r: Option<String>)
    ensures
        match r {
            Some(s) => remote_parent_spec(path@) == Some(s@),
            None => remote_parent_spec(path@) is None,
        },
{
    let v = chars_of(path);
    if v.len() == 1 && v[0] == '/' {
        assert(path@ =~= seq!['/']);
        return None;
    }
    assert(path@ != seq!['/']) by {
        if path@ == seq!['/'] {
            assert(v@.len() == 1 && v@[0] == '/');
        }
    }
    let mut end: usize = v.len();
    assert(v@.subrange(0, end as int) =~= v@);
    while end > 0 && v[end - 1] == '/'
        invariant
            end <= v.len(),
            strip_trailing_slashes(path@) == strip_trailing_slashes(v@.subrange(0, end as int)),
        decreases end,
    {
        assert(v@.subrange(0, end as int).drop_last() =~= v@.subrange(0, end - 1));
        end -= 1;
    }
    assert(strip_trailing_slashes(path@) == v@.subrange(0, end as int)) by {
        if end > 0 {
            assert(v@.subrange(0, end as int).last() == v@[end - 1]);
        }
    }
    match last_index_of(&v, end, '/') {
        None => None,
        Some(k) => {
            if k == 0 {
                let mut s = String::new();
                s.push('/');
                assert(s@ =~= seq!['/']);
                Some(s)
            } else {
                let s = string_from_chars(&v, 0, k);
                assert(s@ =~= v@.subrange(0, end as int).subrange(0, k as int));
                Some(s)
            }
        },
    }
}

/// The file name and extension parts used to number a download: for
/// `stem.ext` with a non-empty stem, `(stem, ".ext")`; otherwise the
/// whole name and an empty extension.
pub open spec fn split_ext(name: Seq<char>) -> (Seq<char>, Seq<char>) {
    let k = rfind(name, '.');
    if k > 0 {
        (name.subrange(0, k), name.subrange(k, name.len() as int))
    } else {
        (name, Seq::<char>::empty())
    }
}

/// The `n`-th destination tried for a download of `name` into `dir`:
/// `dir/name` first, then `dir/stem (n).ext`.
pub open spec fn dest_candidate_spec(dir: Seq<char>, name: Seq<char>, n: nat) -> Seq<char> {
    if n == 0 {
        path_join(dir, name)
    } else {
        let (stem, ext) = split_ext(name);
        path_join(dir, stem + seq![' ', '('] + dec(n) + seq![')'] + ext)
    }
}

/// The `n`-th local destination tried for a download (see
/// `unique_local_dest`, which tries them in order until one does not
/// exist).
pub fn local_dest_candidate(dir: &str, name: &str, n: u64) -> (r: String)
    ensures
        r@ == dest_candidate_spec(dir@, name@, n as nat),
{
    if n == 0 {
        return join_local(dir, name);
    }
    let v = chars_of(name);
    let dot = last_index_of(&v, v.len(), '.');
    assert(v@.subrange(0, v.len() as int) =~= name@);
    let mut file = String::new();
    match dot {
        Some(k) if k > 0 => {
            let stem = string_from_chars(&v, 0, k);
            file.append(stem.as_str());
        },
        _ => {
            file.append(name);
        },
    }
    file.push(' ');
    file.push('(');
    push_decimal(&mut file, n as u128);
    file.push(')');
    match dot {
        Some(k) if k > 0 => {
            let ext = string_from_chars(&v, k, v.len());
            file.append(ext.as_str());
        },
        _ => {},
    }
    proof {
        let (stem, ext) = split_ext(name@);
        assert(file@ =~= stem + seq![' ', '('] + dec(n as nat) + seq![')'] + ext);
    }
    join_local(dir, file.as_str())
}

/// The index of the first `false` in `taken` at or after `k`, if any.
pub open spec fn first_untaken(taken: Seq<bool>, k: int) -> Option<int>
    decreases taken.len() - k,
{
    if k < 0 || k >= taken.len() {
        None
    } else if !taken[k] {
        Some(k)
    } else {
        first_untaken(taken, k + 1)
    }
}

/// The first download destination reported free: `taken[n]` says
/// whether the `n`-th candidate (see `dest_candidate_spec`) exists, and
/// the result is the first candidate that does not; none if all exist.
pub open spec fn first_free_spec(dir: Seq<char>, name: Seq<char>, taken: Seq<bool>) -> Option<Seq<char>> {
    match first_untaken(taken, 0) {
        Some(n) => Some(dest_candidate_spec(dir, name, n as nat)),
        None => None,
    }
}

/// The first candidate destination that `taken` reports free (see
/// `first_free_spec`): `dir/name` when it is free, else `dir/stem (n).ext`
/// for the least such `n`.
pub fn first_free_dest(dir: &str, name: &str, taken: &Vec<bool>) -> (r: Option<String>)
    ensures
        opt_view(r) == first_free_spec(dir@, name@, taken@),
{
    let mut n: usize = 0;
    while n < taken.len()
        invariant
            n <= taken.len(),
            first_untaken(taken@, 0) == first_untaken(taken@, n as int),
        decreases taken.len() - n,
    {
        if !taken[n] {
            return Some(local_dest_candidate(dir, name, n as u64));
        }
        n += 1;
    }
    None
}

/// Whether something exists at local path `p` (`Path::exists`). Depends
/// on what is on disk: nothing is promised of the result.
#[verifier::external_body]
fn local_path_exists(p: &str) -> bool {
    std::path::Path::new(p).exists()
}

proof fn lemma_first_untaken_from(taken: Seq<bool>, k: int, n: int)
    requires
        0 <= k <= n < taken.len(),
        !taken[n],
        forall|j: int| 0 <= j < n ==> #[trigger] taken[j],
    ensures
        first_untaken(taken, k) == Some(n),
    decreases n - k,
{
    if k < n {
        assert(taken[k]);
        lemma_first_untaken_from(taken, k + 1, n);
    }
}

/// A download destination in `dir` that does not clobber an existing
/// file: the candidates are checked on disk in turn until one is found
/// free, and the result is `first_free_dest` of those checks' answers;
/// only if every candidate up to the one numbered `u64::MAX` exists is
/// that last one returned.
pub fn unique_local_dest(dir: &str, name: &str) -> (r: String)
    ensures
        exists|taken: Seq<bool>| {
            ||| first_free_spec(dir@, name@, taken) == Some(r@)
            ||| (taken.len() == u64::MAX + 1 && (forall|k: int| 0 <= k < taken.len() ==> #[trigger] taken[k])
                && r@ == dest_candidate_spec(dir@, name@, u64::MAX as nat))
        },
{
    let mut taken: Vec<bool> = Vec::new();
    let mut n: u64 = 0;
    loop
        invariant
            n <= u64::MAX,
            taken@.len() == n,
            forall|k: int| 0 <= k < taken@.len() ==> #[trigger] taken@[k],
        decreases u64::MAX - n,
    {
        let candidate = local_dest_candidate(dir, name, n);
        let exists_now = local_path_exists(candidate.as_str());
        taken.push(exists_now);
        if !exists_now {
            proof {
                lemma_first_untaken_from(taken@, 0, n as int);
            }
            let r = first_free_dest(dir, name, &taken);
            return r.unwrap();
        }
        if n == u64::MAX {
            assert(forall|k: int| 0 <= k < taken@.len() ==> #[trigger] taken@[k]);
            return candidate;
        }
        n = n + 1;
    }
}

/// `~` expansion: `~` is the home directory and `~/rest` is `rest` under
/// it; anything else, or any path when the home directory is unknown, is
/// left as it is.
pub open spec fn expand_tilde_spec(path: Seq<char>, home: Option<Seq<char>>) -> Seq<char> {
    if path.len() >= 2 && path[0] == '~' && path[1] == '/' {
        match home {
            Some(h) => path_join(h, path.subrange(2, path.len() as int)),
            None => path,
        }
    } else if path == seq!['~'] {
        match home {
            Some(h) => h,
            None => path,
        }
    } else {
        path
    }
}

/// `~` expansion against a given home directory.
pub fn expand_tilde_with(path: &str, home: Option<String>) -> (r: String)
    ensures
        r@ == expand_tilde_spec(path@, opt_view(home)),
{
    let v = chars_of(path);
    if v.len() >= 2 && v[0] == '~' && v[1] == '/' {
        match home {
            Some(h) => {
                let rest = string_from_chars(&v, 2, v.len());
                join_local(h.as_str(), rest.as_str())
            },
            None => to_string(path),
        }
    } else if v.len() == 1 && v[0] == '~' {
        assert(path@ =~= seq!['~']);
        match home {
            Some(h) => h,
            None => to_string(path),
        }
    } else {
        assert(path@ != seq!['~']) by {
            if path@ == seq!['~'] {
                assert(v@.len() == 1 && v@[0] == '~');
            }
        }
        to_string(path)
    }
}

/// The user's home directory, as `dirs_next::home_dir` finds it
/// (`$HOME`, else the password database), converted with
/// `to_string_lossy`. Depends on the environment: nothing is promised of
/// the result.
#[verifier::external_body]
pub(crate) fn home_dir() -> Option<String> {
    dirs_next::home_dir().map(|p| p.to_string_lossy().to_string())
}

/// Expands a leading `~` against the user's home directory.
pub fn expand_tilde(path: &str) -> (r: String)
    ensures
        exists|home: Option<Seq<char>>| r@ == expand_tilde_spec(path@, home),
{
    let home = home_dir();
    let r = expand_tilde_with(path, home);
    assert(r@ == expand_tilde_spec(path@, opt_view(home)));
    r
}

/// The first of the download directory, the home directory and `.` that
/// is known.
pub open spec fn download_dir_spec(download: Option<Seq<char>>, home: Option<Seq<char>>) -> Seq<char> {
    match download {
        Some(d) => d,
        None => match home {
            Some(h) => h,
            None => seq!['.'],
        },
    }
}

/// Where downloads go, given the user's download directory and home
/// directory as far as they are known: the download directory, else the
/// home directory, else `.`.
pub fn download_dir_from(download: Option<String>, home: Option<String>) -> (r: String)
    ensures
        r@ == download_dir_spec(opt_view(download), opt_view(home)),
{
    match download {
        Some(d) => d,
        None => match home {
            Some(h) => h,
            None => {
                let mut s = String::new();
                s.push('.');
                assert(s@ =~= seq!['.']);
                s
            },
        },
    }
}

} // verus!
