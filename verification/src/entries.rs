//! Directory entries of the file manager and the order they are listed
//! in: directories first, then by name.
use vstd::prelude::*;
use vstd::multiset::Multiset;
use crate::text::{lex_lt, str_eq, str_lt};

verus! {

broadcast use vstd::seq_lib::group_to_multiset_ensures;

/// One row of a directory listing.
pub struct FmEntry {
    pub name: String,
    pub is_dir: bool,
    /// the size of a regular file, when known
    pub size: Option<u64>,
}

/// What an SFTP listing reports of one directory entry.
pub struct RemoteDirEntry {
    /// the last path component, when the path has one
    pub file_name: Option<String>,
    pub is_dir: bool,
    pub is_file: bool,
    pub size: Option<u64>,
}

/// `a` sorts strictly before `b`: directories first, then by name.
pub open spec fn entry_lt(a: FmEntry, b: FmEntry) -> bool {
    (a.is_dir && !b.is_dir) || (a.is_dir == b.is_dir && lex_lt(a.name@, b.name@))
}

/// `s` is in listing order.
pub open spec fn entries_sorted(s: Seq<FmEntry>) -> bool {
    forall|i: int, j: int| 0 <= i < j < s.len() ==> !entry_lt(#[trigger] s[j], #[trigger] s[i])
}

pub proof fn lemma_lex_irreflexive(a: Seq<char>)
    ensures
        !lex_lt(a, a),
    decreases a.len(),
{
    if a.len() > 0 {
        lemma_lex_irreflexive(a.drop_first());
    }
}

pub proof fn lemma_lex_asymmetric(a: Seq<char>, b: Seq<char>)
    ensures
        lex_lt(a, b) ==> !lex_lt(b, a),
    decreases a.len(),
{
    if a.len() > 0 && b.len() > 0 && a[0] == b[0] {
        lemma_lex_asymmetric(a.drop_first(), b.drop_first());
    }
}

pub proof fn lemma_lex_transitive(a: Seq<char>, b: Seq<char>, c: Seq<char>)
    ensures
        lex_lt(a, b) && lex_lt(b, c) ==> lex_lt(a, c),
    decreases a.len(),
{
    if a.len() > 0 && b.len() > 0 && c.len() > 0 && a[0] == b[0] && b[0] == c[0] {
        lemma_lex_transitive(a.drop_first(), b.drop_first(), c.drop_first());
    }
}

pub proof fn lemma_lex_total(a: Seq<char>, b: Seq<char>)
    ensures
        !lex_lt(a, b) && !lex_lt(b, a) ==> a == b,
    decreases a.len(),
{
    if a.len() > 0 && b.len() > 0 && a[0] == b[0] {
        lemma_lex_total(a.drop_first(), b.drop_first());
        if a.drop_first() == b.drop_first() {
            assert(a =~= seq![a[0]] + a.drop_first());
            assert(b =~= seq![b[0]] + b.drop_first());
        }
    }
    if a.len() == 0 && b.len() == 0 {
        assert(a =~= b);
    }
}

/// Whether `a` sorts strictly before `b`.
pub fn entry_before(a: &FmEntry, b: &FmEntry) -> (r: bool)
    ensures
        r == entry_lt(*a, *b),
{
    if a.is_dir != b.is_dir {
        a.is_dir
    } else {
        str_lt(a.name.as_str(), b.name.as_str())
    }
}

proof fn lemma_entry_order(a: FmEntry, b: FmEntry, c: FmEntry)
    ensures
        !entry_lt(a, a),
        entry_lt(a, b) ==> !entry_lt(b, a),
        entry_lt(a, b) && entry_lt(b, c) ==> entry_lt(a, c),
        !entry_lt(a, b) && !entry_lt(b, a) ==> (entry_lt(a, c) == entry_lt(b, c) && entry_lt(c, a)
            == entry_lt(c, b)),
{
    lemma_lex_irreflexive(a.name@);
    lemma_lex_asymmetric(a.name@, b.name@);
    lemma_lex_transitive(a.name@, b.name@, c.name@);
    lemma_lex_total(a.name@, b.name@);
}

/// Puts `entries` in listing order: directories first, then by name.
/// The result holds the same entries (`reload` sorts every listing so).
pub fn sort_entries(entries: Vec<FmEntry>) -> (r: Vec<FmEntry>)
    ensures
        entries_sorted(r@),
        r@.to_multiset() == entries@.to_multiset(),
{
    let ghost orig = entries@;
    let mut input = entries;
    let mut out: Vec<FmEntry> = Vec::new();
    assert(orig.subrange(orig.len() as int, orig.len() as int) =~= Seq::<FmEntry>::empty());
    while input.len() > 0
        invariant
            input@ == orig.subrange(0, input.len() as int),
            input.len() <= orig.len(),
            entries_sorted(out@),
            out@.to_multiset() == orig.subrange(input.len() as int, orig.len() as int).to_multiset(),
        decreases input.len(),
    {
        let ghost before = input.len();
        let e = input.pop().unwrap();
        let mut p: usize = 0;
        while p < out.len() && entry_before(&out[p], &e)
            invariant
                p <= out.len(),
                forall|k: int| 0 <= k < p ==> entry_lt(#[trigger] out@[k], e),
            decreases out.len() - p,
        {
            p += 1;
        }
        let ghost old_out = out@;
        proof {
            assert forall|k: int| p <= k < old_out.len() implies !entry_lt(#[trigger] old_out[k], e) by {
                assert(!entry_lt(old_out[p as int], e));
                if k > p {
                    assert(!entry_lt(old_out[k], old_out[p as int]));
                    lemma_entry_order(old_out[k], old_out[p as int], e);
                    lemma_entry_order(old_out[p as int], old_out[k], e);
                    lemma_entry_order(e, old_out[k], old_out[p as int]);
                }
            }
        }
        out.insert(p, e);
        proof {
            assert forall|i: int, j: int| 0 <= i < j < out@.len() implies !entry_lt(
                #[trigger] out@[j],
                #[trigger] out@[i],
            ) by {
                if j < p {
                    assert(out@[i] == old_out[i] && out@[j] == old_out[j]);
                } else if j == p {
                    lemma_entry_order(out@[i], e, e);
                } else if i == p {
                    assert(out@[j] == old_out[j - 1]);
                } else if i < p {
                    assert(out@[j] == old_out[j - 1] && out@[i] == old_out[i]);
                } else {
                    assert(out@[j] == old_out[j - 1] && out@[i] == old_out[i - 1]);
                }
            }
            assert(out@.remove(p as int) =~= old_out);
            assert(out@.to_multiset() =~= old_out.to_multiset().insert(e)) by {
                assert(out@.contains(out@[p as int]));
                assert(out@.to_multiset().remove(e) == old_out.to_multiset());
            }
            let s_new = orig.subrange(input.len() as int, orig.len() as int);
            let s_old = orig.subrange(before as int, orig.len() as int);
            assert(s_new =~= seq![e] + s_old);
            vstd::seq_lib::lemma_multiset_commutative(seq![e], s_old);
            assert(seq![e] =~= Seq::<FmEntry>::empty().push(e));
            assert(Seq::<FmEntry>::empty().to_multiset() =~= Multiset::<FmEntry>::empty());
            assert(s_new.to_multiset() =~= old_out.to_multiset().insert(e));
        }
    }
    assert(orig.subrange(0, orig.len() as int) =~= orig);
    out
}

/// Whether a remote listing row is listed: it has a name, which is not
/// `.` or `..`.
pub open spec fn remote_row_listed(row: RemoteDirEntry) -> bool {
    match row.file_name {
        Some(n) => n@ != seq!['.'] && n@ != seq!['.', '.'],
        None => false,
    }
}

/// The entry a listed remote row becomes: sizes are kept for regular
/// files only.
pub open spec fn remote_row_entry_ok(row: RemoteDirEntry, e: FmEntry) -> bool {
    &&& row.file_name == Some(e.name)
    &&& e.is_dir == row.is_dir
    &&& e.size == (if row.is_file { row.size } else { None })
}

/// The predicate `remote_row_listed`, as a function value.
pub open spec fn listed_rows() -> spec_fn(RemoteDirEntry) -> bool {
    |row: RemoteDirEntry| remote_row_listed(row)
}

/// The entries of an SFTP directory listing (unsorted): rows without a
/// name and the `.` and `..` rows are dropped.
pub fn remote_entries(rows: &Vec<RemoteDirEntry>) -> (r: Vec<FmEntry>)
    ensures
        r@.len() == rows@.filter(listed_rows()).len(),
        forall|i: int|
            0 <= i < r@.len() ==> remote_row_entry_ok(
                rows@.filter(listed_rows())[i],
                #[trigger] r@[i],
            ),
{
    let mut out: Vec<FmEntry> = Vec::new();
    proof {
        reveal_with_fuel(Seq::<RemoteDirEntry>::filter, 1);
        assert(rows@.take(0) =~= Seq::<RemoteDirEntry>::empty());
    }
    for k in 0..rows.len()
        invariant
            out@.len() == rows@.take(k as int).filter(listed_rows()).len(),
            forall|i: int|
                0 <= i < out@.len() ==> remote_row_entry_ok(
                    rows@.take(k as int).filter(listed_rows())[i],
                    #[trigger] out@[i],
                ),
    {
        let row = &rows[k];
        proof {
            assert(rows@.take(k + 1).drop_last() =~= rows@.take(k as int));
            assert(rows@.take(k + 1).last() == rows@[k as int]);
        }
        let listed = match &row.file_name {
            Some(n) => !str_eq(n.as_str(), ".") && !str_eq(n.as_str(), ".."),
            None => false,
        };
        proof {
            reveal_strlit(".");
            reveal_strlit("..");
            assert("."@ =~= seq!['.']);
            assert(".."@ =~= seq!['.', '.']);
            assert(listed == remote_row_listed(*row));
        }
        if listed {
            let name = row.file_name.as_ref().unwrap().clone();
            let size = if row.is_file { row.size } else { None };
            out.push(FmEntry { name, is_dir: row.is_dir, size });
            proof {
                reveal_with_fuel(Seq::<RemoteDirEntry>::filter, 1);
                let t = rows@.take(k + 1);
                assert(t.drop_last() =~= rows@.take(k as int));
                assert(t.last() == rows@[k as int]);
                assert(*row == rows@[k as int]);
                assert(listed_rows()(t.last()));
                assert(t.filter(listed_rows()) == t.drop_last().filter(listed_rows()).push(t.last()));
            }
        } else {
            proof {
                reveal_with_fuel(Seq::<RemoteDirEntry>::filter, 1);
                let t = rows@.take(k + 1);
                assert(t.drop_last() =~= rows@.take(k as int));
                assert(t.last() == rows@[k as int]);
                assert(!listed_rows()(t.last()));
                assert(t.filter(listed_rows()) == t.drop_last().filter(listed_rows()));
            }
        }
    }
    assert(rows@.take(rows.len() as int) =~= rows@);
    out
}

} // verus!
