//! Turning cached nodes into the rows a listing shows, and ordering those rows.
use vstd::prelude::*;
use crate::icons::{get_icon, icon_for};
use crate::model::{FileKind, FileNode, FileNodeView, FileView, SearchRequest, SortColumn, SortOrder};
use crate::search::results_view;
use crate::sizes::{bytes_to_mb, size_text};
use crate::text::{chars_of, to_unicode_lower, unicode_lower};
use crate::timefmt::{
    format_modified_time, local_offset_seconds, minute_stamp_text, offset_in_range, offset_or_utc,
    stamp_at, stamp_max_secs, stampable, utc_datetime_text, as_signed, writable_utc,
};

verus! {

/// The extension of a node, or the empty text.
pub open spec fn ext_or_empty(n: FileNodeView) -> Seq<char> {
    match n.extension {
        Some(e) => e,
        None => Seq::empty(),
    }
}

/// The creation time of a node, or 0 where unknown.
pub open spec fn created_or_zero(n: FileNodeView) -> u64 {
    match n.metadata.created {
        Some(t) => t,
        None => 0,
    }
}

/// Whether the times of a node can be written as dates at any local offset.
pub open spec fn formattable(n: FileNodeView) -> bool {
    created_or_zero(n) <= stamp_max_secs() && writable_utc(n.metadata.modified)
}

/// Whether the times of a node can be written as dates at the local offset `offset`.
pub open spec fn formattable_at(n: FileNodeView, offset: Option<i32>) -> bool {
    stampable(created_or_zero(n), offset) && writable_utc(n.metadata.modified)
}

/// Whether `v` is the row shown for node `n` at `path`, with the creation time written
/// at the offset of `offset` seconds from UTC.
pub open spec fn row_of(v: FileView, path: Seq<char>, n: FileNodeView, offset: int) -> bool {
    &&& v.icon@ == icon_for(n.kind, n.extension)
    &&& v.display_name@ == n.name
    &&& v.lowercase_name@ == unicode_lower(n.name)
    &&& v.display_size@ == size_text(n.metadata.size as nat)
    &&& v.size_bytes == n.metadata.size
    &&& v.display_kind == n.kind
    &&& v.display_modified@ == utc_datetime_text(as_signed(n.metadata.modified))
    &&& v.time_modified == n.metadata.modified
    &&& v.display_created@ == minute_stamp_text(created_or_zero(n) as int, offset)
    &&& v.time_created == created_or_zero(n)
    &&& v.display_ext is Some && v.display_ext.unwrap()@ == ext_or_empty(n)
    &&& v.lowercase_ext@ == unicode_lower(ext_or_empty(n))
    &&& v.full_path@ == path
}

fn row(path: &String, node: &FileNode, offset: Option<i32>) -> (v: FileView)
    requires
        formattable_at(node@, offset),
    ensures
        row_of(v, path@, node@, offset_or_utc(offset)),
{
    let ext = match &node.extension {
        Some(e) => e.clone(),
        None => String::new(),
    };
    let created_ts: u64 = match node.metadata.created {
        Some(t) => t,
        None => 0,
    };
    let display_created = stamp_at(created_ts, offset);
    let ext_ref: Option<&str> = match &node.extension {
        Some(e) => Some(e.as_str()),
        None => None,
    };
    let lowercase_ext = to_unicode_lower(ext.as_str());
    FileView {
        icon: crate::text::owned(get_icon(node.kind, ext_ref)),
        display_name: node.name.clone(),
        lowercase_name: to_unicode_lower(node.name.as_str()),
        display_size: bytes_to_mb(node.metadata.size),
        size_bytes: node.metadata.size,
        display_kind: node.kind,
        display_modified: format_modified_time(node.metadata.modified),
        time_modified: node.metadata.modified,
        display_created,
        time_created: created_ts,
        display_ext: Some(ext),
        lowercase_ext,
        full_path: path.clone(),
    }
}

/// The rows shown for the given (path, node) pairs, in order (see `row_of`), with
/// creation times written at the local offset `offset` read for this machine (UTC where
/// it could not be determined): icon, name and its Unicode lowercase, size as text and
/// in bytes, kind, modification time in UTC, creation time to the minute, extension
/// (empty where there is none) and its Unicode lowercase, and full path.
pub fn format_at(_request: &SearchRequest, filtered_files: Vec<(String, FileNode)>, offset: Option<i32>) -> (r: Vec<FileView>)
    requires
        forall|i: int| 0 <= i < filtered_files@.len() ==> formattable_at(#[trigger] filtered_files@[i].1@, offset),
    ensures
        r@.len() == filtered_files@.len(),
        forall|i: int|
            0 <= i < r@.len() ==> row_of(#[trigger] r@[i], filtered_files@[i].0@, filtered_files@[i].1@, offset_or_utc(offset)),
{
    let mut r: Vec<FileView> = Vec::new();
    let mut i: usize = 0;
    while i < filtered_files.len()
        invariant
            i <= filtered_files@.len(),
            forall|k: int| 0 <= k < filtered_files@.len() ==> formattable_at(#[trigger] filtered_files@[k].1@, offset),
            r@.len() == i,
            forall|k: int|
                0 <= k < i ==> row_of(#[trigger] r@[k], filtered_files@[k].0@, filtered_files@[k].1@, offset_or_utc(offset)),
        decreases filtered_files@.len() - i,
    {
        let v = row(&filtered_files[i].0, &filtered_files[i].1, offset);
        r.push(v);
        i = i + 1;
    }
    r
}

/// The rows shown for the given (path, node) pairs (see `format_at`), with creation
/// times at the local offset of this machine, which is read once, and in UTC where it
/// cannot be determined.
pub fn format(_request: &SearchRequest, filtered_files: Vec<(String, FileNode)>) -> (r: Vec<FileView>)
    requires
        forall|i: int| 0 <= i < filtered_files@.len() ==> formattable(#[trigger] filtered_files@[i].1@),
    ensures
        r@.len() == filtered_files@.len(),
        exists|o: Option<i32>|
            offset_in_range(o) && forall|i: int|
                0 <= i < r@.len() ==> row_of(#[trigger] r@[i], filtered_files@[i].0@, filtered_files@[i].1@, offset_or_utc(o)),
{
    let offset = local_offset_seconds();
    assert forall|i: int| 0 <= i < filtered_files@.len() implies formattable_at(#[trigger] filtered_files@[i].1@, offset) by {
        assert(formattable(filtered_files@[i].1@));
    }
    let ghost files = filtered_files@;
    let r = format_at(_request, filtered_files, offset);
    assert(offset_in_range(offset) && forall|i: int|
        0 <= i < r@.len() ==> row_of(#[trigger] r@[i], files[i].0@, files[i].1@, offset_or_utc(offset)));
    r
}

/// Strict lexicographic order of texts by code point (the order of `String`).
pub open spec fn text_lt(a: Seq<char>, b: Seq<char>) -> bool
    decreases a.len(),
{
    if a.len() == 0 {
        b.len() > 0
    } else if b.len() == 0 {
        false
    } else if a[0] != b[0] {
        (a[0] as u32) < (b[0] as u32)
    } else {
        text_lt(a.drop_first(), b.drop_first())
    }
}

proof fn lemma_text_lt_asymmetric(a: Seq<char>, b: Seq<char>)
    ensures
        !(text_lt(a, b) && text_lt(b, a)),
    decreases a.len(),
{
    if a.len() > 0 && b.len() > 0 && a[0] == b[0] {
        lemma_text_lt_asymmetric(a.drop_first(), b.drop_first());
    }
}

proof fn lemma_text_lt_transitive(a: Seq<char>, b: Seq<char>, c: Seq<char>)
    requires
        text_lt(a, b),
        text_lt(b, c),
    ensures
        text_lt(a, c),
    decreases a.len(),
{
    if a.len() > 0 && b.len() > 0 && c.len() > 0 && a[0] == b[0] && b[0] == c[0] {
        lemma_text_lt_transitive(a.drop_first(), b.drop_first(), c.drop_first());
    }
}

/// Whether row `a` comes strictly before row `b` by the key of `col`, ascending.
pub open spec fn key_lt(col: SortColumn, a: FileView, b: FileView) -> bool {
    match col {
        SortColumn::Name => text_lt(a.lowercase_name@, b.lowercase_name@),
        SortColumn::Size => a.size_bytes < b.size_bytes,
        SortColumn::Extension => text_lt(a.lowercase_ext@, b.lowercase_ext@),
        SortColumn::ModifiedDate => a.time_modified < b.time_modified,
        SortColumn::CreatedDate => a.time_created < b.time_created,
    }
}

/// Whether row `a` must come before row `b` in a listing sorted by `col` in `ord`.
pub open spec fn before(col: SortColumn, ord: SortOrder, a: FileView, b: FileView) -> bool {
    match ord {
        SortOrder::Ascending => key_lt(col, a, b),
        SortOrder::Descending => key_lt(col, b, a),
    }
}

/// Whether no row of `s` must come before an earlier one.
pub open spec fn sorted_by(s: Seq<FileView>, col: SortColumn, ord: SortOrder) -> bool {
    forall|i: int, j: int| 0 <= i < j < s.len() ==> !before(col, ord, #[trigger] s[j], #[trigger] s[i])
}

proof fn lemma_before_order(col: SortColumn, ord: SortOrder, a: FileView, b: FileView, c: FileView)
    ensures
        !(before(col, ord, a, b) && before(col, ord, b, a)),
        before(col, ord, a, b) && before(col, ord, b, c) ==> before(col, ord, a, c),
{
    match col {
        SortColumn::Name => {
            lemma_text_lt_asymmetric(a.lowercase_name@, b.lowercase_name@);
            if before(col, ord, a, b) && before(col, ord, b, c) {
                match ord {
                    SortOrder::Ascending => lemma_text_lt_transitive(a.lowercase_name@, b.lowercase_name@, c.lowercase_name@),
                    SortOrder::Descending => lemma_text_lt_transitive(c.lowercase_name@, b.lowercase_name@, a.lowercase_name@),
                }
            }
        },
        SortColumn::Extension => {
            lemma_text_lt_asymmetric(a.lowercase_ext@, b.lowercase_ext@);
            if before(col, ord, a, b) && before(col, ord, b, c) {
                match ord {
                    SortOrder::Ascending => lemma_text_lt_transitive(a.lowercase_ext@, b.lowercase_ext@, c.lowercase_ext@),
                    SortOrder::Descending => lemma_text_lt_transitive(c.lowercase_ext@, b.lowercase_ext@, a.lowercase_ext@),
                }
            }
        },
        _ => {},
    }
}

/// Whether text `a` comes strictly before text `b`.
pub fn text_less(a: &str, b: &str) -> (r: bool)
    ensures
        r == text_lt(a@, b@),
{
    let x = chars_of(a);
    let y = chars_of(b);
    assert(a@.skip(0) =~= a@ && b@.skip(0) =~= b@);
    let mut i: usize = 0;
    while i < x.len() && i < y.len()
        invariant
            x@ == a@,
            y@ == b@,
            i <= x@.len(),
            i <= y@.len(),
            text_lt(a@, b@) == text_lt(a@.skip(i as int), b@.skip(i as int)),
        decreases x@.len() - i,
    {
        let ghost sa = a@.skip(i as int);
        let ghost sb = b@.skip(i as int);
        assert(sa[0] == x@[i as int] && sb[0] == y@[i as int]);
        if x[i] != y[i] {
            return (x[i] as u32) < (y[i] as u32);
        }
        assert(sa.drop_first() =~= a@.skip(i + 1));
        assert(sb.drop_first() =~= b@.skip(i + 1));
        i = i + 1;
    }
    i == x.len() && i < y.len()
}

fn comes_before(col: SortColumn, ord: SortOrder, a: &FileView, b: &FileView) -> (r: bool)
    ensures
        r == before(col, ord, *a, *b),
{
    let (p, q) = match ord {
        SortOrder::Ascending => (a, b),
        SortOrder::Descending => (b, a),
    };
    match col {
        SortColumn::Name => text_less(p.lowercase_name.as_str(), q.lowercase_name.as_str()),
        SortColumn::Size => p.size_bytes < q.size_bytes,
        SortColumn::Extension => text_less(p.lowercase_ext.as_str(), q.lowercase_ext.as_str()),
        SortColumn::ModifiedDate => p.time_modified < q.time_modified,
        SortColumn::CreatedDate => p.time_created < q.time_created,
    }
}

/// The rows of `v` rearranged so that none must come before an earlier one.
pub fn sort_rows(v: Vec<FileView>, col: SortColumn, ord: SortOrder) -> (r: Vec<FileView>)
    ensures
        r@.to_multiset() == v@.to_multiset(),
        sorted_by(r@, col, ord),
{
    broadcast use vstd::seq_lib::group_to_multiset_ensures;
    let ghost orig = v@;
    let mut input = v;
    let mut r: Vec<FileView> = Vec::new();
    while input.len() > 0
        invariant
            r@.to_multiset().add(input@.to_multiset()) == orig.to_multiset(),
            sorted_by(r@, col, ord),
        decreases input@.len(),
    {
        let ghost before_pop = input@;
        let x = input.pop().unwrap();
        assert(before_pop =~= input@.push(x));
        let mut pos: usize = 0;
        while pos < r.len() && !comes_before(col, ord, &x, &r[pos])
            invariant
                pos <= r@.len(),
                forall|k: int| 0 <= k < pos ==> !before(col, ord, x, #[trigger] r@[k]),
            decreases r@.len() - pos,
        {
            pos = pos + 1;
        }
        let ghost old_r = r@;
        proof {
            assert forall|k: int| pos <= k < old_r.len() implies !before(col, ord, #[trigger] old_r[k], x) by {
                lemma_before_order(col, ord, old_r[k], x, old_r[pos as int]);
                lemma_before_order(col, ord, x, old_r[k], old_r[k]);
            }
        }
        r.insert(pos, x);
        proof {
            assert(r@ =~= old_r.insert(pos as int, x));
            vstd::seq_lib::to_multiset_insert(old_r, pos as int, x);
            vstd::seq_lib::to_multiset_build(input@, x);
            assert(old_r.to_multiset().insert(x).add(input@.to_multiset()) =~= old_r.to_multiset().add(
                input@.to_multiset().insert(x),
            ));
            assert forall|i: int, j: int| 0 <= i < j < r@.len() implies !before(col, ord, #[trigger] r@[j], #[trigger] r@[i]) by {
                if j < pos {
                    assert(r@[i] == old_r[i] && r@[j] == old_r[j]);
                } else if j == pos {
                    assert(r@[i] == old_r[i]);
                } else if i == pos {
                    assert(r@[j] == old_r[j - 1]);
                } else if i < pos {
                    assert(r@[i] == old_r[i] && r@[j] == old_r[j - 1]);
                } else {
                    assert(r@[i] == old_r[i - 1] && r@[j] == old_r[j - 1]);
                }
            }
        }
    }
    assert(input@ =~= Seq::<FileView>::empty());
    r
}

/// The directory rows of `s`, in order.
pub open spec fn dirs_of(s: Seq<FileView>) -> Seq<FileView>
    decreases s.len(),
{
    if s.len() == 0 {
        s
    } else if s.last().display_kind == FileKind::Directory {
        dirs_of(s.drop_last()).push(s.last())
    } else {
        dirs_of(s.drop_last())
    }
}

/// The rows of `s` that are not directories, in order.
pub open spec fn files_of(s: Seq<FileView>) -> Seq<FileView>
    decreases s.len(),
{
    if s.len() == 0 {
        s
    } else if s.last().display_kind == FileKind::Directory {
        files_of(s.drop_last())
    } else {
        files_of(s.drop_last()).push(s.last())
    }
}

proof fn lemma_partition_kinds(s: Seq<FileView>)
    ensures
        forall|v: FileView| dirs_of(s).contains(v) ==> v.display_kind == FileKind::Directory,
        forall|v: FileView| files_of(s).contains(v) ==> v.display_kind != FileKind::Directory,
    decreases s.len(),
{
    if s.len() > 0 {
        lemma_partition_kinds(s.drop_last());
        let rd = dirs_of(s.drop_last());
        let rf = files_of(s.drop_last());
        assert forall|v: FileView| dirs_of(s).contains(v) implies v.display_kind == FileKind::Directory by {
            let k = choose|k: int| 0 <= k < dirs_of(s).len() && dirs_of(s)[k] == v;
            if k < rd.len() {
                assert(rd[k] == v);
                assert(rd.contains(v));
            } else {
                assert(s.last().display_kind == FileKind::Directory);
                assert(dirs_of(s) == rd.push(s.last()));
            }
        }
        assert forall|v: FileView| files_of(s).contains(v) implies v.display_kind != FileKind::Directory by {
            let k = choose|k: int| 0 <= k < files_of(s).len() && files_of(s)[k] == v;
            if k < rf.len() {
                assert(rf[k] == v);
                assert(rf.contains(v));
            } else {
                assert(s.last().display_kind != FileKind::Directory);
                assert(files_of(s) == rf.push(s.last()));
            }
        }
    }
}

/// The rows of a listing in display order: all directories first, then all other
/// rows, each group sorted by `sort_column` in `sort_order` (rows with equal keys in
/// no particular order).
pub fn order_views(views: Vec<FileView>, sort_column: SortColumn, sort_order: SortOrder) -> (r: Vec<FileView>)
    ensures
        r@.len() == views@.len(),
        r@.take(dirs_of(views@).len() as int).to_multiset() == dirs_of(views@).to_multiset(),
        sorted_by(r@.take(dirs_of(views@).len() as int), sort_column, sort_order),
        r@.skip(dirs_of(views@).len() as int).to_multiset() == files_of(views@).to_multiset(),
        sorted_by(r@.skip(dirs_of(views@).len() as int), sort_column, sort_order),
        forall|i: int| 0 <= i < r@.len() ==> ((#[trigger] r@[i]).display_kind == FileKind::Directory <==> i < dirs_of(views@).len()),
{
    broadcast use vstd::seq_lib::group_to_multiset_ensures;
    let ghost orig = views@;
    let mut input = views;
    let mut dirs: Vec<FileView> = Vec::new();
    let mut files: Vec<FileView> = Vec::new();
    while input.len() > 0
        invariant
            dirs@.to_multiset().add(dirs_of(input@).to_multiset()) == dirs_of(orig).to_multiset(),
            files@.to_multiset().add(files_of(input@).to_multiset()) == files_of(orig).to_multiset(),
            dirs@.len() + files@.len() + input@.len() == orig.len(),
        decreases input@.len(),
    {
        let ghost before_pop = input@;
        let x = input.pop().unwrap();
        assert(before_pop.drop_last() =~= input@);
        assert(before_pop.last() == x);
        let ghost od = dirs@;
        let ghost of = files@;
        if x.display_kind == FileKind::Directory {
            dirs.push(x);
            proof {
                assert(dirs_of(before_pop) == dirs_of(input@).push(x));
                assert(files_of(before_pop) == files_of(input@));
                vstd::seq_lib::to_multiset_build(od, x);
                vstd::seq_lib::to_multiset_build(dirs_of(input@), x);
                assert(od.to_multiset().insert(x).add(dirs_of(input@).to_multiset()) =~= od.to_multiset().add(
                    dirs_of(input@).to_multiset().insert(x),
                ));
            }
        } else {
            files.push(x);
            proof {
                assert(files_of(before_pop) == files_of(input@).push(x));
                assert(dirs_of(before_pop) == dirs_of(input@));
                vstd::seq_lib::to_multiset_build(of, x);
                vstd::seq_lib::to_multiset_build(files_of(input@), x);
                assert(of.to_multiset().insert(x).add(files_of(input@).to_multiset()) =~= of.to_multiset().add(
                    files_of(input@).to_multiset().insert(x),
                ));
            }
        }
    }
    assert(input@ =~= Seq::<FileView>::empty());
    let mut out = sort_rows(dirs, sort_column, sort_order);
    let mut tail = sort_rows(files, sort_column, sort_order);
    let ghost d = out@;
    let ghost f = tail@;
    proof {
        assert(d.len() == d.to_multiset().len());
        assert(dirs_of(orig).len() == dirs_of(orig).to_multiset().len());
        assert(f.len() == f.to_multiset().len());
    }
    out.append(&mut tail);
    assert(out@.take(d.len() as int) =~= d);
    assert(out@.skip(d.len() as int) =~= f);
    proof {
        lemma_partition_kinds(orig);
        assert forall|i: int| 0 <= i < out@.len() implies ((#[trigger] out@[i]).display_kind == FileKind::Directory <==> i < d.len()) by {
            if i < d.len() {
                let x = d[i];
                assert(out@[i] == x);
                assert(d.contains(x));
                assert(d.to_multiset().count(x) > 0);
                assert(dirs_of(orig).to_multiset().count(x) > 0);
                assert(dirs_of(orig).contains(x));
            } else {
                let x = f[i - d.len()];
                assert(out@[i] == x);
                assert(f.contains(x));
                assert(f.to_multiset().count(x) > 0);
                assert(files_of(orig).to_multiset().count(x) > 0);
                assert(files_of(orig).contains(x));
            }
        }
    }
    out
}

} // verus!
