//! Properties that relate the explorer's operations to each other and hold for every
//! input.
use vstd::prelude::*;
use crate::catalog::{
    absent_from, case_variant, children_with, dedup, deleted, inserted, keys_of, listed_paths, lookup, needs_refresh,
    no_writes, put_all, reconciled, refreshed_nodes, remove_keys, renamed, renamed_node, without_variants,
    BatchModel, CatalogModel, StoreModel, applied, keyed, put_all_tree, stored_children, loaded, stored_nodes, indexed, index_step,
    lists_tree, rows_for_keys, dir_name,
};
use crate::model::{DiskMetadata, FileNodeView, Platform};
use crate::nodes::{node_for_path, walked_node};
use crate::icons::{icon_for, icon_for_ext};
use crate::commands::{terminal_plan, terminals_for};
use crate::model::FileKind;
use crate::paths::{backslashed, drive_upper, normalized, path_key, path_parent, strip_verbatim, verbatim_prefix};
use crate::text::{ascii_lower, ascii_upper_char, is_infix};
use crate::search::{by_category, capped, fetched, in_category, lemma_searched_prefix, listed, search_cap, searched, visible};
use crate::paths::path_extension;
use crate::views::{sorted_by, text_lt};
use crate::model::{FileView, SortColumn, SortOrder};

verus! {

/// Removing the case variants of `p` leaves none of them, and keeps every other path.
pub proof fn lemma_without_variants(c: Seq<Seq<char>>, p: Seq<char>)
    ensures
        forall|i: int| 0 <= i < without_variants(c, p).len() ==> !case_variant(#[trigger] without_variants(c, p)[i], p),
        forall|q: Seq<char>| !case_variant(q, p) ==> (c.contains(q) <==> without_variants(c, p).contains(q)),
        without_variants(without_variants(c, p), p) == without_variants(c, p),
    decreases c.len(),
{
    if c.len() > 0 {
        lemma_without_variants(c.drop_last(), p);
        let r = without_variants(c.drop_last(), p);
        let w0 = without_variants(c, p);
        assert(w0 == r || w0 == r.push(c.last()));
        assert forall|q: Seq<char>| !case_variant(q, p) implies (c.contains(q) <==> w0.contains(q)) by {
            if c.contains(q) {
                let i = choose|i: int| 0 <= i < c.len() && c[i] == q;
                if i < c.len() - 1 {
                    assert(c.drop_last()[i] == q);
                    assert(c.drop_last().contains(q));
                    assert(r.contains(q));
                    let k = choose|k: int| 0 <= k < r.len() && r[k] == q;
                    assert(w0[k] == q);
                } else {
                    assert(w0 == r.push(q));
                    assert(w0[r.len() as int] == q);
                }
            }
            if w0.contains(q) {
                let i = choose|i: int| 0 <= i < w0.len() && w0[i] == q;
                if i < r.len() {
                    assert(r[i] == q);
                    assert(r.contains(q));
                    assert(c.drop_last().contains(q));
                    let k = choose|k: int| 0 <= k < c.drop_last().len() && c.drop_last()[k] == q;
                    assert(c[k] == q);
                } else {
                    assert(c[c.len() - 1] == q);
                }
            }
        }
        if !case_variant(c.last(), p) {
            let w = r.push(c.last());
            assert(w.drop_last() =~= r);
            assert(without_variants(w, p) == without_variants(r, p).push(c.last()));
        }
    }
}

/// Recording a node makes it the node of the key of the normal form of its path.
pub proof fn law_insert_then_lookup(m: CatalogModel, path: Seq<char>, node: FileNodeView, platform: Platform)
    ensures
        lookup(inserted(m, path, node, platform).0.entries, path_key(normalized(path, platform))) == Some(node),
{
}

/// After a node is recorded at a path with a parent directory, that directory lists
/// the path exactly once, as its last child, and lists no other case variant of it;
/// the children that are not case variants of the path are kept.
pub proof fn law_insert_lists_child_once(m: CatalogModel, path: Seq<char>, node: FileNodeView, platform: Platform)
    requires
        path_parent(normalized(path, platform)) is Some,
    ensures
        ({
            let p = normalized(path, platform);
            let par = path_parent(p).unwrap();
            let c = inserted(m, path, node, platform).0.tree[path_key(par)];
            &&& c.len() > 0 && c.last() == p
            &&& forall|i: int| 0 <= i < c.len() - 1 ==> !case_variant(#[trigger] c[i], p)
            &&& forall|q: Seq<char>| !case_variant(q, p) ==> (c.contains(q) <==> (lookup(m.tree, path_key(par)) matches Some(old) && old.contains(q)))
        }),
{
    let p = normalized(path, platform);
    let par = path_parent(p).unwrap();
    let c = inserted(m, path, node, platform).0.tree[path_key(par)];
    match lookup(m.tree, path_key(par)) {
        Some(old) => {
            lemma_without_variants(old, p);
            let w = without_variants(old, p);
            assert(c == w.push(p));
            assert forall|i: int| 0 <= i < c.len() - 1 implies !case_variant(#[trigger] c[i], p) by {
                assert(c[i] == w[i]);
            }
            assert forall|q: Seq<char>| !case_variant(q, p) implies (c.contains(q) <==> old.contains(q)) by {
                if c.contains(q) {
                    let i = choose|i: int| 0 <= i < c.len() && c[i] == q;
                    assert(i < w.len());
                    assert(w[i] == q);
                }
                if w.contains(q) {
                    let i = choose|i: int| 0 <= i < w.len() && w[i] == q;
                    assert(c[i] == q);
                }
            }
        },
        None => {
            assert(c == seq![p]);
            assert forall|q: Seq<char>| !case_variant(q, p) implies !c.contains(q) by {
                if c.contains(q) {
                    let i = choose|i: int| 0 <= i < c.len() && c[i] == q;
                    assert(c[i] == p);
                }
            }
        },
    }
}

/// Deleting a path right after recording it leaves the cached nodes as deleting it
/// from the start would, and leaves its parent directory listing the old children
/// without the case variants of the path.
pub proof fn law_delete_undoes_insert(m: CatalogModel, path: Seq<char>, node: FileNodeView, platform: Platform)
    requires
        path_parent(normalized(path, platform)) is Some,
    ensures
        ({
            let p = normalized(path, platform);
            let par = path_parent(p).unwrap();
            let after = deleted(inserted(m, path, node, platform).0, path, platform).0;
            &&& after.entries == m.entries.remove(path_key(p))
            &&& after.tree == m.tree.insert(path_key(par), without_variants(match lookup(m.tree, path_key(par)) {
                Some(c) => c,
                None => Seq::empty(),
            }, p))
        }),
{
    let p = normalized(path, platform);
    let par = path_parent(p).unwrap();
    let m1 = inserted(m, path, node, platform).0;
    let old_c = match lookup(m.tree, path_key(par)) {
        Some(c) => c,
        None => Seq::<Seq<char>>::empty(),
    };
    let w = without_variants(old_c, p);
    lemma_without_variants(old_c, p);
    assert(children_with(lookup(m.tree, path_key(par)), p) == w.push(p)) by {
        if lookup(m.tree, path_key(par)) is None {
            assert(w =~= Seq::<Seq<char>>::empty());
            assert(seq![p] =~= w.push(p));
        }
    }
    assert(w.push(p).drop_last() =~= w);
    assert(case_variant(p, p));
    assert(without_variants(w.push(p), p) == without_variants(w, p));
    assert(lookup(m1.tree, path_key(par)) == Some(w.push(p)));
    let after = deleted(m1, path, platform).0;
    assert(after.entries =~= m.entries.remove(path_key(p)));
    assert(after.tree =~= m.tree.insert(path_key(par), w));
}

/// Renaming a cached entry whose old path has a parent moves its node: the old path
/// is no longer cached (unless both normal forms have the same key) and the new one
/// holds the node with the new file name and lowercase path.
pub proof fn law_rename_moves_node(m: CatalogModel, old: Seq<char>, new: Seq<char>, platform: Platform)
    requires
        lookup(m.entries, path_key(normalized(old, platform))) is Some,
        path_parent(normalized(old, platform)) is Some,
    ensures
        ({
            let o = normalized(old, platform);
            let n = normalized(new, platform);
            let after = renamed(m, old, new, platform).0;
            &&& lookup(after.entries, path_key(n)) == Some(renamed_node(m.entries[path_key(o)], new))
            &&& path_key(o) != path_key(n) ==> lookup(after.entries, path_key(o)) is None
        }),
{
}

/// Normalising a path a second time changes nothing, unless the normal form still
/// begins with the verbatim prefix `\\?\`.
pub proof fn law_normalize_idempotent(s: Seq<char>, platform: Platform)
    requires
        !(normalized(s, platform).len() >= 4 && normalized(s, platform).take(4) == verbatim_prefix()),
    ensures
        normalized(normalized(s, platform), platform) == normalized(s, platform),
{
    let x = normalized(s, platform);
    assert(strip_verbatim(x) == x);
    if platform == Platform::Windows {
        let y = backslashed(strip_verbatim(s));
        assert forall|i: int| 0 <= i < y.len() implies #[trigger] y[i] != '/' by {}
        if y.len() >= 2 && y[1] == ':' && (y[0] as u32) < 128 {
            let c = y[0];
            let u = ascii_upper_char(c);
            assert(u != '/');
            assert(ascii_upper_char(u) == u);
            assert((u as u32) < 128);
        }
        assert forall|i: int| 0 <= i < x.len() implies #[trigger] x[i] != '/' by {}
        assert(backslashed(x) =~= x);
        assert(drive_upper(x) =~= x);
    }
}

proof fn lemma_by_category(s: Seq<(Seq<char>, FileNodeView)>, pil: Seq<char>)
    ensures
        by_category(s, pil).len() <= s.len(),
        forall|i: int| 0 <= i < by_category(s, pil).len() ==> in_category(pil, path_extension(#[trigger] by_category(s, pil)[i].0))
            && s.contains(by_category(s, pil)[i]),
    decreases s.len(),
{
    if s.len() > 0 {
        lemma_by_category(s.drop_last(), pil);
        let r = by_category(s.drop_last(), pil);
        assert forall|i: int| 0 <= i < by_category(s, pil).len() implies in_category(pil, path_extension(#[trigger] by_category(s, pil)[i].0))
            && s.contains(by_category(s, pil)[i]) by {
            if i < r.len() {
                assert(by_category(s, pil)[i] == r[i]);
                let k = choose|k: int| 0 <= k < s.drop_last().len() && s.drop_last()[k] == r[i];
                assert(s[k] == r[i]);
            } else {
                assert(by_category(s, pil)[i] == s.last());
                assert(s[s.len() - 1] == s.last());
            }
        }
    }
}

proof fn lemma_listed(
    children: Seq<Seq<char>>,
    entries: Map<Seq<char>, FileNodeView>,
    pil: Seq<char>,
    attrs: Seq<(Seq<char>, bool)>,
)
    ensures
        forall|i: int| 0 <= i < listed(children, entries, pil, attrs).len() ==> {
            let e = #[trigger] listed(children, entries, pil, attrs)[i];
            &&& visible(e.0, pil, attrs)
            &&& lookup(entries, path_key(e.0)) == Some(e.1)
            &&& children.contains(e.0)
        },
    decreases children.len(),
{
    if children.len() > 0 {
        lemma_listed(children.drop_last(), entries, pil, attrs);
        let r = listed(children.drop_last(), entries, pil, attrs);
        assert forall|i: int| 0 <= i < listed(children, entries, pil, attrs).len() implies {
            let e = #[trigger] listed(children, entries, pil, attrs)[i];
            &&& visible(e.0, pil, attrs)
            &&& lookup(entries, path_key(e.0)) == Some(e.1)
            &&& children.contains(e.0)
        } by {
            if i < r.len() {
                assert(listed(children, entries, pil, attrs)[i] == r[i]);
                let k = choose|k: int| 0 <= k < children.drop_last().len() && children.drop_last()[k] == r[i].0;
                assert(children[k] == r[i].0);
            } else {
                assert(children[children.len() - 1] == children.last());
            }
        }
    }
}

proof fn lemma_searched(
    rows: Seq<(Seq<char>, Option<FileNodeView>)>,
    q: Seq<char>,
    pil: Seq<char>,
    attrs: Seq<(Seq<char>, bool)>,
)
    ensures
        forall|i: int| 0 <= i < searched(rows, q, pil, attrs).len() ==> {
            let e = #[trigger] searched(rows, q, pil, attrs)[i];
            &&& visible(e.0, pil, attrs)
            &&& is_infix(e.0, q)
            &&& rows.contains((e.0, Some(e.1)))
        },
    decreases rows.len(),
{
    if rows.len() > 0 {
        lemma_searched(rows.drop_last(), q, pil, attrs);
        let r = searched(rows.drop_last(), q, pil, attrs);
        assert forall|i: int| 0 <= i < searched(rows, q, pil, attrs).len() implies {
            let e = #[trigger] searched(rows, q, pil, attrs)[i];
            &&& visible(e.0, pil, attrs)
            &&& is_infix(e.0, q)
            &&& rows.contains((e.0, Some(e.1)))
        } by {
            if i < r.len() {
                assert(searched(rows, q, pil, attrs)[i] == r[i]);
                let k = choose|k: int| 0 <= k < rows.drop_last().len() && rows.drop_last()[k] == (r[i].0, Some(r[i].1));
                assert(rows[k] == (r[i].0, Some(r[i].1)));
            } else {
                assert(rows[rows.len() - 1] == rows.last());
            }
        }
    }
}

/// Every entry a listing shows obeys its filters: it shows under the category (hidden
/// entries exactly under "Hidden") and belongs to it by extension; without a search
/// text it is a child of the directory with the node cached under its key; with one, its
/// path contains the ASCII lowercase search text, it was among the stored rows, and
/// there are at most 1001 of them.
pub proof fn law_fetch_respects_filters(
    m: CatalogModel,
    query: Seq<char>,
    dir: Seq<char>,
    pil: Seq<char>,
    rows: Option<Seq<(Seq<char>, Option<FileNodeView>)>>,
    attrs: Seq<(Seq<char>, bool)>,
)
    ensures
        forall|i: int| 0 <= i < fetched(m, query, dir, pil, rows, attrs).len() ==> {
            let e = #[trigger] fetched(m, query, dir, pil, rows, attrs)[i];
            &&& visible(e.0, pil, attrs)
            &&& in_category(pil, path_extension(e.0))
            &&& query.len() == 0 ==> lookup(m.entries, path_key(e.0)) == Some(e.1) && (lookup(m.tree, path_key(dir)) matches Some(c) && c.contains(e.0))
            &&& query.len() > 0 ==> is_infix(e.0, ascii_lower(query)) && (rows matches Some(rs) && rs.contains((e.0, Some(e.1))))
        },
        query.len() > 0 ==> fetched(m, query, dir, pil, rows, attrs).len() <= search_cap(),
{
    let found = if query.len() == 0 {
        match lookup(m.tree, path_key(dir)) {
            Some(c) => listed(c, m.entries, pil, attrs),
            None => Seq::empty(),
        }
    } else {
        match rows {
            Some(rs) => capped(searched(rs, ascii_lower(query), pil, attrs)),
            None => Seq::empty(),
        }
    };
    lemma_by_category(found, pil);
    let f = fetched(m, query, dir, pil, rows, attrs);
    assert(f == by_category(found, pil));
    if query.len() == 0 {
        if let Some(c) = lookup(m.tree, path_key(dir)) {
            lemma_listed(c, m.entries, pil, attrs);
        }
        assert forall|i: int| 0 <= i < f.len() implies {
            let e = #[trigger] f[i];
            &&& visible(e.0, pil, attrs)
            &&& lookup(m.entries, path_key(e.0)) == Some(e.1) && (lookup(m.tree, path_key(dir)) matches Some(c) && c.contains(e.0))
        } by {
            let k = choose|k: int| 0 <= k < found.len() && found[k] == f[i];
            assert(found[k] == f[i]);
        }
    } else {
        if let Some(rs) = rows {
            let s = searched(rs, ascii_lower(query), pil, attrs);
            lemma_searched(rs, ascii_lower(query), pil, attrs);
            assert forall|k: int| 0 <= k < found.len() implies found[k] == #[trigger] s[k] by {}
        }
        assert forall|i: int| 0 <= i < f.len() implies {
            let e = #[trigger] f[i];
            &&& visible(e.0, pil, attrs)
            &&& is_infix(e.0, ascii_lower(query)) && (rows matches Some(rs) && rs.contains((e.0, Some(e.1))))
        } by {
            let k = choose|k: int| 0 <= k < found.len() && found[k] == f[i];
            assert(found[k] == f[i]);
        }
    }
}

proof fn lemma_dedup_contains(s: Seq<Seq<char>>, x: Seq<char>)
    ensures
        keys_of(dedup(s)).contains(x) == keys_of(s).contains(x),
    decreases s.len(),
{
    if s.len() > 0 {
        lemma_dedup_contains(s.drop_last(), x);
        let r = dedup(s.drop_last());
        let d = dedup(s);
        let ks = keys_of(s);
        let kr = keys_of(r);
        let kd = keys_of(d);
        assert(keys_of(s.drop_last()) =~= ks.drop_last());
        if kr.contains(path_key(s.last())) {
            assert(d == r);
        } else {
            assert(d == r.push(s.last()));
            assert(kd =~= kr.push(path_key(s.last())));
        }
        if ks.contains(x) {
            let i = choose|i: int| 0 <= i < ks.len() && ks[i] == x;
            if i < s.len() - 1 {
                assert(ks.drop_last()[i] == x);
                let k = choose|k: int| 0 <= k < kr.len() && kr[k] == x;
                assert(kd[k] == x);
            } else if !kr.contains(x) {
                assert(kd[kr.len() as int] == x);
            }
        }
        if kd.contains(x) {
            let k = choose|k: int| 0 <= k < kd.len() && kd[k] == x;
            if k < kr.len() {
                assert(kr[k] == x);
                let i = choose|i: int| 0 <= i < ks.drop_last().len() && ks.drop_last()[i] == x;
                assert(ks[i] == x);
            } else {
                assert(ks[s.len() - 1] == x);
            }
        }
    }
}

proof fn lemma_absent_from(c: Seq<Seq<char>>, keep: Seq<Seq<char>>)
    ensures
        forall|x: Seq<char>| keys_of(absent_from(c, keep)).contains(x) ==> !keys_of(keep).contains(x),
        (forall|i: int| 0 <= i < c.len() ==> keys_of(keep).contains(path_key(#[trigger] c[i]))) ==> absent_from(c, keep).len() == 0,
    decreases c.len(),
{
    if c.len() > 0 {
        lemma_absent_from(c.drop_last(), keep);
        let r = absent_from(c.drop_last(), keep);
        let a = absent_from(c, keep);
        assert(a == r || a == r.push(c.last()));
        assert forall|x: Seq<char>| keys_of(a).contains(x) implies !keys_of(keep).contains(x) by {
            let k = choose|k: int| 0 <= k < keys_of(a).len() && keys_of(a)[k] == x;
            if k < r.len() {
                assert(a[k] == r[k]);
                assert(keys_of(r)[k] == x);
                assert(keys_of(r).contains(x));
            } else {
                assert(a[k] == c.last());
            }
        }
        if forall|i: int| 0 <= i < c.len() ==> keys_of(keep).contains(path_key(#[trigger] c[i])) {
            assert forall|i: int| 0 <= i < c.drop_last().len() implies keys_of(keep).contains(path_key(#[trigger] c.drop_last()[i])) by {
                assert(c.drop_last()[i] == c[i]);
            }
            assert(keys_of(keep).contains(path_key(c[c.len() - 1])));
        }
    }
}

proof fn lemma_remove_keys(e: Map<Seq<char>, FileNodeView>, ks: Seq<Seq<char>>, p: Seq<char>)
    requires
        !ks.contains(p),
    ensures
        lookup(remove_keys(e, ks), p) == lookup(e, p),
    decreases ks.len(),
{
    if ks.len() > 0 {
        assert(!ks.drop_last().contains(p)) by {
            if ks.drop_last().contains(p) {
                let i = choose|i: int| 0 <= i < ks.drop_last().len() && ks.drop_last()[i] == p;
                assert(ks[i] == p);
            }
        }
        lemma_remove_keys(e, ks.drop_last(), p);
        assert(ks[ks.len() - 1] != p);
    }
}

proof fn lemma_put_all(e: Map<Seq<char>, FileNodeView>, items: Seq<(Seq<char>, FileNodeView)>, p: Seq<char>)
    ensures
        (forall|j: int| 0 <= j < items.len() ==> (#[trigger] items[j]).0 != p) ==> lookup(put_all(e, items), p) == lookup(e, p),
        (exists|j: int| 0 <= j < items.len() && (#[trigger] items[j]).0 == p) ==> exists|j: int|
            0 <= j < items.len() && (#[trigger] items[j]).0 == p && lookup(put_all(e, items), p) == Some(items[j].1),
    decreases items.len(),
{
    if items.len() > 0 {
        let d = items.drop_last();
        lemma_put_all(e, d, p);
        if items.last().0 == p {
            assert(items[items.len() - 1] == items.last());
        } else {
            if exists|j: int| 0 <= j < items.len() && (#[trigger] items[j]).0 == p {
                let j = choose|j: int| 0 <= j < items.len() && (#[trigger] items[j]).0 == p;
                assert(j < items.len() - 1);
                assert(d[j] == items[j]);
                let j2 = choose|j2: int| 0 <= j2 < d.len() && (#[trigger] d[j2]).0 == p && lookup(put_all(e, d), p) == Some(d[j2].1);
                assert(items[j2] == d[j2]);
            }
            if forall|j: int| 0 <= j < items.len() ==> (#[trigger] items[j]).0 != p {
                assert forall|j: int| 0 <= j < d.len() implies (#[trigger] d[j]).0 != p by {
                    assert(d[j] == items[j]);
                }
            }
        }
    }
}

/// Whether index `i` of the listing `l` yields a fresh node against `entries`.
pub open spec fn refreshes_at(
    entries: Map<Seq<char>, FileNodeView>,
    l: Seq<(Seq<char>, Option<DiskMetadata>)>,
    platform: Platform,
    i: int,
) -> bool {
    let p = normalized(l[i].0, platform);
    &&& l[i].1 is Some
    &&& needs_refresh(lookup(entries, path_key(p)), l[i].1.unwrap())
    &&& node_for_path(p, l[i].1) is Some
}

proof fn lemma_refreshed_origin(
    entries: Map<Seq<char>, FileNodeView>,
    l: Seq<(Seq<char>, Option<DiskMetadata>)>,
    platform: Platform,
    k: int,
)
    requires
        0 <= k < refreshed_nodes(entries, l, platform).len(),
    ensures
        exists|i: int| 0 <= i < l.len() && #[trigger] refreshes_at(entries, l, platform, i)
            && refreshed_nodes(entries, l, platform)[k].0 == normalized(l[i].0, platform)
            && node_for_path(normalized(l[i].0, platform), l[i].1) == Some(refreshed_nodes(entries, l, platform)[k].1),
    decreases l.len(),
{
    let d = l.drop_last();
    let r = refreshed_nodes(entries, d, platform);
    if k < r.len() {
        lemma_refreshed_origin(entries, d, platform, k);
        let i = choose|i: int| 0 <= i < d.len() && #[trigger] refreshes_at(entries, d, platform, i)
            && r[k].0 == normalized(d[i].0, platform) && node_for_path(normalized(d[i].0, platform), d[i].1) == Some(r[k].1);
        assert(d[i] == l[i]);
        assert(refreshes_at(entries, l, platform, i));
    } else {
        assert(l[l.len() - 1] == l.last());
        assert(refreshes_at(entries, l, platform, l.len() - 1));
    }
}

proof fn lemma_refreshed_complete(
    entries: Map<Seq<char>, FileNodeView>,
    l: Seq<(Seq<char>, Option<DiskMetadata>)>,
    platform: Platform,
    i: int,
)
    requires
        0 <= i < l.len(),
        refreshes_at(entries, l, platform, i),
    ensures
        refreshed_nodes(entries, l, platform).contains(
            (normalized(l[i].0, platform), node_for_path(normalized(l[i].0, platform), l[i].1).unwrap()),
        ),
    decreases l.len(),
{
    let d = l.drop_last();
    let r = refreshed_nodes(entries, d, platform);
    let full = refreshed_nodes(entries, l, platform);
    assert(full == r || full == r.push((normalized(l.last().0, platform), node_for_path(normalized(l.last().0, platform), l.last().1).unwrap())));
    if i < l.len() - 1 {
        assert(d[i] == l[i]);
        assert(refreshes_at(entries, d, platform, i));
        lemma_refreshed_complete(entries, d, platform, i);
        let x = (normalized(l[i].0, platform), node_for_path(normalized(l[i].0, platform), l[i].1).unwrap());
        let k = choose|k: int| 0 <= k < r.len() && r[k] == x;
        assert(full[k] == x);
    } else {
        assert(l[i] == l.last());
        assert(full[r.len() as int] == full.last());
    }
}

proof fn lemma_refreshed_none(
    entries: Map<Seq<char>, FileNodeView>,
    l: Seq<(Seq<char>, Option<DiskMetadata>)>,
    platform: Platform,
)
    requires
        forall|i: int| 0 <= i < l.len() ==> !#[trigger] refreshes_at(entries, l, platform, i),
    ensures
        refreshed_nodes(entries, l, platform).len() == 0,
    decreases l.len(),
{
    if l.len() > 0 {
        let d = l.drop_last();
        assert forall|i: int| 0 <= i < d.len() implies !#[trigger] refreshes_at(entries, d, platform, i) by {
            assert(d[i] == l[i]);
            assert(!refreshes_at(entries, l, platform, i));
        }
        lemma_refreshed_none(entries, d, platform);
        assert(!refreshes_at(entries, l, platform, l.len() - 1));
        assert(l[l.len() - 1] == l.last());
    }
}

/// Bringing a directory in step with the same listing a second time changes nothing
/// and writes nothing, provided no two listed paths have the same key.
pub proof fn law_reconcile_idempotent(
    m: CatalogModel,
    target: Seq<char>,
    l: Seq<(Seq<char>, Option<DiskMetadata>)>,
    platform: Platform,
)
    requires
        keys_of(listed_paths(l, platform)).no_duplicates(),
    ensures
        reconciled(reconciled(m, target, l, platform).0, target, l, platform) == (
            reconciled(m, target, l, platform).0,
            no_writes(),
        ),
{
    let ps = listed_paths(l, platform);
    let ks = keys_of(ps);
    let current = dedup(ps);
    let updates = refreshed_nodes(m.entries, l, platform);
    let stale = match lookup(m.tree, path_key(target)) {
        Some(c) => absent_from(c, current),
        None => Seq::empty(),
    };
    if !(updates.len() == 0 && stale.len() == 0) {
        let m1 = reconciled(m, target, l, platform).0;
        let e0 = remove_keys(m.entries, keys_of(stale));
        let ku = keyed(updates);
        assert(m1.entries == put_all(e0, ku));
        assert(lookup(m1.tree, path_key(target)) == Some(current));
        assert forall|i: int| 0 <= i < current.len() implies keys_of(current).contains(path_key(#[trigger] current[i])) by {
            assert(keys_of(current)[i] == path_key(current[i]));
        }
        lemma_absent_from(current, current);
        if let Some(c) = lookup(m.tree, path_key(target)) {
            lemma_absent_from(c, current);
        }
        assert forall|i: int| 0 <= i < l.len() implies !#[trigger] refreshes_at(m1.entries, l, platform, i) by {
            let p = normalized(l[i].0, platform);
            let pk = path_key(p);
            assert(ps[i] == p);
            assert(ks[i] == pk);
            if l[i].1 is Some && node_for_path(p, l[i].1) is Some {
                let n = node_for_path(p, l[i].1).unwrap();
                lemma_put_all(e0, ku, pk);
                assert forall|j: int| 0 <= j < ku.len() && (#[trigger] ku[j]).0 == pk implies ku[j].1 == n
                    && refreshes_at(m.entries, l, platform, i) by {
                    lemma_refreshed_origin(m.entries, l, platform, j);
                    let i2 = choose|i2: int| 0 <= i2 < l.len() && #[trigger] refreshes_at(m.entries, l, platform, i2)
                        && updates[j].0 == normalized(l[i2].0, platform)
                        && node_for_path(normalized(l[i2].0, platform), l[i2].1) == Some(updates[j].1);
                    assert(ps[i2] == normalized(l[i2].0, platform));
                    assert(ks[i2] == pk);
                    assert(i2 == i);
                }
                if refreshes_at(m.entries, l, platform, i) {
                    lemma_refreshed_complete(m.entries, l, platform, i);
                    let k = choose|k: int| 0 <= k < updates.len() && updates[k] == (p, n);
                    assert(ku[k].0 == pk);
                    let j = choose|j: int| 0 <= j < ku.len() && (#[trigger] ku[j]).0 == pk && lookup(put_all(e0, ku), pk) == Some(ku[j].1);
                    assert(lookup(m1.entries, pk) == Some(n));
                } else {
                    assert forall|j: int| 0 <= j < ku.len() implies (#[trigger] ku[j]).0 != pk by {}
                    assert(!keys_of(stale).contains(pk)) by {
                        lemma_dedup_contains(ps, pk);
                        assert(ks.contains(pk));
                    }
                    lemma_remove_keys(m.entries, keys_of(stale), pk);
                    assert(lookup(m1.entries, pk) == lookup(m.entries, pk));
                }
            }
        }
        lemma_refreshed_none(m1.entries, l, platform);
        assert(reconciled(m1, target, l, platform) == (m1, no_writes()));
    }
}

/// Directories always show with the folder icon, whatever their extension.
pub proof fn law_directory_icon(ext: Option<Seq<char>>)
    ensures
        icon_for(FileKind::Directory, ext) == "📁"@,
{
}

/// A terminal opened for an existing file starts in the file's parent folder, and one
/// opened for a folder starts in the folder: every command names that folder as its
/// working directory or as its last argument.
pub proof fn law_terminal_opens_folder(path: Seq<char>, is_file: bool, platform: Platform)
    requires
        is_file ==> path_parent(path) is Some,
    ensures
        ({
            let folder = if is_file { path_parent(path).unwrap() } else { path };
            &&& terminal_plan(path, true, is_file, platform) is Ok
            &&& forall|i: int| 0 <= i < terminal_plan(path, true, is_file, platform)->Ok_0.len() ==> {
                let c = #[trigger] terminal_plan(path, true, is_file, platform)->Ok_0[i];
                c.working_dir == Some(folder) || (c.args.len() > 0 && c.args.last() == folder)
            }
        }),
{
    let folder = if is_file { path_parent(path).unwrap() } else { path };
    let cmds = terminal_plan(path, true, is_file, platform)->Ok_0;
    assert(cmds == terminals_for(folder, platform));
}

/// Whether the store holds under the text `t` the node the catalog holds under the key
/// of `t`.
pub open spec fn entry_agrees(s: StoreModel, m: CatalogModel, t: Seq<char>) -> bool {
    lookup(s.entries, t) == lookup(m.entries, path_key(t))
}

/// Whether the store holds under the text `t` the children the catalog holds under the
/// key of `t`.
pub open spec fn children_agree(s: StoreModel, m: CatalogModel, t: Seq<char>) -> bool {
    lookup(s.tree, t) == lookup(m.tree, path_key(t))
}

proof fn lemma_remove_keys_gone(e: Map<Seq<char>, FileNodeView>, ks: Seq<Seq<char>>, p: Seq<char>)
    requires
        ks.contains(p),
    ensures
        lookup(remove_keys(e, ks), p) is None,
    decreases ks.len(),
{
    if ks.last() != p {
        let i = choose|i: int| 0 <= i < ks.len() && ks[i] == p;
        assert(ks.drop_last()[i] == p);
        lemma_remove_keys_gone(e, ks.drop_last(), p);
    }
}

/// Once the batch of recording a node at a path with a parent directory is applied to
/// any store, the store holds under the path's text and under its parent's text what
/// the catalog holds under their keys.
pub proof fn law_store_follows_insert(
    m: CatalogModel,
    s: StoreModel,
    path: Seq<char>,
    node: FileNodeView,
    platform: Platform,
)
    requires
        path_parent(normalized(path, platform)) is Some,
    ensures
        ({
            let (m1, b) = inserted(m, path, node, platform);
            let p = normalized(path, platform);
            &&& entry_agrees(applied(s, b), m1, p)
            &&& children_agree(applied(s, b), m1, path_parent(p).unwrap())
        }),
{
    let (m1, b) = inserted(m, path, node, platform);
    assert(b.puts.drop_last() =~= Seq::<(Seq<char>, FileNodeView)>::empty());
    assert(b.tree_puts.drop_last() =~= Seq::<(Seq<char>, Seq<Seq<char>>)>::empty());
    assert(remove_keys(s.entries, b.removes) == s.entries);
    assert(put_all(s.entries, b.puts.drop_last()) == s.entries);
    assert(put_all_tree(s.tree, b.tree_puts.drop_last()) == s.tree);
}

/// Once the batch of forgetting a path with a parent directory is applied to any store,
/// the store holds nothing under the path's text, and, where the parent directory had
/// children, holds under the parent's text what the catalog holds under its key.
pub proof fn law_store_follows_delete(m: CatalogModel, s: StoreModel, path: Seq<char>, platform: Platform)
    requires
        path_parent(normalized(path, platform)) is Some,
    ensures
        ({
            let (m1, b) = deleted(m, path, platform);
            let p = normalized(path, platform);
            let par = path_parent(p).unwrap();
            &&& entry_agrees(applied(s, b), m1, p)
            &&& lookup(m.tree, path_key(par)) is Some ==> children_agree(applied(s, b), m1, par)
        }),
{
    let (m1, b) = deleted(m, path, platform);
    let p = normalized(path, platform);
    assert(b.removes.drop_last() =~= Seq::<Seq<char>>::empty());
    assert(remove_keys(s.entries, b.removes.drop_last()) == s.entries);
    assert(remove_keys(s.entries, b.removes) == s.entries.remove(p));
    assert(put_all(remove_keys(s.entries, b.removes), b.puts) == s.entries.remove(p));
    if b.tree_puts.len() > 0 {
        assert(b.tree_puts.drop_last() =~= Seq::<(Seq<char>, Seq<Seq<char>>)>::empty());
        assert(put_all_tree(s.tree, b.tree_puts.drop_last()) == s.tree);
    }
}

/// Once the batch of bringing a directory in step with a listing (whose paths have
/// distinct keys) is applied to any store, the store holds under every text the batch
/// removes or writes what the catalog holds under its key, and under the directory's
/// text, where the batch writes it, the catalog's children of the directory.
pub proof fn law_store_follows_reconcile(
    m: CatalogModel,
    s: StoreModel,
    target: Seq<char>,
    l: Seq<(Seq<char>, Option<DiskMetadata>)>,
    platform: Platform,
)
    requires
        keys_of(listed_paths(l, platform)).no_duplicates(),
    ensures
        ({
            let (m1, b) = reconciled(m, target, l, platform);
            &&& forall|i: int| 0 <= i < b.removes.len() ==> entry_agrees(applied(s, b), m1, #[trigger] b.removes[i])
            &&& forall|j: int| 0 <= j < b.puts.len() ==> entry_agrees(applied(s, b), m1, (#[trigger] b.puts[j]).0)
            &&& b.tree_puts.len() > 0 ==> children_agree(applied(s, b), m1, target)
        }),
{
    let (m1, b) = reconciled(m, target, l, platform);
    let ps = listed_paths(l, platform);
    let ks = keys_of(ps);
    let current = dedup(ps);
    let updates = refreshed_nodes(m.entries, l, platform);
    let stale = match lookup(m.tree, path_key(target)) {
        Some(c) => absent_from(c, current),
        None => Seq::empty(),
    };
    if !(updates.len() == 0 && stale.len() == 0) {
        let s1 = applied(s, b);
        let r0 = remove_keys(s.entries, stale);
        let e0 = remove_keys(m.entries, keys_of(stale));
        let ku = keyed(updates);
        assert(s1.entries == put_all(r0, updates));
        assert(m1.entries == put_all(e0, ku));
        assert(b.tree_puts.drop_last() =~= Seq::<(Seq<char>, Seq<Seq<char>>)>::empty());
        assert(put_all_tree(s.tree, b.tree_puts.drop_last()) == s.tree);
        if let Some(c) = lookup(m.tree, path_key(target)) {
            lemma_absent_from(c, current);
        }
        // every written path has its key among the listed keys
        assert forall|j: int| 0 <= j < updates.len() implies keys_of(current).contains(path_key(#[trigger] updates[j].0)) by {
            lemma_refreshed_origin(m.entries, l, platform, j);
            let i = choose|i: int| 0 <= i < l.len() && #[trigger] refreshes_at(m.entries, l, platform, i)
                && updates[j].0 == normalized(l[i].0, platform)
                && node_for_path(normalized(l[i].0, platform), l[i].1) == Some(updates[j].1);
            assert(ks[i] == path_key(updates[j].0));
            lemma_dedup_contains(ps, path_key(updates[j].0));
        }
        // two writes whose paths share a key write the same node
        assert forall|j1: int, j2: int|
            0 <= j1 < updates.len() && 0 <= j2 < updates.len() && path_key(#[trigger] updates[j1].0) == path_key(
                #[trigger] updates[j2].0,
            ) implies updates[j1].1 == updates[j2].1 by {
            lemma_refreshed_origin(m.entries, l, platform, j1);
            lemma_refreshed_origin(m.entries, l, platform, j2);
            let i1 = choose|i: int| 0 <= i < l.len() && #[trigger] refreshes_at(m.entries, l, platform, i)
                && updates[j1].0 == normalized(l[i].0, platform)
                && node_for_path(normalized(l[i].0, platform), l[i].1) == Some(updates[j1].1);
            let i2 = choose|i: int| 0 <= i < l.len() && #[trigger] refreshes_at(m.entries, l, platform, i)
                && updates[j2].0 == normalized(l[i].0, platform)
                && node_for_path(normalized(l[i].0, platform), l[i].1) == Some(updates[j2].1);
            assert(ks[i1] == path_key(updates[j1].0));
            assert(ks[i2] == path_key(updates[j2].0));
            assert(i1 == i2);
        }
        assert forall|j: int| 0 <= j < b.puts.len() implies entry_agrees(s1, m1, (#[trigger] b.puts[j]).0) by {
            let t = updates[j].0;
            lemma_put_all(r0, updates, t);
            lemma_put_all(e0, ku, path_key(t));
            assert(ku[j].0 == path_key(t));
            let j1 = choose|j1: int| 0 <= j1 < updates.len() && (#[trigger] updates[j1]).0 == t
                && lookup(put_all(r0, updates), t) == Some(updates[j1].1);
            let j2 = choose|j2: int| 0 <= j2 < ku.len() && (#[trigger] ku[j2]).0 == path_key(t)
                && lookup(put_all(e0, ku), path_key(t)) == Some(ku[j2].1);
            assert(path_key(updates[j2].0) == path_key(updates[j1].0));
        }
        assert forall|i: int| 0 <= i < b.removes.len() implies entry_agrees(s1, m1, #[trigger] b.removes[i]) by {
            let t = stale[i];
            assert(keys_of(stale)[i] == path_key(t));
            assert(keys_of(stale).contains(path_key(t)));
            assert(!keys_of(current).contains(path_key(t)));
            assert forall|j: int| 0 <= j < updates.len() implies (#[trigger] updates[j]).0 != t by {
                assert(keys_of(current).contains(path_key(updates[j].0)));
            }
            assert forall|j: int| 0 <= j < ku.len() implies (#[trigger] ku[j]).0 != path_key(t) by {
                assert(keys_of(current).contains(path_key(updates[j].0)));
            }
            lemma_put_all(r0, updates, t);
            lemma_put_all(e0, ku, path_key(t));
            assert(stale.contains(t));
            lemma_remove_keys_gone(s.entries, stale, t);
            lemma_remove_keys_gone(m.entries, keys_of(stale), path_key(t));
        }
    }
}

proof fn lemma_put_all_tree(t: Map<Seq<char>, Seq<Seq<char>>>, rows: Seq<(Seq<char>, Seq<Seq<char>>)>, k: Seq<char>)
    requires
        forall|i: int, j: int| 0 <= i < j < rows.len() ==> #[trigger] rows[i].0 != #[trigger] rows[j].0,
    ensures
        (forall|i: int| 0 <= i < rows.len() ==> (#[trigger] rows[i]).0 != k) ==> lookup(put_all_tree(t, rows), k) == lookup(t, k),
        forall|i: int| 0 <= i < rows.len() && (#[trigger] rows[i]).0 == k ==> lookup(put_all_tree(t, rows), k) == Some(rows[i].1),
    decreases rows.len(),
{
    if rows.len() > 0 {
        let d = rows.drop_last();
        assert forall|i: int, j: int| 0 <= i < j < d.len() implies #[trigger] d[i].0 != #[trigger] d[j].0 by {
            assert(d[i] == rows[i] && d[j] == rows[j]);
        }
        lemma_put_all_tree(t, d, k);
        assert forall|i: int| 0 <= i < rows.len() && (#[trigger] rows[i]).0 == k implies lookup(put_all_tree(t, rows), k) == Some(rows[i].1) by {
            if i < rows.len() - 1 {
                assert(d[i] == rows[i]);
                assert(rows[rows.len() - 1].0 != k);
            }
        }
        if forall|i: int| 0 <= i < rows.len() ==> (#[trigger] rows[i]).0 != k {
            assert forall|i: int| 0 <= i < d.len() implies (#[trigger] d[i]).0 != k by {
                assert(d[i] == rows[i]);
            }
            assert(rows[rows.len() - 1].0 != k);
        }
    }
}


/// Whether every directory of `m` has a recorded text, and every recorded text has the
/// key it is recorded under.
pub open spec fn names_consistent(m: CatalogModel) -> bool {
    &&& forall|k: Seq<char>| m.tree.contains_key(k) ==> m.names.contains_key(k)
    &&& forall|k: Seq<char>| m.names.contains_key(k) ==> path_key(#[trigger] m.names[k]) == k
}

/// The paths met by a walk, in order.
pub open spec fn walk_paths(w: Seq<(usize, Seq<char>, Option<DiskMetadata>)>) -> Seq<Seq<char>> {
    w.map_values(|e: (usize, Seq<char>, Option<DiskMetadata>)| e.1)
}

proof fn lemma_indexed_puts(m: CatalogModel, w: Seq<(usize, Seq<char>, Option<DiskMetadata>)>)
    requires
        names_consistent(m),
        keys_of(walk_paths(w)).no_duplicates(),
    ensures
        names_consistent(indexed(m, w).0),
        forall|j: int| 0 <= j < indexed(m, w).1.len() ==> lookup(indexed(m, w).0.entries, path_key(#[trigger] indexed(m, w).1[j].0))
            == Some(indexed(m, w).1[j].1),
        forall|j1: int, j2: int| 0 <= j1 < j2 < indexed(m, w).1.len() ==> path_key(#[trigger] indexed(m, w).1[j1].0) != path_key(
            #[trigger] indexed(m, w).1[j2].0,
        ),
        forall|j: int| 0 <= j < indexed(m, w).1.len() ==> walk_paths(w).contains(#[trigger] indexed(m, w).1[j].0),
    decreases w.len(),
{
    if w.len() > 0 {
        let d = w.drop_last();
        let wp = walk_paths(w);
        let dp = walk_paths(d);
        assert(dp =~= wp.drop_last());
        assert(keys_of(dp) =~= keys_of(wp).drop_last());
        lemma_indexed_puts(m, d);
        let (m1, puts) = indexed(m, d);
        let e = w.last();
        let (m2, put) = index_step(m1, e);
        let puts2 = indexed(m, w).1;
        let k = path_key(e.1);
        assert(keys_of(wp)[w.len() - 1] == k);
        assert forall|j: int| 0 <= j < puts.len() implies path_key(#[trigger] puts[j].0) != k by {
            assert(dp.contains(puts[j].0));
            let i = choose|i: int| 0 <= i < dp.len() && dp[i] == puts[j].0;
            assert(keys_of(wp)[i] == path_key(puts[j].0));
        }
        match put {
            Some(x) => {
                assert(puts2 == puts.push(x));
                assert(x.0 == e.1);
                assert forall|j: int| 0 <= j < puts2.len() implies lookup(m2.entries, path_key(#[trigger] puts2[j].0)) == Some(puts2[j].1) by {
                    if j < puts.len() {
                        assert(puts2[j] == puts[j]);
                    }
                }
                assert forall|j1: int, j2: int| 0 <= j1 < j2 < puts2.len() implies path_key(#[trigger] puts2[j1].0) != path_key(
                    #[trigger] puts2[j2].0,
                ) by {
                    assert(puts2[j1] == puts[j1]);
                    if j2 < puts.len() {
                        assert(puts2[j2] == puts[j2]);
                    }
                }
                assert forall|j: int| 0 <= j < puts2.len() implies wp.contains(#[trigger] puts2[j].0) by {
                    if j < puts.len() {
                        assert(puts2[j] == puts[j]);
                        assert(dp.contains(puts[j].0));
                        let i = choose|i: int| 0 <= i < dp.len() && dp[i] == puts[j].0;
                        assert(wp[i] == puts[j].0);
                    } else {
                        assert(wp[w.len() - 1] == e.1);
                    }
                }
            },
            None => {
                assert forall|j: int| 0 <= j < puts2.len() implies wp.contains(#[trigger] puts2[j].0) by {
                    assert(dp.contains(puts[j].0));
                    let i = choose|i: int| 0 <= i < dp.len() && dp[i] == puts[j].0;
                    assert(wp[i] == puts[j].0);
                }
            },
        }
    }
}

/// Once the batch of an index walk (whose paths have distinct keys, over a catalog whose
/// directory texts are consistent) is applied to any store, with the directory rows in
/// any order that lists every directory of the new catalog once, the store holds under
/// every written path what the catalog holds under its key, and under every written
/// directory text the catalog's children of that directory.
pub proof fn law_store_follows_index(
    m: CatalogModel,
    s: StoreModel,
    w: Seq<(usize, Seq<char>, Option<DiskMetadata>)>,
    rows: Seq<(Seq<char>, Seq<Seq<char>>)>,
)
    requires
        names_consistent(m),
        keys_of(walk_paths(w)).no_duplicates(),
        lists_tree(rows, indexed(m, w).0),
    ensures
        ({
            let (m1, puts) = indexed(m, w);
            let s1 = applied(s, BatchModel { removes: Seq::empty(), puts, tree_puts: rows });
            &&& forall|j: int| 0 <= j < puts.len() ==> entry_agrees(s1, m1, (#[trigger] puts[j]).0)
            &&& forall|i: int| 0 <= i < rows.len() ==> children_agree(s1, m1, (#[trigger] rows[i]).0)
        }),
{
    let (m1, puts) = indexed(m, w);
    let b = BatchModel { removes: Seq::empty(), puts, tree_puts: rows };
    let s1 = applied(s, b);
    lemma_indexed_puts(m, w);
    assert(remove_keys(s.entries, b.removes) == s.entries);
    assert forall|j: int| 0 <= j < puts.len() implies entry_agrees(s1, m1, (#[trigger] puts[j]).0) by {
        lemma_put_all(s.entries, puts, puts[j].0);
        let j1 = choose|j1: int| 0 <= j1 < puts.len() && (#[trigger] puts[j1]).0 == puts[j].0
            && lookup(put_all(s.entries, puts), puts[j].0) == Some(puts[j1].1);
        if j1 < j {
            assert(path_key(puts[j1].0) != path_key(puts[j].0));
        } else if j < j1 {
            assert(path_key(puts[j].0) != path_key(puts[j1].0));
        }
    }
    let ks = choose|ks: Seq<Seq<char>>| rows_for_keys(rows, m1, ks);
    assert forall|i: int| 0 <= i < rows.len() implies path_key(#[trigger] rows[i].0) == ks[i] by {
        assert(m1.tree.contains_key(ks[i]));
        assert(m1.names.contains_key(ks[i]));
        assert(rows[i].0 == m1.names[ks[i]]);
    }
    assert forall|a: int, c: int| 0 <= a < c < rows.len() implies #[trigger] rows[a].0 != #[trigger] rows[c].0 by {
        assert(path_key(rows[a].0) == ks[a]);
        assert(path_key(rows[c].0) == ks[c]);
    }
    assert forall|i: int| 0 <= i < rows.len() implies children_agree(s1, m1, (#[trigger] rows[i]).0) by {
        lemma_put_all_tree(s.tree, rows, rows[i].0);
        assert(path_key(rows[i].0) == ks[i]);
        assert(m1.tree.contains_key(ks[i]));
    }
}

proof fn lemma_put_all_known(e: Map<Seq<char>, FileNodeView>, items: Seq<(Seq<char>, FileNodeView)>)
    requires
        forall|i: int| 0 <= i < items.len() ==> lookup(e, (#[trigger] items[i]).0) == Some(items[i].1),
    ensures
        put_all(e, items) == e,
    decreases items.len(),
{
    if items.len() > 0 {
        let d = items.drop_last();
        assert forall|i: int| 0 <= i < d.len() implies lookup(e, (#[trigger] d[i]).0) == Some(d[i].1) by {
            assert(d[i] == items[i]);
        }
        lemma_put_all_known(e, d);
        assert(lookup(e, items[items.len() - 1].0) == Some(items[items.len() - 1].1));
        assert(put_all(e, items) =~= e);
    }
}

spec fn stored_pairs(e: Map<Seq<char>, FileNodeView>, c: Seq<Seq<char>>) -> Seq<(Seq<char>, Option<FileNodeView>)> {
    c.map_values(|p: Seq<char>| (p, lookup(e, path_key(p))))
}

proof fn lemma_stored_nodes_known(e: Map<Seq<char>, FileNodeView>, c: Seq<Seq<char>>)
    ensures
        forall|i: int| 0 <= i < stored_nodes(stored_pairs(e, c)).len() ==> lookup(
            e,
            (#[trigger] stored_nodes(stored_pairs(e, c))[i]).0,
        ) == Some(stored_nodes(stored_pairs(e, c))[i].1),
    decreases c.len(),
{
    if c.len() > 0 {
        let d = c.drop_last();
        assert(stored_pairs(e, c).drop_last() =~= stored_pairs(e, d));
        lemma_stored_nodes_known(e, d);
    }
}

/// Loading a directory from a store that holds, under the directory's text and under
/// the texts of its stored children, what the catalog holds under their keys changes
/// nothing in the catalog's nodes and children.
pub proof fn law_load_gives_back_store(m: CatalogModel, s: StoreModel, dir: Seq<char>)
    requires
        lookup(s.tree, dir) is Some,
        children_agree(s, m, dir),
        forall|i: int| 0 <= i < s.tree[dir].len() ==> entry_agrees(s, m, #[trigger] s.tree[dir][i]),
    ensures
        loaded(m, dir, stored_children(s, dir).unwrap()).entries == m.entries,
        loaded(m, dir, stored_children(s, dir).unwrap()).tree == m.tree,
{
    let c = s.tree[dir];
    let cs = stored_children(s, dir).unwrap();
    assert(cs =~= stored_pairs(m.entries, c)) by {
        assert forall|i: int| 0 <= i < c.len() implies cs[i] == stored_pairs(m.entries, c)[i] by {
            assert(entry_agrees(s, m, c[i]));
        }
    }
    lemma_stored_nodes_known(m.entries, c);
    lemma_put_all_known(m.entries, stored_nodes(cs));
    assert(cs.map_values(|x: (Seq<char>, Option<FileNodeView>)| x.0) =~= c);
    assert(loaded(m, dir, cs).tree =~= m.tree);
}

/// A node recorded at a path with a parent directory survives a restart: once the batch
/// of the recording is applied to any store, loading the parent directory from that
/// store into any catalog gives back the node under the path's key and the directory's
/// children as the recording left them.
pub proof fn law_insert_then_load(
    m: CatalogModel,
    s: StoreModel,
    fresh: CatalogModel,
    path: Seq<char>,
    node: FileNodeView,
    platform: Platform,
)
    requires
        path_parent(normalized(path, platform)) is Some,
    ensures
        ({
            let p = normalized(path, platform);
            let par = path_parent(p).unwrap();
            let s1 = applied(s, inserted(m, path, node, platform).1);
            &&& stored_children(s1, par) is Some
            &&& lookup(loaded(fresh, par, stored_children(s1, par).unwrap()).entries, path_key(p)) == Some(node)
            &&& loaded(fresh, par, stored_children(s1, par).unwrap()).tree[path_key(par)]
                == inserted(m, path, node, platform).0.tree[path_key(par)]
        }),
{
    let p = normalized(path, platform);
    let par = path_parent(p).unwrap();
    let (m1, b) = inserted(m, path, node, platform);
    let c = children_with(lookup(m.tree, path_key(par)), p);
    assert(b.puts.drop_last() =~= Seq::<(Seq<char>, FileNodeView)>::empty());
    assert(b.tree_puts.drop_last() =~= Seq::<(Seq<char>, Seq<Seq<char>>)>::empty());
    assert(put_all_tree(s.tree, b.tree_puts.drop_last()) == s.tree);
    assert(remove_keys(s.entries, b.removes) == s.entries);
    assert(put_all(s.entries, b.puts.drop_last()) == s.entries);
    let s1 = applied(s, b);
    assert(lookup(s1.tree, par) == Some(c));
    assert(lookup(s1.entries, p) == Some(node));
    let cs = stored_children(s1, par).unwrap();
    assert(c.len() > 0 && c.last() == p);
    assert(cs.len() == c.len());
    assert(cs.last() == (p, Some(node)));
    let sn = stored_nodes(cs);
    assert(sn == stored_nodes(cs.drop_last()).push((path_key(p), node)));
    assert(sn.drop_last() =~= stored_nodes(cs.drop_last()));
    assert(lookup(put_all(fresh.entries, sn), path_key(p)) == Some(node));
    assert(cs.map_values(|x: (Seq<char>, Option<FileNodeView>)| x.0) =~= c);
}

/// Every catalog operation keeps the directory texts consistent with their keys, as an
/// empty catalog has them.
pub proof fn law_names_stay_consistent(
    m: CatalogModel,
    path: Seq<char>,
    node: FileNodeView,
    platform: Platform,
    l: Seq<(Seq<char>, Option<DiskMetadata>)>,
    cs: Seq<(Seq<char>, Option<FileNodeView>)>,
    w: Seq<(usize, Seq<char>, Option<DiskMetadata>)>,
)
    requires
        names_consistent(m),
    ensures
        names_consistent(inserted(m, path, node, platform).0),
        names_consistent(deleted(m, path, platform).0),
        names_consistent(reconciled(m, path, l, platform).0),
        names_consistent(loaded(m, path, cs)),
        names_consistent(indexed(m, w).0),
    decreases w.len(),
{
    if w.len() > 0 {
        law_names_stay_consistent(m, path, node, platform, l, cs, w.drop_last());
    }
}

proof fn lemma_extension_texts()
    ensures
        "rs"@.len() == 2,
        "rs"@[0] == 'r',
        "rs"@[1] == 's',
        "py"@.len() == 2,
        "py"@[0] == 'p',
        "py"@[1] == 'y',
        "js"@.len() == 2,
        "js"@[0] == 'j',
        "js"@[1] == 's',
        "ts"@.len() == 2,
        "ts"@[0] == 't',
        "ts"@[1] == 's',
        "jsx"@.len() == 3,
        "jsx"@[0] == 'j',
        "jsx"@[1] == 's',
        "jsx"@[2] == 'x',
        "tsx"@.len() == 3,
        "tsx"@[0] == 't',
        "tsx"@[1] == 's',
        "tsx"@[2] == 'x',
        "c"@.len() == 1,
        "c"@[0] == 'c',
        "cpp"@.len() == 3,
        "cpp"@[0] == 'c',
        "cpp"@[1] == 'p',
        "cpp"@[2] == 'p',
        "h"@.len() == 1,
        "h"@[0] == 'h',
        "hpp"@.len() == 3,
        "hpp"@[0] == 'h',
        "hpp"@[1] == 'p',
        "hpp"@[2] == 'p',
        "cc"@.len() == 2,
        "cc"@[0] == 'c',
        "cc"@[1] == 'c',
        "go"@.len() == 2,
        "go"@[0] == 'g',
        "go"@[1] == 'o',
        "java"@.len() == 4,
        "java"@[0] == 'j',
        "java"@[1] == 'a',
        "java"@[2] == 'v',
        "java"@[3] == 'a',
        "class"@.len() == 5,
        "class"@[0] == 'c',
        "class"@[1] == 'l',
        "class"@[2] == 'a',
        "class"@[3] == 's',
        "class"@[4] == 's',
        "jar"@.len() == 3,
        "jar"@[0] == 'j',
        "jar"@[1] == 'a',
        "jar"@[2] == 'r',
        "rb"@.len() == 2,
        "rb"@[0] == 'r',
        "rb"@[1] == 'b',
        "php"@.len() == 3,
        "php"@[0] == 'p',
        "php"@[1] == 'h',
        "php"@[2] == 'p',
        "swift"@.len() == 5,
        "swift"@[0] == 's',
        "swift"@[1] == 'w',
        "swift"@[2] == 'i',
        "swift"@[3] == 'f',
        "swift"@[4] == 't',
        "kt"@.len() == 2,
        "kt"@[0] == 'k',
        "kt"@[1] == 't',
        "kts"@.len() == 3,
        "kts"@[0] == 'k',
        "kts"@[1] == 't',
        "kts"@[2] == 's',
        "sh"@.len() == 2,
        "sh"@[0] == 's',
        "sh"@[1] == 'h',
        "bat"@.len() == 3,
        "bat"@[0] == 'b',
        "bat"@[1] == 'a',
        "bat"@[2] == 't',
        "zsh"@.len() == 3,
        "zsh"@[0] == 'z',
        "zsh"@[1] == 's',
        "zsh"@[2] == 'h',
        "fish"@.len() == 4,
        "fish"@[0] == 'f',
        "fish"@[1] == 'i',
        "fish"@[2] == 's',
        "fish"@[3] == 'h',
        "lua"@.len() == 3,
        "lua"@[0] == 'l',
        "lua"@[1] == 'u',
        "lua"@[2] == 'a',
        "html"@.len() == 4,
        "html"@[0] == 'h',
        "html"@[1] == 't',
        "html"@[2] == 'm',
        "html"@[3] == 'l',
        "htm"@.len() == 3,
        "htm"@[0] == 'h',
        "htm"@[1] == 't',
        "htm"@[2] == 'm',
        "xhtml"@.len() == 5,
        "xhtml"@[0] == 'x',
        "xhtml"@[1] == 'h',
        "xhtml"@[2] == 't',
        "xhtml"@[3] == 'm',
        "xhtml"@[4] == 'l',
        "css"@.len() == 3,
        "css"@[0] == 'c',
        "css"@[1] == 's',
        "css"@[2] == 's',
        "scss"@.len() == 4,
        "scss"@[0] == 's',
        "scss"@[1] == 'c',
        "scss"@[2] == 's',
        "scss"@[3] == 's',
        "sass"@.len() == 4,
        "sass"@[0] == 's',
        "sass"@[1] == 'a',
        "sass"@[2] == 's',
        "sass"@[3] == 's',
        "less"@.len() == 4,
        "less"@[0] == 'l',
        "less"@[1] == 'e',
        "less"@[2] == 's',
        "less"@[3] == 's',
        "json"@.len() == 4,
        "json"@[0] == 'j',
        "json"@[1] == 's',
        "json"@[2] == 'o',
        "json"@[3] == 'n',
        "yaml"@.len() == 4,
        "yaml"@[0] == 'y',
        "yaml"@[1] == 'a',
        "yaml"@[2] == 'm',
        "yaml"@[3] == 'l',
        "yml"@.len() == 3,
        "yml"@[0] == 'y',
        "yml"@[1] == 'm',
        "yml"@[2] == 'l',
        "toml"@.len() == 4,
        "toml"@[0] == 't',
        "toml"@[1] == 'o',
        "toml"@[2] == 'm',
        "toml"@[3] == 'l',
        "xml"@.len() == 3,
        "xml"@[0] == 'x',
        "xml"@[1] == 'm',
        "xml"@[2] == 'l',
        "sql"@.len() == 3,
        "sql"@[0] == 's',
        "sql"@[1] == 'q',
        "sql"@[2] == 'l',
        "db"@.len() == 2,
        "db"@[0] == 'd',
        "db"@[1] == 'b',
        "sqlite"@.len() == 6,
        "sqlite"@[0] == 's',
        "sqlite"@[1] == 'q',
        "sqlite"@[2] == 'l',
        "sqlite"@[3] == 'i',
        "sqlite"@[4] == 't',
        "sqlite"@[5] == 'e',
        "graphql"@.len() == 7,
        "graphql"@[0] == 'g',
        "graphql"@[1] == 'r',
        "graphql"@[2] == 'a',
        "graphql"@[3] == 'p',
        "graphql"@[4] == 'h',
        "graphql"@[5] == 'q',
        "graphql"@[6] == 'l',
        "gql"@.len() == 3,
        "gql"@[0] == 'g',
        "gql"@[1] == 'q',
        "gql"@[2] == 'l',
        "txt"@.len() == 3,
        "txt"@[0] == 't',
        "txt"@[1] == 'x',
        "txt"@[2] == 't',
        "log"@.len() == 3,
        "log"@[0] == 'l',
        "log"@[1] == 'o',
        "log"@[2] == 'g',
        "md"@.len() == 2,
        "md"@[0] == 'm',
        "md"@[1] == 'd',
        "markdown"@.len() == 8,
        "markdown"@[0] == 'm',
        "markdown"@[1] == 'a',
        "markdown"@[2] == 'r',
        "markdown"@[3] == 'k',
        "markdown"@[4] == 'd',
        "markdown"@[5] == 'o',
        "markdown"@[6] == 'w',
        "markdown"@[7] == 'n',
        "pdf"@.len() == 3,
        "pdf"@[0] == 'p',
        "pdf"@[1] == 'd',
        "pdf"@[2] == 'f',
        "doc"@.len() == 3,
        "doc"@[0] == 'd',
        "doc"@[1] == 'o',
        "doc"@[2] == 'c',
        "docx"@.len() == 4,
        "docx"@[0] == 'd',
        "docx"@[1] == 'o',
        "docx"@[2] == 'c',
        "docx"@[3] == 'x',
        "odt"@.len() == 3,
        "odt"@[0] == 'o',
        "odt"@[1] == 'd',
        "odt"@[2] == 't',
        "xls"@.len() == 3,
        "xls"@[0] == 'x',
        "xls"@[1] == 'l',
        "xls"@[2] == 's',
        "xlsx"@.len() == 4,
        "xlsx"@[0] == 'x',
        "xlsx"@[1] == 'l',
        "xlsx"@[2] == 's',
        "xlsx"@[3] == 'x',
        "csv"@.len() == 3,
        "csv"@[0] == 'c',
        "csv"@[1] == 's',
        "csv"@[2] == 'v',
        "tsv"@.len() == 3,
        "tsv"@[0] == 't',
        "tsv"@[1] == 's',
        "tsv"@[2] == 'v',
        "ppt"@.len() == 3,
        "ppt"@[0] == 'p',
        "ppt"@[1] == 'p',
        "ppt"@[2] == 't',
        "pptx"@.len() == 4,
        "pptx"@[0] == 'p',
        "pptx"@[1] == 'p',
        "pptx"@[2] == 't',
        "pptx"@[3] == 'x',
        "rtf"@.len() == 3,
        "rtf"@[0] == 'r',
        "rtf"@[1] == 't',
        "rtf"@[2] == 'f',
        "tex"@.len() == 3,
        "tex"@[0] == 't',
        "tex"@[1] == 'e',
        "tex"@[2] == 'x',
        "png"@.len() == 3,
        "png"@[0] == 'p',
        "png"@[1] == 'n',
        "png"@[2] == 'g',
        "jpg"@.len() == 3,
        "jpg"@[0] == 'j',
        "jpg"@[1] == 'p',
        "jpg"@[2] == 'g',
        "jpeg"@.len() == 4,
        "jpeg"@[0] == 'j',
        "jpeg"@[1] == 'p',
        "jpeg"@[2] == 'e',
        "jpeg"@[3] == 'g',
        "gif"@.len() == 3,
        "gif"@[0] == 'g',
        "gif"@[1] == 'i',
        "gif"@[2] == 'f',
        "webp"@.len() == 4,
        "webp"@[0] == 'w',
        "webp"@[1] == 'e',
        "webp"@[2] == 'b',
        "webp"@[3] == 'p',
        "bmp"@.len() == 3,
        "bmp"@[0] == 'b',
        "bmp"@[1] == 'm',
        "bmp"@[2] == 'p',
        "svg"@.len() == 3,
        "svg"@[0] == 's',
        "svg"@[1] == 'v',
        "svg"@[2] == 'g',
        "mp4"@.len() == 3,
        "mp4"@[0] == 'm',
        "mp4"@[1] == 'p',
        "mp4"@[2] == '4',
        "mkv"@.len() == 3,
        "mkv"@[0] == 'm',
        "mkv"@[1] == 'k',
        "mkv"@[2] == 'v',
        "avi"@.len() == 3,
        "avi"@[0] == 'a',
        "avi"@[1] == 'v',
        "avi"@[2] == 'i',
        "mov"@.len() == 3,
        "mov"@[0] == 'm',
        "mov"@[1] == 'o',
        "mov"@[2] == 'v',
        "webm"@.len() == 4,
        "webm"@[0] == 'w',
        "webm"@[1] == 'e',
        "webm"@[2] == 'b',
        "webm"@[3] == 'm',
        "mp3"@.len() == 3,
        "mp3"@[0] == 'm',
        "mp3"@[1] == 'p',
        "mp3"@[2] == '3',
        "wav"@.len() == 3,
        "wav"@[0] == 'w',
        "wav"@[1] == 'a',
        "wav"@[2] == 'v',
        "flac"@.len() == 4,
        "flac"@[0] == 'f',
        "flac"@[1] == 'l',
        "flac"@[2] == 'a',
        "flac"@[3] == 'c',
        "ogg"@.len() == 3,
        "ogg"@[0] == 'o',
        "ogg"@[1] == 'g',
        "ogg"@[2] == 'g',
        "m4a"@.len() == 3,
        "m4a"@[0] == 'm',
        "m4a"@[1] == '4',
        "m4a"@[2] == 'a',
        "psd"@.len() == 3,
        "psd"@[0] == 'p',
        "psd"@[1] == 's',
        "psd"@[2] == 'd',
        "ai"@.len() == 2,
        "ai"@[0] == 'a',
        "ai"@[1] == 'i',
        "xcf"@.len() == 3,
        "xcf"@[0] == 'x',
        "xcf"@[1] == 'c',
        "xcf"@[2] == 'f',
        "zip"@.len() == 3,
        "zip"@[0] == 'z',
        "zip"@[1] == 'i',
        "zip"@[2] == 'p',
        "tar"@.len() == 3,
        "tar"@[0] == 't',
        "tar"@[1] == 'a',
        "tar"@[2] == 'r',
        "gz"@.len() == 2,
        "gz"@[0] == 'g',
        "gz"@[1] == 'z',
        "7z"@.len() == 2,
        "7z"@[0] == '7',
        "7z"@[1] == 'z',
        "rar"@.len() == 3,
        "rar"@[0] == 'r',
        "rar"@[1] == 'a',
        "rar"@[2] == 'r',
        "bz2"@.len() == 3,
        "bz2"@[0] == 'b',
        "bz2"@[1] == 'z',
        "bz2"@[2] == '2',
        "exe"@.len() == 3,
        "exe"@[0] == 'e',
        "exe"@[1] == 'x',
        "exe"@[2] == 'e',
        "msi"@.len() == 3,
        "msi"@[0] == 'm',
        "msi"@[1] == 's',
        "msi"@[2] == 'i',
        "bin"@.len() == 3,
        "bin"@[0] == 'b',
        "bin"@[1] == 'i',
        "bin"@[2] == 'n',
        "app"@.len() == 3,
        "app"@[0] == 'a',
        "app"@[1] == 'p',
        "app"@[2] == 'p',
        "deb"@.len() == 3,
        "deb"@[0] == 'd',
        "deb"@[1] == 'e',
        "deb"@[2] == 'b',
        "rpm"@.len() == 3,
        "rpm"@[0] == 'r',
        "rpm"@[1] == 'p',
        "rpm"@[2] == 'm',
        "pkg"@.len() == 3,
        "pkg"@[0] == 'p',
        "pkg"@[1] == 'k',
        "pkg"@[2] == 'g',
        "iso"@.len() == 3,
        "iso"@[0] == 'i',
        "iso"@[1] == 's',
        "iso"@[2] == 'o',
        "img"@.len() == 3,
        "img"@[0] == 'i',
        "img"@[1] == 'm',
        "img"@[2] == 'g',
        "dmg"@.len() == 3,
        "dmg"@[0] == 'd',
        "dmg"@[1] == 'm',
        "dmg"@[2] == 'g',
        "ttf"@.len() == 3,
        "ttf"@[0] == 't',
        "ttf"@[1] == 't',
        "ttf"@[2] == 'f',
        "otf"@.len() == 3,
        "otf"@[0] == 'o',
        "otf"@[1] == 't',
        "otf"@[2] == 'f',
        "woff"@.len() == 4,
        "woff"@[0] == 'w',
        "woff"@[1] == 'o',
        "woff"@[2] == 'f',
        "woff"@[3] == 'f',
        "woff2"@.len() == 5,
        "woff2"@[0] == 'w',
        "woff2"@[1] == 'o',
        "woff2"@[2] == 'f',
        "woff2"@[3] == 'f',
        "woff2"@[4] == '2',
        "lock"@.len() == 4,
        "lock"@[0] == 'l',
        "lock"@[1] == 'o',
        "lock"@[2] == 'c',
        "lock"@[3] == 'k',
{
    reveal_strlit("rs");
    reveal_strlit("py");
    reveal_strlit("js");
    reveal_strlit("ts");
    reveal_strlit("jsx");
    reveal_strlit("tsx");
    reveal_strlit("c");
    reveal_strlit("cpp");
    reveal_strlit("h");
    reveal_strlit("hpp");
    reveal_strlit("cc");
    reveal_strlit("go");
    reveal_strlit("java");
    reveal_strlit("class");
    reveal_strlit("jar");
    reveal_strlit("rb");
    reveal_strlit("php");
    reveal_strlit("swift");
    reveal_strlit("kt");
    reveal_strlit("kts");
    reveal_strlit("sh");
    reveal_strlit("bat");
    reveal_strlit("zsh");
    reveal_strlit("fish");
    reveal_strlit("lua");
    reveal_strlit("html");
    reveal_strlit("htm");
    reveal_strlit("xhtml");
    reveal_strlit("css");
    reveal_strlit("scss");
    reveal_strlit("sass");
    reveal_strlit("less");
    reveal_strlit("json");
    reveal_strlit("yaml");
    reveal_strlit("yml");
    reveal_strlit("toml");
    reveal_strlit("xml");
    reveal_strlit("sql");
    reveal_strlit("db");
    reveal_strlit("sqlite");
    reveal_strlit("graphql");
    reveal_strlit("gql");
    reveal_strlit("txt");
    reveal_strlit("log");
    reveal_strlit("md");
    reveal_strlit("markdown");
    reveal_strlit("pdf");
    reveal_strlit("doc");
    reveal_strlit("docx");
    reveal_strlit("odt");
    reveal_strlit("xls");
    reveal_strlit("xlsx");
    reveal_strlit("csv");
    reveal_strlit("tsv");
    reveal_strlit("ppt");
    reveal_strlit("pptx");
    reveal_strlit("rtf");
    reveal_strlit("tex");
    reveal_strlit("png");
    reveal_strlit("jpg");
    reveal_strlit("jpeg");
    reveal_strlit("gif");
    reveal_strlit("webp");
    reveal_strlit("bmp");
    reveal_strlit("svg");
    reveal_strlit("mp4");
    reveal_strlit("mkv");
    reveal_strlit("avi");
    reveal_strlit("mov");
    reveal_strlit("webm");
    reveal_strlit("mp3");
    reveal_strlit("wav");
    reveal_strlit("flac");
    reveal_strlit("ogg");
    reveal_strlit("m4a");
    reveal_strlit("psd");
    reveal_strlit("ai");
    reveal_strlit("xcf");
    reveal_strlit("zip");
    reveal_strlit("tar");
    reveal_strlit("gz");
    reveal_strlit("7z");
    reveal_strlit("rar");
    reveal_strlit("bz2");
    reveal_strlit("exe");
    reveal_strlit("msi");
    reveal_strlit("bin");
    reveal_strlit("app");
    reveal_strlit("deb");
    reveal_strlit("rpm");
    reveal_strlit("pkg");
    reveal_strlit("iso");
    reveal_strlit("img");
    reveal_strlit("dmg");
    reveal_strlit("ttf");
    reveal_strlit("otf");
    reveal_strlit("woff");
    reveal_strlit("woff2");
    reveal_strlit("lock");
}

proof fn lemma_icon_group_0(e: Seq<char>)
    ensures
        crate::icons::icon_group_0().contains(e) <==> (e == "rs"@),
{
    if crate::icons::icon_group_0().contains(e) {
        let i = choose|i: int| 0 <= i < crate::icons::icon_group_0().len() && crate::icons::icon_group_0()[i] == e;
        assert(crate::icons::icon_group_0()[0] == "rs"@);
    }
    assert(crate::icons::icon_group_0()[0] == "rs"@);
}

proof fn lemma_icon_group_1(e: Seq<char>)
    ensures
        crate::icons::icon_group_1().contains(e) <==> (e == "py"@),
{
    if crate::icons::icon_group_1().contains(e) {
        let i = choose|i: int| 0 <= i < crate::icons::icon_group_1().len() && crate::icons::icon_group_1()[i] == e;
        assert(crate::icons::icon_group_1()[0] == "py"@);
    }
    assert(crate::icons::icon_group_1()[0] == "py"@);
}

proof fn lemma_icon_group_2(e: Seq<char>)
    ensures
        crate::icons::icon_group_2().contains(e) <==> (e == "js"@ || e == "ts"@ || e == "jsx"@ || e == "tsx"@),
{
    if crate::icons::icon_group_2().contains(e) {
        let i = choose|i: int| 0 <= i < crate::icons::icon_group_2().len() && crate::icons::icon_group_2()[i] == e;
        assert(crate::icons::icon_group_2()[0] == "js"@);
        assert(crate::icons::icon_group_2()[1] == "ts"@);
        assert(crate::icons::icon_group_2()[2] == "jsx"@);
        assert(crate::icons::icon_group_2()[3] == "tsx"@);
    }
    assert(crate::icons::icon_group_2()[0] == "js"@);
    assert(crate::icons::icon_group_2()[1] == "ts"@);
    assert(crate::icons::icon_group_2()[2] == "jsx"@);
    assert(crate::icons::icon_group_2()[3] == "tsx"@);
}

proof fn lemma_icon_group_3(e: Seq<char>)
    ensures
        crate::icons::icon_group_3().contains(e) <==> (e == "c"@ || e == "cpp"@ || e == "h"@ || e == "hpp"@ || e == "cc"@),
{
    if crate::icons::icon_group_3().contains(e) {
        let i = choose|i: int| 0 <= i < crate::icons::icon_group_3().len() && crate::icons::icon_group_3()[i] == e;
        assert(crate::icons::icon_group_3()[0] == "c"@);
        assert(crate::icons::icon_group_3()[1] == "cpp"@);
        assert(crate::icons::icon_group_3()[2] == "h"@);
        assert(crate::icons::icon_group_3()[3] == "hpp"@);
        assert(crate::icons::icon_group_3()[4] == "cc"@);
    }
    assert(crate::icons::icon_group_3()[0] == "c"@);
    assert(crate::icons::icon_group_3()[1] == "cpp"@);
    assert(crate::icons::icon_group_3()[2] == "h"@);
    assert(crate::icons::icon_group_3()[3] == "hpp"@);
    assert(crate::icons::icon_group_3()[4] == "cc"@);
}

proof fn lemma_icon_group_4(e: Seq<char>)
    ensures
        crate::icons::icon_group_4().contains(e) <==> (e == "go"@),
{
    if crate::icons::icon_group_4().contains(e) {
        let i = choose|i: int| 0 <= i < crate::icons::icon_group_4().len() && crate::icons::icon_group_4()[i] == e;
        assert(crate::icons::icon_group_4()[0] == "go"@);
    }
    assert(crate::icons::icon_group_4()[0] == "go"@);
}

proof fn lemma_icon_group_5(e: Seq<char>)
    ensures
        crate::icons::icon_group_5().contains(e) <==> (e == "java"@ || e == "class"@ || e == "jar"@),
{
    if crate::icons::icon_group_5().contains(e) {
        let i = choose|i: int| 0 <= i < crate::icons::icon_group_5().len() && crate::icons::icon_group_5()[i] == e;
        assert(crate::icons::icon_group_5()[0] == "java"@);
        assert(crate::icons::icon_group_5()[1] == "class"@);
        assert(crate::icons::icon_group_5()[2] == "jar"@);
    }
    assert(crate::icons::icon_group_5()[0] == "java"@);
    assert(crate::icons::icon_group_5()[1] == "class"@);
    assert(crate::icons::icon_group_5()[2] == "jar"@);
}

proof fn lemma_icon_group_6(e: Seq<char>)
    ensures
        crate::icons::icon_group_6().contains(e) <==> (e == "rb"@),
{
    if crate::icons::icon_group_6().contains(e) {
        let i = choose|i: int| 0 <= i < crate::icons::icon_group_6().len() && crate::icons::icon_group_6()[i] == e;
        assert(crate::icons::icon_group_6()[0] == "rb"@);
    }
    assert(crate::icons::icon_group_6()[0] == "rb"@);
}

proof fn lemma_icon_group_7(e: Seq<char>)
    ensures
        crate::icons::icon_group_7().contains(e) <==> (e == "php"@),
{
    if crate::icons::icon_group_7().contains(e) {
        let i = choose|i: int| 0 <= i < crate::icons::icon_group_7().len() && crate::icons::icon_group_7()[i] == e;
        assert(crate::icons::icon_group_7()[0] == "php"@);
    }
    assert(crate::icons::icon_group_7()[0] == "php"@);
}

proof fn lemma_icon_group_8(e: Seq<char>)
    ensures
        crate::icons::icon_group_8().contains(e) <==> (e == "swift"@),
{
    if crate::icons::icon_group_8().contains(e) {
        let i = choose|i: int| 0 <= i < crate::icons::icon_group_8().len() && crate::icons::icon_group_8()[i] == e;
        assert(crate::icons::icon_group_8()[0] == "swift"@);
    }
    assert(crate::icons::icon_group_8()[0] == "swift"@);
}

proof fn lemma_icon_group_9(e: Seq<char>)
    ensures
        crate::icons::icon_group_9().contains(e) <==> (e == "kt"@ || e == "kts"@),
{
    if crate::icons::icon_group_9().contains(e) {
        let i = choose|i: int| 0 <= i < crate::icons::icon_group_9().len() && crate::icons::icon_group_9()[i] == e;
        assert(crate::icons::icon_group_9()[0] == "kt"@);
        assert(crate::icons::icon_group_9()[1] == "kts"@);
    }
    assert(crate::icons::icon_group_9()[0] == "kt"@);
    assert(crate::icons::icon_group_9()[1] == "kts"@);
}

proof fn lemma_icon_group_10(e: Seq<char>)
    ensures
        crate::icons::icon_group_10().contains(e) <==> (e == "sh"@ || e == "bat"@ || e == "zsh"@ || e == "fish"@),
{
    if crate::icons::icon_group_10().contains(e) {
        let i = choose|i: int| 0 <= i < crate::icons::icon_group_10().len() && crate::icons::icon_group_10()[i] == e;
        assert(crate::icons::icon_group_10()[0] == "sh"@);
        assert(crate::icons::icon_group_10()[1] == "bat"@);
        assert(crate::icons::icon_group_10()[2] == "zsh"@);
        assert(crate::icons::icon_group_10()[3] == "fish"@);
    }
    assert(crate::icons::icon_group_10()[0] == "sh"@);
    assert(crate::icons::icon_group_10()[1] == "bat"@);
    assert(crate::icons::icon_group_10()[2] == "zsh"@);
    assert(crate::icons::icon_group_10()[3] == "fish"@);
}

proof fn lemma_icon_group_11(e: Seq<char>)
    ensures
        crate::icons::icon_group_11().contains(e) <==> (e == "lua"@),
{
    if crate::icons::icon_group_11().contains(e) {
        let i = choose|i: int| 0 <= i < crate::icons::icon_group_11().len() && crate::icons::icon_group_11()[i] == e;
        assert(crate::icons::icon_group_11()[0] == "lua"@);
    }
    assert(crate::icons::icon_group_11()[0] == "lua"@);
}

proof fn lemma_icon_group_12(e: Seq<char>)
    ensures
        crate::icons::icon_group_12().contains(e) <==> (e == "html"@ || e == "htm"@ || e == "xhtml"@),
{
    if crate::icons::icon_group_12().contains(e) {
        let i = choose|i: int| 0 <= i < crate::icons::icon_group_12().len() && crate::icons::icon_group_12()[i] == e;
        assert(crate::icons::icon_group_12()[0] == "html"@);
        assert(crate::icons::icon_group_12()[1] == "htm"@);
        assert(crate::icons::icon_group_12()[2] == "xhtml"@);
    }
    assert(crate::icons::icon_group_12()[0] == "html"@);
    assert(crate::icons::icon_group_12()[1] == "htm"@);
    assert(crate::icons::icon_group_12()[2] == "xhtml"@);
}

proof fn lemma_icon_group_13(e: Seq<char>)
    ensures
        crate::icons::icon_group_13().contains(e) <==> (e == "css"@ || e == "scss"@ || e == "sass"@ || e == "less"@),
{
    if crate::icons::icon_group_13().contains(e) {
        let i = choose|i: int| 0 <= i < crate::icons::icon_group_13().len() && crate::icons::icon_group_13()[i] == e;
        assert(crate::icons::icon_group_13()[0] == "css"@);
        assert(crate::icons::icon_group_13()[1] == "scss"@);
        assert(crate::icons::icon_group_13()[2] == "sass"@);
        assert(crate::icons::icon_group_13()[3] == "less"@);
    }
    assert(crate::icons::icon_group_13()[0] == "css"@);
    assert(crate::icons::icon_group_13()[1] == "scss"@);
    assert(crate::icons::icon_group_13()[2] == "sass"@);
    assert(crate::icons::icon_group_13()[3] == "less"@);
}

proof fn lemma_icon_group_14(e: Seq<char>)
    ensures
        crate::icons::icon_group_14().contains(e) <==> (e == "json"@ || e == "yaml"@ || e == "yml"@ || e == "toml"@ || e == "xml"@),
{
    if crate::icons::icon_group_14().contains(e) {
        let i = choose|i: int| 0 <= i < crate::icons::icon_group_14().len() && crate::icons::icon_group_14()[i] == e;
        assert(crate::icons::icon_group_14()[0] == "json"@);
        assert(crate::icons::icon_group_14()[1] == "yaml"@);
        assert(crate::icons::icon_group_14()[2] == "yml"@);
        assert(crate::icons::icon_group_14()[3] == "toml"@);
        assert(crate::icons::icon_group_14()[4] == "xml"@);
    }
    assert(crate::icons::icon_group_14()[0] == "json"@);
    assert(crate::icons::icon_group_14()[1] == "yaml"@);
    assert(crate::icons::icon_group_14()[2] == "yml"@);
    assert(crate::icons::icon_group_14()[3] == "toml"@);
    assert(crate::icons::icon_group_14()[4] == "xml"@);
}

proof fn lemma_icon_group_15(e: Seq<char>)
    ensures
        crate::icons::icon_group_15().contains(e) <==> (e == "sql"@ || e == "db"@ || e == "sqlite"@),
{
    if crate::icons::icon_group_15().contains(e) {
        let i = choose|i: int| 0 <= i < crate::icons::icon_group_15().len() && crate::icons::icon_group_15()[i] == e;
        assert(crate::icons::icon_group_15()[0] == "sql"@);
        assert(crate::icons::icon_group_15()[1] == "db"@);
        assert(crate::icons::icon_group_15()[2] == "sqlite"@);
    }
    assert(crate::icons::icon_group_15()[0] == "sql"@);
    assert(crate::icons::icon_group_15()[1] == "db"@);
    assert(crate::icons::icon_group_15()[2] == "sqlite"@);
}

proof fn lemma_icon_group_16(e: Seq<char>)
    ensures
        crate::icons::icon_group_16().contains(e) <==> (e == "graphql"@ || e == "gql"@),
{
    if crate::icons::icon_group_16().contains(e) {
        let i = choose|i: int| 0 <= i < crate::icons::icon_group_16().len() && crate::icons::icon_group_16()[i] == e;
        assert(crate::icons::icon_group_16()[0] == "graphql"@);
        assert(crate::icons::icon_group_16()[1] == "gql"@);
    }
    assert(crate::icons::icon_group_16()[0] == "graphql"@);
    assert(crate::icons::icon_group_16()[1] == "gql"@);
}

proof fn lemma_icon_group_17(e: Seq<char>)
    ensures
        crate::icons::icon_group_17().contains(e) <==> (e == "txt"@ || e == "log"@),
{
    if crate::icons::icon_group_17().contains(e) {
        let i = choose|i: int| 0 <= i < crate::icons::icon_group_17().len() && crate::icons::icon_group_17()[i] == e;
        assert(crate::icons::icon_group_17()[0] == "txt"@);
        assert(crate::icons::icon_group_17()[1] == "log"@);
    }
    assert(crate::icons::icon_group_17()[0] == "txt"@);
    assert(crate::icons::icon_group_17()[1] == "log"@);
}

proof fn lemma_icon_group_18(e: Seq<char>)
    ensures
        crate::icons::icon_group_18().contains(e) <==> (e == "md"@ || e == "markdown"@),
{
    if crate::icons::icon_group_18().contains(e) {
        let i = choose|i: int| 0 <= i < crate::icons::icon_group_18().len() && crate::icons::icon_group_18()[i] == e;
        assert(crate::icons::icon_group_18()[0] == "md"@);
        assert(crate::icons::icon_group_18()[1] == "markdown"@);
    }
    assert(crate::icons::icon_group_18()[0] == "md"@);
    assert(crate::icons::icon_group_18()[1] == "markdown"@);
}

proof fn lemma_icon_group_19(e: Seq<char>)
    ensures
        crate::icons::icon_group_19().contains(e) <==> (e == "pdf"@),
{
    if crate::icons::icon_group_19().contains(e) {
        let i = choose|i: int| 0 <= i < crate::icons::icon_group_19().len() && crate::icons::icon_group_19()[i] == e;
        assert(crate::icons::icon_group_19()[0] == "pdf"@);
    }
    assert(crate::icons::icon_group_19()[0] == "pdf"@);
}

proof fn lemma_icon_group_20(e: Seq<char>)
    ensures
        crate::icons::icon_group_20().contains(e) <==> (e == "doc"@ || e == "docx"@ || e == "odt"@),
{
    if crate::icons::icon_group_20().contains(e) {
        let i = choose|i: int| 0 <= i < crate::icons::icon_group_20().len() && crate::icons::icon_group_20()[i] == e;
        assert(crate::icons::icon_group_20()[0] == "doc"@);
        assert(crate::icons::icon_group_20()[1] == "docx"@);
        assert(crate::icons::icon_group_20()[2] == "odt"@);
    }
    assert(crate::icons::icon_group_20()[0] == "doc"@);
    assert(crate::icons::icon_group_20()[1] == "docx"@);
    assert(crate::icons::icon_group_20()[2] == "odt"@);
}

proof fn lemma_icon_group_21(e: Seq<char>)
    ensures
        crate::icons::icon_group_21().contains(e) <==> (e == "xls"@ || e == "xlsx"@ || e == "csv"@ || e == "tsv"@),
{
    if crate::icons::icon_group_21().contains(e) {
        let i = choose|i: int| 0 <= i < crate::icons::icon_group_21().len() && crate::icons::icon_group_21()[i] == e;
        assert(crate::icons::icon_group_21()[0] == "xls"@);
        assert(crate::icons::icon_group_21()[1] == "xlsx"@);
        assert(crate::icons::icon_group_21()[2] == "csv"@);
        assert(crate::icons::icon_group_21()[3] == "tsv"@);
    }
    assert(crate::icons::icon_group_21()[0] == "xls"@);
    assert(crate::icons::icon_group_21()[1] == "xlsx"@);
    assert(crate::icons::icon_group_21()[2] == "csv"@);
    assert(crate::icons::icon_group_21()[3] == "tsv"@);
}

proof fn lemma_icon_group_22(e: Seq<char>)
    ensures
        crate::icons::icon_group_22().contains(e) <==> (e == "ppt"@ || e == "pptx"@),
{
    if crate::icons::icon_group_22().contains(e) {
        let i = choose|i: int| 0 <= i < crate::icons::icon_group_22().len() && crate::icons::icon_group_22()[i] == e;
        assert(crate::icons::icon_group_22()[0] == "ppt"@);
        assert(crate::icons::icon_group_22()[1] == "pptx"@);
    }
    assert(crate::icons::icon_group_22()[0] == "ppt"@);
    assert(crate::icons::icon_group_22()[1] == "pptx"@);
}

proof fn lemma_icon_group_23(e: Seq<char>)
    ensures
        crate::icons::icon_group_23().contains(e) <==> (e == "rtf"@ || e == "tex"@),
{
    if crate::icons::icon_group_23().contains(e) {
        let i = choose|i: int| 0 <= i < crate::icons::icon_group_23().len() && crate::icons::icon_group_23()[i] == e;
        assert(crate::icons::icon_group_23()[0] == "rtf"@);
        assert(crate::icons::icon_group_23()[1] == "tex"@);
    }
    assert(crate::icons::icon_group_23()[0] == "rtf"@);
    assert(crate::icons::icon_group_23()[1] == "tex"@);
}

proof fn lemma_icon_group_24(e: Seq<char>)
    ensures
        crate::icons::icon_group_24().contains(e) <==> (e == "png"@ || e == "jpg"@ || e == "jpeg"@ || e == "gif"@ || e == "webp"@ || e == "bmp"@),
{
    if crate::icons::icon_group_24().contains(e) {
        let i = choose|i: int| 0 <= i < crate::icons::icon_group_24().len() && crate::icons::icon_group_24()[i] == e;
        assert(crate::icons::icon_group_24()[0] == "png"@);
        assert(crate::icons::icon_group_24()[1] == "jpg"@);
        assert(crate::icons::icon_group_24()[2] == "jpeg"@);
        assert(crate::icons::icon_group_24()[3] == "gif"@);
        assert(crate::icons::icon_group_24()[4] == "webp"@);
        assert(crate::icons::icon_group_24()[5] == "bmp"@);
    }
    assert(crate::icons::icon_group_24()[0] == "png"@);
    assert(crate::icons::icon_group_24()[1] == "jpg"@);
    assert(crate::icons::icon_group_24()[2] == "jpeg"@);
    assert(crate::icons::icon_group_24()[3] == "gif"@);
    assert(crate::icons::icon_group_24()[4] == "webp"@);
    assert(crate::icons::icon_group_24()[5] == "bmp"@);
}

proof fn lemma_icon_group_25(e: Seq<char>)
    ensures
        crate::icons::icon_group_25().contains(e) <==> (e == "svg"@),
{
    if crate::icons::icon_group_25().contains(e) {
        let i = choose|i: int| 0 <= i < crate::icons::icon_group_25().len() && crate::icons::icon_group_25()[i] == e;
        assert(crate::icons::icon_group_25()[0] == "svg"@);
    }
    assert(crate::icons::icon_group_25()[0] == "svg"@);
}

proof fn lemma_icon_group_26(e: Seq<char>)
    ensures
        crate::icons::icon_group_26().contains(e) <==> (e == "mp4"@ || e == "mkv"@ || e == "avi"@ || e == "mov"@ || e == "webm"@),
{
    if crate::icons::icon_group_26().contains(e) {
        let i = choose|i: int| 0 <= i < crate::icons::icon_group_26().len() && crate::icons::icon_group_26()[i] == e;
        assert(crate::icons::icon_group_26()[0] == "mp4"@);
        assert(crate::icons::icon_group_26()[1] == "mkv"@);
        assert(crate::icons::icon_group_26()[2] == "avi"@);
        assert(crate::icons::icon_group_26()[3] == "mov"@);
        assert(crate::icons::icon_group_26()[4] == "webm"@);
    }
    assert(crate::icons::icon_group_26()[0] == "mp4"@);
    assert(crate::icons::icon_group_26()[1] == "mkv"@);
    assert(crate::icons::icon_group_26()[2] == "avi"@);
    assert(crate::icons::icon_group_26()[3] == "mov"@);
    assert(crate::icons::icon_group_26()[4] == "webm"@);
}

proof fn lemma_icon_group_27(e: Seq<char>)
    ensures
        crate::icons::icon_group_27().contains(e) <==> (e == "mp3"@ || e == "wav"@ || e == "flac"@ || e == "ogg"@ || e == "m4a"@),
{
    if crate::icons::icon_group_27().contains(e) {
        let i = choose|i: int| 0 <= i < crate::icons::icon_group_27().len() && crate::icons::icon_group_27()[i] == e;
        assert(crate::icons::icon_group_27()[0] == "mp3"@);
        assert(crate::icons::icon_group_27()[1] == "wav"@);
        assert(crate::icons::icon_group_27()[2] == "flac"@);
        assert(crate::icons::icon_group_27()[3] == "ogg"@);
        assert(crate::icons::icon_group_27()[4] == "m4a"@);
    }
    assert(crate::icons::icon_group_27()[0] == "mp3"@);
    assert(crate::icons::icon_group_27()[1] == "wav"@);
    assert(crate::icons::icon_group_27()[2] == "flac"@);
    assert(crate::icons::icon_group_27()[3] == "ogg"@);
    assert(crate::icons::icon_group_27()[4] == "m4a"@);
}

proof fn lemma_icon_group_28(e: Seq<char>)
    ensures
        crate::icons::icon_group_28().contains(e) <==> (e == "psd"@ || e == "ai"@ || e == "xcf"@),
{
    if crate::icons::icon_group_28().contains(e) {
        let i = choose|i: int| 0 <= i < crate::icons::icon_group_28().len() && crate::icons::icon_group_28()[i] == e;
        assert(crate::icons::icon_group_28()[0] == "psd"@);
        assert(crate::icons::icon_group_28()[1] == "ai"@);
        assert(crate::icons::icon_group_28()[2] == "xcf"@);
    }
    assert(crate::icons::icon_group_28()[0] == "psd"@);
    assert(crate::icons::icon_group_28()[1] == "ai"@);
    assert(crate::icons::icon_group_28()[2] == "xcf"@);
}

proof fn lemma_icon_group_29(e: Seq<char>)
    ensures
        crate::icons::icon_group_29().contains(e) <==> (e == "zip"@ || e == "tar"@ || e == "gz"@ || e == "7z"@ || e == "rar"@ || e == "bz2"@),
{
    if crate::icons::icon_group_29().contains(e) {
        let i = choose|i: int| 0 <= i < crate::icons::icon_group_29().len() && crate::icons::icon_group_29()[i] == e;
        assert(crate::icons::icon_group_29()[0] == "zip"@);
        assert(crate::icons::icon_group_29()[1] == "tar"@);
        assert(crate::icons::icon_group_29()[2] == "gz"@);
        assert(crate::icons::icon_group_29()[3] == "7z"@);
        assert(crate::icons::icon_group_29()[4] == "rar"@);
        assert(crate::icons::icon_group_29()[5] == "bz2"@);
    }
    assert(crate::icons::icon_group_29()[0] == "zip"@);
    assert(crate::icons::icon_group_29()[1] == "tar"@);
    assert(crate::icons::icon_group_29()[2] == "gz"@);
    assert(crate::icons::icon_group_29()[3] == "7z"@);
    assert(crate::icons::icon_group_29()[4] == "rar"@);
    assert(crate::icons::icon_group_29()[5] == "bz2"@);
}

proof fn lemma_icon_group_30(e: Seq<char>)
    ensures
        crate::icons::icon_group_30().contains(e) <==> (e == "exe"@ || e == "msi"@ || e == "bin"@ || e == "app"@),
{
    if crate::icons::icon_group_30().contains(e) {
        let i = choose|i: int| 0 <= i < crate::icons::icon_group_30().len() && crate::icons::icon_group_30()[i] == e;
        assert(crate::icons::icon_group_30()[0] == "exe"@);
        assert(crate::icons::icon_group_30()[1] == "msi"@);
        assert(crate::icons::icon_group_30()[2] == "bin"@);
        assert(crate::icons::icon_group_30()[3] == "app"@);
    }
    assert(crate::icons::icon_group_30()[0] == "exe"@);
    assert(crate::icons::icon_group_30()[1] == "msi"@);
    assert(crate::icons::icon_group_30()[2] == "bin"@);
    assert(crate::icons::icon_group_30()[3] == "app"@);
}

proof fn lemma_icon_group_31(e: Seq<char>)
    ensures
        crate::icons::icon_group_31().contains(e) <==> (e == "deb"@ || e == "rpm"@ || e == "pkg"@),
{
    if crate::icons::icon_group_31().contains(e) {
        let i = choose|i: int| 0 <= i < crate::icons::icon_group_31().len() && crate::icons::icon_group_31()[i] == e;
        assert(crate::icons::icon_group_31()[0] == "deb"@);
        assert(crate::icons::icon_group_31()[1] == "rpm"@);
        assert(crate::icons::icon_group_31()[2] == "pkg"@);
    }
    assert(crate::icons::icon_group_31()[0] == "deb"@);
    assert(crate::icons::icon_group_31()[1] == "rpm"@);
    assert(crate::icons::icon_group_31()[2] == "pkg"@);
}

proof fn lemma_icon_group_32(e: Seq<char>)
    ensures
        crate::icons::icon_group_32().contains(e) <==> (e == "iso"@ || e == "img"@ || e == "dmg"@),
{
    if crate::icons::icon_group_32().contains(e) {
        let i = choose|i: int| 0 <= i < crate::icons::icon_group_32().len() && crate::icons::icon_group_32()[i] == e;
        assert(crate::icons::icon_group_32()[0] == "iso"@);
        assert(crate::icons::icon_group_32()[1] == "img"@);
        assert(crate::icons::icon_group_32()[2] == "dmg"@);
    }
    assert(crate::icons::icon_group_32()[0] == "iso"@);
    assert(crate::icons::icon_group_32()[1] == "img"@);
    assert(crate::icons::icon_group_32()[2] == "dmg"@);
}

proof fn lemma_icon_group_33(e: Seq<char>)
    ensures
        crate::icons::icon_group_33().contains(e) <==> (e == "ttf"@ || e == "otf"@ || e == "woff"@ || e == "woff2"@),
{
    if crate::icons::icon_group_33().contains(e) {
        let i = choose|i: int| 0 <= i < crate::icons::icon_group_33().len() && crate::icons::icon_group_33()[i] == e;
        assert(crate::icons::icon_group_33()[0] == "ttf"@);
        assert(crate::icons::icon_group_33()[1] == "otf"@);
        assert(crate::icons::icon_group_33()[2] == "woff"@);
        assert(crate::icons::icon_group_33()[3] == "woff2"@);
    }
    assert(crate::icons::icon_group_33()[0] == "ttf"@);
    assert(crate::icons::icon_group_33()[1] == "otf"@);
    assert(crate::icons::icon_group_33()[2] == "woff"@);
    assert(crate::icons::icon_group_33()[3] == "woff2"@);
}

proof fn lemma_icon_group_34(e: Seq<char>)
    ensures
        crate::icons::icon_group_34().contains(e) <==> (e == "lock"@),
{
    if crate::icons::icon_group_34().contains(e) {
        let i = choose|i: int| 0 <= i < crate::icons::icon_group_34().len() && crate::icons::icon_group_34()[i] == e;
        assert(crate::icons::icon_group_34()[0] == "lock"@);
    }
    assert(crate::icons::icon_group_34()[0] == "lock"@);
}

proof fn lemma_icon_family_0()
    ensures
        icon_for_ext("rs"@) == "🦀"@,
{
    lemma_extension_texts();
    lemma_icon_group_0("rs"@);
}

proof fn lemma_icon_family_1()
    ensures
        icon_for_ext("py"@) == "🐍"@,
{
    lemma_extension_texts();
    lemma_icon_group_0("py"@);
    lemma_icon_group_1("py"@);
}

proof fn lemma_icon_family_2()
    ensures
        icon_for_ext("js"@) == "📜"@,
        icon_for_ext("ts"@) == "📜"@,
        icon_for_ext("jsx"@) == "📜"@,
        icon_for_ext("tsx"@) == "📜"@,
{
    lemma_extension_texts();
    lemma_icon_group_0("js"@);
    lemma_icon_group_1("js"@);
    lemma_icon_group_2("js"@);
    lemma_icon_group_0("ts"@);
    lemma_icon_group_1("ts"@);
    lemma_icon_group_2("ts"@);
    lemma_icon_group_0("jsx"@);
    lemma_icon_group_1("jsx"@);
    lemma_icon_group_2("jsx"@);
    lemma_icon_group_0("tsx"@);
    lemma_icon_group_1("tsx"@);
    lemma_icon_group_2("tsx"@);
}

proof fn lemma_icon_family_3()
    ensures
        icon_for_ext("c"@) == "⚙️"@,
        icon_for_ext("cpp"@) == "⚙️"@,
        icon_for_ext("h"@) == "⚙️"@,
        icon_for_ext("hpp"@) == "⚙️"@,
        icon_for_ext("cc"@) == "⚙️"@,
{
    lemma_extension_texts();
    lemma_icon_group_0("c"@);
    lemma_icon_group_1("c"@);
    lemma_icon_group_2("c"@);
    lemma_icon_group_3("c"@);
    lemma_icon_group_0("cpp"@);
    lemma_icon_group_1("cpp"@);
    lemma_icon_group_2("cpp"@);
    lemma_icon_group_3("cpp"@);
    lemma_icon_group_0("h"@);
    lemma_icon_group_1("h"@);
    lemma_icon_group_2("h"@);
    lemma_icon_group_3("h"@);
    lemma_icon_group_0("hpp"@);
    lemma_icon_group_1("hpp"@);
    lemma_icon_group_2("hpp"@);
    lemma_icon_group_3("hpp"@);
    lemma_icon_group_0("cc"@);
    lemma_icon_group_1("cc"@);
    lemma_icon_group_2("cc"@);
    lemma_icon_group_3("cc"@);
}

proof fn lemma_icon_family_4()
    ensures
        icon_for_ext("go"@) == "🐹"@,
{
    lemma_extension_texts();
    lemma_icon_group_0("go"@);
    lemma_icon_group_1("go"@);
    lemma_icon_group_2("go"@);
    lemma_icon_group_3("go"@);
    lemma_icon_group_4("go"@);
}

proof fn lemma_icon_family_5()
    ensures
        icon_for_ext("java"@) == "☕"@,
        icon_for_ext("class"@) == "☕"@,
        icon_for_ext("jar"@) == "☕"@,
{
    lemma_extension_texts();
    lemma_icon_group_0("java"@);
    lemma_icon_group_1("java"@);
    lemma_icon_group_2("java"@);
    lemma_icon_group_3("java"@);
    lemma_icon_group_4("java"@);
    lemma_icon_group_5("java"@);
    lemma_icon_group_0("class"@);
    lemma_icon_group_1("class"@);
    lemma_icon_group_2("class"@);
    lemma_icon_group_3("class"@);
    lemma_icon_group_4("class"@);
    lemma_icon_group_5("class"@);
    lemma_icon_group_0("jar"@);
    lemma_icon_group_1("jar"@);
    lemma_icon_group_2("jar"@);
    lemma_icon_group_3("jar"@);
    lemma_icon_group_4("jar"@);
    lemma_icon_group_5("jar"@);
}

proof fn lemma_icon_family_6()
    ensures
        icon_for_ext("rb"@) == "💎"@,
{
    lemma_extension_texts();
    lemma_icon_group_0("rb"@);
    lemma_icon_group_1("rb"@);
    lemma_icon_group_2("rb"@);
    lemma_icon_group_3("rb"@);
    lemma_icon_group_4("rb"@);
    lemma_icon_group_5("rb"@);
    lemma_icon_group_6("rb"@);
}

proof fn lemma_icon_family_7()
    ensures
        icon_for_ext("php"@) == "🐘"@,
{
    lemma_extension_texts();
    lemma_icon_group_0("php"@);
    lemma_icon_group_1("php"@);
    lemma_icon_group_2("php"@);
    lemma_icon_group_3("php"@);
    lemma_icon_group_4("php"@);
    lemma_icon_group_5("php"@);
    lemma_icon_group_6("php"@);
    lemma_icon_group_7("php"@);
}

proof fn lemma_icon_family_8()
    ensures
        icon_for_ext("swift"@) == "🍎"@,
{
    lemma_extension_texts();
    lemma_icon_group_0("swift"@);
    lemma_icon_group_1("swift"@);
    lemma_icon_group_2("swift"@);
    lemma_icon_group_3("swift"@);
    lemma_icon_group_4("swift"@);
    lemma_icon_group_5("swift"@);
    lemma_icon_group_6("swift"@);
    lemma_icon_group_7("swift"@);
    lemma_icon_group_8("swift"@);
}

proof fn lemma_icon_family_9()
    ensures
        icon_for_ext("kt"@) == "🏗️"@,
        icon_for_ext("kts"@) == "🏗️"@,
{
    lemma_extension_texts();
    lemma_icon_group_0("kt"@);
    lemma_icon_group_1("kt"@);
    lemma_icon_group_2("kt"@);
    lemma_icon_group_3("kt"@);
    lemma_icon_group_4("kt"@);
    lemma_icon_group_5("kt"@);
    lemma_icon_group_6("kt"@);
    lemma_icon_group_7("kt"@);
    lemma_icon_group_8("kt"@);
    lemma_icon_group_9("kt"@);
    lemma_icon_group_0("kts"@);
    lemma_icon_group_1("kts"@);
    lemma_icon_group_2("kts"@);
    lemma_icon_group_3("kts"@);
    lemma_icon_group_4("kts"@);
    lemma_icon_group_5("kts"@);
    lemma_icon_group_6("kts"@);
    lemma_icon_group_7("kts"@);
    lemma_icon_group_8("kts"@);
    lemma_icon_group_9("kts"@);
}

proof fn lemma_icon_family_10()
    ensures
        icon_for_ext("sh"@) == "🐚"@,
        icon_for_ext("bat"@) == "🐚"@,
        icon_for_ext("zsh"@) == "🐚"@,
        icon_for_ext("fish"@) == "🐚"@,
{
    lemma_extension_texts();
    lemma_icon_group_0("sh"@);
    lemma_icon_group_1("sh"@);
    lemma_icon_group_2("sh"@);
    lemma_icon_group_3("sh"@);
    lemma_icon_group_4("sh"@);
    lemma_icon_group_5("sh"@);
    lemma_icon_group_6("sh"@);
    lemma_icon_group_7("sh"@);
    lemma_icon_group_8("sh"@);
    lemma_icon_group_9("sh"@);
    lemma_icon_group_10("sh"@);
    lemma_icon_group_0("bat"@);
    lemma_icon_group_1("bat"@);
    lemma_icon_group_2("bat"@);
    lemma_icon_group_3("bat"@);
    lemma_icon_group_4("bat"@);
    lemma_icon_group_5("bat"@);
    lemma_icon_group_6("bat"@);
    lemma_icon_group_7("bat"@);
    lemma_icon_group_8("bat"@);
    lemma_icon_group_9("bat"@);
    lemma_icon_group_10("bat"@);
    lemma_icon_group_0("zsh"@);
    lemma_icon_group_1("zsh"@);
    lemma_icon_group_2("zsh"@);
    lemma_icon_group_3("zsh"@);
    lemma_icon_group_4("zsh"@);
    lemma_icon_group_5("zsh"@);
    lemma_icon_group_6("zsh"@);
    lemma_icon_group_7("zsh"@);
    lemma_icon_group_8("zsh"@);
    lemma_icon_group_9("zsh"@);
    lemma_icon_group_10("zsh"@);
    lemma_icon_group_0("fish"@);
    lemma_icon_group_1("fish"@);
    lemma_icon_group_2("fish"@);
    lemma_icon_group_3("fish"@);
    lemma_icon_group_4("fish"@);
    lemma_icon_group_5("fish"@);
    lemma_icon_group_6("fish"@);
    lemma_icon_group_7("fish"@);
    lemma_icon_group_8("fish"@);
    lemma_icon_group_9("fish"@);
    lemma_icon_group_10("fish"@);
}

proof fn lemma_icon_family_11()
    ensures
        icon_for_ext("lua"@) == "🌙"@,
{
    lemma_extension_texts();
    lemma_icon_group_0("lua"@);
    lemma_icon_group_1("lua"@);
    lemma_icon_group_2("lua"@);
    lemma_icon_group_3("lua"@);
    lemma_icon_group_4("lua"@);
    lemma_icon_group_5("lua"@);
    lemma_icon_group_6("lua"@);
    lemma_icon_group_7("lua"@);
    lemma_icon_group_8("lua"@);
    lemma_icon_group_9("lua"@);
    lemma_icon_group_10("lua"@);
    lemma_icon_group_11("lua"@);
}

proof fn lemma_icon_family_12()
    ensures
        icon_for_ext("html"@) == "🌐"@,
        icon_for_ext("htm"@) == "🌐"@,
        icon_for_ext("xhtml"@) == "🌐"@,
{
    lemma_extension_texts();
    lemma_icon_group_0("html"@);
    lemma_icon_group_1("html"@);
    lemma_icon_group_2("html"@);
    lemma_icon_group_3("html"@);
    lemma_icon_group_4("html"@);
    lemma_icon_group_5("html"@);
    lemma_icon_group_6("html"@);
    lemma_icon_group_7("html"@);
    lemma_icon_group_8("html"@);
    lemma_icon_group_9("html"@);
    lemma_icon_group_10("html"@);
    lemma_icon_group_11("html"@);
    lemma_icon_group_12("html"@);
    lemma_icon_group_0("htm"@);
    lemma_icon_group_1("htm"@);
    lemma_icon_group_2("htm"@);
    lemma_icon_group_3("htm"@);
    lemma_icon_group_4("htm"@);
    lemma_icon_group_5("htm"@);
    lemma_icon_group_6("htm"@);
    lemma_icon_group_7("htm"@);
    lemma_icon_group_8("htm"@);
    lemma_icon_group_9("htm"@);
    lemma_icon_group_10("htm"@);
    lemma_icon_group_11("htm"@);
    lemma_icon_group_12("htm"@);
    lemma_icon_group_0("xhtml"@);
    lemma_icon_group_1("xhtml"@);
    lemma_icon_group_2("xhtml"@);
    lemma_icon_group_3("xhtml"@);
    lemma_icon_group_4("xhtml"@);
    lemma_icon_group_5("xhtml"@);
    lemma_icon_group_6("xhtml"@);
    lemma_icon_group_7("xhtml"@);
    lemma_icon_group_8("xhtml"@);
    lemma_icon_group_9("xhtml"@);
    lemma_icon_group_10("xhtml"@);
    lemma_icon_group_11("xhtml"@);
    lemma_icon_group_12("xhtml"@);
}

proof fn lemma_icon_family_13()
    ensures
        icon_for_ext("css"@) == "🎨"@,
        icon_for_ext("scss"@) == "🎨"@,
        icon_for_ext("sass"@) == "🎨"@,
        icon_for_ext("less"@) == "🎨"@,
{
    lemma_extension_texts();
    lemma_icon_group_0("css"@);
    lemma_icon_group_1("css"@);
    lemma_icon_group_2("css"@);
    lemma_icon_group_3("css"@);
    lemma_icon_group_4("css"@);
    lemma_icon_group_5("css"@);
    lemma_icon_group_6("css"@);
    lemma_icon_group_7("css"@);
    lemma_icon_group_8("css"@);
    lemma_icon_group_9("css"@);
    lemma_icon_group_10("css"@);
    lemma_icon_group_11("css"@);
    lemma_icon_group_12("css"@);
    lemma_icon_group_13("css"@);
    lemma_icon_group_0("scss"@);
    lemma_icon_group_1("scss"@);
    lemma_icon_group_2("scss"@);
    lemma_icon_group_3("scss"@);
    lemma_icon_group_4("scss"@);
    lemma_icon_group_5("scss"@);
    lemma_icon_group_6("scss"@);
    lemma_icon_group_7("scss"@);
    lemma_icon_group_8("scss"@);
    lemma_icon_group_9("scss"@);
    lemma_icon_group_10("scss"@);
    lemma_icon_group_11("scss"@);
    lemma_icon_group_12("scss"@);
    lemma_icon_group_13("scss"@);
    lemma_icon_group_0("sass"@);
    lemma_icon_group_1("sass"@);
    lemma_icon_group_2("sass"@);
    lemma_icon_group_3("sass"@);
    lemma_icon_group_4("sass"@);
    lemma_icon_group_5("sass"@);
    lemma_icon_group_6("sass"@);
    lemma_icon_group_7("sass"@);
    lemma_icon_group_8("sass"@);
    lemma_icon_group_9("sass"@);
    lemma_icon_group_10("sass"@);
    lemma_icon_group_11("sass"@);
    lemma_icon_group_12("sass"@);
    lemma_icon_group_13("sass"@);
    lemma_icon_group_0("less"@);
    lemma_icon_group_1("less"@);
    lemma_icon_group_2("less"@);
    lemma_icon_group_3("less"@);
    lemma_icon_group_4("less"@);
    lemma_icon_group_5("less"@);
    lemma_icon_group_6("less"@);
    lemma_icon_group_7("less"@);
    lemma_icon_group_8("less"@);
    lemma_icon_group_9("less"@);
    lemma_icon_group_10("less"@);
    lemma_icon_group_11("less"@);
    lemma_icon_group_12("less"@);
    lemma_icon_group_13("less"@);
}

proof fn lemma_icon_family_14()
    ensures
        icon_for_ext("json"@) == "🔧"@,
        icon_for_ext("yaml"@) == "🔧"@,
        icon_for_ext("yml"@) == "🔧"@,
        icon_for_ext("toml"@) == "🔧"@,
        icon_for_ext("xml"@) == "🔧"@,
{
    lemma_extension_texts();
    lemma_icon_group_0("json"@);
    lemma_icon_group_1("json"@);
    lemma_icon_group_2("json"@);
    lemma_icon_group_3("json"@);
    lemma_icon_group_4("json"@);
    lemma_icon_group_5("json"@);
    lemma_icon_group_6("json"@);
    lemma_icon_group_7("json"@);
    lemma_icon_group_8("json"@);
    lemma_icon_group_9("json"@);
    lemma_icon_group_10("json"@);
    lemma_icon_group_11("json"@);
    lemma_icon_group_12("json"@);
    lemma_icon_group_13("json"@);
    lemma_icon_group_14("json"@);
    lemma_icon_group_0("yaml"@);
    lemma_icon_group_1("yaml"@);
    lemma_icon_group_2("yaml"@);
    lemma_icon_group_3("yaml"@);
    lemma_icon_group_4("yaml"@);
    lemma_icon_group_5("yaml"@);
    lemma_icon_group_6("yaml"@);
    lemma_icon_group_7("yaml"@);
    lemma_icon_group_8("yaml"@);
    lemma_icon_group_9("yaml"@);
    lemma_icon_group_10("yaml"@);
    lemma_icon_group_11("yaml"@);
    lemma_icon_group_12("yaml"@);
    lemma_icon_group_13("yaml"@);
    lemma_icon_group_14("yaml"@);
    lemma_icon_group_0("yml"@);
    lemma_icon_group_1("yml"@);
    lemma_icon_group_2("yml"@);
    lemma_icon_group_3("yml"@);
    lemma_icon_group_4("yml"@);
    lemma_icon_group_5("yml"@);
    lemma_icon_group_6("yml"@);
    lemma_icon_group_7("yml"@);
    lemma_icon_group_8("yml"@);
    lemma_icon_group_9("yml"@);
    lemma_icon_group_10("yml"@);
    lemma_icon_group_11("yml"@);
    lemma_icon_group_12("yml"@);
    lemma_icon_group_13("yml"@);
    lemma_icon_group_14("yml"@);
    lemma_icon_group_0("toml"@);
    lemma_icon_group_1("toml"@);
    lemma_icon_group_2("toml"@);
    lemma_icon_group_3("toml"@);
    lemma_icon_group_4("toml"@);
    lemma_icon_group_5("toml"@);
    lemma_icon_group_6("toml"@);
    lemma_icon_group_7("toml"@);
    lemma_icon_group_8("toml"@);
    lemma_icon_group_9("toml"@);
    lemma_icon_group_10("toml"@);
    lemma_icon_group_11("toml"@);
    lemma_icon_group_12("toml"@);
    lemma_icon_group_13("toml"@);
    lemma_icon_group_14("toml"@);
    lemma_icon_group_0("xml"@);
    lemma_icon_group_1("xml"@);
    lemma_icon_group_2("xml"@);
    lemma_icon_group_3("xml"@);
    lemma_icon_group_4("xml"@);
    lemma_icon_group_5("xml"@);
    lemma_icon_group_6("xml"@);
    lemma_icon_group_7("xml"@);
    lemma_icon_group_8("xml"@);
    lemma_icon_group_9("xml"@);
    lemma_icon_group_10("xml"@);
    lemma_icon_group_11("xml"@);
    lemma_icon_group_12("xml"@);
    lemma_icon_group_13("xml"@);
    lemma_icon_group_14("xml"@);
}

proof fn lemma_icon_family_15()
    ensures
        icon_for_ext("sql"@) == "🗄️"@,
        icon_for_ext("db"@) == "🗄️"@,
        icon_for_ext("sqlite"@) == "🗄️"@,
{
    lemma_extension_texts();
    lemma_icon_group_0("sql"@);
    lemma_icon_group_1("sql"@);
    lemma_icon_group_2("sql"@);
    lemma_icon_group_3("sql"@);
    lemma_icon_group_4("sql"@);
    lemma_icon_group_5("sql"@);
    lemma_icon_group_6("sql"@);
    lemma_icon_group_7("sql"@);
    lemma_icon_group_8("sql"@);
    lemma_icon_group_9("sql"@);
    lemma_icon_group_10("sql"@);
    lemma_icon_group_11("sql"@);
    lemma_icon_group_12("sql"@);
    lemma_icon_group_13("sql"@);
    lemma_icon_group_14("sql"@);
    lemma_icon_group_15("sql"@);
    lemma_icon_group_0("db"@);
    lemma_icon_group_1("db"@);
    lemma_icon_group_2("db"@);
    lemma_icon_group_3("db"@);
    lemma_icon_group_4("db"@);
    lemma_icon_group_5("db"@);
    lemma_icon_group_6("db"@);
    lemma_icon_group_7("db"@);
    lemma_icon_group_8("db"@);
    lemma_icon_group_9("db"@);
    lemma_icon_group_10("db"@);
    lemma_icon_group_11("db"@);
    lemma_icon_group_12("db"@);
    lemma_icon_group_13("db"@);
    lemma_icon_group_14("db"@);
    lemma_icon_group_15("db"@);
    lemma_icon_group_0("sqlite"@);
    lemma_icon_group_1("sqlite"@);
    lemma_icon_group_2("sqlite"@);
    lemma_icon_group_3("sqlite"@);
    lemma_icon_group_4("sqlite"@);
    lemma_icon_group_5("sqlite"@);
    lemma_icon_group_6("sqlite"@);
    lemma_icon_group_7("sqlite"@);
    lemma_icon_group_8("sqlite"@);
    lemma_icon_group_9("sqlite"@);
    lemma_icon_group_10("sqlite"@);
    lemma_icon_group_11("sqlite"@);
    lemma_icon_group_12("sqlite"@);
    lemma_icon_group_13("sqlite"@);
    lemma_icon_group_14("sqlite"@);
    lemma_icon_group_15("sqlite"@);
}

proof fn lemma_icon_family_16()
    ensures
        icon_for_ext("graphql"@) == "⬢"@,
        icon_for_ext("gql"@) == "⬢"@,
{
    lemma_extension_texts();
    lemma_icon_group_0("graphql"@);
    lemma_icon_group_1("graphql"@);
    lemma_icon_group_2("graphql"@);
    lemma_icon_group_3("graphql"@);
    lemma_icon_group_4("graphql"@);
    lemma_icon_group_5("graphql"@);
    lemma_icon_group_6("graphql"@);
    lemma_icon_group_7("graphql"@);
    lemma_icon_group_8("graphql"@);
    lemma_icon_group_9("graphql"@);
    lemma_icon_group_10("graphql"@);
    lemma_icon_group_11("graphql"@);
    lemma_icon_group_12("graphql"@);
    lemma_icon_group_13("graphql"@);
    lemma_icon_group_14("graphql"@);
    lemma_icon_group_15("graphql"@);
    lemma_icon_group_16("graphql"@);
    lemma_icon_group_0("gql"@);
    lemma_icon_group_1("gql"@);
    lemma_icon_group_2("gql"@);
    lemma_icon_group_3("gql"@);
    lemma_icon_group_4("gql"@);
    lemma_icon_group_5("gql"@);
    lemma_icon_group_6("gql"@);
    lemma_icon_group_7("gql"@);
    lemma_icon_group_8("gql"@);
    lemma_icon_group_9("gql"@);
    lemma_icon_group_10("gql"@);
    lemma_icon_group_11("gql"@);
    lemma_icon_group_12("gql"@);
    lemma_icon_group_13("gql"@);
    lemma_icon_group_14("gql"@);
    lemma_icon_group_15("gql"@);
    lemma_icon_group_16("gql"@);
}

proof fn lemma_icon_family_17()
    ensures
        icon_for_ext("txt"@) == "📄"@,
        icon_for_ext("log"@) == "📄"@,
{
    lemma_extension_texts();
    lemma_icon_group_0("txt"@);
    lemma_icon_group_1("txt"@);
    lemma_icon_group_2("txt"@);
    lemma_icon_group_3("txt"@);
    lemma_icon_group_4("txt"@);
    lemma_icon_group_5("txt"@);
    lemma_icon_group_6("txt"@);
    lemma_icon_group_7("txt"@);
    lemma_icon_group_8("txt"@);
    lemma_icon_group_9("txt"@);
    lemma_icon_group_10("txt"@);
    lemma_icon_group_11("txt"@);
    lemma_icon_group_12("txt"@);
    lemma_icon_group_13("txt"@);
    lemma_icon_group_14("txt"@);
    lemma_icon_group_15("txt"@);
    lemma_icon_group_16("txt"@);
    lemma_icon_group_17("txt"@);
    lemma_icon_group_0("log"@);
    lemma_icon_group_1("log"@);
    lemma_icon_group_2("log"@);
    lemma_icon_group_3("log"@);
    lemma_icon_group_4("log"@);
    lemma_icon_group_5("log"@);
    lemma_icon_group_6("log"@);
    lemma_icon_group_7("log"@);
    lemma_icon_group_8("log"@);
    lemma_icon_group_9("log"@);
    lemma_icon_group_10("log"@);
    lemma_icon_group_11("log"@);
    lemma_icon_group_12("log"@);
    lemma_icon_group_13("log"@);
    lemma_icon_group_14("log"@);
    lemma_icon_group_15("log"@);
    lemma_icon_group_16("log"@);
    lemma_icon_group_17("log"@);
}

proof fn lemma_icon_family_18()
    ensures
        icon_for_ext("md"@) == "📝"@,
        icon_for_ext("markdown"@) == "📝"@,
{
    lemma_extension_texts();
    lemma_icon_group_0("md"@);
    lemma_icon_group_1("md"@);
    lemma_icon_group_2("md"@);
    lemma_icon_group_3("md"@);
    lemma_icon_group_4("md"@);
    lemma_icon_group_5("md"@);
    lemma_icon_group_6("md"@);
    lemma_icon_group_7("md"@);
    lemma_icon_group_8("md"@);
    lemma_icon_group_9("md"@);
    lemma_icon_group_10("md"@);
    lemma_icon_group_11("md"@);
    lemma_icon_group_12("md"@);
    lemma_icon_group_13("md"@);
    lemma_icon_group_14("md"@);
    lemma_icon_group_15("md"@);
    lemma_icon_group_16("md"@);
    lemma_icon_group_17("md"@);
    lemma_icon_group_18("md"@);
    lemma_icon_group_0("markdown"@);
    lemma_icon_group_1("markdown"@);
    lemma_icon_group_2("markdown"@);
    lemma_icon_group_3("markdown"@);
    lemma_icon_group_4("markdown"@);
    lemma_icon_group_5("markdown"@);
    lemma_icon_group_6("markdown"@);
    lemma_icon_group_7("markdown"@);
    lemma_icon_group_8("markdown"@);
    lemma_icon_group_9("markdown"@);
    lemma_icon_group_10("markdown"@);
    lemma_icon_group_11("markdown"@);
    lemma_icon_group_12("markdown"@);
    lemma_icon_group_13("markdown"@);
    lemma_icon_group_14("markdown"@);
    lemma_icon_group_15("markdown"@);
    lemma_icon_group_16("markdown"@);
    lemma_icon_group_17("markdown"@);
    lemma_icon_group_18("markdown"@);
}

proof fn lemma_icon_family_19()
    ensures
        icon_for_ext("pdf"@) == "📕"@,
{
    lemma_extension_texts();
    lemma_icon_group_0("pdf"@);
    lemma_icon_group_1("pdf"@);
    lemma_icon_group_2("pdf"@);
    lemma_icon_group_3("pdf"@);
    lemma_icon_group_4("pdf"@);
    lemma_icon_group_5("pdf"@);
    lemma_icon_group_6("pdf"@);
    lemma_icon_group_7("pdf"@);
    lemma_icon_group_8("pdf"@);
    lemma_icon_group_9("pdf"@);
    lemma_icon_group_10("pdf"@);
    lemma_icon_group_11("pdf"@);
    lemma_icon_group_12("pdf"@);
    lemma_icon_group_13("pdf"@);
    lemma_icon_group_14("pdf"@);
    lemma_icon_group_15("pdf"@);
    lemma_icon_group_16("pdf"@);
    lemma_icon_group_17("pdf"@);
    lemma_icon_group_18("pdf"@);
    lemma_icon_group_19("pdf"@);
}

proof fn lemma_icon_family_20()
    ensures
        icon_for_ext("doc"@) == "📘"@,
        icon_for_ext("docx"@) == "📘"@,
        icon_for_ext("odt"@) == "📘"@,
{
    lemma_extension_texts();
    lemma_icon_group_0("doc"@);
    lemma_icon_group_1("doc"@);
    lemma_icon_group_2("doc"@);
    lemma_icon_group_3("doc"@);
    lemma_icon_group_4("doc"@);
    lemma_icon_group_5("doc"@);
    lemma_icon_group_6("doc"@);
    lemma_icon_group_7("doc"@);
    lemma_icon_group_8("doc"@);
    lemma_icon_group_9("doc"@);
    lemma_icon_group_10("doc"@);
    lemma_icon_group_11("doc"@);
    lemma_icon_group_12("doc"@);
    lemma_icon_group_13("doc"@);
    lemma_icon_group_14("doc"@);
    lemma_icon_group_15("doc"@);
    lemma_icon_group_16("doc"@);
    lemma_icon_group_17("doc"@);
    lemma_icon_group_18("doc"@);
    lemma_icon_group_19("doc"@);
    lemma_icon_group_20("doc"@);
    lemma_icon_group_0("docx"@);
    lemma_icon_group_1("docx"@);
    lemma_icon_group_2("docx"@);
    lemma_icon_group_3("docx"@);
    lemma_icon_group_4("docx"@);
    lemma_icon_group_5("docx"@);
    lemma_icon_group_6("docx"@);
    lemma_icon_group_7("docx"@);
    lemma_icon_group_8("docx"@);
    lemma_icon_group_9("docx"@);
    lemma_icon_group_10("docx"@);
    lemma_icon_group_11("docx"@);
    lemma_icon_group_12("docx"@);
    lemma_icon_group_13("docx"@);
    lemma_icon_group_14("docx"@);
    lemma_icon_group_15("docx"@);
    lemma_icon_group_16("docx"@);
    lemma_icon_group_17("docx"@);
    lemma_icon_group_18("docx"@);
    lemma_icon_group_19("docx"@);
    lemma_icon_group_20("docx"@);
    lemma_icon_group_0("odt"@);
    lemma_icon_group_1("odt"@);
    lemma_icon_group_2("odt"@);
    lemma_icon_group_3("odt"@);
    lemma_icon_group_4("odt"@);
    lemma_icon_group_5("odt"@);
    lemma_icon_group_6("odt"@);
    lemma_icon_group_7("odt"@);
    lemma_icon_group_8("odt"@);
    lemma_icon_group_9("odt"@);
    lemma_icon_group_10("odt"@);
    lemma_icon_group_11("odt"@);
    lemma_icon_group_12("odt"@);
    lemma_icon_group_13("odt"@);
    lemma_icon_group_14("odt"@);
    lemma_icon_group_15("odt"@);
    lemma_icon_group_16("odt"@);
    lemma_icon_group_17("odt"@);
    lemma_icon_group_18("odt"@);
    lemma_icon_group_19("odt"@);
    lemma_icon_group_20("odt"@);
}

proof fn lemma_icon_family_21()
    ensures
        icon_for_ext("xls"@) == "📊"@,
        icon_for_ext("xlsx"@) == "📊"@,
        icon_for_ext("csv"@) == "📊"@,
        icon_for_ext("tsv"@) == "📊"@,
{
    lemma_extension_texts();
    lemma_icon_group_0("xls"@);
    lemma_icon_group_1("xls"@);
    lemma_icon_group_2("xls"@);
    lemma_icon_group_3("xls"@);
    lemma_icon_group_4("xls"@);
    lemma_icon_group_5("xls"@);
    lemma_icon_group_6("xls"@);
    lemma_icon_group_7("xls"@);
    lemma_icon_group_8("xls"@);
    lemma_icon_group_9("xls"@);
    lemma_icon_group_10("xls"@);
    lemma_icon_group_11("xls"@);
    lemma_icon_group_12("xls"@);
    lemma_icon_group_13("xls"@);
    lemma_icon_group_14("xls"@);
    lemma_icon_group_15("xls"@);
    lemma_icon_group_16("xls"@);
    lemma_icon_group_17("xls"@);
    lemma_icon_group_18("xls"@);
    lemma_icon_group_19("xls"@);
    lemma_icon_group_20("xls"@);
    lemma_icon_group_21("xls"@);
    lemma_icon_group_0("xlsx"@);
    lemma_icon_group_1("xlsx"@);
    lemma_icon_group_2("xlsx"@);
    lemma_icon_group_3("xlsx"@);
    lemma_icon_group_4("xlsx"@);
    lemma_icon_group_5("xlsx"@);
    lemma_icon_group_6("xlsx"@);
    lemma_icon_group_7("xlsx"@);
    lemma_icon_group_8("xlsx"@);
    lemma_icon_group_9("xlsx"@);
    lemma_icon_group_10("xlsx"@);
    lemma_icon_group_11("xlsx"@);
    lemma_icon_group_12("xlsx"@);
    lemma_icon_group_13("xlsx"@);
    lemma_icon_group_14("xlsx"@);
    lemma_icon_group_15("xlsx"@);
    lemma_icon_group_16("xlsx"@);
    lemma_icon_group_17("xlsx"@);
    lemma_icon_group_18("xlsx"@);
    lemma_icon_group_19("xlsx"@);
    lemma_icon_group_20("xlsx"@);
    lemma_icon_group_21("xlsx"@);
    lemma_icon_group_0("csv"@);
    lemma_icon_group_1("csv"@);
    lemma_icon_group_2("csv"@);
    lemma_icon_group_3("csv"@);
    lemma_icon_group_4("csv"@);
    lemma_icon_group_5("csv"@);
    lemma_icon_group_6("csv"@);
    lemma_icon_group_7("csv"@);
    lemma_icon_group_8("csv"@);
    lemma_icon_group_9("csv"@);
    lemma_icon_group_10("csv"@);
    lemma_icon_group_11("csv"@);
    lemma_icon_group_12("csv"@);
    lemma_icon_group_13("csv"@);
    lemma_icon_group_14("csv"@);
    lemma_icon_group_15("csv"@);
    lemma_icon_group_16("csv"@);
    lemma_icon_group_17("csv"@);
    lemma_icon_group_18("csv"@);
    lemma_icon_group_19("csv"@);
    lemma_icon_group_20("csv"@);
    lemma_icon_group_21("csv"@);
    lemma_icon_group_0("tsv"@);
    lemma_icon_group_1("tsv"@);
    lemma_icon_group_2("tsv"@);
    lemma_icon_group_3("tsv"@);
    lemma_icon_group_4("tsv"@);
    lemma_icon_group_5("tsv"@);
    lemma_icon_group_6("tsv"@);
    lemma_icon_group_7("tsv"@);
    lemma_icon_group_8("tsv"@);
    lemma_icon_group_9("tsv"@);
    lemma_icon_group_10("tsv"@);
    lemma_icon_group_11("tsv"@);
    lemma_icon_group_12("tsv"@);
    lemma_icon_group_13("tsv"@);
    lemma_icon_group_14("tsv"@);
    lemma_icon_group_15("tsv"@);
    lemma_icon_group_16("tsv"@);
    lemma_icon_group_17("tsv"@);
    lemma_icon_group_18("tsv"@);
    lemma_icon_group_19("tsv"@);
    lemma_icon_group_20("tsv"@);
    lemma_icon_group_21("tsv"@);
}

proof fn lemma_icon_family_22()
    ensures
        icon_for_ext("ppt"@) == "📽️"@,
        icon_for_ext("pptx"@) == "📽️"@,
{
    lemma_extension_texts();
    lemma_icon_group_0("ppt"@);
    lemma_icon_group_1("ppt"@);
    lemma_icon_group_2("ppt"@);
    lemma_icon_group_3("ppt"@);
    lemma_icon_group_4("ppt"@);
    lemma_icon_group_5("ppt"@);
    lemma_icon_group_6("ppt"@);
    lemma_icon_group_7("ppt"@);
    lemma_icon_group_8("ppt"@);
    lemma_icon_group_9("ppt"@);
    lemma_icon_group_10("ppt"@);
    lemma_icon_group_11("ppt"@);
    lemma_icon_group_12("ppt"@);
    lemma_icon_group_13("ppt"@);
    lemma_icon_group_14("ppt"@);
    lemma_icon_group_15("ppt"@);
    lemma_icon_group_16("ppt"@);
    lemma_icon_group_17("ppt"@);
    lemma_icon_group_18("ppt"@);
    lemma_icon_group_19("ppt"@);
    lemma_icon_group_20("ppt"@);
    lemma_icon_group_21("ppt"@);
    lemma_icon_group_22("ppt"@);
    lemma_icon_group_0("pptx"@);
    lemma_icon_group_1("pptx"@);
    lemma_icon_group_2("pptx"@);
    lemma_icon_group_3("pptx"@);
    lemma_icon_group_4("pptx"@);
    lemma_icon_group_5("pptx"@);
    lemma_icon_group_6("pptx"@);
    lemma_icon_group_7("pptx"@);
    lemma_icon_group_8("pptx"@);
    lemma_icon_group_9("pptx"@);
    lemma_icon_group_10("pptx"@);
    lemma_icon_group_11("pptx"@);
    lemma_icon_group_12("pptx"@);
    lemma_icon_group_13("pptx"@);
    lemma_icon_group_14("pptx"@);
    lemma_icon_group_15("pptx"@);
    lemma_icon_group_16("pptx"@);
    lemma_icon_group_17("pptx"@);
    lemma_icon_group_18("pptx"@);
    lemma_icon_group_19("pptx"@);
    lemma_icon_group_20("pptx"@);
    lemma_icon_group_21("pptx"@);
    lemma_icon_group_22("pptx"@);
}

proof fn lemma_icon_family_23()
    ensures
        icon_for_ext("rtf"@) == "📜"@,
        icon_for_ext("tex"@) == "📜"@,
{
    lemma_extension_texts();
    lemma_icon_group_0("rtf"@);
    lemma_icon_group_1("rtf"@);
    lemma_icon_group_2("rtf"@);
    lemma_icon_group_3("rtf"@);
    lemma_icon_group_4("rtf"@);
    lemma_icon_group_5("rtf"@);
    lemma_icon_group_6("rtf"@);
    lemma_icon_group_7("rtf"@);
    lemma_icon_group_8("rtf"@);
    lemma_icon_group_9("rtf"@);
    lemma_icon_group_10("rtf"@);
    lemma_icon_group_11("rtf"@);
    lemma_icon_group_12("rtf"@);
    lemma_icon_group_13("rtf"@);
    lemma_icon_group_14("rtf"@);
    lemma_icon_group_15("rtf"@);
    lemma_icon_group_16("rtf"@);
    lemma_icon_group_17("rtf"@);
    lemma_icon_group_18("rtf"@);
    lemma_icon_group_19("rtf"@);
    lemma_icon_group_20("rtf"@);
    lemma_icon_group_21("rtf"@);
    lemma_icon_group_22("rtf"@);
    lemma_icon_group_23("rtf"@);
    lemma_icon_group_0("tex"@);
    lemma_icon_group_1("tex"@);
    lemma_icon_group_2("tex"@);
    lemma_icon_group_3("tex"@);
    lemma_icon_group_4("tex"@);
    lemma_icon_group_5("tex"@);
    lemma_icon_group_6("tex"@);
    lemma_icon_group_7("tex"@);
    lemma_icon_group_8("tex"@);
    lemma_icon_group_9("tex"@);
    lemma_icon_group_10("tex"@);
    lemma_icon_group_11("tex"@);
    lemma_icon_group_12("tex"@);
    lemma_icon_group_13("tex"@);
    lemma_icon_group_14("tex"@);
    lemma_icon_group_15("tex"@);
    lemma_icon_group_16("tex"@);
    lemma_icon_group_17("tex"@);
    lemma_icon_group_18("tex"@);
    lemma_icon_group_19("tex"@);
    lemma_icon_group_20("tex"@);
    lemma_icon_group_21("tex"@);
    lemma_icon_group_22("tex"@);
    lemma_icon_group_23("tex"@);
}

proof fn lemma_icon_family_24()
    ensures
        icon_for_ext("png"@) == "🖼️"@,
        icon_for_ext("jpg"@) == "🖼️"@,
        icon_for_ext("jpeg"@) == "🖼️"@,
        icon_for_ext("gif"@) == "🖼️"@,
        icon_for_ext("webp"@) == "🖼️"@,
        icon_for_ext("bmp"@) == "🖼️"@,
{
    lemma_extension_texts();
    lemma_icon_group_0("png"@);
    lemma_icon_group_1("png"@);
    lemma_icon_group_2("png"@);
    lemma_icon_group_3("png"@);
    lemma_icon_group_4("png"@);
    lemma_icon_group_5("png"@);
    lemma_icon_group_6("png"@);
    lemma_icon_group_7("png"@);
    lemma_icon_group_8("png"@);
    lemma_icon_group_9("png"@);
    lemma_icon_group_10("png"@);
    lemma_icon_group_11("png"@);
    lemma_icon_group_12("png"@);
    lemma_icon_group_13("png"@);
    lemma_icon_group_14("png"@);
    lemma_icon_group_15("png"@);
    lemma_icon_group_16("png"@);
    lemma_icon_group_17("png"@);
    lemma_icon_group_18("png"@);
    lemma_icon_group_19("png"@);
    lemma_icon_group_20("png"@);
    lemma_icon_group_21("png"@);
    lemma_icon_group_22("png"@);
    lemma_icon_group_23("png"@);
    lemma_icon_group_24("png"@);
    lemma_icon_group_0("jpg"@);
    lemma_icon_group_1("jpg"@);
    lemma_icon_group_2("jpg"@);
    lemma_icon_group_3("jpg"@);
    lemma_icon_group_4("jpg"@);
    lemma_icon_group_5("jpg"@);
    lemma_icon_group_6("jpg"@);
    lemma_icon_group_7("jpg"@);
    lemma_icon_group_8("jpg"@);
    lemma_icon_group_9("jpg"@);
    lemma_icon_group_10("jpg"@);
    lemma_icon_group_11("jpg"@);
    lemma_icon_group_12("jpg"@);
    lemma_icon_group_13("jpg"@);
    lemma_icon_group_14("jpg"@);
    lemma_icon_group_15("jpg"@);
    lemma_icon_group_16("jpg"@);
    lemma_icon_group_17("jpg"@);
    lemma_icon_group_18("jpg"@);
    lemma_icon_group_19("jpg"@);
    lemma_icon_group_20("jpg"@);
    lemma_icon_group_21("jpg"@);
    lemma_icon_group_22("jpg"@);
    lemma_icon_group_23("jpg"@);
    lemma_icon_group_24("jpg"@);
    lemma_icon_group_0("jpeg"@);
    lemma_icon_group_1("jpeg"@);
    lemma_icon_group_2("jpeg"@);
    lemma_icon_group_3("jpeg"@);
    lemma_icon_group_4("jpeg"@);
    lemma_icon_group_5("jpeg"@);
    lemma_icon_group_6("jpeg"@);
    lemma_icon_group_7("jpeg"@);
    lemma_icon_group_8("jpeg"@);
    lemma_icon_group_9("jpeg"@);
    lemma_icon_group_10("jpeg"@);
    lemma_icon_group_11("jpeg"@);
    lemma_icon_group_12("jpeg"@);
    lemma_icon_group_13("jpeg"@);
    lemma_icon_group_14("jpeg"@);
    lemma_icon_group_15("jpeg"@);
    lemma_icon_group_16("jpeg"@);
    lemma_icon_group_17("jpeg"@);
    lemma_icon_group_18("jpeg"@);
    lemma_icon_group_19("jpeg"@);
    lemma_icon_group_20("jpeg"@);
    lemma_icon_group_21("jpeg"@);
    lemma_icon_group_22("jpeg"@);
    lemma_icon_group_23("jpeg"@);
    lemma_icon_group_24("jpeg"@);
    lemma_icon_group_0("gif"@);
    lemma_icon_group_1("gif"@);
    lemma_icon_group_2("gif"@);
    lemma_icon_group_3("gif"@);
    lemma_icon_group_4("gif"@);
    lemma_icon_group_5("gif"@);
    lemma_icon_group_6("gif"@);
    lemma_icon_group_7("gif"@);
    lemma_icon_group_8("gif"@);
    lemma_icon_group_9("gif"@);
    lemma_icon_group_10("gif"@);
    lemma_icon_group_11("gif"@);
    lemma_icon_group_12("gif"@);
    lemma_icon_group_13("gif"@);
    lemma_icon_group_14("gif"@);
    lemma_icon_group_15("gif"@);
    lemma_icon_group_16("gif"@);
    lemma_icon_group_17("gif"@);
    lemma_icon_group_18("gif"@);
    lemma_icon_group_19("gif"@);
    lemma_icon_group_20("gif"@);
    lemma_icon_group_21("gif"@);
    lemma_icon_group_22("gif"@);
    lemma_icon_group_23("gif"@);
    lemma_icon_group_24("gif"@);
    lemma_icon_group_0("webp"@);
    lemma_icon_group_1("webp"@);
    lemma_icon_group_2("webp"@);
    lemma_icon_group_3("webp"@);
    lemma_icon_group_4("webp"@);
    lemma_icon_group_5("webp"@);
    lemma_icon_group_6("webp"@);
    lemma_icon_group_7("webp"@);
    lemma_icon_group_8("webp"@);
    lemma_icon_group_9("webp"@);
    lemma_icon_group_10("webp"@);
    lemma_icon_group_11("webp"@);
    lemma_icon_group_12("webp"@);
    lemma_icon_group_13("webp"@);
    lemma_icon_group_14("webp"@);
    lemma_icon_group_15("webp"@);
    lemma_icon_group_16("webp"@);
    lemma_icon_group_17("webp"@);
    lemma_icon_group_18("webp"@);
    lemma_icon_group_19("webp"@);
    lemma_icon_group_20("webp"@);
    lemma_icon_group_21("webp"@);
    lemma_icon_group_22("webp"@);
    lemma_icon_group_23("webp"@);
    lemma_icon_group_24("webp"@);
    lemma_icon_group_0("bmp"@);
    lemma_icon_group_1("bmp"@);
    lemma_icon_group_2("bmp"@);
    lemma_icon_group_3("bmp"@);
    lemma_icon_group_4("bmp"@);
    lemma_icon_group_5("bmp"@);
    lemma_icon_group_6("bmp"@);
    lemma_icon_group_7("bmp"@);
    lemma_icon_group_8("bmp"@);
    lemma_icon_group_9("bmp"@);
    lemma_icon_group_10("bmp"@);
    lemma_icon_group_11("bmp"@);
    lemma_icon_group_12("bmp"@);
    lemma_icon_group_13("bmp"@);
    lemma_icon_group_14("bmp"@);
    lemma_icon_group_15("bmp"@);
    lemma_icon_group_16("bmp"@);
    lemma_icon_group_17("bmp"@);
    lemma_icon_group_18("bmp"@);
    lemma_icon_group_19("bmp"@);
    lemma_icon_group_20("bmp"@);
    lemma_icon_group_21("bmp"@);
    lemma_icon_group_22("bmp"@);
    lemma_icon_group_23("bmp"@);
    lemma_icon_group_24("bmp"@);
}

proof fn lemma_icon_family_25()
    ensures
        icon_for_ext("svg"@) == "📐"@,
{
    lemma_extension_texts();
    lemma_icon_group_0("svg"@);
    lemma_icon_group_1("svg"@);
    lemma_icon_group_2("svg"@);
    lemma_icon_group_3("svg"@);
    lemma_icon_group_4("svg"@);
    lemma_icon_group_5("svg"@);
    lemma_icon_group_6("svg"@);
    lemma_icon_group_7("svg"@);
    lemma_icon_group_8("svg"@);
    lemma_icon_group_9("svg"@);
    lemma_icon_group_10("svg"@);
    lemma_icon_group_11("svg"@);
    lemma_icon_group_12("svg"@);
    lemma_icon_group_13("svg"@);
    lemma_icon_group_14("svg"@);
    lemma_icon_group_15("svg"@);
    lemma_icon_group_16("svg"@);
    lemma_icon_group_17("svg"@);
    lemma_icon_group_18("svg"@);
    lemma_icon_group_19("svg"@);
    lemma_icon_group_20("svg"@);
    lemma_icon_group_21("svg"@);
    lemma_icon_group_22("svg"@);
    lemma_icon_group_23("svg"@);
    lemma_icon_group_24("svg"@);
    lemma_icon_group_25("svg"@);
}

proof fn lemma_icon_family_26()
    ensures
        icon_for_ext("mp4"@) == "🎬"@,
        icon_for_ext("mkv"@) == "🎬"@,
        icon_for_ext("avi"@) == "🎬"@,
        icon_for_ext("mov"@) == "🎬"@,
        icon_for_ext("webm"@) == "🎬"@,
{
    lemma_extension_texts();
    lemma_icon_group_0("mp4"@);
    lemma_icon_group_1("mp4"@);
    lemma_icon_group_2("mp4"@);
    lemma_icon_group_3("mp4"@);
    lemma_icon_group_4("mp4"@);
    lemma_icon_group_5("mp4"@);
    lemma_icon_group_6("mp4"@);
    lemma_icon_group_7("mp4"@);
    lemma_icon_group_8("mp4"@);
    lemma_icon_group_9("mp4"@);
    lemma_icon_group_10("mp4"@);
    lemma_icon_group_11("mp4"@);
    lemma_icon_group_12("mp4"@);
    lemma_icon_group_13("mp4"@);
    lemma_icon_group_14("mp4"@);
    lemma_icon_group_15("mp4"@);
    lemma_icon_group_16("mp4"@);
    lemma_icon_group_17("mp4"@);
    lemma_icon_group_18("mp4"@);
    lemma_icon_group_19("mp4"@);
    lemma_icon_group_20("mp4"@);
    lemma_icon_group_21("mp4"@);
    lemma_icon_group_22("mp4"@);
    lemma_icon_group_23("mp4"@);
    lemma_icon_group_24("mp4"@);
    lemma_icon_group_25("mp4"@);
    lemma_icon_group_26("mp4"@);
    lemma_icon_group_0("mkv"@);
    lemma_icon_group_1("mkv"@);
    lemma_icon_group_2("mkv"@);
    lemma_icon_group_3("mkv"@);
    lemma_icon_group_4("mkv"@);
    lemma_icon_group_5("mkv"@);
    lemma_icon_group_6("mkv"@);
    lemma_icon_group_7("mkv"@);
    lemma_icon_group_8("mkv"@);
    lemma_icon_group_9("mkv"@);
    lemma_icon_group_10("mkv"@);
    lemma_icon_group_11("mkv"@);
    lemma_icon_group_12("mkv"@);
    lemma_icon_group_13("mkv"@);
    lemma_icon_group_14("mkv"@);
    lemma_icon_group_15("mkv"@);
    lemma_icon_group_16("mkv"@);
    lemma_icon_group_17("mkv"@);
    lemma_icon_group_18("mkv"@);
    lemma_icon_group_19("mkv"@);
    lemma_icon_group_20("mkv"@);
    lemma_icon_group_21("mkv"@);
    lemma_icon_group_22("mkv"@);
    lemma_icon_group_23("mkv"@);
    lemma_icon_group_24("mkv"@);
    lemma_icon_group_25("mkv"@);
    lemma_icon_group_26("mkv"@);
    lemma_icon_group_0("avi"@);
    lemma_icon_group_1("avi"@);
    lemma_icon_group_2("avi"@);
    lemma_icon_group_3("avi"@);
    lemma_icon_group_4("avi"@);
    lemma_icon_group_5("avi"@);
    lemma_icon_group_6("avi"@);
    lemma_icon_group_7("avi"@);
    lemma_icon_group_8("avi"@);
    lemma_icon_group_9("avi"@);
    lemma_icon_group_10("avi"@);
    lemma_icon_group_11("avi"@);
    lemma_icon_group_12("avi"@);
    lemma_icon_group_13("avi"@);
    lemma_icon_group_14("avi"@);
    lemma_icon_group_15("avi"@);
    lemma_icon_group_16("avi"@);
    lemma_icon_group_17("avi"@);
    lemma_icon_group_18("avi"@);
    lemma_icon_group_19("avi"@);
    lemma_icon_group_20("avi"@);
    lemma_icon_group_21("avi"@);
    lemma_icon_group_22("avi"@);
    lemma_icon_group_23("avi"@);
    lemma_icon_group_24("avi"@);
    lemma_icon_group_25("avi"@);
    lemma_icon_group_26("avi"@);
    lemma_icon_group_0("mov"@);
    lemma_icon_group_1("mov"@);
    lemma_icon_group_2("mov"@);
    lemma_icon_group_3("mov"@);
    lemma_icon_group_4("mov"@);
    lemma_icon_group_5("mov"@);
    lemma_icon_group_6("mov"@);
    lemma_icon_group_7("mov"@);
    lemma_icon_group_8("mov"@);
    lemma_icon_group_9("mov"@);
    lemma_icon_group_10("mov"@);
    lemma_icon_group_11("mov"@);
    lemma_icon_group_12("mov"@);
    lemma_icon_group_13("mov"@);
    lemma_icon_group_14("mov"@);
    lemma_icon_group_15("mov"@);
    lemma_icon_group_16("mov"@);
    lemma_icon_group_17("mov"@);
    lemma_icon_group_18("mov"@);
    lemma_icon_group_19("mov"@);
    lemma_icon_group_20("mov"@);
    lemma_icon_group_21("mov"@);
    lemma_icon_group_22("mov"@);
    lemma_icon_group_23("mov"@);
    lemma_icon_group_24("mov"@);
    lemma_icon_group_25("mov"@);
    lemma_icon_group_26("mov"@);
    lemma_icon_group_0("webm"@);
    lemma_icon_group_1("webm"@);
    lemma_icon_group_2("webm"@);
    lemma_icon_group_3("webm"@);
    lemma_icon_group_4("webm"@);
    lemma_icon_group_5("webm"@);
    lemma_icon_group_6("webm"@);
    lemma_icon_group_7("webm"@);
    lemma_icon_group_8("webm"@);
    lemma_icon_group_9("webm"@);
    lemma_icon_group_10("webm"@);
    lemma_icon_group_11("webm"@);
    lemma_icon_group_12("webm"@);
    lemma_icon_group_13("webm"@);
    lemma_icon_group_14("webm"@);
    lemma_icon_group_15("webm"@);
    lemma_icon_group_16("webm"@);
    lemma_icon_group_17("webm"@);
    lemma_icon_group_18("webm"@);
    lemma_icon_group_19("webm"@);
    lemma_icon_group_20("webm"@);
    lemma_icon_group_21("webm"@);
    lemma_icon_group_22("webm"@);
    lemma_icon_group_23("webm"@);
    lemma_icon_group_24("webm"@);
    lemma_icon_group_25("webm"@);
    lemma_icon_group_26("webm"@);
}

proof fn lemma_icon_family_27()
    ensures
        icon_for_ext("mp3"@) == "🎵"@,
        icon_for_ext("wav"@) == "🎵"@,
        icon_for_ext("flac"@) == "🎵"@,
        icon_for_ext("ogg"@) == "🎵"@,
        icon_for_ext("m4a"@) == "🎵"@,
{
    lemma_extension_texts();
    lemma_icon_group_0("mp3"@);
    lemma_icon_group_1("mp3"@);
    lemma_icon_group_2("mp3"@);
    lemma_icon_group_3("mp3"@);
    lemma_icon_group_4("mp3"@);
    lemma_icon_group_5("mp3"@);
    lemma_icon_group_6("mp3"@);
    lemma_icon_group_7("mp3"@);
    lemma_icon_group_8("mp3"@);
    lemma_icon_group_9("mp3"@);
    lemma_icon_group_10("mp3"@);
    lemma_icon_group_11("mp3"@);
    lemma_icon_group_12("mp3"@);
    lemma_icon_group_13("mp3"@);
    lemma_icon_group_14("mp3"@);
    lemma_icon_group_15("mp3"@);
    lemma_icon_group_16("mp3"@);
    lemma_icon_group_17("mp3"@);
    lemma_icon_group_18("mp3"@);
    lemma_icon_group_19("mp3"@);
    lemma_icon_group_20("mp3"@);
    lemma_icon_group_21("mp3"@);
    lemma_icon_group_22("mp3"@);
    lemma_icon_group_23("mp3"@);
    lemma_icon_group_24("mp3"@);
    lemma_icon_group_25("mp3"@);
    lemma_icon_group_26("mp3"@);
    lemma_icon_group_27("mp3"@);
    lemma_icon_group_0("wav"@);
    lemma_icon_group_1("wav"@);
    lemma_icon_group_2("wav"@);
    lemma_icon_group_3("wav"@);
    lemma_icon_group_4("wav"@);
    lemma_icon_group_5("wav"@);
    lemma_icon_group_6("wav"@);
    lemma_icon_group_7("wav"@);
    lemma_icon_group_8("wav"@);
    lemma_icon_group_9("wav"@);
    lemma_icon_group_10("wav"@);
    lemma_icon_group_11("wav"@);
    lemma_icon_group_12("wav"@);
    lemma_icon_group_13("wav"@);
    lemma_icon_group_14("wav"@);
    lemma_icon_group_15("wav"@);
    lemma_icon_group_16("wav"@);
    lemma_icon_group_17("wav"@);
    lemma_icon_group_18("wav"@);
    lemma_icon_group_19("wav"@);
    lemma_icon_group_20("wav"@);
    lemma_icon_group_21("wav"@);
    lemma_icon_group_22("wav"@);
    lemma_icon_group_23("wav"@);
    lemma_icon_group_24("wav"@);
    lemma_icon_group_25("wav"@);
    lemma_icon_group_26("wav"@);
    lemma_icon_group_27("wav"@);
    lemma_icon_group_0("flac"@);
    lemma_icon_group_1("flac"@);
    lemma_icon_group_2("flac"@);
    lemma_icon_group_3("flac"@);
    lemma_icon_group_4("flac"@);
    lemma_icon_group_5("flac"@);
    lemma_icon_group_6("flac"@);
    lemma_icon_group_7("flac"@);
    lemma_icon_group_8("flac"@);
    lemma_icon_group_9("flac"@);
    lemma_icon_group_10("flac"@);
    lemma_icon_group_11("flac"@);
    lemma_icon_group_12("flac"@);
    lemma_icon_group_13("flac"@);
    lemma_icon_group_14("flac"@);
    lemma_icon_group_15("flac"@);
    lemma_icon_group_16("flac"@);
    lemma_icon_group_17("flac"@);
    lemma_icon_group_18("flac"@);
    lemma_icon_group_19("flac"@);
    lemma_icon_group_20("flac"@);
    lemma_icon_group_21("flac"@);
    lemma_icon_group_22("flac"@);
    lemma_icon_group_23("flac"@);
    lemma_icon_group_24("flac"@);
    lemma_icon_group_25("flac"@);
    lemma_icon_group_26("flac"@);
    lemma_icon_group_27("flac"@);
    lemma_icon_group_0("ogg"@);
    lemma_icon_group_1("ogg"@);
    lemma_icon_group_2("ogg"@);
    lemma_icon_group_3("ogg"@);
    lemma_icon_group_4("ogg"@);
    lemma_icon_group_5("ogg"@);
    lemma_icon_group_6("ogg"@);
    lemma_icon_group_7("ogg"@);
    lemma_icon_group_8("ogg"@);
    lemma_icon_group_9("ogg"@);
    lemma_icon_group_10("ogg"@);
    lemma_icon_group_11("ogg"@);
    lemma_icon_group_12("ogg"@);
    lemma_icon_group_13("ogg"@);
    lemma_icon_group_14("ogg"@);
    lemma_icon_group_15("ogg"@);
    lemma_icon_group_16("ogg"@);
    lemma_icon_group_17("ogg"@);
    lemma_icon_group_18("ogg"@);
    lemma_icon_group_19("ogg"@);
    lemma_icon_group_20("ogg"@);
    lemma_icon_group_21("ogg"@);
    lemma_icon_group_22("ogg"@);
    lemma_icon_group_23("ogg"@);
    lemma_icon_group_24("ogg"@);
    lemma_icon_group_25("ogg"@);
    lemma_icon_group_26("ogg"@);
    lemma_icon_group_27("ogg"@);
    lemma_icon_group_0("m4a"@);
    lemma_icon_group_1("m4a"@);
    lemma_icon_group_2("m4a"@);
    lemma_icon_group_3("m4a"@);
    lemma_icon_group_4("m4a"@);
    lemma_icon_group_5("m4a"@);
    lemma_icon_group_6("m4a"@);
    lemma_icon_group_7("m4a"@);
    lemma_icon_group_8("m4a"@);
    lemma_icon_group_9("m4a"@);
    lemma_icon_group_10("m4a"@);
    lemma_icon_group_11("m4a"@);
    lemma_icon_group_12("m4a"@);
    lemma_icon_group_13("m4a"@);
    lemma_icon_group_14("m4a"@);
    lemma_icon_group_15("m4a"@);
    lemma_icon_group_16("m4a"@);
    lemma_icon_group_17("m4a"@);
    lemma_icon_group_18("m4a"@);
    lemma_icon_group_19("m4a"@);
    lemma_icon_group_20("m4a"@);
    lemma_icon_group_21("m4a"@);
    lemma_icon_group_22("m4a"@);
    lemma_icon_group_23("m4a"@);
    lemma_icon_group_24("m4a"@);
    lemma_icon_group_25("m4a"@);
    lemma_icon_group_26("m4a"@);
    lemma_icon_group_27("m4a"@);
}

proof fn lemma_icon_family_28()
    ensures
        icon_for_ext("psd"@) == "🖌️"@,
        icon_for_ext("ai"@) == "🖌️"@,
        icon_for_ext("xcf"@) == "🖌️"@,
{
    lemma_extension_texts();
    lemma_icon_group_0("psd"@);
    lemma_icon_group_1("psd"@);
    lemma_icon_group_2("psd"@);
    lemma_icon_group_3("psd"@);
    lemma_icon_group_4("psd"@);
    lemma_icon_group_5("psd"@);
    lemma_icon_group_6("psd"@);
    lemma_icon_group_7("psd"@);
    lemma_icon_group_8("psd"@);
    lemma_icon_group_9("psd"@);
    lemma_icon_group_10("psd"@);
    lemma_icon_group_11("psd"@);
    lemma_icon_group_12("psd"@);
    lemma_icon_group_13("psd"@);
    lemma_icon_group_14("psd"@);
    lemma_icon_group_15("psd"@);
    lemma_icon_group_16("psd"@);
    lemma_icon_group_17("psd"@);
    lemma_icon_group_18("psd"@);
    lemma_icon_group_19("psd"@);
    lemma_icon_group_20("psd"@);
    lemma_icon_group_21("psd"@);
    lemma_icon_group_22("psd"@);
    lemma_icon_group_23("psd"@);
    lemma_icon_group_24("psd"@);
    lemma_icon_group_25("psd"@);
    lemma_icon_group_26("psd"@);
    lemma_icon_group_27("psd"@);
    lemma_icon_group_28("psd"@);
    lemma_icon_group_0("ai"@);
    lemma_icon_group_1("ai"@);
    lemma_icon_group_2("ai"@);
    lemma_icon_group_3("ai"@);
    lemma_icon_group_4("ai"@);
    lemma_icon_group_5("ai"@);
    lemma_icon_group_6("ai"@);
    lemma_icon_group_7("ai"@);
    lemma_icon_group_8("ai"@);
    lemma_icon_group_9("ai"@);
    lemma_icon_group_10("ai"@);
    lemma_icon_group_11("ai"@);
    lemma_icon_group_12("ai"@);
    lemma_icon_group_13("ai"@);
    lemma_icon_group_14("ai"@);
    lemma_icon_group_15("ai"@);
    lemma_icon_group_16("ai"@);
    lemma_icon_group_17("ai"@);
    lemma_icon_group_18("ai"@);
    lemma_icon_group_19("ai"@);
    lemma_icon_group_20("ai"@);
    lemma_icon_group_21("ai"@);
    lemma_icon_group_22("ai"@);
    lemma_icon_group_23("ai"@);
    lemma_icon_group_24("ai"@);
    lemma_icon_group_25("ai"@);
    lemma_icon_group_26("ai"@);
    lemma_icon_group_27("ai"@);
    lemma_icon_group_28("ai"@);
    lemma_icon_group_0("xcf"@);
    lemma_icon_group_1("xcf"@);
    lemma_icon_group_2("xcf"@);
    lemma_icon_group_3("xcf"@);
    lemma_icon_group_4("xcf"@);
    lemma_icon_group_5("xcf"@);
    lemma_icon_group_6("xcf"@);
    lemma_icon_group_7("xcf"@);
    lemma_icon_group_8("xcf"@);
    lemma_icon_group_9("xcf"@);
    lemma_icon_group_10("xcf"@);
    lemma_icon_group_11("xcf"@);
    lemma_icon_group_12("xcf"@);
    lemma_icon_group_13("xcf"@);
    lemma_icon_group_14("xcf"@);
    lemma_icon_group_15("xcf"@);
    lemma_icon_group_16("xcf"@);
    lemma_icon_group_17("xcf"@);
    lemma_icon_group_18("xcf"@);
    lemma_icon_group_19("xcf"@);
    lemma_icon_group_20("xcf"@);
    lemma_icon_group_21("xcf"@);
    lemma_icon_group_22("xcf"@);
    lemma_icon_group_23("xcf"@);
    lemma_icon_group_24("xcf"@);
    lemma_icon_group_25("xcf"@);
    lemma_icon_group_26("xcf"@);
    lemma_icon_group_27("xcf"@);
    lemma_icon_group_28("xcf"@);
}

proof fn lemma_icon_family_29()
    ensures
        icon_for_ext("zip"@) == "📦"@,
        icon_for_ext("tar"@) == "📦"@,
        icon_for_ext("gz"@) == "📦"@,
        icon_for_ext("7z"@) == "📦"@,
        icon_for_ext("rar"@) == "📦"@,
        icon_for_ext("bz2"@) == "📦"@,
{
    lemma_extension_texts();
    lemma_icon_group_0("zip"@);
    lemma_icon_group_1("zip"@);
    lemma_icon_group_2("zip"@);
    lemma_icon_group_3("zip"@);
    lemma_icon_group_4("zip"@);
    lemma_icon_group_5("zip"@);
    lemma_icon_group_6("zip"@);
    lemma_icon_group_7("zip"@);
    lemma_icon_group_8("zip"@);
    lemma_icon_group_9("zip"@);
    lemma_icon_group_10("zip"@);
    lemma_icon_group_11("zip"@);
    lemma_icon_group_12("zip"@);
    lemma_icon_group_13("zip"@);
    lemma_icon_group_14("zip"@);
    lemma_icon_group_15("zip"@);
    lemma_icon_group_16("zip"@);
    lemma_icon_group_17("zip"@);
    lemma_icon_group_18("zip"@);
    lemma_icon_group_19("zip"@);
    lemma_icon_group_20("zip"@);
    lemma_icon_group_21("zip"@);
    lemma_icon_group_22("zip"@);
    lemma_icon_group_23("zip"@);
    lemma_icon_group_24("zip"@);
    lemma_icon_group_25("zip"@);
    lemma_icon_group_26("zip"@);
    lemma_icon_group_27("zip"@);
    lemma_icon_group_28("zip"@);
    lemma_icon_group_29("zip"@);
    lemma_icon_group_0("tar"@);
    lemma_icon_group_1("tar"@);
    lemma_icon_group_2("tar"@);
    lemma_icon_group_3("tar"@);
    lemma_icon_group_4("tar"@);
    lemma_icon_group_5("tar"@);
    lemma_icon_group_6("tar"@);
    lemma_icon_group_7("tar"@);
    lemma_icon_group_8("tar"@);
    lemma_icon_group_9("tar"@);
    lemma_icon_group_10("tar"@);
    lemma_icon_group_11("tar"@);
    lemma_icon_group_12("tar"@);
    lemma_icon_group_13("tar"@);
    lemma_icon_group_14("tar"@);
    lemma_icon_group_15("tar"@);
    lemma_icon_group_16("tar"@);
    lemma_icon_group_17("tar"@);
    lemma_icon_group_18("tar"@);
    lemma_icon_group_19("tar"@);
    lemma_icon_group_20("tar"@);
    lemma_icon_group_21("tar"@);
    lemma_icon_group_22("tar"@);
    lemma_icon_group_23("tar"@);
    lemma_icon_group_24("tar"@);
    lemma_icon_group_25("tar"@);
    lemma_icon_group_26("tar"@);
    lemma_icon_group_27("tar"@);
    lemma_icon_group_28("tar"@);
    lemma_icon_group_29("tar"@);
    lemma_icon_group_0("gz"@);
    lemma_icon_group_1("gz"@);
    lemma_icon_group_2("gz"@);
    lemma_icon_group_3("gz"@);
    lemma_icon_group_4("gz"@);
    lemma_icon_group_5("gz"@);
    lemma_icon_group_6("gz"@);
    lemma_icon_group_7("gz"@);
    lemma_icon_group_8("gz"@);
    lemma_icon_group_9("gz"@);
    lemma_icon_group_10("gz"@);
    lemma_icon_group_11("gz"@);
    lemma_icon_group_12("gz"@);
    lemma_icon_group_13("gz"@);
    lemma_icon_group_14("gz"@);
    lemma_icon_group_15("gz"@);
    lemma_icon_group_16("gz"@);
    lemma_icon_group_17("gz"@);
    lemma_icon_group_18("gz"@);
    lemma_icon_group_19("gz"@);
    lemma_icon_group_20("gz"@);
    lemma_icon_group_21("gz"@);
    lemma_icon_group_22("gz"@);
    lemma_icon_group_23("gz"@);
    lemma_icon_group_24("gz"@);
    lemma_icon_group_25("gz"@);
    lemma_icon_group_26("gz"@);
    lemma_icon_group_27("gz"@);
    lemma_icon_group_28("gz"@);
    lemma_icon_group_29("gz"@);
    lemma_icon_group_0("7z"@);
    lemma_icon_group_1("7z"@);
    lemma_icon_group_2("7z"@);
    lemma_icon_group_3("7z"@);
    lemma_icon_group_4("7z"@);
    lemma_icon_group_5("7z"@);
    lemma_icon_group_6("7z"@);
    lemma_icon_group_7("7z"@);
    lemma_icon_group_8("7z"@);
    lemma_icon_group_9("7z"@);
    lemma_icon_group_10("7z"@);
    lemma_icon_group_11("7z"@);
    lemma_icon_group_12("7z"@);
    lemma_icon_group_13("7z"@);
    lemma_icon_group_14("7z"@);
    lemma_icon_group_15("7z"@);
    lemma_icon_group_16("7z"@);
    lemma_icon_group_17("7z"@);
    lemma_icon_group_18("7z"@);
    lemma_icon_group_19("7z"@);
    lemma_icon_group_20("7z"@);
    lemma_icon_group_21("7z"@);
    lemma_icon_group_22("7z"@);
    lemma_icon_group_23("7z"@);
    lemma_icon_group_24("7z"@);
    lemma_icon_group_25("7z"@);
    lemma_icon_group_26("7z"@);
    lemma_icon_group_27("7z"@);
    lemma_icon_group_28("7z"@);
    lemma_icon_group_29("7z"@);
    lemma_icon_group_0("rar"@);
    lemma_icon_group_1("rar"@);
    lemma_icon_group_2("rar"@);
    lemma_icon_group_3("rar"@);
    lemma_icon_group_4("rar"@);
    lemma_icon_group_5("rar"@);
    lemma_icon_group_6("rar"@);
    lemma_icon_group_7("rar"@);
    lemma_icon_group_8("rar"@);
    lemma_icon_group_9("rar"@);
    lemma_icon_group_10("rar"@);
    lemma_icon_group_11("rar"@);
    lemma_icon_group_12("rar"@);
    lemma_icon_group_13("rar"@);
    lemma_icon_group_14("rar"@);
    lemma_icon_group_15("rar"@);
    lemma_icon_group_16("rar"@);
    lemma_icon_group_17("rar"@);
    lemma_icon_group_18("rar"@);
    lemma_icon_group_19("rar"@);
    lemma_icon_group_20("rar"@);
    lemma_icon_group_21("rar"@);
    lemma_icon_group_22("rar"@);
    lemma_icon_group_23("rar"@);
    lemma_icon_group_24("rar"@);
    lemma_icon_group_25("rar"@);
    lemma_icon_group_26("rar"@);
    lemma_icon_group_27("rar"@);
    lemma_icon_group_28("rar"@);
    lemma_icon_group_29("rar"@);
    lemma_icon_group_0("bz2"@);
    lemma_icon_group_1("bz2"@);
    lemma_icon_group_2("bz2"@);
    lemma_icon_group_3("bz2"@);
    lemma_icon_group_4("bz2"@);
    lemma_icon_group_5("bz2"@);
    lemma_icon_group_6("bz2"@);
    lemma_icon_group_7("bz2"@);
    lemma_icon_group_8("bz2"@);
    lemma_icon_group_9("bz2"@);
    lemma_icon_group_10("bz2"@);
    lemma_icon_group_11("bz2"@);
    lemma_icon_group_12("bz2"@);
    lemma_icon_group_13("bz2"@);
    lemma_icon_group_14("bz2"@);
    lemma_icon_group_15("bz2"@);
    lemma_icon_group_16("bz2"@);
    lemma_icon_group_17("bz2"@);
    lemma_icon_group_18("bz2"@);
    lemma_icon_group_19("bz2"@);
    lemma_icon_group_20("bz2"@);
    lemma_icon_group_21("bz2"@);
    lemma_icon_group_22("bz2"@);
    lemma_icon_group_23("bz2"@);
    lemma_icon_group_24("bz2"@);
    lemma_icon_group_25("bz2"@);
    lemma_icon_group_26("bz2"@);
    lemma_icon_group_27("bz2"@);
    lemma_icon_group_28("bz2"@);
    lemma_icon_group_29("bz2"@);
}

proof fn lemma_icon_family_30()
    ensures
        icon_for_ext("exe"@) == "🚀"@,
        icon_for_ext("msi"@) == "🚀"@,
        icon_for_ext("bin"@) == "🚀"@,
        icon_for_ext("app"@) == "🚀"@,
{
    lemma_extension_texts();
    lemma_icon_group_0("exe"@);
    lemma_icon_group_1("exe"@);
    lemma_icon_group_2("exe"@);
    lemma_icon_group_3("exe"@);
    lemma_icon_group_4("exe"@);
    lemma_icon_group_5("exe"@);
    lemma_icon_group_6("exe"@);
    lemma_icon_group_7("exe"@);
    lemma_icon_group_8("exe"@);
    lemma_icon_group_9("exe"@);
    lemma_icon_group_10("exe"@);
    lemma_icon_group_11("exe"@);
    lemma_icon_group_12("exe"@);
    lemma_icon_group_13("exe"@);
    lemma_icon_group_14("exe"@);
    lemma_icon_group_15("exe"@);
    lemma_icon_group_16("exe"@);
    lemma_icon_group_17("exe"@);
    lemma_icon_group_18("exe"@);
    lemma_icon_group_19("exe"@);
    lemma_icon_group_20("exe"@);
    lemma_icon_group_21("exe"@);
    lemma_icon_group_22("exe"@);
    lemma_icon_group_23("exe"@);
    lemma_icon_group_24("exe"@);
    lemma_icon_group_25("exe"@);
    lemma_icon_group_26("exe"@);
    lemma_icon_group_27("exe"@);
    lemma_icon_group_28("exe"@);
    lemma_icon_group_29("exe"@);
    lemma_icon_group_30("exe"@);
    lemma_icon_group_0("msi"@);
    lemma_icon_group_1("msi"@);
    lemma_icon_group_2("msi"@);
    lemma_icon_group_3("msi"@);
    lemma_icon_group_4("msi"@);
    lemma_icon_group_5("msi"@);
    lemma_icon_group_6("msi"@);
    lemma_icon_group_7("msi"@);
    lemma_icon_group_8("msi"@);
    lemma_icon_group_9("msi"@);
    lemma_icon_group_10("msi"@);
    lemma_icon_group_11("msi"@);
    lemma_icon_group_12("msi"@);
    lemma_icon_group_13("msi"@);
    lemma_icon_group_14("msi"@);
    lemma_icon_group_15("msi"@);
    lemma_icon_group_16("msi"@);
    lemma_icon_group_17("msi"@);
    lemma_icon_group_18("msi"@);
    lemma_icon_group_19("msi"@);
    lemma_icon_group_20("msi"@);
    lemma_icon_group_21("msi"@);
    lemma_icon_group_22("msi"@);
    lemma_icon_group_23("msi"@);
    lemma_icon_group_24("msi"@);
    lemma_icon_group_25("msi"@);
    lemma_icon_group_26("msi"@);
    lemma_icon_group_27("msi"@);
    lemma_icon_group_28("msi"@);
    lemma_icon_group_29("msi"@);
    lemma_icon_group_30("msi"@);
    lemma_icon_group_0("bin"@);
    lemma_icon_group_1("bin"@);
    lemma_icon_group_2("bin"@);
    lemma_icon_group_3("bin"@);
    lemma_icon_group_4("bin"@);
    lemma_icon_group_5("bin"@);
    lemma_icon_group_6("bin"@);
    lemma_icon_group_7("bin"@);
    lemma_icon_group_8("bin"@);
    lemma_icon_group_9("bin"@);
    lemma_icon_group_10("bin"@);
    lemma_icon_group_11("bin"@);
    lemma_icon_group_12("bin"@);
    lemma_icon_group_13("bin"@);
    lemma_icon_group_14("bin"@);
    lemma_icon_group_15("bin"@);
    lemma_icon_group_16("bin"@);
    lemma_icon_group_17("bin"@);
    lemma_icon_group_18("bin"@);
    lemma_icon_group_19("bin"@);
    lemma_icon_group_20("bin"@);
    lemma_icon_group_21("bin"@);
    lemma_icon_group_22("bin"@);
    lemma_icon_group_23("bin"@);
    lemma_icon_group_24("bin"@);
    lemma_icon_group_25("bin"@);
    lemma_icon_group_26("bin"@);
    lemma_icon_group_27("bin"@);
    lemma_icon_group_28("bin"@);
    lemma_icon_group_29("bin"@);
    lemma_icon_group_30("bin"@);
    lemma_icon_group_0("app"@);
    lemma_icon_group_1("app"@);
    lemma_icon_group_2("app"@);
    lemma_icon_group_3("app"@);
    lemma_icon_group_4("app"@);
    lemma_icon_group_5("app"@);
    lemma_icon_group_6("app"@);
    lemma_icon_group_7("app"@);
    lemma_icon_group_8("app"@);
    lemma_icon_group_9("app"@);
    lemma_icon_group_10("app"@);
    lemma_icon_group_11("app"@);
    lemma_icon_group_12("app"@);
    lemma_icon_group_13("app"@);
    lemma_icon_group_14("app"@);
    lemma_icon_group_15("app"@);
    lemma_icon_group_16("app"@);
    lemma_icon_group_17("app"@);
    lemma_icon_group_18("app"@);
    lemma_icon_group_19("app"@);
    lemma_icon_group_20("app"@);
    lemma_icon_group_21("app"@);
    lemma_icon_group_22("app"@);
    lemma_icon_group_23("app"@);
    lemma_icon_group_24("app"@);
    lemma_icon_group_25("app"@);
    lemma_icon_group_26("app"@);
    lemma_icon_group_27("app"@);
    lemma_icon_group_28("app"@);
    lemma_icon_group_29("app"@);
    lemma_icon_group_30("app"@);
}

proof fn lemma_icon_family_31()
    ensures
        icon_for_ext("deb"@) == "🛠️"@,
        icon_for_ext("rpm"@) == "🛠️"@,
        icon_for_ext("pkg"@) == "🛠️"@,
{
    lemma_extension_texts();
    lemma_icon_group_0("deb"@);
    lemma_icon_group_1("deb"@);
    lemma_icon_group_2("deb"@);
    lemma_icon_group_3("deb"@);
    lemma_icon_group_4("deb"@);
    lemma_icon_group_5("deb"@);
    lemma_icon_group_6("deb"@);
    lemma_icon_group_7("deb"@);
    lemma_icon_group_8("deb"@);
    lemma_icon_group_9("deb"@);
    lemma_icon_group_10("deb"@);
    lemma_icon_group_11("deb"@);
    lemma_icon_group_12("deb"@);
    lemma_icon_group_13("deb"@);
    lemma_icon_group_14("deb"@);
    lemma_icon_group_15("deb"@);
    lemma_icon_group_16("deb"@);
    lemma_icon_group_17("deb"@);
    lemma_icon_group_18("deb"@);
    lemma_icon_group_19("deb"@);
    lemma_icon_group_20("deb"@);
    lemma_icon_group_21("deb"@);
    lemma_icon_group_22("deb"@);
    lemma_icon_group_23("deb"@);
    lemma_icon_group_24("deb"@);
    lemma_icon_group_25("deb"@);
    lemma_icon_group_26("deb"@);
    lemma_icon_group_27("deb"@);
    lemma_icon_group_28("deb"@);
    lemma_icon_group_29("deb"@);
    lemma_icon_group_30("deb"@);
    lemma_icon_group_31("deb"@);
    lemma_icon_group_0("rpm"@);
    lemma_icon_group_1("rpm"@);
    lemma_icon_group_2("rpm"@);
    lemma_icon_group_3("rpm"@);
    lemma_icon_group_4("rpm"@);
    lemma_icon_group_5("rpm"@);
    lemma_icon_group_6("rpm"@);
    lemma_icon_group_7("rpm"@);
    lemma_icon_group_8("rpm"@);
    lemma_icon_group_9("rpm"@);
    lemma_icon_group_10("rpm"@);
    lemma_icon_group_11("rpm"@);
    lemma_icon_group_12("rpm"@);
    lemma_icon_group_13("rpm"@);
    lemma_icon_group_14("rpm"@);
    lemma_icon_group_15("rpm"@);
    lemma_icon_group_16("rpm"@);
    lemma_icon_group_17("rpm"@);
    lemma_icon_group_18("rpm"@);
    lemma_icon_group_19("rpm"@);
    lemma_icon_group_20("rpm"@);
    lemma_icon_group_21("rpm"@);
    lemma_icon_group_22("rpm"@);
    lemma_icon_group_23("rpm"@);
    lemma_icon_group_24("rpm"@);
    lemma_icon_group_25("rpm"@);
    lemma_icon_group_26("rpm"@);
    lemma_icon_group_27("rpm"@);
    lemma_icon_group_28("rpm"@);
    lemma_icon_group_29("rpm"@);
    lemma_icon_group_30("rpm"@);
    lemma_icon_group_31("rpm"@);
    lemma_icon_group_0("pkg"@);
    lemma_icon_group_1("pkg"@);
    lemma_icon_group_2("pkg"@);
    lemma_icon_group_3("pkg"@);
    lemma_icon_group_4("pkg"@);
    lemma_icon_group_5("pkg"@);
    lemma_icon_group_6("pkg"@);
    lemma_icon_group_7("pkg"@);
    lemma_icon_group_8("pkg"@);
    lemma_icon_group_9("pkg"@);
    lemma_icon_group_10("pkg"@);
    lemma_icon_group_11("pkg"@);
    lemma_icon_group_12("pkg"@);
    lemma_icon_group_13("pkg"@);
    lemma_icon_group_14("pkg"@);
    lemma_icon_group_15("pkg"@);
    lemma_icon_group_16("pkg"@);
    lemma_icon_group_17("pkg"@);
    lemma_icon_group_18("pkg"@);
    lemma_icon_group_19("pkg"@);
    lemma_icon_group_20("pkg"@);
    lemma_icon_group_21("pkg"@);
    lemma_icon_group_22("pkg"@);
    lemma_icon_group_23("pkg"@);
    lemma_icon_group_24("pkg"@);
    lemma_icon_group_25("pkg"@);
    lemma_icon_group_26("pkg"@);
    lemma_icon_group_27("pkg"@);
    lemma_icon_group_28("pkg"@);
    lemma_icon_group_29("pkg"@);
    lemma_icon_group_30("pkg"@);
    lemma_icon_group_31("pkg"@);
}

proof fn lemma_icon_family_32()
    ensures
        icon_for_ext("iso"@) == "💿"@,
        icon_for_ext("img"@) == "💿"@,
        icon_for_ext("dmg"@) == "💿"@,
{
    lemma_extension_texts();
    lemma_icon_group_0("iso"@);
    lemma_icon_group_1("iso"@);
    lemma_icon_group_2("iso"@);
    lemma_icon_group_3("iso"@);
    lemma_icon_group_4("iso"@);
    lemma_icon_group_5("iso"@);
    lemma_icon_group_6("iso"@);
    lemma_icon_group_7("iso"@);
    lemma_icon_group_8("iso"@);
    lemma_icon_group_9("iso"@);
    lemma_icon_group_10("iso"@);
    lemma_icon_group_11("iso"@);
    lemma_icon_group_12("iso"@);
    lemma_icon_group_13("iso"@);
    lemma_icon_group_14("iso"@);
    lemma_icon_group_15("iso"@);
    lemma_icon_group_16("iso"@);
    lemma_icon_group_17("iso"@);
    lemma_icon_group_18("iso"@);
    lemma_icon_group_19("iso"@);
    lemma_icon_group_20("iso"@);
    lemma_icon_group_21("iso"@);
    lemma_icon_group_22("iso"@);
    lemma_icon_group_23("iso"@);
    lemma_icon_group_24("iso"@);
    lemma_icon_group_25("iso"@);
    lemma_icon_group_26("iso"@);
    lemma_icon_group_27("iso"@);
    lemma_icon_group_28("iso"@);
    lemma_icon_group_29("iso"@);
    lemma_icon_group_30("iso"@);
    lemma_icon_group_31("iso"@);
    lemma_icon_group_32("iso"@);
    lemma_icon_group_0("img"@);
    lemma_icon_group_1("img"@);
    lemma_icon_group_2("img"@);
    lemma_icon_group_3("img"@);
    lemma_icon_group_4("img"@);
    lemma_icon_group_5("img"@);
    lemma_icon_group_6("img"@);
    lemma_icon_group_7("img"@);
    lemma_icon_group_8("img"@);
    lemma_icon_group_9("img"@);
    lemma_icon_group_10("img"@);
    lemma_icon_group_11("img"@);
    lemma_icon_group_12("img"@);
    lemma_icon_group_13("img"@);
    lemma_icon_group_14("img"@);
    lemma_icon_group_15("img"@);
    lemma_icon_group_16("img"@);
    lemma_icon_group_17("img"@);
    lemma_icon_group_18("img"@);
    lemma_icon_group_19("img"@);
    lemma_icon_group_20("img"@);
    lemma_icon_group_21("img"@);
    lemma_icon_group_22("img"@);
    lemma_icon_group_23("img"@);
    lemma_icon_group_24("img"@);
    lemma_icon_group_25("img"@);
    lemma_icon_group_26("img"@);
    lemma_icon_group_27("img"@);
    lemma_icon_group_28("img"@);
    lemma_icon_group_29("img"@);
    lemma_icon_group_30("img"@);
    lemma_icon_group_31("img"@);
    lemma_icon_group_32("img"@);
    lemma_icon_group_0("dmg"@);
    lemma_icon_group_1("dmg"@);
    lemma_icon_group_2("dmg"@);
    lemma_icon_group_3("dmg"@);
    lemma_icon_group_4("dmg"@);
    lemma_icon_group_5("dmg"@);
    lemma_icon_group_6("dmg"@);
    lemma_icon_group_7("dmg"@);
    lemma_icon_group_8("dmg"@);
    lemma_icon_group_9("dmg"@);
    lemma_icon_group_10("dmg"@);
    lemma_icon_group_11("dmg"@);
    lemma_icon_group_12("dmg"@);
    lemma_icon_group_13("dmg"@);
    lemma_icon_group_14("dmg"@);
    lemma_icon_group_15("dmg"@);
    lemma_icon_group_16("dmg"@);
    lemma_icon_group_17("dmg"@);
    lemma_icon_group_18("dmg"@);
    lemma_icon_group_19("dmg"@);
    lemma_icon_group_20("dmg"@);
    lemma_icon_group_21("dmg"@);
    lemma_icon_group_22("dmg"@);
    lemma_icon_group_23("dmg"@);
    lemma_icon_group_24("dmg"@);
    lemma_icon_group_25("dmg"@);
    lemma_icon_group_26("dmg"@);
    lemma_icon_group_27("dmg"@);
    lemma_icon_group_28("dmg"@);
    lemma_icon_group_29("dmg"@);
    lemma_icon_group_30("dmg"@);
    lemma_icon_group_31("dmg"@);
    lemma_icon_group_32("dmg"@);
}

proof fn lemma_icon_family_33()
    ensures
        icon_for_ext("ttf"@) == "🔤"@,
        icon_for_ext("otf"@) == "🔤"@,
        icon_for_ext("woff"@) == "🔤"@,
        icon_for_ext("woff2"@) == "🔤"@,
{
    lemma_extension_texts();
    lemma_icon_group_0("ttf"@);
    lemma_icon_group_1("ttf"@);
    lemma_icon_group_2("ttf"@);
    lemma_icon_group_3("ttf"@);
    lemma_icon_group_4("ttf"@);
    lemma_icon_group_5("ttf"@);
    lemma_icon_group_6("ttf"@);
    lemma_icon_group_7("ttf"@);
    lemma_icon_group_8("ttf"@);
    lemma_icon_group_9("ttf"@);
    lemma_icon_group_10("ttf"@);
    lemma_icon_group_11("ttf"@);
    lemma_icon_group_12("ttf"@);
    lemma_icon_group_13("ttf"@);
    lemma_icon_group_14("ttf"@);
    lemma_icon_group_15("ttf"@);
    lemma_icon_group_16("ttf"@);
    lemma_icon_group_17("ttf"@);
    lemma_icon_group_18("ttf"@);
    lemma_icon_group_19("ttf"@);
    lemma_icon_group_20("ttf"@);
    lemma_icon_group_21("ttf"@);
    lemma_icon_group_22("ttf"@);
    lemma_icon_group_23("ttf"@);
    lemma_icon_group_24("ttf"@);
    lemma_icon_group_25("ttf"@);
    lemma_icon_group_26("ttf"@);
    lemma_icon_group_27("ttf"@);
    lemma_icon_group_28("ttf"@);
    lemma_icon_group_29("ttf"@);
    lemma_icon_group_30("ttf"@);
    lemma_icon_group_31("ttf"@);
    lemma_icon_group_32("ttf"@);
    lemma_icon_group_33("ttf"@);
    lemma_icon_group_0("otf"@);
    lemma_icon_group_1("otf"@);
    lemma_icon_group_2("otf"@);
    lemma_icon_group_3("otf"@);
    lemma_icon_group_4("otf"@);
    lemma_icon_group_5("otf"@);
    lemma_icon_group_6("otf"@);
    lemma_icon_group_7("otf"@);
    lemma_icon_group_8("otf"@);
    lemma_icon_group_9("otf"@);
    lemma_icon_group_10("otf"@);
    lemma_icon_group_11("otf"@);
    lemma_icon_group_12("otf"@);
    lemma_icon_group_13("otf"@);
    lemma_icon_group_14("otf"@);
    lemma_icon_group_15("otf"@);
    lemma_icon_group_16("otf"@);
    lemma_icon_group_17("otf"@);
    lemma_icon_group_18("otf"@);
    lemma_icon_group_19("otf"@);
    lemma_icon_group_20("otf"@);
    lemma_icon_group_21("otf"@);
    lemma_icon_group_22("otf"@);
    lemma_icon_group_23("otf"@);
    lemma_icon_group_24("otf"@);
    lemma_icon_group_25("otf"@);
    lemma_icon_group_26("otf"@);
    lemma_icon_group_27("otf"@);
    lemma_icon_group_28("otf"@);
    lemma_icon_group_29("otf"@);
    lemma_icon_group_30("otf"@);
    lemma_icon_group_31("otf"@);
    lemma_icon_group_32("otf"@);
    lemma_icon_group_33("otf"@);
    lemma_icon_group_0("woff"@);
    lemma_icon_group_1("woff"@);
    lemma_icon_group_2("woff"@);
    lemma_icon_group_3("woff"@);
    lemma_icon_group_4("woff"@);
    lemma_icon_group_5("woff"@);
    lemma_icon_group_6("woff"@);
    lemma_icon_group_7("woff"@);
    lemma_icon_group_8("woff"@);
    lemma_icon_group_9("woff"@);
    lemma_icon_group_10("woff"@);
    lemma_icon_group_11("woff"@);
    lemma_icon_group_12("woff"@);
    lemma_icon_group_13("woff"@);
    lemma_icon_group_14("woff"@);
    lemma_icon_group_15("woff"@);
    lemma_icon_group_16("woff"@);
    lemma_icon_group_17("woff"@);
    lemma_icon_group_18("woff"@);
    lemma_icon_group_19("woff"@);
    lemma_icon_group_20("woff"@);
    lemma_icon_group_21("woff"@);
    lemma_icon_group_22("woff"@);
    lemma_icon_group_23("woff"@);
    lemma_icon_group_24("woff"@);
    lemma_icon_group_25("woff"@);
    lemma_icon_group_26("woff"@);
    lemma_icon_group_27("woff"@);
    lemma_icon_group_28("woff"@);
    lemma_icon_group_29("woff"@);
    lemma_icon_group_30("woff"@);
    lemma_icon_group_31("woff"@);
    lemma_icon_group_32("woff"@);
    lemma_icon_group_33("woff"@);
    lemma_icon_group_0("woff2"@);
    lemma_icon_group_1("woff2"@);
    lemma_icon_group_2("woff2"@);
    lemma_icon_group_3("woff2"@);
    lemma_icon_group_4("woff2"@);
    lemma_icon_group_5("woff2"@);
    lemma_icon_group_6("woff2"@);
    lemma_icon_group_7("woff2"@);
    lemma_icon_group_8("woff2"@);
    lemma_icon_group_9("woff2"@);
    lemma_icon_group_10("woff2"@);
    lemma_icon_group_11("woff2"@);
    lemma_icon_group_12("woff2"@);
    lemma_icon_group_13("woff2"@);
    lemma_icon_group_14("woff2"@);
    lemma_icon_group_15("woff2"@);
    lemma_icon_group_16("woff2"@);
    lemma_icon_group_17("woff2"@);
    lemma_icon_group_18("woff2"@);
    lemma_icon_group_19("woff2"@);
    lemma_icon_group_20("woff2"@);
    lemma_icon_group_21("woff2"@);
    lemma_icon_group_22("woff2"@);
    lemma_icon_group_23("woff2"@);
    lemma_icon_group_24("woff2"@);
    lemma_icon_group_25("woff2"@);
    lemma_icon_group_26("woff2"@);
    lemma_icon_group_27("woff2"@);
    lemma_icon_group_28("woff2"@);
    lemma_icon_group_29("woff2"@);
    lemma_icon_group_30("woff2"@);
    lemma_icon_group_31("woff2"@);
    lemma_icon_group_32("woff2"@);
    lemma_icon_group_33("woff2"@);
}

proof fn lemma_icon_family_34()
    ensures
        icon_for_ext("lock"@) == "🔒"@,
{
    lemma_extension_texts();
    lemma_icon_group_0("lock"@);
    lemma_icon_group_1("lock"@);
    lemma_icon_group_2("lock"@);
    lemma_icon_group_3("lock"@);
    lemma_icon_group_4("lock"@);
    lemma_icon_group_5("lock"@);
    lemma_icon_group_6("lock"@);
    lemma_icon_group_7("lock"@);
    lemma_icon_group_8("lock"@);
    lemma_icon_group_9("lock"@);
    lemma_icon_group_10("lock"@);
    lemma_icon_group_11("lock"@);
    lemma_icon_group_12("lock"@);
    lemma_icon_group_13("lock"@);
    lemma_icon_group_14("lock"@);
    lemma_icon_group_15("lock"@);
    lemma_icon_group_16("lock"@);
    lemma_icon_group_17("lock"@);
    lemma_icon_group_18("lock"@);
    lemma_icon_group_19("lock"@);
    lemma_icon_group_20("lock"@);
    lemma_icon_group_21("lock"@);
    lemma_icon_group_22("lock"@);
    lemma_icon_group_23("lock"@);
    lemma_icon_group_24("lock"@);
    lemma_icon_group_25("lock"@);
    lemma_icon_group_26("lock"@);
    lemma_icon_group_27("lock"@);
    lemma_icon_group_28("lock"@);
    lemma_icon_group_29("lock"@);
    lemma_icon_group_30("lock"@);
    lemma_icon_group_31("lock"@);
    lemma_icon_group_32("lock"@);
    lemma_icon_group_33("lock"@);
    lemma_icon_group_34("lock"@);
}

/// Every extension of an icon family, lowercase, gets that family's icon: the whole
/// table of extensions and their icons, one clause per extension.
pub proof fn law_icon_families()
    ensures
        icon_for_ext("rs"@) == "🦀"@,
        icon_for_ext("py"@) == "🐍"@,
        icon_for_ext("js"@) == "📜"@,
        icon_for_ext("ts"@) == "📜"@,
        icon_for_ext("jsx"@) == "📜"@,
        icon_for_ext("tsx"@) == "📜"@,
        icon_for_ext("c"@) == "⚙️"@,
        icon_for_ext("cpp"@) == "⚙️"@,
        icon_for_ext("h"@) == "⚙️"@,
        icon_for_ext("hpp"@) == "⚙️"@,
        icon_for_ext("cc"@) == "⚙️"@,
        icon_for_ext("go"@) == "🐹"@,
        icon_for_ext("java"@) == "☕"@,
        icon_for_ext("class"@) == "☕"@,
        icon_for_ext("jar"@) == "☕"@,
        icon_for_ext("rb"@) == "💎"@,
        icon_for_ext("php"@) == "🐘"@,
        icon_for_ext("swift"@) == "🍎"@,
        icon_for_ext("kt"@) == "🏗️"@,
        icon_for_ext("kts"@) == "🏗️"@,
        icon_for_ext("sh"@) == "🐚"@,
        icon_for_ext("bat"@) == "🐚"@,
        icon_for_ext("zsh"@) == "🐚"@,
        icon_for_ext("fish"@) == "🐚"@,
        icon_for_ext("lua"@) == "🌙"@,
        icon_for_ext("html"@) == "🌐"@,
        icon_for_ext("htm"@) == "🌐"@,
        icon_for_ext("xhtml"@) == "🌐"@,
        icon_for_ext("css"@) == "🎨"@,
        icon_for_ext("scss"@) == "🎨"@,
        icon_for_ext("sass"@) == "🎨"@,
        icon_for_ext("less"@) == "🎨"@,
        icon_for_ext("json"@) == "🔧"@,
        icon_for_ext("yaml"@) == "🔧"@,
        icon_for_ext("yml"@) == "🔧"@,
        icon_for_ext("toml"@) == "🔧"@,
        icon_for_ext("xml"@) == "🔧"@,
        icon_for_ext("sql"@) == "🗄️"@,
        icon_for_ext("db"@) == "🗄️"@,
        icon_for_ext("sqlite"@) == "🗄️"@,
        icon_for_ext("graphql"@) == "⬢"@,
        icon_for_ext("gql"@) == "⬢"@,
        icon_for_ext("txt"@) == "📄"@,
        icon_for_ext("log"@) == "📄"@,
        icon_for_ext("md"@) == "📝"@,
        icon_for_ext("markdown"@) == "📝"@,
        icon_for_ext("pdf"@) == "📕"@,
        icon_for_ext("doc"@) == "📘"@,
        icon_for_ext("docx"@) == "📘"@,
        icon_for_ext("odt"@) == "📘"@,
        icon_for_ext("xls"@) == "📊"@,
        icon_for_ext("xlsx"@) == "📊"@,
        icon_for_ext("csv"@) == "📊"@,
        icon_for_ext("tsv"@) == "📊"@,
        icon_for_ext("ppt"@) == "📽️"@,
        icon_for_ext("pptx"@) == "📽️"@,
        icon_for_ext("rtf"@) == "📜"@,
        icon_for_ext("tex"@) == "📜"@,
        icon_for_ext("png"@) == "🖼️"@,
        icon_for_ext("jpg"@) == "🖼️"@,
        icon_for_ext("jpeg"@) == "🖼️"@,
        icon_for_ext("gif"@) == "🖼️"@,
        icon_for_ext("webp"@) == "🖼️"@,
        icon_for_ext("bmp"@) == "🖼️"@,
        icon_for_ext("svg"@) == "📐"@,
        icon_for_ext("mp4"@) == "🎬"@,
        icon_for_ext("mkv"@) == "🎬"@,
        icon_for_ext("avi"@) == "🎬"@,
        icon_for_ext("mov"@) == "🎬"@,
        icon_for_ext("webm"@) == "🎬"@,
        icon_for_ext("mp3"@) == "🎵"@,
        icon_for_ext("wav"@) == "🎵"@,
        icon_for_ext("flac"@) == "🎵"@,
        icon_for_ext("ogg"@) == "🎵"@,
        icon_for_ext("m4a"@) == "🎵"@,
        icon_for_ext("psd"@) == "🖌️"@,
        icon_for_ext("ai"@) == "🖌️"@,
        icon_for_ext("xcf"@) == "🖌️"@,
        icon_for_ext("zip"@) == "📦"@,
        icon_for_ext("tar"@) == "📦"@,
        icon_for_ext("gz"@) == "📦"@,
        icon_for_ext("7z"@) == "📦"@,
        icon_for_ext("rar"@) == "📦"@,
        icon_for_ext("bz2"@) == "📦"@,
        icon_for_ext("exe"@) == "🚀"@,
        icon_for_ext("msi"@) == "🚀"@,
        icon_for_ext("bin"@) == "🚀"@,
        icon_for_ext("app"@) == "🚀"@,
        icon_for_ext("deb"@) == "🛠️"@,
        icon_for_ext("rpm"@) == "🛠️"@,
        icon_for_ext("pkg"@) == "🛠️"@,
        icon_for_ext("iso"@) == "💿"@,
        icon_for_ext("img"@) == "💿"@,
        icon_for_ext("dmg"@) == "💿"@,
        icon_for_ext("ttf"@) == "🔤"@,
        icon_for_ext("otf"@) == "🔤"@,
        icon_for_ext("woff"@) == "🔤"@,
        icon_for_ext("woff2"@) == "🔤"@,
        icon_for_ext("lock"@) == "🔒"@,
{
    lemma_icon_family_0();
    lemma_icon_family_1();
    lemma_icon_family_2();
    lemma_icon_family_3();
    lemma_icon_family_4();
    lemma_icon_family_5();
    lemma_icon_family_6();
    lemma_icon_family_7();
    lemma_icon_family_8();
    lemma_icon_family_9();
    lemma_icon_family_10();
    lemma_icon_family_11();
    lemma_icon_family_12();
    lemma_icon_family_13();
    lemma_icon_family_14();
    lemma_icon_family_15();
    lemma_icon_family_16();
    lemma_icon_family_17();
    lemma_icon_family_18();
    lemma_icon_family_19();
    lemma_icon_family_20();
    lemma_icon_family_21();
    lemma_icon_family_22();
    lemma_icon_family_23();
    lemma_icon_family_24();
    lemma_icon_family_25();
    lemma_icon_family_26();
    lemma_icon_family_27();
    lemma_icon_family_28();
    lemma_icon_family_29();
    lemma_icon_family_30();
    lemma_icon_family_31();
    lemma_icon_family_32();
    lemma_icon_family_33();
    lemma_icon_family_34();
}

/// `text_lt` is the order of `String` on texts: a text never comes before itself, the
/// empty text comes before every other text, a proper prefix comes before every longer
/// text that extends it (and not after it), and after a common beginning the text with
/// the smaller next character comes first, whatever follows.
pub proof fn law_text_order(a: Seq<char>, x: Seq<char>, c: char, d: char, y: Seq<char>, z: Seq<char>)
    ensures
        !text_lt(a, a),
        x.len() > 0 ==> text_lt(Seq::empty(), x),
        x.len() > 0 ==> text_lt(a, a + x) && !text_lt(a + x, a),
        (c as u32) < (d as u32) ==> text_lt(a.push(c) + y, a.push(d) + z) && !text_lt(a.push(d) + z, a.push(c) + y),
    decreases a.len(),
{
    if a.len() > 0 {
        law_text_order(a.drop_first(), x, c, d, y, z);
        assert(a.drop_first() =~= a.drop_first());
        assert((a + x)[0] == a[0]);
        assert((a + x).drop_first() =~= a.drop_first() + x);
        assert((a.push(c) + y)[0] == a[0]);
        assert((a.push(d) + z)[0] == a[0]);
        assert((a.push(c) + y).drop_first() =~= a.drop_first().push(c) + y);
        assert((a.push(d) + z).drop_first() =~= a.drop_first().push(d) + z);
    } else {
        assert(a + x =~= x);
        assert(a.push(c) + y =~= seq![c] + y);
        assert(a.push(d) + z =~= seq![d] + z);
        assert((seq![c] + y)[0] == c);
        assert((seq![d] + z)[0] == d);
    }
}

/// In rows sorted by name ascending, a row whose lowercase name is a proper prefix of
/// another row's comes before it.
pub proof fn law_name_sort_prefix_first(s: Seq<FileView>, i: int, j: int, x: Seq<char>)
    requires
        sorted_by(s, SortColumn::Name, SortOrder::Ascending),
        0 <= i < s.len(),
        0 <= j < s.len(),
        x.len() > 0,
        s[j].lowercase_name@ == s[i].lowercase_name@ + x,
    ensures
        i < j,
{
    law_text_order(s[i].lowercase_name@, x, 'a', 'b', Seq::empty(), Seq::empty());
    assert(s[j].lowercase_name@.len() != s[i].lowercase_name@.len());
    if j < i {
        assert(!crate::views::before(SortColumn::Name, SortOrder::Ascending, s[i], s[j]));
    }
}

/// An entry met by the index walk is recorded as a directory exactly when its metadata
/// says it is one, and a node made for a path from its metadata is a directory exactly
/// when the metadata says so; both carry the same kind and metadata.
pub proof fn law_walked_kind(path: Seq<char>, m: DiskMetadata)
    ensures
        (walked_node(path, m).kind == FileKind::Directory) == m.is_dir,
        (walked_node(path, m).kind == FileKind::File) == !m.is_dir,
        node_for_path(path, Some(m)) matches Some(n) ==> (n.kind == FileKind::Directory) == m.is_dir
            && n.kind == walked_node(path, m).kind && n.metadata == walked_node(path, m).metadata,
{
}

/// Bringing a directory in step with a listing caches every listed path that has
/// metadata, a file name and no cached node, directories included: the batch writes the
/// node made for it from its metadata, and the catalog then holds a node under its key.
pub proof fn law_reconcile_caches_new(
    m: CatalogModel,
    target: Seq<char>,
    l: Seq<(Seq<char>, Option<DiskMetadata>)>,
    platform: Platform,
    i: int,
)
    requires
        0 <= i < l.len(),
        l[i].1 is Some,
        node_for_path(normalized(l[i].0, platform), l[i].1) is Some,
        lookup(m.entries, path_key(normalized(l[i].0, platform))) is None,
    ensures
        ({
            let p = normalized(l[i].0, platform);
            let (m1, b) = reconciled(m, target, l, platform);
            &&& b.puts.contains((p, node_for_path(p, l[i].1).unwrap()))
            &&& lookup(m1.entries, path_key(p)) is Some
        }),
{
    let p = normalized(l[i].0, platform);
    let n = node_for_path(p, l[i].1).unwrap();
    assert(refreshes_at(m.entries, l, platform, i));
    lemma_refreshed_complete(m.entries, l, platform, i);
    let updates = refreshed_nodes(m.entries, l, platform);
    let k = choose|k: int| 0 <= k < updates.len() && updates[k] == (p, n);
    let stale = match lookup(m.tree, path_key(target)) {
        Some(c) => absent_from(c, dedup(listed_paths(l, platform))),
        None => Seq::empty(),
    };
    let e0 = remove_keys(m.entries, keys_of(stale));
    let ku = keyed(updates);
    assert(ku[k].0 == path_key(p));
    lemma_put_all(e0, ku, path_key(p));
}

proof fn lemma_by_category_keeps(s: Seq<(Seq<char>, FileNodeView)>, pil: Seq<char>, e: (Seq<char>, FileNodeView))
    requires
        s.contains(e),
        in_category(pil, path_extension(e.0)),
    ensures
        by_category(s, pil).contains(e),
    decreases s.len(),
{
    let r = by_category(s.drop_last(), pil);
    if s.last() == e {
        assert(by_category(s, pil) == r.push(e));
        assert(by_category(s, pil)[r.len() as int] == e);
    } else {
        let i = choose|i: int| 0 <= i < s.len() && s[i] == e;
        assert(s.drop_last()[i] == e);
        lemma_by_category_keeps(s.drop_last(), pil, e);
        let k = choose|k: int| 0 <= k < r.len() && r[k] == e;
        assert(by_category(s, pil) == r || by_category(s, pil) == r.push(s.last()));
        assert(by_category(s, pil)[k] == e);
    }
}

/// A search is complete: every stored row with a node (of any kind) that shows under the
/// category, belongs to it by extension and contains the lowercase search text is among
/// the results, unless 1001 matching rows come before it.
pub proof fn law_search_complete(
    m: CatalogModel,
    query: Seq<char>,
    dir: Seq<char>,
    pil: Seq<char>,
    rs: Seq<(Seq<char>, Option<FileNodeView>)>,
    attrs: Seq<(Seq<char>, bool)>,
    i: int,
)
    requires
        query.len() > 0,
        0 <= i < rs.len(),
        rs[i].1 is Some,
        visible(rs[i].0, pil, attrs),
        is_infix(rs[i].0, ascii_lower(query)),
        in_category(pil, path_extension(rs[i].0)),
        searched(rs.take(i + 1), ascii_lower(query), pil, attrs).len() <= search_cap(),
    ensures
        fetched(m, query, dir, pil, Some(rs), attrs).contains((rs[i].0, rs[i].1.unwrap())),
{
    let q = ascii_lower(query);
    let e = (rs[i].0, rs[i].1.unwrap());
    let t = rs.take(i + 1);
    assert(t.drop_last() =~= rs.take(i));
    assert(t.last() == rs[i]);
    let st = searched(t, q, pil, attrs);
    assert(st == searched(rs.take(i), q, pil, attrs).push(e));
    let len = st.len();
    lemma_searched_prefix(rs, i + 1, q, pil, attrs);
    let s = searched(rs, q, pil, attrs);
    assert(s.take(len as int) == st);
    assert(len <= s.len());
    assert(st[len - 1] == e);
    assert(s.take(len as int)[len - 1] == s[len - 1]);
    assert(s[len - 1] == e);
    let c = capped(s);
    assert(c[len - 1] == e);
    assert(c.contains(e));
    lemma_by_category_keeps(c, pil, e);
}

} // verus!
