//! Choosing the entries a listing shows: the children of a directory or the stored
//! paths that match a search, without the hidden ones (or only those), narrowed to a
//! category of file extensions.
use vstd::prelude::*;
use crate::catalog::{lookup, stored_view, texts, Catalog, CatalogModel};
use crate::model::{CachedChild, FileNode, FileNodeView, SearchRequest};
use crate::nodes::opt_node_view;
use crate::paths::{extension_of, hidden_status, is_hidden, path_extension, path_key};
use crate::text::{ascii_lower, chars_of, contains_chars, is_infix, str_eq, to_ascii_lower};

verus! {

/// Whether the text `e` is one of `list`.
pub fn member(e: &str, list: &[&str]) -> (r: bool)
    ensures
        r == list@.map_values(|s: &str| s@).contains(e@),
{
    let ghost lv = list@.map_values(|s: &str| s@);
    let mut i: usize = 0;
    while i < list.len()
        invariant
            lv == list@.map_values(|s: &str| s@),
            i <= list@.len(),
            forall|j: int| 0 <= j < i ==> lv[j] != e@,
        decreases list@.len() - i,
    {
        if str_eq(e, list[i]) {
            assert(lv[i as int] == e@);
            return true;
        }
        i = i + 1;
    }
    false
}

/// The extensions of the "Code" category.
pub open spec fn code_exts() -> Seq<Seq<char>> {
    seq![
        "rs"@, "py"@, "js"@, "jsx"@, "ts"@, "tsx"@, "go"@, "java"@, "cpp"@, "c"@, "h"@, "cs"@,
        "rb"@, "php"@, "swift"@, "kt"@, "scala"@, "pl"@, "sh"@, "bash"@, "sql"@, "json"@,
        "xml"@, "yaml"@, "yml"@, "html"@, "htm"@, "css"@, "scss"@, "less"@,
    ]
}

/// The extensions of the "Docs" category.
pub open spec fn docs_exts() -> Seq<Seq<char>> {
    seq![
        "txt"@, "md"@, "markdown"@, "doc"@, "docx"@, "pdf"@, "rtf"@, "odt"@, "pages"@, "log"@,
        "csv"@, "xls"@, "xlsx"@, "ppt"@, "pptx"@, "key"@,
    ]
}

/// The extensions of the "Media" category.
pub open spec fn media_exts() -> Seq<Seq<char>> {
    seq![
        "jpg"@, "jpeg"@, "png"@, "gif"@, "bmp"@, "tiff"@, "tif"@, "webp"@, "svg"@, "ico"@,
        "heic"@, "heif"@, "raw"@, "psd"@, "ai"@, "eps"@, "mp3"@, "wav"@, "flac"@, "aac"@,
        "m4a"@, "wma"@, "ogg"@, "oga"@, "opus"@, "alac"@, "aiff"@, "mid"@, "midi"@, "mp4"@,
        "m4v"@, "m4p"@, "mov"@, "qt"@, "avi"@, "wmv"@, "flv"@, "f4v"@, "mkv"@, "webm"@,
        "3gp"@, "3g2"@, "m2ts"@, "mts"@, "ts"@, "vob"@, "ogv"@, "asf"@, "rm"@, "rmvb"@,
    ]
}

/// Whether `e` is an extension of the "Code" category.
pub fn is_code_ext(e: &str) -> (r: bool)
    ensures
        r == code_exts().contains(e@),
{
    let list = [
        "rs", "py", "js", "jsx", "ts", "tsx", "go", "java", "cpp", "c", "h", "cs", "rb", "php",
        "swift", "kt", "scala", "pl", "sh", "bash", "sql", "json", "xml", "yaml", "yml", "html",
        "htm", "css", "scss", "less",
    ];
    assert(list@.map_values(|s: &str| s@) =~= code_exts());
    member(e, &list)
}

/// Whether `e` is an extension of the "Docs" category.
pub fn is_docs_ext(e: &str) -> (r: bool)
    ensures
        r == docs_exts().contains(e@),
{
    let list = [
        "txt", "md", "markdown", "doc", "docx", "pdf", "rtf", "odt", "pages", "log", "csv", "xls",
        "xlsx", "ppt", "pptx", "key",
    ];
    assert(list@.map_values(|s: &str| s@) =~= docs_exts());
    member(e, &list)
}

/// Whether `e` is an extension of the "Media" category.
pub fn is_media_ext(e: &str) -> (r: bool)
    ensures
        r == media_exts().contains(e@),
{
    let list = [
        "jpg", "jpeg", "png", "gif", "bmp", "tiff", "tif", "webp", "svg", "ico", "heic", "heif",
        "raw", "psd", "ai", "eps", "mp3", "wav", "flac", "aac", "m4a", "wma", "ogg", "oga", "opus",
        "alac", "aiff", "mid", "midi", "mp4", "m4v", "m4p", "mov", "qt", "avi", "wmv", "flv", "f4v",
        "mkv", "webm", "3gp", "3g2", "m2ts", "mts", "ts", "vob", "ogv", "asf", "rm", "rmvb",
    ];
    assert(list@.map_values(|s: &str| s@) =~= media_exts());
    member(e, &list)
}

/// The first hidden-attribute reading recorded for `p`, if any.
pub open spec fn reading(attrs: Seq<(Seq<char>, bool)>, p: Seq<char>) -> Option<bool>
    decreases attrs.len(),
{
    if attrs.len() == 0 {
        None
    } else if attrs[0].0 == p {
        Some(attrs[0].1)
    } else {
        reading(attrs.drop_first(), p)
    }
}

/// The view of hidden-attribute readings.
pub open spec fn readings_view(a: Seq<(String, bool)>) -> Seq<(Seq<char>, bool)> {
    a.map_values(|e: (String, bool)| (e.0@, e.1))
}

/// The first hidden-attribute reading recorded for `p` in `attrs`.
pub fn reading_of(attrs: &Vec<(String, bool)>, p: &str) -> (r: Option<bool>)
    ensures
        r == reading(readings_view(attrs@), p@),
{
    let ghost av = readings_view(attrs@);
    assert(av.skip(0) =~= av);
    let mut i: usize = 0;
    while i < attrs.len()
        invariant
            av == readings_view(attrs@),
            i <= attrs@.len(),
            reading(av, p@) == reading(av.skip(i as int), p@),
        decreases attrs@.len() - i,
    {
        assert(av.skip(i as int).drop_first() =~= av.skip(i + 1));
        assert(av.skip(i as int)[0] == av[i as int]);
        if str_eq(attrs[i].0.as_str(), p) {
            return Some(attrs[i].1);
        }
        i = i + 1;
    }
    assert(av.skip(i as int).len() == 0);
    None
}

/// Whether an entry shows under the category `pil`: hidden entries show under
/// "Hidden" and nowhere else.
pub open spec fn shown_for(pil: Seq<char>, hidden: bool) -> bool {
    (pil == "Hidden"@) == hidden
}

/// Whether path `p` shows under `pil`, given the attribute readings.
pub open spec fn visible(p: Seq<char>, pil: Seq<char>, attrs: Seq<(Seq<char>, bool)>) -> bool {
    shown_for(pil, is_hidden(p, reading(attrs, p)))
}

/// The children that show under `pil` and are cached (by their keys), with their nodes,
/// in order.
pub open spec fn listed(
    children: Seq<Seq<char>>,
    entries: Map<Seq<char>, FileNodeView>,
    pil: Seq<char>,
    attrs: Seq<(Seq<char>, bool)>,
) -> Seq<(Seq<char>, FileNodeView)>
    decreases children.len(),
{
    if children.len() == 0 {
        Seq::empty()
    } else {
        let r = listed(children.drop_last(), entries, pil, attrs);
        let p = children.last();
        if visible(p, pil, attrs) && entries.contains_key(path_key(p)) {
            r.push((p, entries[path_key(p)]))
        } else {
            r
        }
    }
}

/// The stored rows that show under `pil`, contain the text `q`, and come with a node,
/// in order.
pub open spec fn searched(
    rows: Seq<(Seq<char>, Option<FileNodeView>)>,
    q: Seq<char>,
    pil: Seq<char>,
    attrs: Seq<(Seq<char>, bool)>,
) -> Seq<(Seq<char>, FileNodeView)>
    decreases rows.len(),
{
    if rows.len() == 0 {
        Seq::empty()
    } else {
        let r = searched(rows.drop_last(), q, pil, attrs);
        let (p, node) = rows.last();
        if visible(p, pil, attrs) && is_infix(p, q) {
            match node {
                Some(n) => r.push((p, n)),
                None => r,
            }
        } else {
            r
        }
    }
}

/// The most results a search returns.
pub open spec fn search_cap() -> nat {
    1001
}

/// At most the first `search_cap()` of `s`.
pub open spec fn capped(s: Seq<(Seq<char>, FileNodeView)>) -> Seq<(Seq<char>, FileNodeView)> {
    if s.len() > search_cap() {
        s.take(search_cap() as int)
    } else {
        s
    }
}

/// Whether a path with extension `ext` belongs to the category `pil`; categories other
/// than "Code", "Docs" and "Media" hold every path.
pub open spec fn in_category(pil: Seq<char>, ext: Option<Seq<char>>) -> bool {
    if pil == "Code"@ {
        ext matches Some(e) && code_exts().contains(e)
    } else if pil == "Docs"@ {
        ext matches Some(e) && docs_exts().contains(e)
    } else if pil == "Media"@ {
        ext matches Some(e) && media_exts().contains(e)
    } else {
        true
    }
}

/// The results whose path belongs to the category `pil`, in order.
pub open spec fn by_category(s: Seq<(Seq<char>, FileNodeView)>, pil: Seq<char>) -> Seq<(Seq<char>, FileNodeView)>
    decreases s.len(),
{
    if s.len() == 0 {
        s
    } else {
        let r = by_category(s.drop_last(), pil);
        if in_category(pil, path_extension(s.last().0)) {
            r.push(s.last())
        } else {
            r
        }
    }
}

/// The entries to show (see `fetch_files`).
pub open spec fn fetched(
    m: CatalogModel,
    query: Seq<char>,
    dir: Seq<char>,
    pil: Seq<char>,
    rows: Option<Seq<(Seq<char>, Option<FileNodeView>)>>,
    attrs: Seq<(Seq<char>, bool)>,
) -> Seq<(Seq<char>, FileNodeView)> {
    let found = if query.len() == 0 {
        match lookup(m.tree, path_key(dir)) {
            Some(c) => listed(c, m.entries, pil, attrs),
            None => Seq::empty(),
        }
    } else {
        match rows {
            Some(rs) => capped(searched(rs, ascii_lower(query), pil, attrs)),
            None => Seq::empty(),
        }
    };
    by_category(found, pil)
}

/// The view of a list of results.
pub open spec fn results_view(r: Seq<(String, FileNode)>) -> Seq<(Seq<char>, FileNodeView)> {
    r.map_values(|e: (String, FileNode)| (e.0@, e.1@))
}

/// The view of optional stored rows.
pub open spec fn opt_rows_view(rows: Option<Vec<CachedChild>>) -> Option<Seq<(Seq<char>, Option<FileNodeView>)>> {
    match rows {
        Some(v) => Some(stored_view(v@)),
        None => None,
    }
}

/// A search over a prefix of the stored rows finds a prefix of what the search over all
/// of them finds.
pub proof fn lemma_searched_prefix(
    rows: Seq<(Seq<char>, Option<FileNodeView>)>,
    k: int,
    q: Seq<char>,
    pil: Seq<char>,
    attrs: Seq<(Seq<char>, bool)>,
)
    requires
        0 <= k <= rows.len(),
    ensures
        searched(rows.take(k), q, pil, attrs).len() <= searched(rows, q, pil, attrs).len(),
        searched(rows, q, pil, attrs).take(searched(rows.take(k), q, pil, attrs).len() as int)
            == searched(rows.take(k), q, pil, attrs),
    decreases rows.len() - k,
{
    if k < rows.len() {
        lemma_searched_prefix(rows, k + 1, q, pil, attrs);
        assert(rows.take(k + 1).drop_last() =~= rows.take(k));
        let a = searched(rows.take(k), q, pil, attrs);
        let b = searched(rows.take(k + 1), q, pil, attrs);
        let s = searched(rows, q, pil, attrs);
        assert(b.take(a.len() as int) =~= a);
        assert(s.take(a.len() as int) =~= b.take(b.len() as int).take(a.len() as int));
    } else {
        assert(rows.take(k) =~= rows);
    }
}

/// The entries a listing shows, as (path, node) pairs.
///
/// With an empty search text they are the children recorded for
/// `request.current_dir`, in order, that are cached and show under `pil_type`; with a
/// search text they are the first 1001 of `rows` (the stored paths in store order,
/// with their readable nodes; `None` where the store could not be read) that show
/// under `pil_type`, contain the ASCII lowercase search text, and have a node. A path
/// shows under "Hidden" exactly when it is hidden (by the reading in `attrs`, where
/// there is one, else by a leading `.` in its file name). Under "Code", "Docs" or
/// "Media" only paths with an extension of that category remain.
pub fn fetch_files(
    catalog: &Catalog,
    request: &SearchRequest,
    pil_type: &str,
    rows: Option<Vec<CachedChild>>,
    attrs: &Vec<(String, bool)>,
) -> (r: Vec<(String, FileNode)>)
    ensures
        results_view(r@) == fetched(
            catalog@,
            request.file_query@,
            request.current_dir@,
            pil_type@,
            opt_rows_view(rows),
            readings_view(attrs@),
        ),
{
    let ghost av = readings_view(attrs@);
    let ghost pil = pil_type@;
    let want_hidden = str_eq(pil_type, "Hidden");
    let mut found: Vec<(String, FileNode)> = Vec::new();
    if request.file_query.as_str().is_empty() {
        match catalog.children(request.current_dir.as_str()) {
            None => {},
            Some(c) => {
                let ghost cv = texts(c@);
                let mut i: usize = 0;
                while i < c.len()
                    invariant
                        cv == texts(c@),
                        i <= c@.len(),
                        want_hidden == (pil == "Hidden"@),
                        av == readings_view(attrs@),
                        pil == pil_type@,
                        results_view(found@) == listed(cv.take(i as int), catalog@.entries, pil, av),
                    decreases c@.len() - i,
                {
                    assert(cv.take(i + 1).drop_last() =~= cv.take(i as int));
                    let p = &c[i];
                    let attr = reading_of(attrs, p.as_str());
                    let hidden = hidden_status(p.as_str(), attr);
                    if want_hidden == hidden {
                        match catalog.entry(p.as_str()) {
                            Some(n) => {
                                found.push((p.clone(), n));
                                assert(results_view(found@) =~= listed(cv.take(i as int), catalog@.entries, pil, av).push(
                                    (cv[i as int], catalog@.entries[path_key(cv[i as int])]),
                                ));
                            },
                            None => {},
                        }
                    }
                    i = i + 1;
                }
                assert(cv.take(c@.len() as int) =~= cv);
            },
        }
    } else {
        match &rows {
            None => {},
            Some(rs) => {
                let ghost rv = stored_view(rs@);
                let q = to_ascii_lower(request.file_query.as_str());
                let qv = chars_of(q.as_str());
                let mut i: usize = 0;
                assert(rv.take(rs@.len() as int) =~= rv);
                while i < rs.len()
                    invariant_except_break
                        results_view(found@) == searched(rv.take(i as int), qv@, pil, av),
                        found@.len() <= 1000,
                    invariant
                        rv == stored_view(rs@),
                        rv.take(rs@.len() as int) == rv,
                        i <= rs@.len(),
                        qv@ == ascii_lower(request.file_query@),
                        want_hidden == (pil == "Hidden"@),
                        av == readings_view(attrs@),
                        pil == pil_type@,
                    ensures
                        results_view(found@) == capped(searched(rv, qv@, pil, av)),
                    decreases rs@.len() - i,
                {
                    assert(rv.take(i + 1).drop_last() =~= rv.take(i as int));
                    assert(rv[i as int] == (rs@[i as int].path@, opt_node_view(rs@[i as int].node)));
                    let p = &rs[i].path;
                    let attr = reading_of(attrs, p.as_str());
                    let hidden = hidden_status(p.as_str(), attr);
                    if want_hidden == hidden {
                        let pv = chars_of(p.as_str());
                        if contains_chars(&pv, &qv) {
                            match &rs[i].node {
                                Some(n) => {
                                    found.push((p.clone(), n.copied()));
                                    assert(results_view(found@) =~= searched(rv.take(i as int), qv@, pil, av).push(
                                        (p@, n@),
                                    ));
                                },
                                None => {},
                            }
                            if found.len() > 1000 {
                                proof {
                                    lemma_searched_prefix(rv, i + 1, qv@, pil, av);
                                    let s = searched(rv, qv@, pil, av);
                                    assert(found@.len() == 1001);
                                    assert(capped(s) =~= s.take(1001));
                                }
                                break;
                            }
                        }
                    }
                    i = i + 1;
                }
            },
        }
    }
    let mut r: Vec<(String, FileNode)> = Vec::new();
    let code = str_eq(pil_type, "Code");
    let docs = str_eq(pil_type, "Docs");
    let media = str_eq(pil_type, "Media");
    let ghost fv = results_view(found@);
    let mut j: usize = 0;
    while j < found.len()
        invariant
            fv == results_view(found@),
            j <= found@.len(),
            code == (pil == "Code"@),
            docs == (pil == "Docs"@),
            media == (pil == "Media"@),
            pil == pil_type@,
            results_view(r@) == by_category(fv.take(j as int), pil),
        decreases found@.len() - j,
    {
        assert(fv.take(j + 1).drop_last() =~= fv.take(j as int));
        let keep = if code || docs || media {
            match extension_of(found[j].0.as_str()) {
                None => false,
                Some(e) => if code {
                    is_code_ext(e.as_str())
                } else if docs {
                    is_docs_ext(e.as_str())
                } else {
                    is_media_ext(e.as_str())
                },
            }
        } else {
            true
        };
        if keep {
            r.push((found[j].0.clone(), found[j].1.copied()));
            assert(results_view(r@) =~= by_category(fv.take(j as int), pil).push(fv[j as int]));
        }
        j = j + 1;
    }
    assert(fv.take(found@.len() as int) =~= fv);
    r
}

} // verus!
