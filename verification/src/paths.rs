//! Path handling: normalisation of path text, the base directory, and the parts of a
//! path (parent, file name, extension) as `std::path` computes them.
use vstd::prelude::*;
use crate::model::{opt_view, Platform};
use crate::text::{ascii_upper_char, chars_of, push_char, upper_char};

verus! {

/// The Windows "verbatim" prefix `\\?\`.
pub open spec fn verbatim_prefix() -> Seq<char> {
    seq!['\\', '\\', '?', '\\']
}

/// `s` without a leading verbatim prefix.
pub open spec fn strip_verbatim(s: Seq<char>) -> Seq<char> {
    if s.len() >= 4 && s.take(4) == verbatim_prefix() {
        s.skip(4)
    } else {
        s
    }
}

/// Every `/` replaced by `\`.
pub open spec fn backslashed(s: Seq<char>) -> Seq<char> {
    s.map_values(|c: char| if c == '/' { '\\' } else { c })
}

/// A leading ASCII drive letter before `:` put in upper case.
pub open spec fn drive_upper(s: Seq<char>) -> Seq<char> {
    if s.len() >= 2 && s[1] == ':' && (s[0] as u32) < 128 {
        s.update(0, ascii_upper_char(s[0]))
    } else {
        s
    }
}

/// The normal form of a path text on a platform.
pub open spec fn normalized(s: Seq<char>, platform: Platform) -> Seq<char> {
    match platform {
        Platform::Windows => drive_upper(backslashed(strip_verbatim(s))),
        _ => strip_verbatim(s),
    }
}

/// Normal form of a path: the verbatim prefix `\\?\` is dropped; on Windows every `/`
/// becomes `\` and a drive letter is put in upper case.
pub fn normalize_path(path: &str, platform: Platform) -> (r: String)
    ensures
        r@ == normalized(path@, platform),
{
    let v = chars_of(path);
    let start: usize = if v.len() >= 4 && v[0] == '\\' && v[1] == '\\' && v[2] == '?' && v[3] == '\\' {
        4
    } else {
        0
    };
    proof {
        if v@.len() >= 4 {
            if v@.take(4) == verbatim_prefix() {
                assert(v@.take(4)[0] == '\\' && v@.take(4)[1] == '\\');
                assert(v@.take(4)[2] == '?' && v@.take(4)[3] == '\\');
            } else {
                assert(!(v@[0] == '\\' && v@[1] == '\\' && v@[2] == '?' && v@[3] == '\\')) by {
                    if v@[0] == '\\' && v@[1] == '\\' && v@[2] == '?' && v@[3] == '\\' {
                        assert(v@.take(4) =~= verbatim_prefix());
                    }
                }
            }
        }
    }
    let ghost stripped = strip_verbatim(path@);
    assert(stripped =~= v@.skip(start as int));
    let windows = match platform {
        Platform::Windows => true,
        _ => false,
    };
    let ghost target = if windows { backslashed(stripped) } else { stripped };
    let mut r = String::new();
    let mut i = start;
    while i < v.len()
        invariant
            v@ == path@,
            start <= i <= v@.len(),
            stripped == v@.skip(start as int),
            target == (if windows { backslashed(stripped) } else { stripped }),
            r@ == target.take(i - start),
        decreases v@.len() - i,
    {
        let c = v[i];
        let d = if windows && c == '/' { '\\' } else { c };
        push_char(&mut r, d);
        assert(target.take(i + 1 - start) =~= target.take(i - start).push(d));
        i = i + 1;
    }
    assert(target.take(v@.len() - start) =~= target);
    if windows {
        let w = chars_of(r.as_str());
        if w.len() >= 2 && w[1] == ':' && (w[0] as u32) < 128 {
            let mut u = String::new();
            push_char(&mut u, upper_char(w[0]));
            let mut j: usize = 1;
            while j < w.len()
                invariant
                    w@ == target,
                    1 <= j <= w@.len(),
                    w@.len() >= 2,
                    u@ == target.update(0, ascii_upper_char(target[0])).take(j as int),
                decreases w@.len() - j,
            {
                push_char(&mut u, w[j]);
                assert(target.update(0, ascii_upper_char(target[0])).take(j + 1) =~= u@);
                j = j + 1;
            }
            assert(target.update(0, ascii_upper_char(target[0])).take(w@.len() as int) =~= target.update(
                0,
                ascii_upper_char(target[0]),
            ));
            return u;
        }
    }
    r
}

/// The directory the explorer starts from: `C:\` on Windows, `/` elsewhere.
pub fn base_directory(platform: Platform) -> (r: String)
    ensures
        r@ == (if platform == Platform::Windows { seq!['C', ':', '\\'] } else { seq!['/'] }),
{
    let mut r = String::new();
    match platform {
        Platform::Windows => {
            push_char(&mut r, 'C');
            push_char(&mut r, ':');
            push_char(&mut r, '\\');
        },
        _ => {
            push_char(&mut r, '/');
        },
    }
    r
}

/// The result of `Path::parent` on a path text: the path without its final component.
pub uninterp spec fn path_parent(p: Seq<char>) -> Option<Seq<char>>;

/// The result of `Path::file_name` on a path text: its final component, if it has one.
pub uninterp spec fn path_file_name(p: Seq<char>) -> Option<Seq<char>>;

/// The index of the last `.` in `name`, or -1 when it has none.
pub open spec fn last_dot(name: Seq<char>) -> int
    decreases name.len(),
{
    if name.len() == 0 {
        -1
    } else if name.last() == '.' {
        name.len() - 1
    } else {
        last_dot(name.drop_last())
    }
}

/// The extension of a file name as `Path::extension` documents it: none if the name has
/// no `.`, or only a leading one; otherwise what follows the last `.`.
pub open spec fn extension_of_name(name: Seq<char>) -> Option<Seq<char>> {
    let i = last_dot(name);
    if i <= 0 {
        None
    } else {
        Some(name.skip(i + 1))
    }
}

/// The extension of a path text: that of its file name, if it has one.
pub open spec fn path_extension(p: Seq<char>) -> Option<Seq<char>> {
    match path_file_name(p) {
        Some(n) => extension_of_name(n),
        None => None,
    }
}

/// Calls `Path::parent`; the result is named `path_parent` of the input.
#[verifier::external_body]
pub(crate) fn parent_of(p: &str) -> (r: Option<String>)
    ensures
        opt_view(r) == path_parent(p@),
{
    std::path::Path::new(p).parent().map(|q| q.to_string_lossy().into_owned())
}

/// Calls `Path::file_name`; the result is named `path_file_name` of the input.
#[verifier::external_body]
pub(crate) fn file_name_of(p: &str) -> (r: Option<String>)
    ensures
        opt_view(r) == path_file_name(p@),
{
    std::path::Path::new(p).file_name().map(|q| q.to_string_lossy().into_owned())
}

/// Calls `Path::extension`, which its documentation defines from the file name: none
/// without a file name or without a `.` after its first character, otherwise the text
/// after the last `.`.
#[verifier::external_body]
pub(crate) fn extension_of(p: &str) -> (r: Option<String>)
    ensures
        opt_view(r) == path_extension(p@),
{
    std::path::Path::new(p).extension().map(|q| q.to_string_lossy().into_owned())
}

/// The text of a path rebuilt from its components (the result of `Path::components`
/// collected into a `PathBuf`): repeated separators, a trailing separator and inner `.`
/// components are dropped, so that paths that `PathBuf` holds equal are written alike.
pub uninterp spec fn path_key(p: Seq<char>) -> Seq<char>;

/// Collects the components of `Path::new(p)` into a `PathBuf` and gives its text; the
/// result is named `path_key` of the input.
#[verifier::external_body]
pub(crate) fn key_of(p: &str) -> (r: String)
    ensures
        r@ == path_key(p@),
{
    std::path::Path::new(p).components().collect::<std::path::PathBuf>().to_string_lossy().into_owned()
}

/// The file name of a path, or the empty text when it has none.
pub open spec fn name_or_empty(p: Seq<char>) -> Seq<char> {
    match path_file_name(p) {
        Some(n) => n,
        None => Seq::empty(),
    }
}

/// Whether a path is hidden: by the file-system attribute where one was read, else by
/// a file name that starts with `.`.
pub open spec fn is_hidden(p: Seq<char>, hidden_attribute: Option<bool>) -> bool {
    match hidden_attribute {
        Some(a) => a,
        None => name_or_empty(p).len() > 0 && name_or_empty(p)[0] == '.',
    }
}

/// Whether `path` is hidden; `hidden_attribute` is the file-system attribute where the
/// platform has one and it could be read.
pub fn hidden_status(path: &str, hidden_attribute: Option<bool>) -> (r: bool)
    ensures
        r == is_hidden(path@, hidden_attribute),
{
    match hidden_attribute {
        Some(a) => a,
        None => {
            let name = match file_name_of(path) {
                Some(n) => n,
                None => String::new(),
            };
            let v = chars_of(name.as_str());
            v.len() > 0 && v[0] == '.'
        },
    }
}

} // verus!
