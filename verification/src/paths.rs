//! Paths as text. Joining a path and taking the stem of a file name are
//! worked out here, for paths with `/` between their components; what the
//! last component of a path is, and what is left without it, is asked of
//! `std::path`.

use crate::text::{chars_of, rfind_char, same_text};
use vstd::prelude::*;
use vstd::string::StrSliceExecFns;
use vstd::string::StringExecFns;

verus! {

/// The last component of `path`, as `std::path::Path::file_name` tells it;
/// `None` where the path names no file, as one that ends in `..`.
pub uninterp spec fn file_name_of(path: Seq<char>) -> Option<Seq<char>>;

/// `path` without its last component, as `std::path::PathBuf::pop` leaves
/// it; `path` itself where nothing can be taken away.
pub uninterp spec fn parent_of(path: Seq<char>) -> Seq<char>;

/// Calls `std::path::Path::file_name`, which reads nothing but the path.
#[verifier::external_body]
pub(crate) fn file_name(path: &str) -> (r: Option<String>)
    ensures
        r.deep_view() == file_name_of(path@),
{
    std::path::Path::new(path).file_name().map(|name| name.to_string_lossy().into_owned())
}

/// Calls `std::path::PathBuf::pop`, which reads nothing but the path.
#[verifier::external_body]
pub(crate) fn without_last_component(path: &str) -> (r: String)
    ensures
        r@ == parent_of(path@),
{
    let mut path = std::path::PathBuf::from(path);
    path.pop();
    path.to_string_lossy().into_owned()
}

/// The path that names `file` inside `dir`. A `file` that begins at the root
/// stands for itself. Otherwise `file` follows `dir`, after a `/` where `dir`
/// is not empty and does not end with one.
pub open spec fn joined(dir: Seq<char>, file: Seq<char>) -> Seq<char> {
    if file.len() > 0 && file[0] == '/' {
        file
    } else if dir.len() > 0 && dir.last() != '/' {
        dir + seq!['/'] + file
    } else {
        dir + file
    }
}

/// The stem of a file name: the name up to its last `.`, or the whole name
/// where it has no `.` or only the one it begins with, and where it is `..`.
pub open spec fn stem_of(name: Seq<char>) -> Seq<char> {
    if name == ".."@ {
        name
    } else {
        stem_before_dot(name)
    }
}

/// `name` up to its last `.`, or the whole name where it has no `.` or only
/// the one it begins with.
pub open spec fn stem_before_dot(name: Seq<char>) -> Seq<char> {
    match name.index_of_last('.') {
        Some(k) => if k > 0 {
            name.take(k)
        } else {
            name
        },
        None => name,
    }
}

/// The path that names `file` inside `dir`.
pub fn join_path(dir: &str, file: &str) -> (r: String)
    ensures
        r@ == joined(dir@, file@),
{
    let d = chars_of(dir);
    let f = chars_of(file);
    if f.len() > 0 && f[0] == '/' {
        return String::from_str(file);
    }
    let mut out = String::from_str(dir);
    if d.len() > 0 && d[d.len() - 1] != '/' {
        out.push('/');
    }
    out.append(file);
    out
}

/// The stem of the file name `name`.
pub fn file_stem(name: &str) -> (r: &str)
    ensures
        r@ == stem_of(name@),
{
    if same_text(name, "..") {
        return name;
    }
    let chars = chars_of(name);
    match rfind_char(&chars, '.') {
        Some(k) => {
            if k > 0 {
                assert(name@.take(k as int) =~= name@.subrange(0, k as int));
                name.substring_char(0, k)
            } else {
                name
            }
        },
        None => name,
    }
}

} // verus!
