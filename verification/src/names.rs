//! The name under which Cargo files what a package builds.

use crate::text::{chars_of, find_char, rfind_char, string_of};
use std::borrow::Cow;
use vstd::prelude::*;
use vstd::string::StrSliceExecFns;

verus! {

/// `name` with `_` in place of each `-`.
pub open spec fn normalized(name: Seq<char>) -> Seq<char> {
    name.map_values(
        |c: char|
            if c == '-' {
                '_'
            } else {
                c
            },
    )
}

/// What follows the last `/` of `pkgid`, or all of it where it has none.
pub open spec fn last_segment(pkgid: Seq<char>) -> Seq<char> {
    match pkgid.index_of_last('/') {
        Some(i) => pkgid.skip(i + 1),
        None => pkgid,
    }
}

/// The name in the last segment of a package id, which has one of the forms
/// `name`, `name:version`, `name#version` and `path#name:version`. With both
/// marks the name stands between the first `#` and the last `:`, and is empty
/// where the `:` comes first.
pub open spec fn bare_name(segment: Seq<char>) -> Seq<char> {
    match (segment.index_of_last(':'), segment.index_of_first('#')) {
        (None, None) => segment,
        (Some(i), None) => segment.take(i),
        (None, Some(j)) => segment.take(j),
        (Some(i), Some(j)) => if j < i {
            segment.subrange(j + 1, i)
        } else {
            Seq::empty()
        },
    }
}

/// The package name that `pkgid` holds, as Cargo writes it in file names.
pub open spec fn package_name(pkgid: Seq<char>) -> Seq<char> {
    normalized(bare_name(last_segment(pkgid)))
}

/// Writes `_` for each `-` of `name`. A name without `-` is handed back as it
/// came, borrowed.
pub fn normalize_package_name(name: &str) -> (r: Cow<'_, str>)
    ensures
        r@ == normalized(name@),
        r is Borrowed <==> !name@.contains('-'),
        r matches Cow::Borrowed(b) ==> b@ == name@,
{
    let chars = chars_of(name);
    if find_char(&chars, '-').is_none() {
        proof {
            name@.index_of_first_ensures('-');
            assert(normalized(name@) =~= name@);
        }
        return Cow::Borrowed(name);
    }
    proof {
        name@.index_of_first_ensures('-');
    }
    let mut out: Vec<char> = Vec::new();
    let mut i: usize = 0;
    while i < chars.len()
        invariant
            i <= chars.len(),
            out@ == normalized(chars@.take(i as int)),
        decreases chars.len() - i,
    {
        let c = chars[i];
        out.push(
            if c == '-' {
                '_'
            } else {
                c
            },
        );
        assert(out@ =~= normalized(chars@.take(i + 1)));
        i += 1;
    }
    assert(chars@.take(chars@.len() as int) =~= chars@);
    Cow::Owned(string_of(&out))
}

/// The name of the package that `pkgid` identifies, with `_` for each `-`.
pub fn find_package_name_from_pkgid(pkgid: &str) -> (r: Cow<'_, str>)
    ensures
        r@ == package_name(pkgid@),
{
    let all = chars_of(pkgid);
    let n = all.len();
    let start: usize = match rfind_char(&all, '/') {
        Some(i) => i + 1,
        None => 0,
    };
    assert(pkgid@.skip(0) =~= pkgid@);
    assert(pkgid@.skip(start as int) =~= pkgid@.subrange(start as int, n as int));
    let segment = pkgid.substring_char(start, n);
    let chars = chars_of(segment);
    let m = chars.len();
    let name = match (rfind_char(&chars, ':'), find_char(&chars, '#')) {
        (None, None) => segment,
        (Some(i), None) => segment.substring_char(0, i),
        (None, Some(j)) => segment.substring_char(0, j),
        (Some(i), Some(j)) => if j < i {
            segment.substring_char(j + 1, i)
        } else {
            segment.substring_char(0, 0)
        },
    };
    assert(name@ =~= bare_name(segment@));
    normalize_package_name(name)
}

} // verus!
