//! Finds the test executables among the files of a target directory.
//!
//! Cargo names a test executable after its crate, with a hyphen and sixteen
//! hexadecimal digits behind the name. The caller lists the directory; which
//! entries are test executables is decided here.

use crate::errors::Error;
use crate::paths::{file_stem, join_path, joined, stem_of};
use crate::text::{chars_of, rfind_char, same_text, string_of_range};
use vstd::prelude::*;
use vstd::string::StringExecFns;

verus! {

#[verifier::external_type_specification]
#[verifier::external_body]
pub struct ExRegexSet(regex::RegexSet);

/// Whether `c` means something in a pattern. These are the characters that
/// `regex::escape` puts a backslash before.
pub open spec fn is_meta_character(c: char) -> bool {
    c == '\\' || c == '.' || c == '+' || c == '*' || c == '?' || c == '(' || c == ')' || c == '|'
        || c == '[' || c == ']' || c == '{' || c == '}' || c == '^' || c == '$' || c == '#' || c
        == '&' || c == '-' || c == '~'
}

/// `c` as a pattern that matches it: behind a backslash where it would mean
/// something else.
pub open spec fn escaped_char(c: char) -> Seq<char> {
    if is_meta_character(c) {
        seq!['\\', c]
    } else {
        seq![c]
    }
}

/// `text` as a pattern that matches it and nothing else: each of its
/// characters escaped, in order.
pub open spec fn escaped(text: Seq<char>) -> Seq<char>
    decreases text.len(),
{
    if text.len() == 0 {
        Seq::empty()
    } else {
        escaped(text.drop_last()) + escaped_char(text.last())
    }
}

/// Whether `regex::RegexSet::new` makes a set of `patterns`: each is a
/// pattern, and the set is not too large for `regex`.
pub uninterp spec fn patterns_are_accepted(patterns: Seq<Seq<char>>) -> bool;

/// The patterns that a `regex::RegexSet` was made of, in order.
pub uninterp spec fn set_patterns(set: regex::RegexSet) -> Seq<Seq<char>>;

/// Whether at least one of `patterns` matches `text`: what
/// `regex::RegexSet::is_match` answers for a set that `regex::RegexSet::new`
/// made of `patterns`.
pub uninterp spec fn any_pattern_matches(patterns: Seq<Seq<char>>, text: Seq<char>) -> bool;

/// A set of patterns, compiled by `regex::RegexSet::new` and so with the
/// settings of that function. Only `PatternSet::new` makes one.
pub struct PatternSet {
    set: regex::RegexSet,
}

/// Calls `regex::escape`, which copies `text` and puts a backslash before
/// each character that means something in a pattern.
#[verifier::external_body]
fn escape(text: &str) -> (r: String)
    ensures
        r@ == escaped(text@),
{
    regex::escape(text)
}

/// Calls `regex::RegexSet::new`. Whether a set is built depends on the
/// patterns alone; a set that was built holds the patterns it was given; the
/// error is the one that `regex` reports, as text.
#[verifier::external_body]
fn compile_patterns(patterns: &Vec<String>) -> (r: Result<PatternSet, String>)
    ensures
        r is Ok == patterns_are_accepted(patterns.deep_view()),
        r matches Ok(compiled) ==> set_patterns(compiled.set) == patterns.deep_view(),
{
    regex::RegexSet::new(patterns).map(|set| PatternSet { set }).map_err(|e| e.to_string())
}

/// Calls `regex::RegexSet::is_match` on the set inside `compiled`. That set
/// came from `regex::RegexSet::new`, so its answer depends on its patterns
/// and on `text` alone.
#[verifier::external_body]
fn set_matches(compiled: &PatternSet, text: &str) -> (r: bool)
    ensures
        r == any_pattern_matches(set_patterns(compiled.set), text@),
{
    compiled.set.is_match(text)
}

impl PatternSet {
    /// The patterns that the set was made of, in order.
    pub closed spec fn patterns(&self) -> Seq<Seq<char>> {
        set_patterns(self.set)
    }

    /// Compiles `patterns` into a set, or reports why `regex` refuses them.
    pub fn new(patterns: &Vec<String>) -> (r: Result<PatternSet, String>)
        ensures
            r is Ok == patterns_are_accepted(patterns.deep_view()),
            r matches Ok(compiled) ==> compiled.patterns() == patterns.deep_view(),
    {
        compile_patterns(patterns)
    }

    /// Whether at least one pattern of the set matches `text`.
    pub fn is_match(&self, text: &str) -> (r: bool)
        ensures
            r == any_pattern_matches(self.patterns(), text@),
    {
        set_matches(self, text)
    }
}

/// One entry of a directory listing.
#[derive(Debug, Clone, PartialEq, Eq)]
pub struct DirectoryEntry {
    /// The entry's name inside the directory: one path component.
    pub file_name: String,
    /// Whether the entry is a regular file.
    pub is_file: bool,
    /// Whether the platform would run the file.
    pub is_executable: bool,
}

/// A `DirectoryEntry` as a mathematical value.
pub struct EntryView {
    pub file_name: Seq<char>,
    pub is_file: bool,
    pub is_executable: bool,
}

impl View for DirectoryEntry {
    type V = EntryView;

    open spec fn view(&self) -> EntryView {
        EntryView {
            file_name: self.file_name@,
            is_file: self.is_file,
            is_executable: self.is_executable,
        }
    }
}

impl DeepView for DirectoryEntry {
    type V = EntryView;

    open spec fn deep_view(&self) -> EntryView {
        self@
    }
}

/// The pattern for the test executables of any crate: a name without a
/// hyphen, a hyphen, sixteen hexadecimal digits.
pub open spec fn catch_all_pattern() -> Seq<char> {
    "^[^-]+-[0-9a-f]{16}$"@
}

/// The pattern for the test executables of the crate `name`.
pub open spec fn pattern_for(name: Seq<char>) -> Seq<char> {
    "^"@ + escaped(name) + "-[0-9a-f]{16}$"@
}

/// The patterns to look for: one for each name, or the pattern for any
/// crate where no name is given.
pub open spec fn patterns_for(filters: Seq<Seq<char>>) -> Seq<Seq<char>> {
    if filters.len() == 0 {
        seq![catch_all_pattern()]
    } else {
        filters.map_values(|name: Seq<char>| pattern_for(name))
    }
}

/// Whether `entry` is a test executable: a regular file that can be run and
/// whose stem matches a pattern.
pub open spec fn qualifies(entry: EntryView, patterns: Seq<Seq<char>>) -> bool {
    &&& entry.is_file
    &&& entry.is_executable
    &&& any_pattern_matches(patterns, stem_of(entry.file_name))
}

/// The path of `entry` inside `directory`, where `entry` is a regular file
/// that can be run and `stem_matches`.
pub open spec fn path_if(directory: Seq<char>, entry: EntryView, stem_matches: bool) -> Option<
    Seq<char>,
> {
    if entry.is_file && entry.is_executable && stem_matches {
        Some(joined(directory, entry.file_name))
    } else {
        None
    }
}

/// The paths of the test executables among `entries`, in the order of the
/// listing.
pub open spec fn selected(
    directory: Seq<char>,
    entries: Seq<EntryView>,
    patterns: Seq<Seq<char>>,
) -> Seq<Seq<char>> {
    entries.filter_map(
        |entry: EntryView|
            path_if(directory, entry, any_pattern_matches(patterns, stem_of(entry.file_name))),
    )
}

/// The extension of a file name: what follows its last `.`, unless that is
/// the `.` it begins with.
pub open spec fn extension_of(name: Seq<char>) -> Option<Seq<char>> {
    match name.index_of_last('.') {
        Some(k) => if k > 0 {
            Some(name.skip(k + 1))
        } else {
            None
        },
        None => None,
    }
}

/// Whether permission bits of a POSIX file let anyone run it: the owner, the
/// group or the others.
pub fn can_execute(mode: u32) -> (r: bool)
    ensures
        r == ((mode & 0o111) != 0),
{
    (mode & 0o111) != 0
}

/// Whether a file name has the extension `exe`, by which Windows tells what
/// it can run.
pub fn has_exe_extension(file_name: &str) -> (r: bool)
    ensures
        r == (extension_of(file_name@) == Some("exe"@)),
{
    let chars = chars_of(file_name);
    match rfind_char(&chars, '.') {
        Some(k) => {
            if k > 0 {
                let extension = string_of_range(&chars, k + 1, chars.len());
                assert(extension@ =~= file_name@.skip(k + 1));
                same_text(extension.as_str(), "exe")
            } else {
                false
            }
        },
        None => false,
    }
}

/// The patterns to look for, given the names of the wanted crates.
pub fn test_target_patterns(filters: &Vec<String>) -> (r: Vec<String>)
    ensures
        r.deep_view() == patterns_for(filters.deep_view()),
{
    let mut out: Vec<String> = Vec::new();
    if filters.len() == 0 {
        out.push(String::from_str("^[^-]+-[0-9a-f]{16}$"));
        assert(out.deep_view() =~= seq![catch_all_pattern()]);
        return out;
    }
    let mut i: usize = 0;
    while i < filters.len()
        invariant
            i <= filters.len(),
            out.len() == i,
            forall|j: int| 0 <= j < i ==> (#[trigger] out[j])@ == pattern_for(filters[j]@),
        decreases filters.len() - i,
    {
        let mut pattern = String::from_str("^");
        let escaped = escape(filters[i].as_str());
        pattern.append(escaped.as_str());
        pattern.append("-[0-9a-f]{16}$");
        out.push(pattern);
        i += 1;
    }
    assert(out.deep_view() =~= patterns_for(filters.deep_view()));
    out
}

/// The path of `entry` inside `directory`, where `entry` is a regular file
/// that can be run and its stem was found to match.
pub fn entry_path(directory: &str, entry: &DirectoryEntry, stem_matches: bool) -> (r: Option<String>)
    ensures
        r.deep_view() == path_if(directory@, entry@, stem_matches),
{
    if entry.is_file && entry.is_executable && stem_matches {
        Some(join_path(directory, entry.file_name.as_str()))
    } else {
        None
    }
}

/// `paths`, or the failure to find any where there is none.
pub fn found_or_none(paths: Vec<String>) -> (r: Result<Vec<String>, Error>)
    ensures
        paths.len() > 0 ==> r == Ok::<Vec<String>, Error>(paths),
        paths.len() == 0 ==> r == Err::<Vec<String>, Error>(Error::CannotFindTestTargets(None)),
{
    if paths.len() == 0 {
        Err(Error::CannotFindTestTargets(None))
    } else {
        Ok(paths)
    }
}

/// The test executables among `entries` of `directory`, by the patterns of
/// `set`, in the order of the listing.
pub fn select_test_targets(directory: &str, entries: &Vec<DirectoryEntry>, set: &PatternSet) -> (r:
    Vec<String>)
    ensures
        r.deep_view() == selected(directory@, entries.deep_view(), set.patterns()),
{
    let ghost all = entries.deep_view();
    let ghost patterns = set.patterns();
    let mut out: Vec<String> = Vec::new();
    let mut i: usize = 0;
    assert(all.take(0) =~= Seq::<EntryView>::empty());
    assert(out.deep_view() =~= Seq::<Seq<char>>::empty());
    while i < entries.len()
        invariant
            i <= entries.len(),
            all == entries.deep_view(),
            patterns == set.patterns(),
            out.deep_view() == selected(directory@, all.take(i as int), patterns),
        decreases entries.len() - i,
    {
        let entry = &entries[i];
        let ghost so_far = out.deep_view();
        let ghost upto = all.take(i + 1);
        proof {
            assert(upto.drop_last() =~= all.take(i as int));
            assert(upto.last() == entry@);
        }
        let stem_matches = entry.is_file && entry.is_executable && set.is_match(
            file_stem(entry.file_name.as_str()),
        );
        match entry_path(directory, entry, stem_matches) {
            Some(path) => {
                out.push(path);
                assert(out.deep_view() =~= so_far + seq![path@]);
                assert(selected(directory@, upto, patterns) == selected(
                    directory@,
                    upto.drop_last(),
                    patterns,
                ) + seq![path@]);
            },
            None => {
                assert(selected(directory@, upto, patterns) == selected(
                    directory@,
                    upto.drop_last(),
                    patterns,
                ));
            },
        }
        i += 1;
    }
    assert(all.take(all.len() as int) =~= all);
    out
}

/// Finds the test executables in a listing of `directory`.
///
/// `listing` is what listing the directory gave: its entries, or the
/// system's report of why it could not be listed. `filters` are the names of
/// the wanted crates, as Cargo writes them in file names; with none, the test
/// executables of every crate are wanted.
///
/// A listing that failed gives `CannotFindTestTargets` with the report.
/// Patterns that `regex` refuses give `InvalidFilter` with its report. A
/// listing in which nothing qualifies gives `CannotFindTestTargets(None)`.
/// Otherwise the result holds the paths of the entries that qualify, in the
/// order of the listing.
pub fn find_test_targets(
    directory: &str,
    listing: Result<Vec<DirectoryEntry>, String>,
    filters: &Vec<String>,
) -> (r: Result<Vec<String>, Error>)
    ensures
        match listing {
            Err(report) => r == Err::<Vec<String>, Error>(
                Error::CannotFindTestTargets(Some(report)),
            ),
            Ok(entries) => {
                let patterns = patterns_for(filters.deep_view());
                let wanted = selected(directory@, entries.deep_view(), patterns);
                match r {
                    Ok(paths) => {
                        &&& patterns_are_accepted(patterns)
                        &&& paths.deep_view() == wanted
                        &&& wanted.len() > 0
                    },
                    Err(Error::CannotFindTestTargets(None)) => {
                        &&& patterns_are_accepted(patterns)
                        &&& wanted.len() == 0
                    },
                    Err(Error::InvalidFilter(_)) => !patterns_are_accepted(patterns),
                    Err(_) => false,
                }
            },
        },
{
    let entries = match listing {
        Ok(entries) => entries,
        Err(report) => {
            return Err(Error::CannotFindTestTargets(Some(report)));
        },
    };
    let patterns = test_target_patterns(filters);
    let set = match PatternSet::new(&patterns) {
        Ok(set) => set,
        Err(report) => {
            return Err(Error::InvalidFilter(report));
        },
    };
    found_or_none(select_test_targets(directory, &entries, &set))
}

} // verus!
