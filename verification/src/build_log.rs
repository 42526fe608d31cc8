//! Reads the output of `cargo test --no-run --verbose` for the test
//! executables that the build wrote.
//!
//! Cargo announces each compiler run on a line of its own, with rustc's whole
//! command line. That line is split as a shell would split it, and four of
//! its words decide what the run produced.

use crate::paths::{join_path, joined};
use crate::text::{
    chars_of, chars_start_with, lines, lines_of, same_text, starts_with, string_of_range,
    trim_start, trimmed_start,
};
use vstd::prelude::*;
use vstd::string::StringExecFns;

verus! {

/// The words that `shlex` splits `line` into: the items of
/// `shlex::Shlex::new(line)`, in order.
pub uninterp spec fn shell_words(line: Seq<char>) -> Seq<Seq<char>>;

/// Runs `shlex::Shlex` over `line` and collects its words. The iterator reads
/// nothing but the line, so the words are a function of it; what they are is
/// left to `shlex`.
#[verifier::external_body]
fn split_words(line: &str) -> (r: Vec<String>)
    ensures
        r.deep_view() == shell_words(line@),
{
    shlex::Shlex::new(line).collect()
}

/// What the scan expects the next word to be.
#[derive(Clone, Copy, Debug, PartialEq, Eq, Structural)]
pub enum NextState {
    /// An argument of any kind.
    Normal,
    /// The crate's name, after `--crate-name`.
    CrateName,
    /// A codegen setting, after `-C`.
    C,
    /// The output directory, after `--out-dir`.
    OutDir,
}

/// What a scan has learned of one compiler run.
#[derive(Debug)]
pub struct ParsedInvocation {
    pub crate_name: Option<String>,
    /// What follows `extra-filename=` in the setting of that name.
    pub extra_filename: Option<String>,
    pub out_dir: Option<String>,
    /// Whether `--test` was among the arguments.
    pub is_test_confirmed: bool,
}

/// A `ParsedInvocation` as a mathematical value.
pub struct InvocationView {
    pub crate_name: Option<Seq<char>>,
    pub extra_filename: Option<Seq<char>>,
    pub out_dir: Option<Seq<char>>,
    pub is_test_confirmed: bool,
}

impl View for ParsedInvocation {
    type V = InvocationView;

    open spec fn view(&self) -> InvocationView {
        InvocationView {
            crate_name: self.crate_name.deep_view(),
            extra_filename: self.extra_filename.deep_view(),
            out_dir: self.out_dir.deep_view(),
            is_test_confirmed: self.is_test_confirmed,
        }
    }
}

/// A scan in progress over the words of one command line.
#[derive(Debug)]
pub struct Scanner {
    pub next: NextState,
    pub info: ParsedInvocation,
}

/// A `Scanner` as a mathematical value.
pub struct ScannerView {
    pub next: NextState,
    pub info: InvocationView,
}

impl View for Scanner {
    type V = ScannerView;

    open spec fn view(&self) -> ScannerView {
        ScannerView { next: self.next, info: self.info@ }
    }
}

/// What a line must begin with, after its leading white space, to announce a
/// compiler run.
pub open spec fn invocation_prefix() -> Seq<char> {
    "Running `rustc "@
}

/// The crate name under which Cargo compiles a build script.
pub open spec fn build_script_crate() -> Seq<char> {
    "build_script_build"@
}

/// What a codegen setting begins with when it sets the suffix of the file name.
pub open spec fn extra_filename_key() -> Seq<char> {
    "extra-filename="@
}

/// The state in which every scan begins.
pub open spec fn initial() -> ScannerView {
    ScannerView {
        next: NextState::Normal,
        info: InvocationView {
            crate_name: None,
            extra_filename: None,
            out_dir: None,
            is_test_confirmed: false,
        },
    }
}

/// The state after `word`, or `None` where `word` shows that the line
/// compiles a build script, which ends the scan.
pub open spec fn stepped(state: ScannerView, word: Seq<char>) -> Option<ScannerView> {
    let info = state.info;
    match state.next {
        NextState::CrateName => if word == build_script_crate() {
            None
        } else {
            Some(
                ScannerView {
                    next: NextState::Normal,
                    info: InvocationView { crate_name: Some(word), ..info },
                },
            )
        },
        NextState::C => if extra_filename_key().is_prefix_of(word) {
            Some(
                ScannerView {
                    next: NextState::Normal,
                    info: InvocationView {
                        extra_filename: Some(word.skip(extra_filename_key().len() as int)),
                        ..info
                    },
                },
            )
        } else {
            Some(ScannerView { next: NextState::Normal, info })
        },
        NextState::OutDir => Some(
            ScannerView {
                next: NextState::Normal,
                info: InvocationView { out_dir: Some(word), ..info },
            },
        ),
        NextState::Normal => if word == "--crate-name"@ {
            Some(ScannerView { next: NextState::CrateName, info })
        } else if word == "--test"@ {
            Some(
                ScannerView {
                    next: NextState::Normal,
                    info: InvocationView { is_test_confirmed: true, ..info },
                },
            )
        } else if word == "-C"@ {
            Some(ScannerView { next: NextState::C, info })
        } else if word == "--out-dir"@ {
            Some(ScannerView { next: NextState::OutDir, info })
        } else {
            Some(state)
        },
    }
}

/// The state that a scan reaches from `state` over `words`, or `None` where
/// one of them ended the scan.
pub open spec fn scanned_from(state: ScannerView, words: Seq<Seq<char>>) -> Option<ScannerView>
    decreases words.len(),
{
    if words.len() == 0 {
        Some(state)
    } else {
        match scanned_from(state, words.drop_last()) {
            Some(before) => stepped(before, words.last()),
            None => None,
        }
    }
}

/// The state after all of `words`, or `None` where one of them ended the scan.
pub open spec fn scanned(words: Seq<Seq<char>>) -> Option<ScannerView> {
    scanned_from(initial(), words)
}

/// The file that a compiler run wrote, where it built a test: the crate's
/// name with the suffix, inside the output directory. A run without `--test`
/// or without a crate name built none.
pub open spec fn target_of(info: InvocationView) -> Option<Seq<char>> {
    if !info.is_test_confirmed {
        None
    } else {
        match info.crate_name {
            None => None,
            Some(name) => {
                let file_name = match info.extra_filename {
                    Some(extra) => name + extra,
                    None => name,
                };
                let dir = match info.out_dir {
                    Some(dir) => dir,
                    None => Seq::empty(),
                };
                Some(joined(dir, file_name))
            },
        }
    }
}

/// The test executable that a command line of these words wrote, if any.
pub open spec fn target_of_words(words: Seq<Seq<char>>) -> Option<Seq<char>> {
    match scanned(words) {
        Some(state) => target_of(state.info),
        None => None,
    }
}

/// Whether `line` announces a compiler run.
pub open spec fn is_invocation(line: Seq<char>) -> bool {
    invocation_prefix().is_prefix_of(trimmed_start(line))
}

/// The test executable that `line` reports, if any.
pub open spec fn target_of_line(line: Seq<char>) -> Option<Seq<char>> {
    if is_invocation(line) {
        target_of_words(shell_words(trimmed_start(line)))
    } else {
        None
    }
}

/// The test executables that `lines` report, one for each line that reports
/// one, in the order of the lines.
pub open spec fn targets_of_lines(lines: Seq<Seq<char>>) -> Seq<Seq<char>> {
    lines.filter_map(|line: Seq<char>| target_of_line(line))
}

/// The test executables that `output` reports, in the order of its lines.
pub open spec fn targets_of_log(output: Seq<char>) -> Seq<Seq<char>> {
    targets_of_lines(lines_of(output))
}

impl Scanner {
    /// A scan that has read no word yet.
    pub fn new() -> (r: Scanner)
        ensures
            r@ == initial(),
    {
        Scanner {
            next: NextState::Normal,
            info: ParsedInvocation {
                crate_name: None,
                extra_filename: None,
                out_dir: None,
                is_test_confirmed: false,
            },
        }
    }

    /// Reads one more word. `None` ends the scan: the line compiles a build
    /// script.
    pub fn step(self, word: &str) -> (r: Option<Scanner>)
        ensures
            match r {
                Some(next) => stepped(self@, word@) == Some(next@),
                None => stepped(self@, word@) is None,
            },
    {
        let Scanner { next, info } = self;
        let ParsedInvocation { crate_name, extra_filename, out_dir, is_test_confirmed } = info;
        match next {
            NextState::CrateName => {
                if same_text(word, "build_script_build") {
                    None
                } else {
                    Some(
                        Scanner {
                            next: NextState::Normal,
                            info: ParsedInvocation {
                                crate_name: Some(String::from_str(word)),
                                extra_filename,
                                out_dir,
                                is_test_confirmed,
                            },
                        },
                    )
                }
            },
            NextState::C => {
                let chars = chars_of(word);
                let key = chars_of("extra-filename=");
                if chars_start_with(&chars, &key) {
                    let suffix = string_of_range(&chars, key.len(), chars.len());
                    assert(suffix@ =~= word@.skip(extra_filename_key().len() as int));
                    Some(
                        Scanner {
                            next: NextState::Normal,
                            info: ParsedInvocation {
                                crate_name,
                                extra_filename: Some(suffix),
                                out_dir,
                                is_test_confirmed,
                            },
                        },
                    )
                } else {
                    Some(
                        Scanner {
                            next: NextState::Normal,
                            info: ParsedInvocation {
                                crate_name,
                                extra_filename,
                                out_dir,
                                is_test_confirmed,
                            },
                        },
                    )
                }
            },
            NextState::OutDir => Some(
                Scanner {
                    next: NextState::Normal,
                    info: ParsedInvocation {
                        crate_name,
                        extra_filename,
                        out_dir: Some(String::from_str(word)),
                        is_test_confirmed,
                    },
                },
            ),
            NextState::Normal => {
                let mut confirmed = is_test_confirmed;
                let after = if same_text(word, "--crate-name") {
                    NextState::CrateName
                } else if same_text(word, "--test") {
                    confirmed = true;
                    NextState::Normal
                } else if same_text(word, "-C") {
                    NextState::C
                } else if same_text(word, "--out-dir") {
                    NextState::OutDir
                } else {
                    NextState::Normal
                };
                Some(
                    Scanner {
                        next: after,
                        info: ParsedInvocation {
                            crate_name,
                            extra_filename,
                            out_dir,
                            is_test_confirmed: confirmed,
                        },
                    },
                )
            },
        }
    }

    /// The test executable that the scanned command line wrote, if any.
    pub fn target(&self) -> (r: Option<String>)
        ensures
            r.deep_view() == target_of(self.info@),
    {
        if !self.info.is_test_confirmed {
            return None;
        }
        match &self.info.crate_name {
            None => None,
            Some(name) => {
                let mut file_name = name.clone();
                if let Some(extra) = &self.info.extra_filename {
                    file_name.append(extra.as_str());
                }
                let path = match &self.info.out_dir {
                    Some(dir) => join_path(dir.as_str(), file_name.as_str()),
                    None => join_path("", file_name.as_str()),
                };
                proof {
                    reveal_strlit("");
                    assert(""@ =~= Seq::<char>::empty());
                }
                Some(path)
            },
        }
    }
}

/// Once a word has ended the scan, no later word revives it.
pub proof fn lemma_scan_stays_ended(words: Seq<Seq<char>>, n: int)
    requires
        0 <= n <= words.len(),
        scanned(words.take(n)) is None,
    ensures
        scanned(words) is None,
    decreases words.len() - n,
{
    if n < words.len() {
        assert(words.take(n + 1).drop_last() =~= words.take(n));
        lemma_scan_stays_ended(words, n + 1);
    } else {
        assert(words.take(n) =~= words);
    }
}

/// Scans the words of one compiler command line for the test executable that
/// it wrote.
pub fn target_from_words(words: &Vec<String>) -> (r: Option<String>)
    ensures
        r.deep_view() == target_of_words(words.deep_view()),
{
    let ghost all = words.deep_view();
    let mut scanner = Scanner::new();
    let mut i: usize = 0;
    assert(all.take(0) =~= Seq::<Seq<char>>::empty());
    while i < words.len()
        invariant
            i <= words.len(),
            all == words.deep_view(),
            scanned(all.take(i as int)) == Some(scanner@),
        decreases words.len() - i,
    {
        proof {
            assert(all.take(i + 1).drop_last() =~= all.take(i as int));
            assert(all.take(i + 1).last() == words[i as int]@);
        }
        match scanner.step(words[i].as_str()) {
            Some(next) => {
                scanner = next;
            },
            None => {
                proof {
                    lemma_scan_stays_ended(all, i + 1);
                }
                return None;
            },
        }
        i += 1;
    }
    assert(all.take(all.len() as int) =~= all);
    scanner.target()
}

/// Reads one line of Cargo's verbose output. Where the line announces a
/// compiler run that built a test, the result is the path of the executable.
pub fn parse_rustc_command_line(line: &str) -> (r: Option<String>)
    ensures
        r.deep_view() == target_of_line(line@),
{
    let trimmed = trim_start(line);
    if !starts_with(trimmed, "Running `rustc ") {
        return None;
    }
    target_from_words(&split_words(trimmed))
}

/// Appends to `targets` the test executables that `output` reports, in the
/// order of its lines.
pub fn parse_rustc_command_lines_into(targets: &mut Vec<String>, output: &str)
    ensures
        final(targets).deep_view() == old(targets).deep_view() + targets_of_log(output@),
{
    let all = lines(output);
    let ghost before = targets.deep_view();
    let mut i: usize = 0;
    assert(all.deep_view().take(0) =~= Seq::<Seq<char>>::empty());
    assert(targets.deep_view() =~= before + Seq::<Seq<char>>::empty());
    while i < all.len()
        invariant
            i <= all.len(),
            all.deep_view() == lines_of(output@),
            targets.deep_view() == before + targets_of_lines(all.deep_view().take(i as int)),
        decreases all.len() - i,
    {
        let ghost so_far = targets.deep_view();
        let ghost upto = all.deep_view().take(i + 1);
        proof {
            assert(upto.drop_last() =~= all.deep_view().take(i as int));
            assert(upto.last() == all[i as int]@);
        }
        match parse_rustc_command_line(all[i].as_str()) {
            Some(path) => {
                targets.push(path);
                assert(targets.deep_view() =~= so_far + seq![path@]);
                assert(targets_of_lines(upto) == targets_of_lines(upto.drop_last()) + seq![path@]);
            },
            None => {
                assert(targets_of_lines(upto) == targets_of_lines(upto.drop_last()));
            },
        }
        i += 1;
    }
    assert(all.deep_view().take(all.len() as int) =~= all.deep_view());
}

} // verus!
