//! What holds of every build log and of every command line.

use crate::build_log::{
    build_script_crate, lemma_scan_stays_ended, shell_words, extra_filename_key, initial, is_invocation, scanned, scanned_from, stepped,
    target_of_line, target_of_words, targets_of_lines, targets_of_log, InvocationView,
    NextState, ScannerView,
};
use crate::paths::joined;
use crate::text::{lines_of, trimmed_start};
use vstd::prelude::*;

verus! {

/// Whether `word` is none of the four words that a scan acts on.
pub open spec fn is_inert(word: Seq<char>) -> bool {
    &&& word != "--crate-name"@
    &&& word != "--test"@
    &&& word != "-C"@
    &&& word != "--out-dir"@
}

/// The four words that a scan acts on differ from each other.
pub proof fn lemma_flags_differ()
    ensures
        "--crate-name"@ != "--test"@,
        "--crate-name"@ != "-C"@,
        "--crate-name"@ != "--out-dir"@,
        "--test"@ != "-C"@,
        "--test"@ != "--out-dir"@,
        "-C"@ != "--out-dir"@,
{
    reveal_strlit("--crate-name");
    reveal_strlit("--test");
    reveal_strlit("-C");
    reveal_strlit("--out-dir");
    assert("--crate-name"@.len() == 12);
    assert("--test"@.len() == 6);
    assert("-C"@.len() == 2);
    assert("--out-dir"@.len() == 9);
}

/// A scan over `words` and then `word` steps once from where `words` left it.
pub proof fn lemma_scan_push(state: ScannerView, words: Seq<Seq<char>>, word: Seq<char>)
    ensures
        scanned_from(state, words.push(word)) == match scanned_from(state, words) {
            Some(before) => stepped(before, word),
            None => None,
        },
{
    assert(words.push(word).drop_last() =~= words);
}

/// A scan over `first + second` is a scan over `second` from where `first`
/// left it.
pub proof fn lemma_scan_concat(
    state: ScannerView,
    first: Seq<Seq<char>>,
    second: Seq<Seq<char>>,
)
    ensures
        scanned_from(state, first + second) == match scanned_from(state, first) {
            Some(middle) => scanned_from(middle, second),
            None => None,
        },
    decreases second.len(),
{
    if second.len() == 0 {
        assert(first + second =~= first);
    } else {
        lemma_scan_concat(state, first, second.drop_last());
        assert((first + second).drop_last() =~= first + second.drop_last());
        assert((first + second).last() == second.last());
    }
}

/// Words that a scan does not act on leave it as it was, where it expected
/// an argument of any kind.
pub proof fn lemma_inert_words(state: ScannerView, words: Seq<Seq<char>>)
    requires
        state.next == NextState::Normal,
        forall|i: int| 0 <= i < words.len() ==> is_inert(#[trigger] words[i]),
    ensures
        scanned_from(state, words) == Some(state),
    decreases words.len(),
{
    if words.len() > 0 {
        lemma_inert_words(state, words.drop_last());
        assert(is_inert(words[words.len() - 1]));
    }
}

/// A log in which no line announces a compiler run reports no test
/// executable.
pub proof fn lemma_no_invocation_no_target(output: Seq<char>)
    requires
        forall|i: int| 0 <= i < lines_of(output).len() ==> !is_invocation(#[trigger] lines_of(output)[i]),
    ensures
        targets_of_log(output) == Seq::<Seq<char>>::empty(),
{
    lemma_silent_lines(lines_of(output));
}

/// Lines of which none announces a compiler run report no test executable.
pub proof fn lemma_silent_lines(lines: Seq<Seq<char>>)
    requires
        forall|i: int| 0 <= i < lines.len() ==> !is_invocation(#[trigger] lines[i]),
    ensures
        targets_of_lines(lines) == Seq::<Seq<char>>::empty(),
    decreases lines.len(),
{
    if lines.len() > 0 {
        lemma_silent_lines(lines.drop_last());
        assert(!is_invocation(lines[lines.len() - 1]));
        assert(target_of_line(lines.last()) is None);
    }
}

/// Each line reports at most one test executable, so a log reports no more
/// of them than it has lines.
pub proof fn lemma_at_most_one_per_line(lines: Seq<Seq<char>>)
    ensures
        targets_of_lines(lines).len() <= lines.len(),
    decreases lines.len(),
{
    if lines.len() > 0 {
        lemma_at_most_one_per_line(lines.drop_last());
    }
}

/// What two runs of lines report together is what the first reports and then
/// what the second reports: nothing is merged, reordered or left out.
pub proof fn lemma_targets_in_line_order(first: Seq<Seq<char>>, second: Seq<Seq<char>>)
    ensures
        targets_of_lines(first + second) == targets_of_lines(first) + targets_of_lines(second),
    decreases second.len(),
{
    if second.len() == 0 {
        assert(first + second =~= first);
        assert(targets_of_lines(first) + targets_of_lines(second) =~= targets_of_lines(first));
    } else {
        lemma_targets_in_line_order(first, second.drop_last());
        assert((first + second).drop_last() =~= first + second.drop_last());
        assert((first + second).last() == second.last());
        match target_of_line(second.last()) {
            Some(path) => {
                assert(targets_of_lines(first + second) =~= targets_of_lines(first) + (
                targets_of_lines(second.drop_last()) + seq![path]));
            },
            None => {},
        }
    }
}

/// A command line that names `build_script_build` as its crate reports no
/// test executable, whatever else it holds. The two words count where
/// `--crate-name` is read as an option, that is where the word before it did
/// not ask for a value.
pub proof fn lemma_build_script_reports_nothing(words: Seq<Seq<char>>, i: int)
    requires
        0 <= i,
        i + 1 < words.len(),
        words[i] == "--crate-name"@,
        words[i + 1] == build_script_crate(),
        scanned(words.take(i)) matches Some(state) ==> state.next == NextState::Normal,
    ensures
        target_of_words(words) is None,
{
    assert(words.take(i + 1).drop_last() =~= words.take(i));
    assert(words.take(i + 2).drop_last() =~= words.take(i + 1));
    assert(words.take(i + 1).last() == words[i]);
    assert(words.take(i + 2).last() == words[i + 1]);
    if scanned(words.take(i)) is Some {
        assert(scanned(words.take(i + 1)) matches Some(state) && state.next == NextState::CrateName);
        assert(scanned(words.take(i + 2)) is None);
    } else {
        assert(scanned(words.take(i + 2)) is None);
    }
    lemma_scan_stays_ended(words, i + 2);
}

/// A scan that has not read `--test` has not confirmed a test.
pub proof fn lemma_unconfirmed_without_test(words: Seq<Seq<char>>)
    requires
        forall|i: int| 0 <= i < words.len() ==> #[trigger] words[i] != "--test"@,
    ensures
        scanned(words) matches Some(state) ==> !state.info.is_test_confirmed,
    decreases words.len(),
{
    if words.len() > 0 {
        lemma_unconfirmed_without_test(words.drop_last());
        assert(words[words.len() - 1] != "--test"@);
    }
}

/// A command line without the word `--test` reports no test executable.
pub proof fn lemma_no_test_flag_no_target(words: Seq<Seq<char>>)
    requires
        forall|i: int| 0 <= i < words.len() ==> #[trigger] words[i] != "--test"@,
    ensures
        target_of_words(words) is None,
{
    lemma_unconfirmed_without_test(words);
}

/// The words that tell a scan of a test build: the crate `name`, the suffix
/// `suffix` of its file name, and the output directory `out_dir`.
pub open spec fn test_build_words(
    name: Seq<char>,
    suffix: Seq<char>,
    out_dir: Seq<char>,
) -> Seq<Seq<char>> {
    seq![
        "--crate-name"@,
        name,
        "--test"@,
        "-C"@,
        extra_filename_key() + suffix,
        "--out-dir"@,
        out_dir,
    ]
}

/// A command line that names a crate, a suffix and an output directory for a
/// test build reports the file of that name and suffix in that directory,
/// character for character, whatever the three are made of; only a build
/// script's crate name reports nothing. Words that a scan does not act on may
/// stand before and after.
pub proof fn lemma_round_trip(
    before: Seq<Seq<char>>,
    name: Seq<char>,
    suffix: Seq<char>,
    out_dir: Seq<char>,
    after: Seq<Seq<char>>,
)
    requires
        name != build_script_crate(),
        forall|i: int| 0 <= i < before.len() ==> is_inert(#[trigger] before[i]),
        forall|i: int| 0 <= i < after.len() ==> is_inert(#[trigger] after[i]),
    ensures
        target_of_words(before + test_build_words(name, suffix, out_dir) + after) == Some(
            joined(out_dir, name + suffix),
        ),
{
    lemma_flags_differ();
    let key = extra_filename_key();
    let setting = key + suffix;
    assert(key.is_prefix_of(setting)) by {
        assert(setting.subrange(0, key.len() as int) =~= key);
    }
    assert(setting.skip(key.len() as int) =~= suffix);
    let start = initial();
    let w0 = Seq::<Seq<char>>::empty();
    let w1 = w0.push("--crate-name"@);
    let w2 = w1.push(name);
    let w3 = w2.push("--test"@);
    let w4 = w3.push("-C"@);
    let w5 = w4.push(setting);
    let w6 = w5.push("--out-dir"@);
    let w7 = w6.push(out_dir);
    assert(w7 =~= test_build_words(name, suffix, out_dir));
    lemma_scan_push(start, w0, "--crate-name"@);
    lemma_scan_push(start, w1, name);
    lemma_scan_push(start, w2, "--test"@);
    lemma_scan_push(start, w3, "-C"@);
    lemma_scan_push(start, w4, setting);
    lemma_scan_push(start, w5, "--out-dir"@);
    lemma_scan_push(start, w6, out_dir);
    let info = InvocationView {
        crate_name: Some(name),
        extra_filename: Some(suffix),
        out_dir: Some(out_dir),
        is_test_confirmed: true,
    };
    let end = ScannerView { next: NextState::Normal, info };
    assert(scanned_from(start, w1) == Some(ScannerView { next: NextState::CrateName, info: start.info }));
    assert(scanned_from(start, w2) matches Some(s) && s.next == NextState::Normal && s.info.crate_name == Some(name));
    assert(scanned_from(start, w3) matches Some(s) && s.next == NextState::Normal && s.info.is_test_confirmed);
    assert(scanned_from(start, w4) matches Some(s) && s.next == NextState::C);
    assert(scanned_from(start, w5) matches Some(s) && s.next == NextState::Normal && s.info.extra_filename == Some(suffix));
    assert(scanned_from(start, w6) matches Some(s) && s.next == NextState::OutDir);
    assert(scanned_from(start, w7) == Some(end));
    lemma_inert_words(start, before);
    lemma_scan_concat(start, before, w7);
    lemma_inert_words(end, after);
    lemma_scan_concat(start, before + w7, after);
}

/// A line that announces a compiler run for a build script reports no test
/// executable: the words of the line decide, as in
/// `lemma_build_script_reports_nothing`.
pub proof fn lemma_build_script_line(line: Seq<char>, i: int)
    requires
        ({
            let words = shell_words(trimmed_start(line));
            &&& 0 <= i
            &&& i + 1 < words.len()
            &&& words[i] == "--crate-name"@
            &&& words[i + 1] == build_script_crate()
            &&& scanned(words.take(i)) matches Some(state) ==> state.next == NextState::Normal
        }),
    ensures
        target_of_line(line) is None,
{
    lemma_build_script_reports_nothing(shell_words(trimmed_start(line)), i);
}

/// A line of which no word is `--test` reports no test executable.
pub proof fn lemma_line_without_test_flag(line: Seq<char>)
    requires
        ({
            let words = shell_words(trimmed_start(line));
            forall|i: int| 0 <= i < words.len() ==> #[trigger] words[i] != "--test"@
        }),
    ensures
        target_of_line(line) is None,
{
    lemma_no_test_flag_no_target(shell_words(trimmed_start(line)));
}

/// A line that announces a compiler run, and whose words name a crate, a
/// suffix and an output directory for a test build, reports the file of that
/// name and suffix in that directory.
pub proof fn lemma_line_round_trip(
    line: Seq<char>,
    before: Seq<Seq<char>>,
    name: Seq<char>,
    suffix: Seq<char>,
    out_dir: Seq<char>,
    after: Seq<Seq<char>>,
)
    requires
        is_invocation(line),
        shell_words(trimmed_start(line)) == before + test_build_words(name, suffix, out_dir)
            + after,
        name != build_script_crate(),
        forall|i: int| 0 <= i < before.len() ==> is_inert(#[trigger] before[i]),
        forall|i: int| 0 <= i < after.len() ==> is_inert(#[trigger] after[i]),
    ensures
        target_of_line(line) == Some(joined(out_dir, name + suffix)),
{
    lemma_round_trip(before, name, suffix, out_dir, after);
}

} // verus!
