//! The steps of a coverage run, as far as they decide or compute: which
//! commands to run, what to look for, what their answers mean. Running the
//! commands and touching the file system is the caller's part.

use crate::build_log::{parse_rustc_command_lines_into, targets_of_log};
use crate::cargo::{cargo, forwarded, merged_value, Cmd};
use crate::errors::Error;
use crate::names::{find_package_name_from_pkgid, normalize_package_name, normalized, package_name};
use crate::options::{value_in, values_in, GivenView, Matches};
use crate::json_shape::{check_plain_json, is_plain_json};
use crate::paths::{file_name, file_name_of, join_path, joined, parent_of, without_last_component};
use crate::text::contains_text;
use vstd::prelude::*;
use vstd::string::StringExecFns;

verus! {

#[verifier::external_type_specification]
#[verifier::external_body]
pub struct ExJson(rustc_serialize::json::Json);

/// The JSON value that `text` denotes, as `rustc_serialize` reads it; `None`
/// where `text` is no JSON.
pub uninterp spec fn json_of(text: Seq<char>) -> Option<rustc_serialize::json::Json>;

/// The member `key` of a JSON object; `None` where `json` is no object or
/// has no such member.
pub uninterp spec fn json_member_of(
    json: rustc_serialize::json::Json,
    key: Seq<char>,
) -> Option<rustc_serialize::json::Json>;

/// The text of a JSON string; `None` where `json` is no string.
pub uninterp spec fn json_text_of(json: rustc_serialize::json::Json) -> Option<Seq<char>>;

/// Calls `rustc_serialize::json::Json::from_str`: the value that `text`
/// denotes, or the parser's report as text. The parser is given plain texts
/// only: on others it may stop the program.
#[verifier::external_body]
fn parse_json(text: &str) -> (r: Result<rustc_serialize::json::Json, String>)
    requires
        is_plain_json(text@),
    ensures
        match r {
            Ok(json) => json_of(text@) == Some(json),
            Err(_) => json_of(text@) is None,
        },
{
    rustc_serialize::json::Json::from_str(text).map_err(|e| e.to_string())
}

/// Calls `rustc_serialize::json::Json::find`: the member `key` of an object.
#[verifier::external_body]
fn json_member<'a>(json: &'a rustc_serialize::json::Json, key: &str) -> (r: Option<
    &'a rustc_serialize::json::Json,
>)
    ensures
        match r {
            Some(member) => json_member_of(*json, key@) == Some(*member),
            None => json_member_of(*json, key@) is None,
        },
{
    json.find(key)
}

/// Calls `rustc_serialize::json::Json::as_string`: the text of a string.
#[verifier::external_body]
fn json_text(json: &rustc_serialize::json::Json) -> (r: Option<String>)
    ensures
        r.deep_view() == json_text_of(*json),
{
    json.as_string().map(|s| s.to_string())
}

/// The path of the manifest in Cargo's answer to `locate-project`: the text
/// of the member `root`.
pub open spec fn manifest_in(answer: Seq<char>) -> Option<Seq<char>> {
    match json_of(answer) {
        Some(json) => match json_member_of(json, "root"@) {
            Some(member) => json_text_of(member),
            None => None,
        },
        None => None,
    }
}

/// The bytes that the answer of a usable kcov to `--version` begins with.
pub open spec fn kcov_banner() -> Seq<u8> {
    seq![0x6bu8, 0x63u8, 0x6fu8, 0x76u8, 0x20u8]
}

/// `names` with `name` behind them, unless it is among them.
pub open spec fn with_name(names: Seq<Seq<char>>, name: Seq<char>) -> Seq<Seq<char>> {
    if names.contains(name) {
        names
    } else {
        names.push(name)
    }
}

/// `names` with each of `more` that is new, as Cargo writes it in file
/// names.
pub open spec fn with_names(names: Seq<Seq<char>>, more: Seq<Seq<char>>) -> Seq<Seq<char>>
    decreases more.len(),
{
    if more.len() == 0 {
        names
    } else {
        with_name(with_names(names, more.drop_last()), normalized(more.last()))
    }
}

/// `names` with the values of the option `key`, where it was given.
pub open spec fn with_values_of(
    names: Seq<Seq<char>>,
    given: Seq<GivenView>,
    key: Seq<char>,
) -> Seq<Seq<char>> {
    match values_in(given, key) {
        Some(values) => with_names(names, values),
        None => names,
    }
}

/// The names of the crates whose test executables are wanted: the package's
/// own with `--lib`, and each that `--bin`, `--example`, `--test` and
/// `--bench` name. No name stands twice.
pub open spec fn wanted_names(given: Seq<GivenView>, pkgid: Seq<char>) -> Seq<Seq<char>> {
    let lib = if values_in(given, "lib"@) is Some {
        seq![package_name(pkgid)]
    } else {
        Seq::empty()
    };
    with_values_of(
        with_values_of(
            with_values_of(with_values_of(lib, given, "bin"@), given, "example"@),
            given,
            "test"@,
        ),
        given,
        "bench"@,
    )
}

/// Names of which none stands twice stay so when `more` are added.
pub proof fn lemma_with_names_are_distinct(names: Seq<Seq<char>>, more: Seq<Seq<char>>)
    requires
        names.no_duplicates(),
    ensures
        with_names(names, more).no_duplicates(),
        forall|i: int| 0 <= i < names.len() ==> with_names(names, more).contains(#[trigger] names[i]),
        forall|i: int|
            0 <= i < more.len() ==> with_names(names, more).contains(normalized(#[trigger] more[i])),
    decreases more.len(),
{
    if more.len() > 0 {
        let rest = more.drop_last();
        lemma_with_names_are_distinct(names, rest);
        let sofar = with_names(names, rest);
        let name = normalized(more.last());
        let all = with_name(sofar, name);
        assert forall|i: int| 0 <= i < names.len() implies all.contains(#[trigger] names[i]) by {
            let k = choose|k: int| 0 <= k < sofar.len() && sofar[k] == names[i];
            assert(all[k] == names[i]);
        }
        assert forall|i: int| 0 <= i < more.len() implies all.contains(
            normalized(#[trigger] more[i]),
        ) by {
            if i < rest.len() {
                assert(rest[i] == more[i]);
                let k = choose|k: int| 0 <= k < sofar.len() && sofar[k] == normalized(rest[i]);
                assert(all[k] == normalized(more[i]));
            } else if sofar.contains(name) {
            } else {
                assert(all[sofar.len() as int] == name);
            }
        }
    }
}

/// No name stands twice among the wanted names.
pub proof fn lemma_wanted_names_are_distinct(given: Seq<GivenView>, pkgid: Seq<char>)
    ensures
        wanted_names(given, pkgid).no_duplicates(),
{
    let lib = if values_in(given, "lib"@) is Some {
        seq![package_name(pkgid)]
    } else {
        Seq::empty()
    };
    let bin = with_values_of(lib, given, "bin"@);
    let example = with_values_of(bin, given, "example"@);
    let test = with_values_of(example, given, "test"@);
    match values_in(given, "bin"@) {
        Some(values) => lemma_with_names_are_distinct(lib, values),
        None => {},
    }
    match values_in(given, "example"@) {
        Some(values) => lemma_with_names_are_distinct(bin, values),
        None => {},
    }
    match values_in(given, "test"@) {
        Some(values) => lemma_with_names_are_distinct(example, values),
        None => {},
    }
    match values_in(given, "bench"@) {
        Some(values) => lemma_with_names_are_distinct(test, values),
        None => {},
    }
}

/// The directory that the build writes to, inside the target directory
/// `path`: that of the target triple where one was given, and in it
/// `release` or `debug`.
pub open spec fn build_directory(given: Seq<GivenView>, path: Seq<char>) -> Seq<char> {
    let base = match value_in(given, "target"@) {
        Some(target) => joined(path, target),
        None => path,
    };
    joined(
        base,
        if values_in(given, "release"@) is Some {
            "release"@
        } else {
            "debug"@
        },
    )
}

/// The arguments that kcov gets where none were given: leave Cargo's own
/// files out, and verify.
pub open spec fn default_args(cargo_home: Option<Seq<char>>) -> Seq<Seq<char>> {
    seq![
        "--exclude-pattern="@ + match cargo_home {
            Some(home) => home,
            None => "/.cargo"@,
        },
        "--verify"@,
    ]
}

/// What a run is to do, as the options ask.
#[derive(Debug, Clone, PartialEq, Eq)]
pub enum Plan {
    /// Print the script that installs kcov, and nothing else.
    PrintInstallScript,
    /// Collect coverage.
    Cover {
        /// The program to run as kcov.
        kcov: String,
        /// Whether to say what is being done.
        verbose: bool,
        /// Whether to build the test executables anew, or to look for those
        /// that are there.
        rebuild: bool,
        /// Whether to open the report at the end.
        open: bool,
    },
}

/// A `Plan` as a mathematical value.
pub enum PlanView {
    PrintInstallScript,
    Cover { kcov: Seq<char>, verbose: bool, rebuild: bool, open: bool },
}

impl View for Plan {
    type V = PlanView;

    open spec fn view(&self) -> PlanView {
        match self {
            Plan::PrintInstallScript => PlanView::PrintInstallScript,
            Plan::Cover { kcov, verbose, rebuild, open } => PlanView::Cover {
                kcov: kcov@,
                verbose: *verbose,
                rebuild: *rebuild,
                open: *open,
            },
        }
    }
}

/// What the options ask for, on a system where kcov works.
pub open spec fn plan_of(given: Seq<GivenView>) -> PlanView {
    if values_in(given, "print-install-kcov-sh"@) is Some {
        PlanView::PrintInstallScript
    } else {
        PlanView::Cover {
            kcov: match value_in(given, "kcov"@) {
                Some(path) => path,
                None => "kcov"@,
            },
            verbose: values_in(given, "verbose"@) is Some,
            rebuild: values_in(given, "no-clean-rebuild"@) is None,
            open: values_in(given, "open"@) is Some,
        }
    }
}

/// Decides what a run is to do. On a system where kcov does not work
/// nothing is done, whatever the options.
pub fn plan(matches: &Matches, kcov_works_here: bool) -> (r: Result<Plan, Error>)
    ensures
        match r {
            Ok(plan) => kcov_works_here && plan@ == plan_of(matches@),
            Err(Error::UnsupportedOS) => !kcov_works_here,
            Err(_) => false,
        },
{
    if !kcov_works_here {
        return Err(Error::UnsupportedOS);
    }
    if matches.is_present("print-install-kcov-sh") {
        return Ok(Plan::PrintInstallScript);
    }
    let kcov = match matches.value_of("kcov") {
        Some(path) => path.clone(),
        None => String::from_str("kcov"),
    };
    Ok(
        Plan::Cover {
            kcov,
            verbose: matches.is_present("verbose"),
            rebuild: !matches.is_present("no-clean-rebuild"),
            open: matches.is_present("open"),
        },
    )
}

/// Tells from what `kcov --version` printed whether kcov can be used.
pub fn check_kcov(stdout: &Vec<u8>) -> (r: Result<(), Error>)
    ensures
        r == if kcov_banner().is_prefix_of(stdout@) {
            Ok::<(), Error>(())
        } else {
            Err::<(), Error>(Error::KcovTooOld)
        },
{
    if stdout.len() >= 5 && stdout[0] == 0x6b && stdout[1] == 0x63 && stdout[2] == 0x6f
        && stdout[3] == 0x76 && stdout[4] == 0x20 {
        assert(kcov_banner() =~= stdout@.subrange(0, 5));
        Ok(())
    } else {
        assert(!kcov_banner().is_prefix_of(stdout@)) by {
            if kcov_banner().is_prefix_of(stdout@) {
                let head = stdout@.subrange(0, 5);
                assert(head[0] == 0x6b && head[1] == 0x63 && head[2] == 0x6f && head[3] == 0x76
                    && head[4] == 0x20);
            }
        }
        Err(Error::KcovTooOld)
    }
}

/// The command that asks Cargo for the id of the package.
pub fn pkgid_command(matches: &Matches) -> (r: Cmd)
    ensures
        r@.program == "cargo"@,
        r@.subcommand == "pkgid"@,
        r@.args == seq!["pkgid"@] + forwarded(matches@, seq!["--manifest-path"@]),
        r@.env.len() == 0,
{
    let mut options: Vec<String> = Vec::new();
    options.push(String::from_str("--manifest-path"));
    proof {
        reveal_strlit("pkgid");
        assert(options.deep_view() =~= seq!["--manifest-path"@]);
    }
    cargo("pkgid").forward(matches, &options)
}

/// The option that hands kcov the id of the Travis job, where `--coveralls`
/// asks for it; `job_id` is what the variable `TRAVIS_JOB_ID` holds.
pub fn get_coveralls_option(matches: &Matches, job_id: Option<String>) -> (r: Result<
    Option<String>,
    Error,
>)
    ensures
        match r {
            Ok(None) => values_in(matches@, "coveralls"@) is None,
            Ok(Some(option)) => {
                &&& values_in(matches@, "coveralls"@) is Some
                &&& job_id matches Some(id)
                &&& option@ == "--coveralls-id="@ + id@
            },
            Err(Error::NoCoverallsId) => values_in(matches@, "coveralls"@) is Some && job_id is None,
            Err(_) => false,
        },
{
    if !matches.is_present("coveralls") {
        Ok(None)
    } else {
        match job_id {
            None => Err(Error::NoCoverallsId),
            Some(id) => {
                let mut res = String::from_str("--coveralls-id=");
                res.append(id.as_str());
                Ok(Some(res))
            },
        }
    }
}

/// The command that asks Cargo where the project is.
pub fn locate_project_command(matches: &Matches) -> (r: Cmd)
    ensures
        r@.program == "cargo"@,
        r@.subcommand == "locate-project"@,
        r@.args == seq!["locate-project"@] + forwarded(matches@, seq!["--manifest-path"@]),
        r@.env.len() == 0,
{
    let mut options: Vec<String> = Vec::new();
    options.push(String::from_str("--manifest-path"));
    proof {
        reveal_strlit("locate-project");
        assert(options.deep_view() =~= seq!["--manifest-path"@]);
    }
    cargo("locate-project").forward(matches, &options)
}

/// The target directory of the project in `project_dir`.
pub fn target_path_in(project_dir: &str) -> (r: String)
    ensures
        r@ == joined(project_dir@, "target"@),
{
    join_path(project_dir, "target")
}

/// Finds the target directory in Cargo's answer to `locate-project`: the
/// directory `target` beside the manifest that the member `root` names.
///
/// An answer that is not plain, or is no JSON, gives `Json` with a report;
/// one without a text under `root` gives `Json(None)`.
pub fn find_target_path(json: &str) -> (r: Result<String, Error>)
    ensures
        match r {
            Ok(path) => {
                &&& is_plain_json(json@)
                &&& manifest_in(json@) matches Some(manifest)
                &&& path@ == joined(parent_of(manifest), "target"@)
            },
            Err(Error::Json(Some(_))) => !is_plain_json(json@) || json_of(json@) is None,
            Err(Error::Json(None)) => {
                &&& is_plain_json(json@)
                &&& json_of(json@) is Some
                &&& manifest_in(json@) is None
            },
            Err(_) => false,
        },
{
    if !check_plain_json(json) {
        return Err(Error::Json(Some(String::from_str("the answer is not one plain object"))));
    }
    let json = match parse_json(json) {
        Ok(json) => json,
        Err(report) => {
            return Err(Error::Json(Some(report)));
        },
    };
    let root = match json_member(&json, "root") {
        Some(member) => json_text(member),
        None => None,
    };
    match root {
        None => Err(Error::Json(None)),
        Some(manifest) => {
            let dir = without_last_component(manifest.as_str());
            Ok(target_path_in(dir.as_str()))
        },
    }
}

/// Where the coverage report goes: where `--output` says, or into `cov`
/// inside the target directory.
pub fn create_cov_path(matches: &Matches, target_path: &str) -> (r: String)
    ensures
        r@ == match value_in(matches@, "output"@) {
            Some(path) => path,
            None => joined(target_path@, "cov"@),
        },
{
    match matches.value_of("output") {
        Some(path) => path.clone(),
        None => join_path(target_path, "cov"),
    }
}

/// The command that removes what Cargo built of the package `pkg`.
pub fn clean_command(matches: &Matches, pkg: &str) -> (r: Cmd)
    ensures
        r@.program == "cargo"@,
        r@.subcommand == "clean"@,
        r@.args == seq!["clean"@, "--package"@, pkg@] + forwarded(
            matches@,
            seq!["--manifest-path"@, "--target"@, "--release"@],
        ),
        r@.env.len() == 0,
{
    let mut options: Vec<String> = Vec::new();
    options.push(String::from_str("--manifest-path"));
    options.push(String::from_str("--target"));
    options.push(String::from_str("--release"));
    proof {
        reveal_strlit("clean");
        assert(options.deep_view() =~= seq!["--manifest-path"@, "--target"@, "--release"@]);
    }
    let r = cargo("clean").arg("--package").arg(pkg).forward(matches, &options);
    assert(r@.args =~= seq!["clean"@, "--package"@, pkg@] + forwarded(
        matches@,
        seq!["--manifest-path"@, "--target"@, "--release"@],
    ));
    r
}

/// The options of `cargo test` that a build of the tests hands on.
pub open spec fn build_options() -> Seq<Seq<char>> {
    seq![
        "--lib"@,
        "--bin"@,
        "--example"@,
        "--test"@,
        "--bench"@,
        "--jobs"@,
        "--release"@,
        "--target"@,
        "--manifest-path"@,
        "--features"@,
        "--no-default-features"@,
        "--no-fail-fast"@,
    ]
}

/// The command that builds the test executables without running them, and
/// says how. Dead code is linked in, so that it counts as not covered;
/// `rustflags` is what the variable `RUSTFLAGS` holds.
pub fn build_test_command(matches: &Matches, rustflags: Option<String>) -> (r: Cmd)
    ensures
        r@.program == "cargo"@,
        r@.subcommand == "test"@,
        r@.args == seq!["test"@, "--no-run"@, "-v"@] + forwarded(matches@, build_options()),
        r@.env == seq![
            ("RUSTFLAGS"@, merged_value(rustflags.deep_view(), " "@, "-C link-dead-code"@)),
        ],
{
    let mut options: Vec<String> = Vec::new();
    options.push(String::from_str("--lib"));
    options.push(String::from_str("--bin"));
    options.push(String::from_str("--example"));
    options.push(String::from_str("--test"));
    options.push(String::from_str("--bench"));
    options.push(String::from_str("--jobs"));
    options.push(String::from_str("--release"));
    options.push(String::from_str("--target"));
    options.push(String::from_str("--manifest-path"));
    options.push(String::from_str("--features"));
    options.push(String::from_str("--no-default-features"));
    options.push(String::from_str("--no-fail-fast"));
    proof {
        reveal_strlit("test");
        assert(options.deep_view() =~= build_options());
    }
    let r = cargo("test").arg("--no-run").arg("-v").env(
        "RUSTFLAGS",
        " ",
        "-C link-dead-code",
        rustflags,
    ).forward(matches, &options);
    assert(r@.args =~= seq!["test"@, "--no-run"@, "-v"@] + forwarded(matches@, build_options()));
    assert(r@.env =~= seq![
        ("RUSTFLAGS"@, merged_value(rustflags.deep_view(), " "@, "-C link-dead-code"@)),
    ]);
    r
}

/// The test executables that a build reported: those of its standard error,
/// then those of its standard output.
pub fn built_targets(stdout: &str, stderr: &str) -> (r: Vec<String>)
    ensures
        r.deep_view() == targets_of_log(stderr@) + targets_of_log(stdout@),
{
    let mut targets: Vec<String> = Vec::new();
    assert(targets.deep_view() =~= Seq::<Seq<char>>::empty());
    parse_rustc_command_lines_into(&mut targets, stderr);
    parse_rustc_command_lines_into(&mut targets, stdout);
    assert(targets.deep_view() =~= targets_of_log(stderr@) + targets_of_log(stdout@));
    targets
}

/// The page that a coverage report in `output_path` begins with.
pub fn index_path(output_path: &str) -> (r: String)
    ensures
        r@ == joined(output_path@, "index.html"@),
{
    join_path(output_path, "index.html")
}

/// Adds to `filters` the values of the option `key`, as Cargo writes them
/// in file names; none is added twice.
pub fn extend_file_name_filters(filters: &mut Vec<String>, matches: &Matches, key: &str)
    ensures
        final(filters).deep_view() == with_values_of(old(filters).deep_view(), matches@, key@),
{
    let ghost before = filters.deep_view();
    match matches.values_of(key) {
        None => {},
        Some(values) => {
            let ghost all = values.deep_view();
            let mut i: usize = 0;
            assert(all.take(0) =~= Seq::<Seq<char>>::empty());
            while i < values.len()
                invariant
                    i <= values.len(),
                    all == values.deep_view(),
                    filters.deep_view() == with_names(before, all.take(i as int)),
                decreases values.len() - i,
            {
                let ghost so_far = filters.deep_view();
                let ghost upto = all.take(i + 1);
                proof {
                    assert(upto.drop_last() =~= all.take(i as int));
                    assert(upto.last() == values[i as int]@);
                }
                let name = normalize_package_name(values[i].as_str());
                let owned = match name {
                    std::borrow::Cow::Borrowed(b) => String::from_str(b),
                    std::borrow::Cow::Owned(o) => o,
                };
                if !contains_text(filters, owned.as_str()) {
                    filters.push(owned);
                    assert(filters.deep_view() =~= so_far.push(owned@));
                }
                i += 1;
            }
            assert(all.take(values.len() as int) =~= all);
        },
    }
}

/// What a search for test executables needs, given the target directory
/// `path`: the directory that the build wrote to, and the names to look for.
pub fn get_args_for_find_test_targets(matches: &Matches, pkgid: &str, path: &str) -> (r: (
    String,
    Vec<String>,
))
    ensures
        r.0@ == build_directory(matches@, path@),
        r.1.deep_view() == wanted_names(matches@, pkgid@),
        r.1.deep_view().no_duplicates(),
{
    proof {
        lemma_wanted_names_are_distinct(matches@, pkgid@);
    }
    let base = match matches.value_of("target") {
        Some(target) => join_path(path, target.as_str()),
        None => String::from_str(path),
    };
    let dir = if matches.is_present("release") {
        join_path(base.as_str(), "release")
    } else {
        join_path(base.as_str(), "debug")
    };
    let mut filters: Vec<String> = Vec::new();
    if matches.is_present("lib") {
        let name = find_package_name_from_pkgid(pkgid);
        let owned = match name {
            std::borrow::Cow::Borrowed(b) => String::from_str(b),
            std::borrow::Cow::Owned(o) => o,
        };
        filters.push(owned);
        assert(filters.deep_view() =~= seq![package_name(pkgid@)]);
    } else {
        assert(filters.deep_view() =~= Seq::<Seq<char>>::empty());
    }
    extend_file_name_filters(&mut filters, matches, "bin");
    extend_file_name_filters(&mut filters, matches, "example");
    extend_file_name_filters(&mut filters, matches, "test");
    extend_file_name_filters(&mut filters, matches, "bench");
    (dir, filters)
}

/// The arguments that kcov gets where none were given; `cargo_home` is what
/// the variable `CARGO_HOME` holds.
pub fn default_kcov_args(cargo_home: Option<String>) -> (r: Vec<String>)
    ensures
        r.deep_view() == default_args(cargo_home.deep_view()),
{
    let mut exclude_pattern = String::from_str("--exclude-pattern=");
    match &cargo_home {
        Some(home) => exclude_pattern.append(home.as_str()),
        None => exclude_pattern.append("/.cargo"),
    }
    let mut args: Vec<String> = Vec::new();
    args.push(exclude_pattern);
    args.push(String::from_str("--verify"));
    assert(args.deep_view() =~= default_args(cargo_home.deep_view()));
    args
}

/// The arguments for kcov: those that were given behind the options, or the
/// default ones; `cargo_home` is what the variable `CARGO_HOME` holds.
pub fn kcov_args(matches: &Matches, cargo_home: Option<String>) -> (r: Vec<String>)
    ensures
        r.deep_view() == match values_in(matches@, "KCOV-ARGS"@) {
            Some(args) => args,
            None => default_args(cargo_home.deep_view()),
        },
{
    match matches.values_of("KCOV-ARGS") {
        Some(args) => args.clone(),
        None => default_kcov_args(cargo_home),
    }
}

/// The command that runs the test executable `test` under kcov, and where
/// its coverage data go: into the directory `name` inside `cov_path`.
/// `library_path` is what the variable `LD_LIBRARY_PATH` holds.
pub fn kcov_command_for(
    kcov_path: &str,
    kcov_args: &Vec<String>,
    cov_path: &str,
    test: &str,
    name: &str,
    library_path: Option<String>,
) -> (r: (Cmd, String))
    ensures
        r.1@ == joined(cov_path@, name@),
        r.0@.program == kcov_path@,
        r.0@.subcommand.len() == 0,
        r.0@.args == kcov_args.deep_view() + seq![r.1@, test@],
        r.0@.env == seq![
            (
                "LD_LIBRARY_PATH"@,
                merged_value(library_path.deep_view(), ":"@, "target/debug/deps"@),
            ),
        ],
{
    let pre_cov_path = join_path(cov_path, name);
    let cmd = Cmd::new(kcov_path, "").env(
        "LD_LIBRARY_PATH",
        ":",
        "target/debug/deps",
        library_path,
    ).args(kcov_args).arg(pre_cov_path.as_str()).arg(test);
    proof {
        reveal_strlit("");
        assert(cmd@.args =~= kcov_args.deep_view() + seq![pre_cov_path@, test@]);
        assert(cmd@.env =~= seq![
            (
                "LD_LIBRARY_PATH"@,
                merged_value(library_path.deep_view(), ":"@, "target/debug/deps"@),
            ),
        ]);
    }
    (cmd, pre_cov_path)
}

/// The command that runs the test executable `test` under kcov, and where
/// its coverage data go: into the directory of the executable's name inside
/// `cov_path`. `None` where `test` names no file. `library_path` is what
/// the variable `LD_LIBRARY_PATH` holds.
pub fn kcov_command(
    kcov_path: &str,
    kcov_args: &Vec<String>,
    cov_path: &str,
    test: &str,
    library_path: Option<String>,
) -> (r: Option<(Cmd, String)>)
    ensures
        match r {
            Some((cmd, pre_cov_path)) => {
                &&& file_name_of(test@) matches Some(name)
                &&& pre_cov_path@ == joined(cov_path@, name)
                &&& cmd@.program == kcov_path@
                &&& cmd@.args == kcov_args.deep_view() + seq![pre_cov_path@, test@]
                &&& cmd@.env == seq![
                    (
                        "LD_LIBRARY_PATH"@,
                        merged_value(library_path.deep_view(), ":"@, "target/debug/deps"@),
                    ),
                ]
            },
            None => file_name_of(test@) is None,
        },
{
    match file_name(test) {
        None => None,
        Some(name) => Some(
            kcov_command_for(kcov_path, kcov_args, cov_path, test, name.as_str(), library_path),
        ),
    }
}

/// The arguments behind `--merge` for the command that merges the coverage
/// data of all runs into `cov_path`.
pub open spec fn merge_args(
    kcov_args: Seq<Seq<char>>,
    cov_path: Seq<char>,
    coveralls_option: Option<Seq<char>>,
    merge_cov_paths: Seq<Seq<char>>,
) -> Seq<Seq<char>> {
    kcov_args + seq![cov_path] + match coveralls_option {
        Some(option) => seq![option],
        None => Seq::empty(),
    } + merge_cov_paths
}

/// The command that merges the coverage data in `merge_cov_paths` into
/// `cov_path`.
pub fn merge_command(
    kcov_path: &str,
    kcov_args: &Vec<String>,
    cov_path: &str,
    coveralls_option: Option<String>,
    merge_cov_paths: &Vec<String>,
) -> (r: Cmd)
    ensures
        r@.program == kcov_path@,
        r@.subcommand == "--merge"@,
        r@.args == seq!["--merge"@] + merge_args(
            kcov_args.deep_view(),
            cov_path@,
            coveralls_option.deep_view(),
            merge_cov_paths.deep_view(),
        ),
        r@.env.len() == 0,
{
    proof {
        reveal_strlit("--merge");
    }
    let mut cmd = Cmd::new(kcov_path, "--merge").args(kcov_args).arg(cov_path);
    match &coveralls_option {
        Some(option) => {
            cmd = cmd.arg(option.as_str());
        },
        None => {},
    }
    let r = cmd.args(merge_cov_paths);
    assert(r@.args =~= seq!["--merge"@] + merge_args(
        kcov_args.deep_view(),
        cov_path@,
        coveralls_option.deep_view(),
        merge_cov_paths.deep_view(),
    ));
    r
}

} // verus!
