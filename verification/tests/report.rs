use cargo_kcov::report::{message, open_warning, Color, TermOp};
use cargo_kcov::text::{pad_left, trim_end};
use cargo_kcov::Error;

fn text(s: &str) -> TermOp {
    TermOp::Text(s.to_string())
}

fn heading(color: Color, label: &str) -> Vec<TermOp> {
    vec![TermOp::Fg(color), TermOp::Bold, text(label), TermOp::Reset]
}

fn shell(command: &str) -> Vec<TermOp> {
    vec![TermOp::Fg(Color::White), text("    $ "), TermOp::Reset, text(&format!("{}\n", command))]
}

fn all_errors() -> Vec<Error> {
    vec![
        Error::UnsupportedOS,
        Error::KcovTooOld,
        Error::KcovNotInstalled("a".into()),
        Error::CannotRunCargo("b".into()),
        Error::Utf8("c".into()),
        Error::Json(None),
        Error::Json(Some("d".into())),
        Error::CannotCreateCoverageDirectory("e".into()),
        Error::Cargo { subcommand: "test".into(), status: "exit status: 101".into(), stderr: b"oops\n".to_vec() },
        Error::KcovFailed(Ok("exit status: 1".into())),
        Error::KcovFailed(Err("f".into())),
        Error::NoCoverallsId,
        Error::CannotFindTestTargets(None),
        Error::CannotFindTestTargets(Some("g".into())),
        Error::InvalidFilter("h".into()),
    ]
}

#[test]
fn descriptions() {
    let expected = [
        "kcov cannot collect coverage on Windows or OS X.",
        "kcov is too old. v30 or above is required.",
        "kcov not installed.",
        "cannot run cargo",
        "output is not UTF-8 encoded",
        "cannot parse JSON",
        "cannot parse JSON",
        "cannot create coverage output directory",
        "cargo subcommand failure",
        "failed to get coverage",
        "failed to get coverage",
        "missing environment variable TRAVIS_JOB_ID for coveralls",
        "cannot find test targets",
        "cannot find test targets",
        "cannot match the given target names",
    ];
    for (error, description) in all_errors().iter().zip(expected) {
        assert_eq!(error.description(), description);
    }
}

#[test]
fn causes() {
    let expected = [
        None,
        None,
        Some("a"),
        Some("b"),
        Some("c"),
        None,
        Some("d"),
        Some("e"),
        None,
        Some("exit status: 1"),
        Some("f"),
        None,
        None,
        Some("g"),
        Some("h"),
    ];
    for (error, cause) in all_errors().iter().zip(expected) {
        assert_eq!(error.cause().as_deref(), cause);
    }
}

#[test]
fn report_of_a_plain_failure() {
    let mut expected = heading(Color::Red, "error: ");
    expected.push(text("missing environment variable TRAVIS_JOB_ID for coveralls\n"));
    assert_eq!(Error::NoCoverallsId.report(), expected);
}

#[test]
fn report_of_a_failed_subcommand() {
    let error = Error::Cargo {
        subcommand: "test".into(),
        status: "exit status: 101".into(),
        stderr: b"oops\xff\n".to_vec(),
    };
    let mut expected = heading(Color::Red, "error: ");
    expected.push(text("cargo subcommand failure\n"));
    expected.extend(heading(Color::Yellow, "note: "));
    expected.push(text("cargo test exited with code exit status: 101\n"));
    expected.push(TermOp::Bytes(b"oops\xff\n".to_vec()));
    assert_eq!(error.report(), expected);
}

#[test]
fn report_with_cause_and_install_advice() {
    let mut expected = heading(Color::Red, "error: ");
    expected.push(text("kcov not installed.\n"));
    expected.extend(heading(Color::Yellow, "caused by: "));
    expected.push(text("No such file or directory (os error 2)\n"));
    expected.extend(heading(Color::Green, "note: "));
    expected.push(text("you may follow "));
    expected.push(TermOp::Underline);
    expected.push(text("https://users.rust-lang.org/t/650"));
    expected.push(TermOp::Reset);
    expected.push(text(" to install kcov:\n\n"));
    expected.extend(shell("sudo apt-get install cmake g++ pkg-config\n"));
    expected.extend(shell(
        "sudo apt-get install libcurl4-openssl-dev libdw-dev binutils-dev libiberty-dev\n",
    ));
    expected.extend(shell("cargo kcov --print-install-kcov-sh | sh"));
    let error = Error::KcovNotInstalled("No such file or directory (os error 2)".into());
    assert_eq!(error.report(), expected);

    let too_old = Error::KcovTooOld.report();
    assert_eq!(too_old[4], text("kcov is too old. v30 or above is required.\n"));
    assert_eq!(too_old[5..], expected[10..]);
}

#[test]
fn report_with_rebuild_advice() {
    let mut expected = heading(Color::Red, "error: ");
    expected.push(text("cannot find test targets\n"));
    expected.extend(heading(Color::Green, "note: "));
    expected.push(text("try a clean rebuild first:\n\n"));
    expected.extend(shell(
        "cargo clean &&
        RUSTFLAGS=\"-C link-dead-code\" cargo test --no-run &&
        cargo kcov --no-clean-rebuild

                ",
    ));
    assert_eq!(Error::CannotFindTestTargets(None).report(), expected);

    let with_cause = Error::CannotFindTestTargets(Some("denied".into())).report();
    assert_eq!(with_cause.len(), expected.len() + 5);
    assert_eq!(with_cause[9], text("denied\n"));
}

#[test]
fn progress_message() {
    let mut expected = heading(Color::Green, "       Clean");
    expected.push(text(" file:///p#0.1.0\n"));
    assert_eq!(message("Clean", "file:///p#0.1.0"), expected);
    assert_eq!(message("Coverage", "x")[2], text(&format!("{:>12}", "Coverage")));
    assert_eq!(message("a very long title", "")[2], text("a very long title"));
}

#[test]
fn warning_about_the_report() {
    let mut expected = heading(Color::Yellow, "warning");
    expected.push(text(": cannot open coverage report, no browser\n"));
    assert_eq!(open_warning("no browser"), expected);
}

#[test]
fn padding_and_trimming() {
    for s in ["", "a", "한국어", "exactly12chr", "more than twelve"] {
        assert_eq!(pad_left(s, 12), format!("{:>12}", s));
        assert_eq!(pad_left(s, 0), s);
    }
    for s in ["", " ", "a \n", " a\u{3000}\r\n", "a b", "file:///p#0.1.0\n", "\u{2028}x\u{2029}"] {
        assert_eq!(trim_end(s), s.trim_end(), "{:?}", s);
    }
}
