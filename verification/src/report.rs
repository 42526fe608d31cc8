//! What to show on the terminal, as a list of steps: colours and other
//! attributes to switch on, text to write, and when to switch all off again.

use crate::errors::{cause_of, description_of, Error};
use crate::text::{pad_left, padded_left};
use vstd::prelude::*;
use vstd::string::StringExecFns;

verus! {

#[derive(Clone, Copy, Debug, PartialEq, Eq, Structural)]
pub enum Color {
    Red,
    Yellow,
    Green,
    White,
}

/// One step of output.
#[derive(Debug, Clone, PartialEq, Eq)]
pub enum TermOp {
    /// Write in this colour from here on.
    Fg(Color),
    /// Write bold from here on.
    Bold,
    /// Underline from here on.
    Underline,
    /// Back to plain writing.
    Reset,
    Text(String),
    /// Bytes to write as they are.
    Bytes(Vec<u8>),
}

/// A `TermOp` as a mathematical value.
pub enum TermOpView {
    Fg(Color),
    Bold,
    Underline,
    Reset,
    Text(Seq<char>),
    Bytes(Seq<u8>),
}

impl DeepView for TermOp {
    type V = TermOpView;

    open spec fn deep_view(&self) -> TermOpView {
        match self {
            TermOp::Fg(color) => TermOpView::Fg(*color),
            TermOp::Bold => TermOpView::Bold,
            TermOp::Underline => TermOpView::Underline,
            TermOp::Reset => TermOpView::Reset,
            TermOp::Text(text) => TermOpView::Text(text@),
            TermOp::Bytes(bytes) => TermOpView::Bytes(bytes@),
        }
    }
}

/// `label`, bold and in `color`.
pub open spec fn heading_of(color: Color, label: Seq<char>) -> Seq<TermOpView> {
    seq![TermOpView::Fg(color), TermOpView::Bold, TermOpView::Text(label), TermOpView::Reset]
}

/// A line that shows `command` as typed at a shell prompt.
pub open spec fn shell_line_of(command: Seq<char>) -> Seq<TermOpView> {
    seq![
        TermOpView::Fg(Color::White),
        TermOpView::Text("    $ "@),
        TermOpView::Reset,
        TermOpView::Text(command + "\n"@),
    ]
}

/// A progress message: the title in a column of twelve characters, flush
/// right, then the message.
pub open spec fn message_of(title: Seq<char>, msg: Seq<char>) -> Seq<TermOpView> {
    heading_of(Color::Green, padded_left(title, 12)) + seq![
        TermOpView::Text(" "@ + msg + "\n"@),
    ]
}

/// The warning that the coverage report could not be opened.
pub open spec fn open_warning_of(report: Seq<char>) -> Seq<TermOpView> {
    heading_of(Color::Yellow, "warning"@) + seq![
        TermOpView::Text(": cannot open coverage report, "@ + report + "\n"@),
    ]
}

/// What is said of a Cargo subcommand that failed: how it ended, and what
/// it wrote to its standard error.
pub open spec fn cargo_note_of(error: Error) -> Seq<TermOpView> {
    match error {
        Error::Cargo { subcommand, status, stderr } => heading_of(Color::Yellow, "note: "@) + seq![
            TermOpView::Text("cargo "@ + subcommand@ + " exited with code "@ + status@ + "\n"@),
            TermOpView::Bytes(stderr@),
        ],
        _ => Seq::empty(),
    }
}

/// What is said of the report behind a failure.
pub open spec fn cause_note_of(error: Error) -> Seq<TermOpView> {
    match cause_of(error) {
        Some(cause) => heading_of(Color::Yellow, "caused by: "@) + seq![
            TermOpView::Text(cause + "\n"@),
        ],
        None => Seq::empty(),
    }
}

/// How to install kcov.
pub open spec fn install_advice() -> Seq<TermOpView> {
    heading_of(Color::Green, "note: "@) + seq![
        TermOpView::Text("you may follow "@),
        TermOpView::Underline,
        TermOpView::Text("https://users.rust-lang.org/t/650"@),
        TermOpView::Reset,
        TermOpView::Text(" to install kcov:\n\n"@),
    ] + shell_line_of("sudo apt-get install cmake g++ pkg-config\n"@) + shell_line_of(
        "sudo apt-get install libcurl4-openssl-dev libdw-dev binutils-dev libiberty-dev\n"@,
    ) + shell_line_of("cargo kcov --print-install-kcov-sh | sh"@)
}

/// How to get test executables to find.
pub open spec fn rebuild_advice() -> Seq<TermOpView> {
    heading_of(Color::Green, "note: "@) + seq![
        TermOpView::Text("try a clean rebuild first:\n\n"@),
    ] + shell_line_of(
        "cargo clean &&\n        RUSTFLAGS=\"-C link-dead-code\" cargo test --no-run &&\n        cargo kcov --no-clean-rebuild\n\n                "@,
    )
}

/// The advice that goes with a failure, where there is some.
pub open spec fn advice_of(error: Error) -> Seq<TermOpView> {
    match error {
        Error::KcovTooOld => install_advice(),
        Error::KcovNotInstalled(_) => install_advice(),
        Error::CannotFindTestTargets(_) => rebuild_advice(),
        _ => Seq::empty(),
    }
}

/// All that is shown of a failure: its description, how a Cargo subcommand
/// ended, the report behind it, and advice.
pub open spec fn report_of(error: Error) -> Seq<TermOpView> {
    heading_of(Color::Red, "error: "@) + seq![TermOpView::Text(description_of(error) + "\n"@)]
        + cargo_note_of(error) + cause_note_of(error) + advice_of(error)
}

/// Appends one step.
pub fn push_op(ops: &mut Vec<TermOp>, op: TermOp)
    ensures
        final(ops).deep_view() == old(ops).deep_view().push(op.deep_view()),
{
    let ghost before = ops.deep_view();
    ops.push(op);
    assert(ops.deep_view() =~= before.push(op.deep_view()));
}

/// Appends the text `text`.
pub fn push_text(ops: &mut Vec<TermOp>, text: &str)
    ensures
        final(ops).deep_view() == old(ops).deep_view().push(TermOpView::Text(text@)),
{
    push_op(ops, TermOp::Text(String::from_str(text)));
}

/// Appends `label`, bold and in `color`.
pub fn push_heading(ops: &mut Vec<TermOp>, color: Color, label: &str)
    ensures
        final(ops).deep_view() == old(ops).deep_view() + heading_of(color, label@),
{
    let ghost before = ops.deep_view();
    ops.push(TermOp::Fg(color));
    ops.push(TermOp::Bold);
    ops.push(TermOp::Text(String::from_str(label)));
    ops.push(TermOp::Reset);
    assert(ops.deep_view() =~= before + heading_of(color, label@));
}

/// Appends the text `first + second + "\n"`.
pub fn push_line(ops: &mut Vec<TermOp>, first: &str, second: &str)
    ensures
        final(ops).deep_view() == old(ops).deep_view().push(
            TermOpView::Text(first@ + second@ + "\n"@),
        ),
{
    let ghost before = ops.deep_view();
    let mut text = String::from_str(first);
    text.append(second);
    text.append("\n");
    ops.push(TermOp::Text(text));
    assert(ops.deep_view() =~= before.push(TermOpView::Text(first@ + second@ + "\n"@)));
}

/// Appends a line that shows `command` as typed at a shell prompt.
pub fn push_shell_line(ops: &mut Vec<TermOp>, command: &str)
    ensures
        final(ops).deep_view() == old(ops).deep_view() + shell_line_of(command@),
{
    let ghost before = ops.deep_view();
    ops.push(TermOp::Fg(Color::White));
    ops.push(TermOp::Text(String::from_str("    $ ")));
    ops.push(TermOp::Reset);
    let ghost middle = ops.deep_view();
    proof {
        reveal_strlit("");
        assert(command@ + ""@ =~= command@);
    }
    push_line(ops, command, "");
    assert(ops.deep_view() =~= before + shell_line_of(command@));
}

/// A progress message.
pub fn message(title: &str, msg: &str) -> (r: Vec<TermOp>)
    ensures
        r.deep_view() == message_of(title@, msg@),
{
    let mut ops: Vec<TermOp> = Vec::new();
    assert(ops.deep_view() =~= Seq::<TermOpView>::empty());
    let padded = pad_left(title, 12);
    push_heading(&mut ops, Color::Green, padded.as_str());
    push_line(&mut ops, " ", msg);
    assert(ops.deep_view() =~= message_of(title@, msg@));
    ops
}

/// The warning that the coverage report could not be opened; `report` says
/// why.
pub fn open_warning(report: &str) -> (r: Vec<TermOp>)
    ensures
        r.deep_view() == open_warning_of(report@),
{
    let mut ops: Vec<TermOp> = Vec::new();
    assert(ops.deep_view() =~= Seq::<TermOpView>::empty());
    push_heading(&mut ops, Color::Yellow, "warning");
    push_line(&mut ops, ": cannot open coverage report, ", report);
    assert(ops.deep_view() =~= open_warning_of(report@));
    ops
}

/// Appends how to install kcov.
pub fn push_install_advice(ops: &mut Vec<TermOp>)
    ensures
        final(ops).deep_view() == old(ops).deep_view() + install_advice(),
{
    let ghost before = ops.deep_view();
    push_heading(ops, Color::Green, "note: ");
    push_text(ops, "you may follow ");
    push_op(ops, TermOp::Underline);
    push_text(ops, "https://users.rust-lang.org/t/650");
    push_op(ops, TermOp::Reset);
    push_text(ops, " to install kcov:\n\n");
    push_shell_line(ops, "sudo apt-get install cmake g++ pkg-config\n");
    push_shell_line(
        ops,
        "sudo apt-get install libcurl4-openssl-dev libdw-dev binutils-dev libiberty-dev\n",
    );
    push_shell_line(ops, "cargo kcov --print-install-kcov-sh | sh");
    assert(ops.deep_view() =~= before + install_advice());
}

/// Appends how to get test executables to find.
pub fn push_rebuild_advice(ops: &mut Vec<TermOp>)
    ensures
        final(ops).deep_view() == old(ops).deep_view() + rebuild_advice(),
{
    let ghost before = ops.deep_view();
    push_heading(ops, Color::Green, "note: ");
    push_text(ops, "try a clean rebuild first:\n\n");
    push_shell_line(
        ops,
        "cargo clean &&\n        RUSTFLAGS=\"-C link-dead-code\" cargo test --no-run &&\n        cargo kcov --no-clean-rebuild\n\n                ",
    );
    assert(ops.deep_view() =~= before + rebuild_advice());
}

impl Error {
    /// All that is shown of this failure before the program ends.
    pub fn report(&self) -> (r: Vec<TermOp>)
        ensures
            r.deep_view() == report_of(*self),
    {
        let mut ops: Vec<TermOp> = Vec::new();
        assert(ops.deep_view() =~= Seq::<TermOpView>::empty());
        push_heading(&mut ops, Color::Red, "error: ");
        proof {
            reveal_strlit("");
            assert(description_of(*self) + ""@ =~= description_of(*self));
        }
        push_line(&mut ops, self.description(), "");
        let ghost lead = ops.deep_view();
        assert(lead =~= heading_of(Color::Red, "error: "@) + seq![
            TermOpView::Text(description_of(*self) + "\n"@),
        ]);
        match self {
            Error::Cargo { subcommand, status, stderr } => {
                push_heading(&mut ops, Color::Yellow, "note: ");
                let mut line = String::from_str("cargo ");
                line.append(subcommand.as_str());
                line.append(" exited with code ");
                push_line(&mut ops, line.as_str(), status.as_str());
                let bytes = stderr.clone();
                assert(bytes@ == stderr@);
                push_op(&mut ops, TermOp::Bytes(bytes));
                assert(ops.deep_view() =~= lead + cargo_note_of(*self));
            },
            _ => {
                assert(ops.deep_view() =~= lead + cargo_note_of(*self));
            },
        }
        let ghost noted = ops.deep_view();
        match self.cause() {
            Some(cause) => {
                push_heading(&mut ops, Color::Yellow, "caused by: ");
                proof {
                    assert(cause@ + ""@ =~= cause@);
                }
                push_line(&mut ops, cause.as_str(), "");
                assert(ops.deep_view() =~= noted + cause_note_of(*self));
            },
            None => {
                assert(ops.deep_view() =~= noted + cause_note_of(*self));
            },
        }
        let ghost caused = ops.deep_view();
        match self {
            Error::KcovTooOld | Error::KcovNotInstalled(_) => {
                push_install_advice(&mut ops);
            },
            Error::CannotFindTestTargets(_) => {
                push_rebuild_advice(&mut ops);
            },
            _ => {
                assert(ops.deep_view() =~= caused + advice_of(*self));
            },
        }
        assert(ops.deep_view() =~= report_of(*self));
        ops
    }
}

} // verus!
