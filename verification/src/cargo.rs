//! Commands to run, as values: what to start, with which arguments and in
//! which environment. The caller starts them and hands back what they gave.

use crate::errors::Error;
use crate::options::{arg_type_of, parse_arg_type, value_in, values_in, ArgType, GivenView, Matches};
use crate::text::{chars_of, string_of_range};
use vstd::prelude::*;
use vstd::string::StringExecFns;
use vstd::utf8::{decode_utf8, valid_utf8};

verus! {

/// Calls `String::from_utf8`: the bytes as text where they are UTF-8, else
/// what `Utf8Error` says of them.
#[verifier::external_body]
fn text_of_bytes(bytes: Vec<u8>) -> (r: Result<String, String>)
    ensures
        r is Ok == valid_utf8(bytes@),
        r matches Ok(text) ==> text@ == decode_utf8(bytes@),
{
    String::from_utf8(bytes).map_err(|e| e.utf8_error().to_string())
}

/// A command to run.
#[derive(Debug, Clone, PartialEq, Eq)]
pub struct Cmd {
    pub program: String,
    /// The subcommand that the command was made for, or the empty text.
    pub subcommand: String,
    /// The arguments, the subcommand among them.
    pub args: Vec<String>,
    /// The variables to set for the command, each with its value.
    pub env: Vec<(String, String)>,
}

/// A `Cmd` as a mathematical value.
pub struct CmdView {
    pub program: Seq<char>,
    pub subcommand: Seq<char>,
    pub args: Seq<Seq<char>>,
    pub env: Seq<(Seq<char>, Seq<char>)>,
}

impl View for Cmd {
    type V = CmdView;

    open spec fn view(&self) -> CmdView {
        CmdView {
            program: self.program@,
            subcommand: self.subcommand@,
            args: self.args.deep_view(),
            env: self.env.deep_view(),
        }
    }
}

/// What a command gave when it ran to its end.
#[derive(Debug, Clone, PartialEq, Eq)]
pub struct Output {
    /// Whether the command reported success.
    pub success: bool,
    /// The exit status, as the system words it.
    pub status: String,
    pub stdout: Vec<u8>,
    pub stderr: Vec<u8>,
}

/// `option` once before each of `values`.
pub open spec fn repeated(option: Seq<char>, values: Seq<Seq<char>>) -> Seq<Seq<char>>
    decreases values.len(),
{
    if values.len() == 0 {
        Seq::empty()
    } else {
        repeated(option, values.drop_last()) + seq![option, values.last()]
    }
}

/// The arguments that hand `option` on, as far as it was given: a flag
/// alone, an option of one value with its first value, an option of many
/// before each of its values. The parser knows an option by its name without
/// the two hyphens.
pub open spec fn forwarded_option(given: Seq<GivenView>, option: Seq<char>) -> Seq<Seq<char>> {
    let name = option.skip(2);
    match arg_type_of(option) {
        Some(ArgType::Flag) => if values_in(given, name) is Some {
            seq![option]
        } else {
            Seq::empty()
        },
        Some(ArgType::Single) => match value_in(given, name) {
            Some(value) => seq![option, value],
            None => Seq::empty(),
        },
        Some(ArgType::Multiple) => match values_in(given, name) {
            Some(values) => repeated(option, values),
            None => Seq::empty(),
        },
        None => Seq::empty(),
    }
}

/// The arguments that hand each of `options` on, in their order.
pub open spec fn forwarded(given: Seq<GivenView>, options: Seq<Seq<char>>) -> Seq<Seq<char>>
    decreases options.len(),
{
    if options.len() == 0 {
        Seq::empty()
    } else {
        forwarded(given, options.drop_last()) + forwarded_option(given, options.last())
    }
}

/// The value to give a variable: `val` alone, or behind what the variable
/// holds and `sep`.
pub open spec fn merged_value(old: Option<Seq<char>>, sep: Seq<char>, val: Seq<char>) -> Seq<char> {
    match old {
        None => val,
        Some(old) => old + sep + val,
    }
}

impl Cmd {
    /// The command that starts `command`, with `subcommand` as its first
    /// argument unless that is empty.
    pub fn new(command: &str, subcommand: &str) -> (r: Cmd)
        ensures
            r@.program == command@,
            r@.subcommand == subcommand@,
            r@.args == if subcommand@.len() == 0 {
                Seq::<Seq<char>>::empty()
            } else {
                seq![subcommand@]
            },
            r@.env == Seq::<(Seq<char>, Seq<char>)>::empty(),
    {
        let mut args: Vec<String> = Vec::new();
        if chars_of(subcommand).len() != 0 {
            args.push(String::from_str(subcommand));
        }
        let r = Cmd {
            program: String::from_str(command),
            subcommand: String::from_str(subcommand),
            args,
            env: Vec::new(),
        };
        assert(r@.args =~= if subcommand@.len() == 0 {
            Seq::<Seq<char>>::empty()
        } else {
            seq![subcommand@]
        });
        assert(r@.env =~= Seq::<(Seq<char>, Seq<char>)>::empty());
        r
    }

    /// This command with `args` behind its arguments.
    pub fn args(self, args: &Vec<String>) -> (r: Cmd)
        ensures
            r@ == (CmdView { args: self@.args + args.deep_view(), ..self@ }),
    {
        let ghost before = self@;
        let Cmd { program, subcommand, args: mut all, env } = self;
        let mut i: usize = 0;
        assert(args.deep_view().take(0) =~= Seq::<Seq<char>>::empty());
        assert(all.deep_view() =~= before.args + args.deep_view().take(0));
        while i < args.len()
            invariant
                i <= args.len(),
                all.deep_view() == before.args + args.deep_view().take(i as int),
            decreases args.len() - i,
        {
            let ghost so_far = all.deep_view();
            all.push(args[i].clone());
            assert(all.deep_view() =~= so_far + seq![args[i as int]@]);
            assert(args.deep_view().take(i + 1) =~= args.deep_view().take(i as int) + seq![
                args[i as int]@,
            ]);
            i += 1;
        }
        assert(args.deep_view().take(args.len() as int) =~= args.deep_view());
        Cmd { program, subcommand, args: all, env }
    }

    /// This command with one more argument.
    pub fn arg(self, arg: &str) -> (r: Cmd)
        ensures
            r@ == (CmdView { args: self@.args.push(arg@), ..self@ }),
    {
        let ghost before = self@;
        let Cmd { program, subcommand, args: mut all, env } = self;
        all.push(String::from_str(arg));
        assert(all.deep_view() =~= before.args.push(arg@));
        Cmd { program, subcommand, args: all, env }
    }

    /// This command with those of `options` handed on that were given.
    /// Each of `options` is one that `parse_arg_type` knows.
    pub fn forward(self, matches: &Matches, options: &Vec<String>) -> (r: Cmd)
        requires
            forall|i: int| 0 <= i < options.len() ==> arg_type_of(#[trigger] options[i]@) is Some,
        ensures
            r@ == (CmdView {
                args: self@.args + forwarded(matches@, options.deep_view()),
                ..self@
            }),
    {
        let ghost before = self@;
        let ghost all_options = options.deep_view();
        let mut cmd = self;
        let mut i: usize = 0;
        assert(all_options.take(0) =~= Seq::<Seq<char>>::empty());
        assert(cmd@.args =~= before.args + forwarded(matches@, all_options.take(0)));
        while i < options.len()
            invariant
                i <= options.len(),
                all_options == options.deep_view(),
                forall|i: int|
                    0 <= i < options.len() ==> arg_type_of(#[trigger] options[i]@) is Some,
                cmd@ == (CmdView {
                    args: before.args + forwarded(matches@, all_options.take(i as int)),
                    ..before
                }),
            decreases options.len() - i,
        {
            let option = options[i].as_str();
            let ghost so_far = cmd@.args;
            let ghost upto = all_options.take(i + 1);
            proof {
                assert(upto.drop_last() =~= all_options.take(i as int));
                assert(upto.last() == option@);
                assert(arg_type_of(options[i as int]@) is Some);
                lemma_known_options_begin_with_hyphens(option@);
            }
            let chars = chars_of(option);
            let name = string_of_range(&chars, 2, chars.len());
            assert(name@ =~= option@.skip(2));
            match parse_arg_type(option) {
                Some(ArgType::Flag) => {
                    if matches.is_present(name.as_str()) {
                        cmd = cmd.arg(option);
                        assert(cmd@.args =~= so_far + seq![option@]);
                    } else {
                        assert(cmd@.args =~= so_far + Seq::<Seq<char>>::empty());
                    }
                },
                Some(ArgType::Single) => {
                    match matches.value_of(name.as_str()) {
                        Some(value) => {
                            cmd = cmd.arg(option).arg(value.as_str());
                            assert(cmd@.args =~= so_far + seq![option@, value@]);
                        },
                        None => {
                            assert(cmd@.args =~= so_far + Seq::<Seq<char>>::empty());
                        },
                    }
                },
                Some(ArgType::Multiple) => {
                    match matches.values_of(name.as_str()) {
                        Some(values) => {
                            cmd = cmd.repeat(option, values);
                        },
                        None => {
                            assert(cmd@.args =~= so_far + Seq::<Seq<char>>::empty());
                        },
                    }
                },
                None => {},
            }
            assert(cmd@.args =~= before.args + forwarded(matches@, upto)) by {
                assert(forwarded(matches@, upto) == forwarded(matches@, upto.drop_last())
                    + forwarded_option(matches@, option@));
            }
            i += 1;
        }
        assert(all_options.take(options.len() as int) =~= all_options);
        cmd
    }

    /// This command with `option` and one of `values` behind its arguments,
    /// for each of `values`.
    pub fn repeat(self, option: &str, values: &Vec<String>) -> (r: Cmd)
        ensures
            r@ == (CmdView { args: self@.args + repeated(option@, values.deep_view()), ..self@ }),
    {
        let ghost before = self@;
        let ghost all = values.deep_view();
        let mut cmd = self;
        let mut i: usize = 0;
        assert(all.take(0) =~= Seq::<Seq<char>>::empty());
        assert(cmd@.args =~= before.args + repeated(option@, all.take(0)));
        while i < values.len()
            invariant
                i <= values.len(),
                all == values.deep_view(),
                cmd@ == (CmdView {
                    args: before.args + repeated(option@, all.take(i as int)),
                    ..before
                }),
            decreases values.len() - i,
        {
            let ghost so_far = cmd@.args;
            let ghost upto = all.take(i + 1);
            proof {
                assert(upto.drop_last() =~= all.take(i as int));
                assert(upto.last() == values[i as int]@);
            }
            cmd = cmd.arg(option).arg(values[i].as_str());
            assert(cmd@.args =~= so_far + seq![option@, values[i as int]@]);
            assert(cmd@.args =~= before.args + repeated(option@, upto));
            i += 1;
        }
        assert(all.take(values.len() as int) =~= all);
        cmd
    }

    /// This command with the variable `key` set to `val`, or to what the
    /// variable holds now, `sep` and `val`. `old` is what the variable holds
    /// now.
    pub fn env(self, key: &str, sep: &str, val: &str, old: Option<String>) -> (r: Cmd)
        ensures
            r@ == (CmdView {
                env: self@.env.push((key@, merged_value(old.deep_view(), sep@, val@))),
                ..self@
            }),
    {
        let ghost before = self@;
        let Cmd { program, subcommand, args, env: mut all } = self;
        let value = match old {
            None => String::from_str(val),
            Some(mut old_val) => {
                old_val.append(sep);
                old_val.append(val);
                old_val
            },
        };
        all.push((String::from_str(key), value));
        assert(all.deep_view() =~= before.env.push(
            (key@, merged_value(old.deep_view(), sep@, val@)),
        ));
        Cmd { program, subcommand, args, env: all }
    }

    /// Reads what this command gave: both streams as text where it
    /// succeeded, else the failure of the subcommand. A stream that is not
    /// UTF-8 is a failure too; the standard output is looked at first.
    pub fn output(&self, output: Output) -> (r: Result<(String, String), Error>)
        ensures
            match r {
                Ok((stdout, stderr)) => {
                    &&& output.success
                    &&& valid_utf8(output.stdout@)
                    &&& valid_utf8(output.stderr@)
                    &&& stdout@ == decode_utf8(output.stdout@)
                    &&& stderr@ == decode_utf8(output.stderr@)
                },
                Err(Error::Cargo { subcommand, status, stderr }) => {
                    &&& !output.success
                    &&& subcommand@ == self.subcommand@
                    &&& status == output.status
                    &&& stderr == output.stderr
                },
                Err(Error::Utf8(_)) => {
                    &&& output.success
                    &&& !valid_utf8(output.stdout@) || !valid_utf8(output.stderr@)
                },
                Err(_) => false,
            },
    {
        let Output { success, status, stdout, stderr } = output;
        if !success {
            return Err(Error::Cargo { subcommand: self.subcommand.clone(), status, stderr });
        }
        let stdout = match text_of_bytes(stdout) {
            Ok(text) => text,
            Err(report) => {
                return Err(Error::Utf8(report));
            },
        };
        let stderr = match text_of_bytes(stderr) {
            Ok(text) => text,
            Err(report) => {
                return Err(Error::Utf8(report));
            },
        };
        Ok((stdout, stderr))
    }

    /// Judges a run of kcov by how it ended: `outcome` holds whether it
    /// reported success, with its exit status, or why it could not be
    /// started.
    pub fn run_kcov(outcome: Result<(bool, String), String>) -> (r: Result<(), Error>)
        ensures
            r == match outcome {
                Ok((success, status)) => if success {
                    Ok(())
                } else {
                    Err(Error::KcovFailed(Ok(status)))
                },
                Err(report) => Err(Error::KcovFailed(Err(report))),
            },
    {
        match outcome {
            Ok((success, status)) => {
                if success {
                    Ok(())
                } else {
                    Err(Error::KcovFailed(Ok(status)))
                }
            },
            Err(report) => Err(Error::KcovFailed(Err(report))),
        }
    }
}

/// An option that `parse_arg_type` knows begins with two hyphens, which are
/// not part of its name.
pub proof fn lemma_known_options_begin_with_hyphens(option: Seq<char>)
    requires
        arg_type_of(option) is Some,
    ensures
        option.len() > 2,
        option[0] == '-',
        option[1] == '-',
{
    reveal_strlit("--manifest-path");
    reveal_strlit("--target");
    reveal_strlit("--jobs");
    reveal_strlit("--features");
    reveal_strlit("--coveralls");
    reveal_strlit("--release");
    reveal_strlit("--lib");
    reveal_strlit("--no-default-features");
    reveal_strlit("--no-fail-fast");
    reveal_strlit("--all");
    reveal_strlit("--bin");
    reveal_strlit("--example");
    reveal_strlit("--test");
    reveal_strlit("--bench");
}

/// The command that runs the subcommand `subcommand` of Cargo.
pub fn cargo(subcommand: &str) -> (r: Cmd)
    ensures
        r@.program == "cargo"@,
        r@.subcommand == subcommand@,
        r@.args == if subcommand@.len() == 0 {
            Seq::<Seq<char>>::empty()
        } else {
            seq![subcommand@]
        },
        r@.env == Seq::<(Seq<char>, Seq<char>)>::empty(),
{
    Cmd::new("cargo", subcommand)
}

} // verus!
