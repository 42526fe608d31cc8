use cargo_kcov::cargo::{cargo, Cmd, Output};
use cargo_kcov::coverage::{
    build_test_command, built_targets, check_kcov, clean_command, create_cov_path,
    default_kcov_args, extend_file_name_filters, find_target_path,
    get_args_for_find_test_targets, get_coveralls_option, index_path, kcov_args, kcov_command,
    kcov_command_for,
    locate_project_command, merge_command, pkgid_command, plan, target_path_in, Plan,
};
use cargo_kcov::json_shape::{check_plain_json, step, Place, Shape};
use cargo_kcov::options::{parse_arg_type, ArgType, GivenOption, Matches};
use cargo_kcov::Error;
use std::collections::HashSet;
use std::path::{Path, PathBuf};

fn strings(list: &[&str]) -> Vec<String> {
    list.iter().map(|w| w.to_string()).collect()
}

/// What the argument parser makes of `cargo kcov` with these options: each
/// option under its name without the hyphens, with its values.
fn given(options: &[(&str, &[&str])]) -> Matches {
    Matches {
        given: options
            .iter()
            .map(|(name, values)| GivenOption { name: name.to_string(), values: strings(values) })
            .collect(),
    }
}

#[test]
fn test_get_args_for_find_test_targets() {
    let path = "/path/to/some/great-project/target";
    let pkgid = "file:///path/to/some/great-project#0.1.0";

    let do_test = |matches: Matches, expected_path: &str, expected_filters: &[&'static str]| {
        let args = get_args_for_find_test_targets(&matches, pkgid, path);
        assert_eq!(args.0, expected_path);
        let actual: HashSet<String> = args.1.iter().cloned().collect();
        assert_eq!(actual.len(), args.1.len());
        assert_eq!(actual, expected_filters.iter().map(|x| x.to_string()).collect());
    };

    do_test(given(&[("no-clean-rebuild", &[])]), "/path/to/some/great-project/target/debug", &[]);

    do_test(
        given(&[("no-clean-rebuild", &[]), ("release", &[])]),
        "/path/to/some/great-project/target/release",
        &[],
    );

    do_test(
        given(&[("no-clean-rebuild", &[]), ("target", &["i586-unknown-linux-gnu"])]),
        "/path/to/some/great-project/target/i586-unknown-linux-gnu/debug",
        &[],
    );

    do_test(
        given(&[("no-clean-rebuild", &[]), ("lib", &[])]),
        "/path/to/some/great-project/target/debug",
        &["great_project"],
    );

    do_test(
        given(&[
            ("no-clean-rebuild", &[]),
            ("lib", &[]),
            ("bin", &["a", "b-c-d"]),
            ("test", &["e"]),
            ("example", &["ff"]),
            ("bench", &["g"]),
        ]),
        "/path/to/some/great-project/target/debug",
        &["great_project", "a", "b_c_d", "e", "ff", "g"],
    );
}

#[test]
fn filters_come_in_a_fixed_order_and_once() {
    let matches = given(&[
        ("bench", &["z", "a-b"]),
        ("lib", &[]),
        ("test", &["a_b", "t"]),
        ("bin", &["great-project", "a-b", "b"]),
        ("example", &["b", "e"]),
    ]);
    let (_, filters) = get_args_for_find_test_targets(&matches, "x/great-project#1.0.0", "t");
    assert_eq!(filters, ["great_project", "a_b", "b", "e", "t", "z"]);
}

#[test]
fn extend_filters_adds_only_new_names() {
    let matches = given(&[("bin", &["x-y", "x_y", "k", "w"])]);
    let mut filters = strings(&["k"]);
    extend_file_name_filters(&mut filters, &matches, "bin");
    assert_eq!(filters, ["k", "x_y", "w"]);
    extend_file_name_filters(&mut filters, &matches, "test");
    assert_eq!(filters, ["k", "x_y", "w"]);
}

#[test]
fn arg_types() {
    for option in ["--manifest-path", "--target", "--jobs", "--features", "--coveralls"] {
        assert_eq!(parse_arg_type(option), Some(ArgType::Single));
    }
    for option in ["--release", "--lib", "--no-default-features", "--no-fail-fast", "--all"] {
        assert_eq!(parse_arg_type(option), Some(ArgType::Flag));
    }
    for option in ["--bin", "--example", "--test", "--bench"] {
        assert_eq!(parse_arg_type(option), Some(ArgType::Multiple));
    }
    for option in ["", "--", "bin", "--verbose", "--Bin", "--bin ", "-j"] {
        assert_eq!(parse_arg_type(option), None);
    }
}

#[test]
fn lookups_take_the_first_of_a_name() {
    let m = given(&[("a", &[]), ("b", &["1", "2"]), ("b", &["3"]), ("c", &["4"])]);
    assert!(m.is_present("a"));
    assert!(m.is_present("b"));
    assert!(!m.is_present("d"));
    assert!(!m.is_present(""));
    assert_eq!(m.values_of("a"), Some(&Vec::new()));
    assert_eq!(m.values_of("b"), Some(&strings(&["1", "2"])));
    assert_eq!(m.values_of("d"), None);
    assert_eq!(m.value_of("a"), None);
    assert_eq!(m.value_of("b"), Some(&"1".to_string()));
    assert_eq!(m.value_of("c"), Some(&"4".to_string()));
    assert_eq!(m.value_of("d"), None);
}

#[test]
fn new_command_holds_its_subcommand() {
    let c = Cmd::new("kcov", "");
    assert_eq!(c.program, "kcov");
    assert_eq!(c.subcommand, "");
    assert!(c.args.is_empty());
    assert!(c.env.is_empty());
    let c = cargo("pkgid");
    assert_eq!(c.program, "cargo");
    assert_eq!(c.subcommand, "pkgid");
    assert_eq!(c.args, ["pkgid"]);
    let c = c.args(&strings(&["a", "b"])).arg("c").args(&Vec::new());
    assert_eq!(c.args, ["pkgid", "a", "b", "c"]);
    let c = c.repeat("--x", &strings(&["1", "2"]));
    assert_eq!(c.args, ["pkgid", "a", "b", "c", "--x", "1", "--x", "2"]);
}

#[test]
fn forward_hands_on_what_was_given() {
    let m = given(&[
        ("release", &[]),
        ("manifest-path", &["a b/Cargo.toml"]),
        ("bin", &["x", "y"]),
        ("test", &[]),
        ("features", &["f g", "ignored"]),
        ("verbose", &[]),
    ]);
    let options = strings(&[
        "--lib", "--bin", "--example", "--test", "--bench", "--jobs", "--release", "--target",
        "--manifest-path", "--features", "--no-default-features", "--no-fail-fast",
    ]);
    let c = cargo("test").forward(&m, &options);
    assert_eq!(
        c.args,
        [
            "test", "--bin", "x", "--bin", "y", "--release", "--manifest-path",
            "a b/Cargo.toml", "--features", "f g",
        ]
    );
    let c = cargo("x").forward(&given(&[]), &options);
    assert_eq!(c.args, ["x"]);
    let c = cargo("x").forward(&m, &Vec::new());
    assert_eq!(c.args, ["x"]);
}

#[test]
fn env_sets_or_extends_a_variable() {
    let c = Cmd::new("p", "").env("K", ":", "v", None);
    assert_eq!(c.env, [("K".to_string(), "v".to_string())]);
    let c = c.env("K", ":", "v", Some("old".to_string()));
    assert_eq!(c.env[1], ("K".to_string(), "old:v".to_string()));
    let c = c.env("R", " ", "-C x", Some(String::new()));
    assert_eq!(c.env[2], ("R".to_string(), " -C x".to_string()));
}

fn output(success: bool, stdout: &[u8], stderr: &[u8]) -> Output {
    Output {
        success,
        status: if success { "exit status: 0".into() } else { "exit status: 101".into() },
        stdout: stdout.to_vec(),
        stderr: stderr.to_vec(),
    }
}

#[test]
fn output_of_a_command() {
    let c = cargo("pkgid");
    assert_eq!(
        c.output(output(true, "out 한".as_bytes(), b"err")),
        Ok(("out 한".to_string(), "err".to_string()))
    );
    assert_eq!(c.output(output(true, b"", b"")), Ok((String::new(), String::new())));
    assert_eq!(
        c.output(output(false, b"\xff", b"boom\xff")),
        Err(Error::Cargo {
            subcommand: "pkgid".to_string(),
            status: "exit status: 101".to_string(),
            stderr: b"boom\xff".to_vec(),
        })
    );
    assert!(matches!(c.output(output(true, b"a\xffb", b"ok")), Err(Error::Utf8(_))));
    assert!(matches!(c.output(output(true, b"ok", b"\xc3")), Err(Error::Utf8(_))));
    match c.output(output(true, b"ab\xff", b"\xfe")) {
        Err(Error::Utf8(report)) => {
            assert_eq!(report, String::from_utf8(b"ab\xff".to_vec()).unwrap_err().utf8_error().to_string())
        }
        other => panic!("unexpected {:?}", other),
    }
}

#[test]
fn kcov_runs_are_judged() {
    assert_eq!(Cmd::run_kcov(Ok((true, "exit status: 0".into()))), Ok(()));
    assert_eq!(
        Cmd::run_kcov(Ok((false, "exit status: 1".into()))),
        Err(Error::KcovFailed(Ok("exit status: 1".into())))
    );
    assert_eq!(
        Cmd::run_kcov(Err("not found".into())),
        Err(Error::KcovFailed(Err("not found".into())))
    );
}

#[test]
fn kcov_version() {
    assert_eq!(check_kcov(&b"kcov 38\n".to_vec()), Ok(()));
    assert_eq!(check_kcov(&b"kcov ".to_vec()), Ok(()));
    assert_eq!(check_kcov(&b"kcov".to_vec()), Err(Error::KcovTooOld));
    assert_eq!(check_kcov(&b"".to_vec()), Err(Error::KcovTooOld));
    assert_eq!(check_kcov(&b"Kcov 38".to_vec()), Err(Error::KcovTooOld));
    assert_eq!(check_kcov(&b" kcov 38".to_vec()), Err(Error::KcovTooOld));
    assert_eq!(check_kcov(&b"Usage: kcov [OPTIONS]".to_vec()), Err(Error::KcovTooOld));
}

#[test]
fn coveralls_option() {
    let with = given(&[("coveralls", &[])]);
    let without = given(&[("release", &[])]);
    assert_eq!(get_coveralls_option(&without, None), Ok(None));
    assert_eq!(get_coveralls_option(&without, Some("7".into())), Ok(None));
    assert_eq!(get_coveralls_option(&with, None), Err(Error::NoCoverallsId));
    assert_eq!(
        get_coveralls_option(&with, Some("1234".into())),
        Ok(Some("--coveralls-id=1234".to_string()))
    );
}

#[test]
fn commands_for_cargo() {
    let m = given(&[
        ("manifest-path", &["p/Cargo.toml"]),
        ("release", &[]),
        ("target", &["t"]),
        ("lib", &[]),
        ("jobs", &["4"]),
    ]);
    assert_eq!(pkgid_command(&m).args, ["pkgid", "--manifest-path", "p/Cargo.toml"]);
    assert_eq!(locate_project_command(&m).args, ["locate-project", "--manifest-path", "p/Cargo.toml"]);
    assert_eq!(
        clean_command(&m, "file:///p#0.1.0").args,
        ["clean", "--package", "file:///p#0.1.0", "--manifest-path", "p/Cargo.toml", "--target", "t", "--release"]
    );
    let build = build_test_command(&m, None);
    assert_eq!(build.program, "cargo");
    assert_eq!(
        build.args,
        ["test", "--no-run", "-v", "--lib", "--jobs", "4", "--release", "--target", "t", "--manifest-path", "p/Cargo.toml"]
    );
    assert_eq!(build.env, [("RUSTFLAGS".to_string(), "-C link-dead-code".to_string())]);
    let build = build_test_command(&given(&[]), Some("-g".into()));
    assert_eq!(build.args, ["test", "--no-run", "-v"]);
    assert_eq!(build.env, [("RUSTFLAGS".to_string(), "-g -C link-dead-code".to_string())]);
}

#[test]
fn target_path_from_cargo_answer() {
    assert_eq!(
        find_target_path("{\"root\":\"/path/to/project/Cargo.toml\"}"),
        Ok("/path/to/project/target".to_string())
    );
    assert_eq!(find_target_path("{\"root\": \"Cargo.toml\"}"), Ok("target".to_string()));
    assert_eq!(find_target_path(" {\"a\": true, \"root\": \"/p/Cargo.toml\"}\n"), Ok("/p/target".to_string()));
    assert_eq!(find_target_path("{\"root\": 3}"), Err(Error::Json(None)));
    assert_eq!(find_target_path("{\"rot\": \"x\"}"), Err(Error::Json(None)));
    assert_eq!(find_target_path("\"root\""), Err(Error::Json(None)));
    assert_eq!(find_target_path("12"), Err(Error::Json(None)));
    assert!(matches!(find_target_path("{\"root\": "), Err(Error::Json(Some(_)))));
    assert!(matches!(find_target_path("{\"root\": \"a\",}"), Err(Error::Json(Some(_)))));
    assert!(matches!(find_target_path(""), Err(Error::Json(Some(_)))));
    assert_eq!(target_path_in("/a/b"), "/a/b/target");
    assert_eq!(target_path_in(""), "target");
}

#[test]
fn the_manifest_path_is_read_as_std_reads_paths() {
    for manifest in [
        "/path/to/project/Cargo.toml",
        "Cargo.toml",
        "/Cargo.toml",
        "a/b/",
        "a//b",
        "a/./b",
        "a/b/.",
        "/",
        "",
        "a/..",
        "/대상/[x]/e1234567890123/Cargo.toml",
    ] {
        let mut expected = PathBuf::from(manifest);
        expected.pop();
        expected.push("target");
        let answer = format!("{{\"root\":\"{}\"}}", manifest);
        assert_eq!(find_target_path(&answer), Ok(expected.to_str().unwrap().to_string()), "{:?}", manifest);
    }
}

#[test]
fn escapes_in_the_manifest_path_are_read() {
    assert_eq!(
        find_target_path("{\"root\":\"/a\\\"b\\\\/c\\u00e9/\\ud83d\\ude00/Cargo.toml\"}"),
        Ok("/a\"b\\/c\u{e9}/\u{1f600}/target".to_string())
    );
}

#[test]
fn answers_that_are_not_plain_are_refused() {
    let report = Err(Error::Json(Some("the answer is not one plain object".to_string())));
    // An array, a second object, a long run of digits.
    assert_eq!(find_target_path("[\"root\"]"), report);
    assert_eq!(find_target_path("{\"root\":\"/p/Cargo.toml\",\"x\":{}}"), report);
    assert_eq!(find_target_path("{\"root\":\"/p/Cargo.toml\",\"x\":1234567890}"), report);
    assert_eq!(find_target_path("1e99999999999999999999"), report);
    // A trailing comma inside an array.
    assert_eq!(find_target_path("[{\"a\":{\"b\":1,},\"c\":2}]"), report);
    // Two long keys, one inside the other.
    let key = "k".repeat(40_000);
    let nested = format!("{{\"{}\":{{\"{}\":1}}}}", key, key);
    assert_eq!(find_target_path(&nested), report);
    // Many levels.
    let deep = format!("{}{}", "[".repeat(200_000), "]".repeat(200_000));
    assert_eq!(find_target_path(&deep), report);
    let deep = format!("{}{}", "{\"a\":".repeat(100_000), "1");
    assert_eq!(find_target_path(&deep), report);
    // Too long.
    let long = format!("{{\"root\":\"/{}/Cargo.toml\"}}", "d".repeat(20_000));
    assert_eq!(find_target_path(&long), report);
    let fits = format!("{{\"root\":\"/{}/Cargo.toml\"}}", "d".repeat(16_000));
    assert_eq!(find_target_path(&fits), Ok(format!("/{}/target", "d".repeat(16_000))));
}

#[test]
fn plain_json() {
    for text in [
        "",
        "{}",
        "{\"root\":\"/p/[x]/{y}/e1234567890123/Cargo.toml\"}",
        "\"[[[{{{\"",
        "{\"a\\\"[\": \"b\\\\\", \"c\": 123456789}",
        "123456789 123456789",
        "{\"open",
        "{\"a\": \"\\\\\"}",
    ] {
        assert!(check_plain_json(text), "{:?}", text);
    }
    for text in [
        "[",
        "{{",
        "{\"a\":{}}",
        "1234567890",
        "{\"a\": \"\\\\\"[\"}",
        "{\"a\": \"b\"} [",
        "\"a\"1234567890",
    ] {
        assert!(!check_plain_json(text), "{:?}", text);
    }
    assert!(check_plain_json(&"x".repeat(16_383)));
    assert!(!check_plain_json(&"x".repeat(16_384)));
    assert!(check_plain_json(&"한".repeat(16_383)));
}

#[test]
fn scanning_a_json_text_step_by_step() {
    let blank = Shape {
        place: Place::Outside,
        braces: 0,
        has_bracket: false,
        digits: 0,
        has_long_number: false,
    };
    let s = step(blank, '{');
    assert_eq!(s, Shape { braces: 1, ..blank });
    assert_eq!(step(s, '{').braces, 2);
    assert_eq!(step(step(s, '{'), '{').braces, 2);
    let s = step(s, '"');
    assert_eq!(s.place, Place::Inside);
    assert_eq!(step(s, '['), s);
    assert_eq!(step(s, '7'), s);
    let e = step(s, '\\');
    assert_eq!(e.place, Place::Escaped);
    assert_eq!(step(e, '"').place, Place::Inside);
    assert_eq!(step(s, '"').place, Place::Outside);
    assert!(step(blank, '[').has_bracket);
    let mut d = blank;
    for n in 1..=9 {
        d = step(d, '5');
        assert_eq!(d.digits, n);
        assert!(!d.has_long_number);
    }
    assert_eq!(step(d, 'e').digits, 0);
    d = step(d, '0');
    assert!(d.has_long_number);
    assert!(step(d, 'x').has_long_number);
}

#[test]
fn coverage_path() {
    assert_eq!(create_cov_path(&given(&[]), "/t"), "/t/cov");
    assert_eq!(create_cov_path(&given(&[("output", &["/o"])]), "/t"), "/o");
    assert_eq!(index_path("/t/cov"), "/t/cov/index.html");
}

#[test]
fn arguments_for_kcov() {
    assert_eq!(default_kcov_args(None), ["--exclude-pattern=/.cargo", "--verify"]);
    assert_eq!(
        default_kcov_args(Some("/home/u/.cargo".into())),
        ["--exclude-pattern=/home/u/.cargo", "--verify"]
    );
    assert_eq!(kcov_args(&given(&[]), None), ["--exclude-pattern=/.cargo", "--verify"]);
    assert_eq!(
        kcov_args(&given(&[("KCOV-ARGS", &["--a", "b"])]), Some("/h".into())),
        ["--a", "b"]
    );
}

#[test]
fn the_name_of_a_test_executable_is_its_file_name_by_std() {
    let args = strings(&["--verify"]);
    for test in [
        "/a/b/c-1", "c", "/a/한국어", "/a/b/", "", "/", "a/..", "..", "a/.", "a/...", ".", "a//b//",
        "./x", "/a/./b/.",
    ] {
        let planned = kcov_command("kcov", &args, "/cov", test, None);
        match Path::new(test).file_name() {
            Some(name) => {
                let name = name.to_str().unwrap();
                let (cmd, pre) = planned.unwrap();
                assert_eq!(pre, format!("/cov/{}", name), "{:?}", test);
                assert_eq!(cmd.args, ["--verify", pre.as_str(), test]);
            }
            None => assert_eq!(planned, None, "{:?}", test),
        }
    }
    assert!(kcov_command("kcov", &args, "/cov", "/a/b/", None).is_some());
    assert!(kcov_command("kcov", &args, "/cov", "a/..", None).is_none());
}

#[test]
fn command_for_a_named_run() {
    let args = strings(&["--a"]);
    let (cmd, pre) = kcov_command_for("k", &args, "cov/", "/t/x-1", "x-1", Some("/l".into()));
    assert_eq!(pre, "cov/x-1");
    assert_eq!(cmd.program, "k");
    assert_eq!(cmd.subcommand, "");
    assert_eq!(cmd.args, ["--a", "cov/x-1", "/t/x-1"]);
    assert_eq!(cmd.env, [("LD_LIBRARY_PATH".to_string(), "/l:target/debug/deps".to_string())]);
}

#[test]
fn commands_for_kcov() {
    let args = strings(&["--exclude-pattern=/.cargo", "--verify"]);
    let (cmd, pre) =
        kcov_command("kcov", &args, "/t/cov", "/t/debug/first-d5d6293fc6d22a93", None).unwrap();
    assert_eq!(pre, "/t/cov/first-d5d6293fc6d22a93");
    assert_eq!(cmd.program, "kcov");
    assert_eq!(
        cmd.args,
        [
            "--exclude-pattern=/.cargo",
            "--verify",
            "/t/cov/first-d5d6293fc6d22a93",
            "/t/debug/first-d5d6293fc6d22a93",
        ]
    );
    assert_eq!(cmd.env, [("LD_LIBRARY_PATH".to_string(), "target/debug/deps".to_string())]);
    let (cmd, _) = kcov_command("k", &args, "c", "t", Some("/lib".into())).unwrap();
    assert_eq!(cmd.env, [("LD_LIBRARY_PATH".to_string(), "/lib:target/debug/deps".to_string())]);
    assert_eq!(kcov_command("k", &args, "c", "t/..", None), None);

    let merged = merge_command("kcov", &args, "/t/cov", Some("--coveralls-id=9".into()), &strings(&["/t/cov/a", "/t/cov/b"]));
    assert_eq!(merged.subcommand, "--merge");
    assert_eq!(
        merged.args,
        ["--merge", "--exclude-pattern=/.cargo", "--verify", "/t/cov", "--coveralls-id=9", "/t/cov/a", "/t/cov/b"]
    );
    let merged = merge_command("kcov", &Vec::new(), "c", None, &Vec::new());
    assert_eq!(merged.args, ["--merge", "c"]);
}

#[test]
fn build_output_is_read_error_stream_first() {
    let err = "Running `rustc --crate-name e --test --out-dir /o x`\n";
    let out = "Running `rustc --crate-name o --test --out-dir /o x`\n";
    assert_eq!(built_targets(out, err), ["/o/e", "/o/o"]);
    assert_eq!(built_targets("", ""), Vec::<String>::new());
}

#[test]
fn plans() {
    assert_eq!(plan(&given(&[]), false), Err(Error::UnsupportedOS));
    assert_eq!(plan(&given(&[("print-install-kcov-sh", &[])]), false), Err(Error::UnsupportedOS));
    assert_eq!(
        plan(&given(&[("verbose", &[]), ("print-install-kcov-sh", &[])]), true),
        Ok(Plan::PrintInstallScript)
    );
    assert_eq!(
        plan(&given(&[]), true),
        Ok(Plan::Cover { kcov: "kcov".into(), verbose: false, rebuild: true, open: false })
    );
    assert_eq!(
        plan(
            &given(&[("kcov", &["/opt/kcov"]), ("open", &[]), ("no-clean-rebuild", &[]), ("verbose", &[])]),
            true
        ),
        Ok(Plan::Cover { kcov: "/opt/kcov".into(), verbose: true, rebuild: false, open: true })
    );
}
