use cargo_kcov::paths::{file_stem, join_path};
use cargo_kcov::text::{
    chars_of, chars_start_with, find_char, is_whitespace_char, lines, rfind_char, same_text,
    starts_with, string_of, string_of_range, trim_start,
};
use std::path::{Path, PathBuf};

#[test]
fn white_space_is_what_std_calls_white_space() {
    let mut n: u32 = 0;
    while n <= 0x10FFFF {
        if let Some(c) = char::from_u32(n) {
            assert_eq!(is_whitespace_char(c), c.is_whitespace(), "U+{:04X}", n);
        }
        n += 1;
    }
}

#[test]
fn lines_are_the_lines_of_std() {
    let samples = [
        "",
        "\n",
        "\r\n",
        "\r",
        "a",
        "a\n",
        "a\r\n",
        "a\r",
        "a\nb",
        "a\n\nb\n",
        "a\r\n\r\nb\r\n",
        "a\rb\r\nc\r\r\nd\n\re",
        "\n\n\n",
        "한국어\r\n이름\n",
        "x\u{85}y\u{2028}z\n",
        "\r\n\r",
    ];
    for s in samples {
        let expected: Vec<String> = s.lines().map(|l| l.to_string()).collect();
        assert_eq!(lines(s), expected, "{:?}", s);
    }
    assert_eq!(lines("a\r\nb\n\nc"), ["a", "b", "", "c"]);
    assert_eq!(lines("a\r"), ["a\r"]);
}

#[test]
fn trim_start_is_the_trim_start_of_std() {
    let samples = [
        "",
        " ",
        "a",
        "  a b ",
        "\t\r\n a",
        "\u{a0}\u{1680}\u{2003}\u{3000}x ",
        "\u{200b}x",
        "\u{feff}x",
        "한 국",
        "\u{85}\u{2028}\u{2029}\u{202f}\u{205f}y",
    ];
    for s in samples {
        assert_eq!(trim_start(s), s.trim_start(), "{:?}", s);
    }
    assert_eq!(trim_start("  a b "), "a b ");
}

#[test]
fn prefixes() {
    assert!(starts_with("Running `rustc x", "Running `rustc "));
    assert!(starts_with("abc", ""));
    assert!(starts_with("", ""));
    assert!(starts_with("abc", "abc"));
    assert!(!starts_with("ab", "abc"));
    assert!(!starts_with("xabc", "abc"));
    assert!(!starts_with("한국어", "한구"));
    assert!(starts_with("한국어", "한국"));
    assert!(chars_start_with(&chars_of("abc"), &chars_of("ab")));
    assert!(!chars_start_with(&chars_of("abc"), &chars_of("b")));
}

#[test]
fn characters_and_back() {
    assert_eq!(chars_of("a한b"), ['a', '한', 'b']);
    assert_eq!(chars_of(""), Vec::<char>::new());
    assert_eq!(string_of(&vec!['x', '名', 'y']), "x名y");
    assert_eq!(string_of_range(&vec!['x', '名', 'y', 'z'], 1, 3), "名y");
    assert_eq!(string_of_range(&vec!['x'], 1, 1), "");
    assert!(same_text("a-b", "a-b"));
    assert!(!same_text("a-b", "a_b"));
    assert!(!same_text("a", "ab"));
}

#[test]
fn first_and_last_place_of_a_character() {
    let s = chars_of("한/b/c");
    assert_eq!(find_char(&s, '/'), Some(1));
    assert_eq!(rfind_char(&s, '/'), Some(3));
    assert_eq!(find_char(&s, 'c'), Some(4));
    assert_eq!(rfind_char(&s, '한'), Some(0));
    assert_eq!(find_char(&s, 'x'), None);
    assert_eq!(rfind_char(&s, 'x'), None);
    assert_eq!(find_char(&Vec::new(), 'x'), None);
    assert_eq!(rfind_char(&Vec::new(), 'x'), None);
}

#[test]
fn join_path_is_the_join_of_std() {
    let dirs = ["", "/", "a", "a/", "/a/b", "/a/b/", "a b", "대상", "."];
    let files = ["f", "f.g", "/f", "/", "", "x/y", "이름-1", ".."];
    for d in dirs {
        for f in files {
            let mut expected = PathBuf::from(d);
            expected.push(f);
            assert_eq!(join_path(d, f), expected.to_str().unwrap(), "{:?} {:?}", d, f);
        }
    }
    assert_eq!(join_path("/x", "foo-deadbeef"), "/x/foo-deadbeef");
    assert_eq!(join_path("", "foo"), "foo");
    assert_eq!(join_path("x/", "foo"), "x/foo");
    assert_eq!(join_path("x", "/foo"), "/foo");
}

#[test]
fn file_stem_is_the_file_stem_of_std() {
    let names = [
        "a", "a.b", "a.b.c", ".a", ".a.b", "a.", "..a", "a..b", "first-d5d6293fc6d22a93.dSYM",
        "libfoo.rlib", "한국어.이름", "no_dot", ".", "...", "..", "..a.", "a.b-0123456789abcdef",
    ];
    for n in names {
        let expected = Path::new(n).file_stem().and_then(|s| s.to_str()).unwrap_or(n);
        assert_eq!(file_stem(n), expected, "{:?}", n);
    }
    assert_eq!(file_stem("first-d5d6293fc6d22a93.dSYM"), "first-d5d6293fc6d22a93");
    assert_eq!(file_stem(".hidden"), ".hidden");
    assert_eq!(file_stem(""), "");
}
