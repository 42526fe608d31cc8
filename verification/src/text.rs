//! Text as sequences of characters: the few operations on strings that the
//! rest of the crate needs, each with its meaning stated over `Seq<char>`.

use vstd::prelude::*;
use vstd::string::StrSliceExecFns;
use vstd::string::StringExecFns;

verus! {

/// `String::push` appends one character.
pub assume_specification[ String::push ](s: &mut String, ch: char)
    ensures
        final(s)@ == old(s)@.push(ch),
;

/// Whether `c` is white space as Unicode defines it (the property
/// `White_Space`).
pub open spec fn is_whitespace(c: char) -> bool {
    let n = c as u32;
    ||| 0x09 <= n <= 0x0D
    ||| n == 0x20
    ||| n == 0x85
    ||| n == 0xA0
    ||| n == 0x1680
    ||| 0x2000 <= n <= 0x200A
    ||| n == 0x2028
    ||| n == 0x2029
    ||| n == 0x202F
    ||| n == 0x205F
    ||| n == 0x3000
}

/// `s` without the white space it begins with.
pub open spec fn trimmed_start(s: Seq<char>) -> Seq<char>
    decreases s.len(),
{
    if s.len() > 0 && is_whitespace(s[0]) {
        trimmed_start(s.drop_first())
    } else {
        s
    }
}

/// `line` without one carriage return at its end, if it has one there.
pub open spec fn without_carriage_return(line: Seq<char>) -> Seq<char> {
    if line.len() > 0 && line.last() == '\r' {
        line.drop_last()
    } else {
        line
    }
}

/// The lines of `s`. A line ends with a line feed, or with a carriage return
/// directly followed by a line feed; neither belongs to the line. The last
/// line may lack its ending, and is then taken as it stands. An empty text
/// has no lines.
pub open spec fn lines_of(s: Seq<char>) -> Seq<Seq<char>>
    decreases s.len(),
    via lines_of_decreases
{
    if s.len() == 0 {
        Seq::empty()
    } else {
        match s.index_of_first('\n') {
            Some(k) => seq![without_carriage_return(s.take(k))] + lines_of(s.skip(k + 1)),
            None => seq![s],
        }
    }
}

#[via_fn]
proof fn lines_of_decreases(s: Seq<char>) {
    s.index_of_first_ensures('\n');
}

/// `index_of_first` gives `Some(k)` exactly where `k` is the first place of
/// `c` in `s`.
pub proof fn lemma_first_index(s: Seq<char>, c: char, k: int)
    requires
        0 <= k < s.len(),
        s[k] == c,
        forall|j: int| 0 <= j < k ==> s[j] != c,
    ensures
        s.index_of_first(c) == Some(k),
{
    s.index_of_first_ensures(c);
    assert(s.contains(c));
}

/// `index_of_last` gives `Some(k)` exactly where `k` is the last place of
/// `c` in `s`.
pub proof fn lemma_last_index(s: Seq<char>, c: char, k: int)
    requires
        0 <= k < s.len(),
        s[k] == c,
        forall|j: int| k < j < s.len() ==> s[j] != c,
    ensures
        s.index_of_last(c) == Some(k),
{
    s.index_of_last_ensures(c);
    assert(s.contains(c));
}

/// Neither index exists where `c` does not occur.
pub proof fn lemma_no_index(s: Seq<char>, c: char)
    requires
        forall|j: int| 0 <= j < s.len() ==> s[j] != c,
    ensures
        s.index_of_first(c) is None,
        s.index_of_last(c) is None,
        !s.contains(c),
{
    s.index_of_first_ensures(c);
    s.index_of_last_ensures(c);
}

/// Whether `c` is white space.
pub fn is_whitespace_char(c: char) -> (r: bool)
    ensures
        r == is_whitespace(c),
{
    let n: u32 = c as u32;
    (0x09 <= n && n <= 0x0D) || n == 0x20 || n == 0x85 || n == 0xA0 || n == 0x1680 || (0x2000 <= n
        && n <= 0x200A) || n == 0x2028 || n == 0x2029 || n == 0x202F || n == 0x205F || n == 0x3000
}

/// The characters of `s`, in order.
pub fn chars_of(s: &str) -> (r: Vec<char>)
    ensures
        r@ == s@,
{
    let mut out: Vec<char> = Vec::new();
    for c in it: s.chars()
        invariant
            out@ == it.seq().take(it.index()),
    {
        out.push(c);
    }
    out
}

/// The string made of `chars[from..to]`.
pub fn string_of_range(chars: &Vec<char>, from: usize, to: usize) -> (r: String)
    requires
        from <= to <= chars.len(),
    ensures
        r@ == chars@.subrange(from as int, to as int),
{
    let mut out = String::new();
    let mut i: usize = from;
    while i < to
        invariant
            from <= i <= to <= chars.len(),
            out@ == chars@.subrange(from as int, i as int),
        decreases to - i,
    {
        out.push(chars[i]);
        i += 1;
    }
    out
}

/// The string made of `chars`.
pub fn string_of(chars: &Vec<char>) -> (r: String)
    ensures
        r@ == chars@,
{
    let r = string_of_range(chars, 0, chars.len());
    assert(chars@.subrange(0, chars@.len() as int) == chars@);
    r
}

/// The first place of `c` in `chars`.
pub fn find_char(chars: &Vec<char>, c: char) -> (r: Option<usize>)
    ensures
        match r {
            Some(k) => chars@.index_of_first(c) == Some(k as int) && k < chars.len(),
            None => chars@.index_of_first(c) is None,
        },
{
    let mut i: usize = 0;
    while i < chars.len()
        invariant
            i <= chars.len(),
            forall|j: int| 0 <= j < i ==> chars@[j] != c,
        decreases chars.len() - i,
    {
        if chars[i] == c {
            proof {
                lemma_first_index(chars@, c, i as int);
            }
            return Some(i);
        }
        i += 1;
    }
    proof {
        lemma_no_index(chars@, c);
    }
    None
}

/// The last place of `c` in `chars`.
pub fn rfind_char(chars: &Vec<char>, c: char) -> (r: Option<usize>)
    ensures
        match r {
            Some(k) => chars@.index_of_last(c) == Some(k as int) && k < chars.len(),
            None => chars@.index_of_last(c) is None,
        },
{
    let mut i: usize = chars.len();
    while i > 0
        invariant
            i <= chars.len(),
            forall|j: int| i <= j < chars.len() ==> chars@[j] != c,
        decreases i,
    {
        i -= 1;
        if chars[i] == c {
            proof {
                lemma_last_index(chars@, c, i as int);
            }
            return Some(i);
        }
    }
    proof {
        lemma_no_index(chars@, c);
    }
    None
}

/// Whether `chars` begins with `prefix`.
pub fn chars_start_with(chars: &Vec<char>, prefix: &Vec<char>) -> (r: bool)
    ensures
        r == prefix@.is_prefix_of(chars@),
{
    if prefix.len() > chars.len() {
        return false;
    }
    let mut i: usize = 0;
    while i < prefix.len()
        invariant
            i <= prefix.len() <= chars.len(),
            forall|j: int| 0 <= j < i ==> chars@[j] == prefix@[j],
        decreases prefix.len() - i,
    {
        if chars[i] != prefix[i] {
            assert(chars@.subrange(0, prefix@.len() as int)[i as int] != prefix@[i as int]);
            return false;
        }
        i += 1;
    }
    assert(prefix@ =~= chars@.subrange(0, prefix@.len() as int));
    true
}

/// Whether `a` and `b` hold the same characters.
pub fn same_text(a: &str, b: &str) -> (r: bool)
    ensures
        r == (a@ == b@),
{
    String::from_str(a) == String::from_str(b)
}

/// Whether `text` begins with `prefix`.
pub fn starts_with(text: &str, prefix: &str) -> (r: bool)
    ensures
        r == prefix@.is_prefix_of(text@),
{
    chars_start_with(&chars_of(text), &chars_of(prefix))
}

/// `text` without the white space it begins with.
pub fn trim_start(text: &str) -> (r: &str)
    ensures
        r@ == trimmed_start(text@),
{
    let chars = chars_of(text);
    let mut i: usize = 0;
    assert(text@.skip(0) =~= text@);
    while i < chars.len() && is_whitespace_char(chars[i])
        invariant
            i <= chars.len(),
            chars@ == text@,
            trimmed_start(text@) == trimmed_start(text@.skip(i as int)),
        decreases chars.len() - i,
    {
        assert(text@.skip(i as int).drop_first() =~= text@.skip(i + 1));
        i += 1;
    }
    assert(text@.skip(i as int) =~= text@.subrange(i as int, text@.len() as int));
    text.substring_char(i, chars.len())
}

/// The lines of `text`.
pub fn lines(text: &str) -> (r: Vec<String>)
    ensures
        r.deep_view() == lines_of(text@),
{
    let chars = chars_of(text);
    let n = chars.len();
    let mut out: Vec<String> = Vec::new();
    let mut start: usize = 0;
    assert(text@.skip(0) =~= text@);
    assert(out.deep_view() =~= Seq::<Seq<char>>::empty());
    while start < n
        invariant
            n == chars.len(),
            start <= n,
            chars@ == text@,
            lines_of(text@) == out.deep_view() + lines_of(text@.skip(start as int)),
        decreases n - start,
    {
        let ghost rest = text@.skip(start as int);
        let mut end: usize = start;
        while end < n && chars[end] != '\n'
            invariant
                n == chars.len(),
                start <= end <= n,
                forall|j: int| start <= j < end ==> chars@[j] != '\n',
            decreases n - end,
        {
            end += 1;
        }
        let ghost before = out.deep_view();
        if end < n {
            let stop = if end > start && chars[end - 1] == '\r' {
                (end - 1) as usize
            } else {
                end
            };
            let line = string_of_range(&chars, start, stop);
            proof {
                lemma_first_index(rest, '\n', end - start);
                assert(rest.take(end - start) =~= chars@.subrange(start as int, end as int));
                assert(line@ =~= without_carriage_return(rest.take(end - start)));
                assert(rest.skip(end - start + 1) =~= text@.skip(end + 1));
            }
            out.push(line);
            assert(out.deep_view() =~= before + seq![line@]);
            start = end + 1;
        } else {
            let line = string_of_range(&chars, start, n);
            proof {
                lemma_no_index(rest, '\n');
                assert(line@ =~= rest);
                assert(text@.skip(n as int).len() == 0);
            }
            out.push(line);
            assert(out.deep_view() =~= before + seq![line@]);
            start = n;
        }
    }
    out
}


/// `s` without the white space it ends with.
pub open spec fn trimmed_end(s: Seq<char>) -> Seq<char>
    decreases s.len(),
{
    if s.len() > 0 && is_whitespace(s.last()) {
        trimmed_end(s.drop_last())
    } else {
        s
    }
}

/// `text` without the white space it ends with.
pub fn trim_end(text: &str) -> (r: &str)
    ensures
        r@ == trimmed_end(text@),
{
    let chars = chars_of(text);
    let mut n: usize = chars.len();
    assert(text@.take(n as int) =~= text@);
    while n > 0 && is_whitespace_char(chars[n - 1])
        invariant
            n <= chars.len(),
            chars@ == text@,
            trimmed_end(text@) == trimmed_end(text@.take(n as int)),
        decreases n,
    {
        assert(text@.take(n as int).drop_last() =~= text@.take(n - 1));
        n -= 1;
    }
    assert(text@.take(n as int) =~= text@.subrange(0, n as int));
    text.substring_char(0, n)
}

/// `text` behind as many spaces as it lacks characters to `width`.
pub open spec fn padded_left(text: Seq<char>, width: nat) -> Seq<char> {
    if text.len() >= width {
        text
    } else {
        Seq::new((width - text.len()) as nat, |i: int| ' ') + text
    }
}

/// `text` behind as many spaces as it lacks characters to `width`.
pub fn pad_left(text: &str, width: usize) -> (r: String)
    ensures
        r@ == padded_left(text@, width as nat),
{
    let n = text.unicode_len();
    let mut out = String::new();
    if n < width {
        let mut i: usize = 0;
        while i < width - n
            invariant
                n < width,
                i <= width - n,
                out@ == Seq::new(i as nat, |k: int| ' '),
            decreases width - n - i,
        {
            out.push(' ');
            assert(out@ =~= Seq::new((i + 1) as nat, |k: int| ' '));
            i += 1;
        }
    } else {
        assert(out@ + text@ =~= text@);
    }
    out.append(text);
    out
}

/// Whether `name` is among `names`.
pub fn contains_text(names: &Vec<String>, name: &str) -> (r: bool)
    ensures
        r == names.deep_view().contains(name@),
{
    let mut i: usize = 0;
    while i < names.len()
        invariant
            i <= names.len(),
            forall|j: int| 0 <= j < i ==> names.deep_view()[j] != name@,
        decreases names.len() - i,
    {
        if same_text(names[i].as_str(), name) {
            assert(names.deep_view()[i as int] == name@);
            return true;
        }
        i += 1;
    }
    false
}

} // verus!
