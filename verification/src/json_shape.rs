//! Tells the JSON texts that the JSON parser is given from those that are
//! kept from it.
//!
//! The parser counts the bytes of the keys it is inside of in sixteen bits,
//! takes one level of its call stack for each level of nesting, adds up the
//! digits of an exponent without a limit, and loses its place behind a
//! trailing comma inside an array. A text that is short, holds no array and
//! at most one object, and no long run of digits meets none of these. The
//! answers of Cargo that are read here are of that kind: one object whose
//! members are texts.

use crate::text::chars_of;
use vstd::prelude::*;

verus! {

/// Where a scan stands: outside of the strings of a JSON text, inside one, or
/// inside one and behind a backslash.
#[derive(Clone, Copy, Debug, PartialEq, Eq, Structural)]
pub enum Place {
    Outside,
    Inside,
    Escaped,
}

/// What a scan has seen of a JSON text, outside of its strings.
#[derive(Clone, Copy, Debug, PartialEq, Eq, Structural)]
pub struct Shape {
    pub place: Place,
    /// How many `{` were seen: none, one, or more.
    pub braces: u8,
    /// Whether a `[` was seen.
    pub has_bracket: bool,
    /// How many digits stand directly before here, ten standing for more.
    pub digits: u8,
    /// Whether ten digits or more stood in a row.
    pub has_long_number: bool,
}

/// No text may be longer than this, in characters. A character takes at
/// most four bytes, so the text, and with it every key, stays under the
/// 65536 bytes that the parser can count.
pub const MAX_CHARS: usize = 16383;

/// No run of digits outside of a string may be longer than this.
pub const MAX_DIGITS: u8 = 9;

/// What a scan has seen before the first character.
pub open spec fn blank() -> Shape {
    Shape { place: Place::Outside, braces: 0, has_bracket: false, digits: 0, has_long_number: false }
}

/// Whether `c` is one of the ten digits.
pub open spec fn is_digit(c: char) -> bool {
    '0' <= c <= '9'
}

/// What a scan has seen after `c`. A string begins at a `"` outside of a
/// string and ends at the next `"` that stands behind no backslash; the
/// character behind a backslash belongs to the string whatever it is.
pub open spec fn seen_after(shape: Shape, c: char) -> Shape {
    match shape.place {
        Place::Escaped => Shape { place: Place::Inside, ..shape },
        Place::Inside => if c == '\\' {
            Shape { place: Place::Escaped, ..shape }
        } else if c == '"' {
            Shape { place: Place::Outside, ..shape }
        } else {
            shape
        },
        Place::Outside => if c == '"' {
            Shape { place: Place::Inside, digits: 0, ..shape }
        } else {
            let digits: u8 = if !is_digit(c) {
                0
            } else if shape.digits <= MAX_DIGITS {
                (shape.digits + 1) as u8
            } else {
                shape.digits
            };
            Shape {
                place: Place::Outside,
                braces: if c == '{' && shape.braces < 2 {
                    (shape.braces + 1) as u8
                } else {
                    shape.braces
                },
                has_bracket: shape.has_bracket || c == '[',
                digits,
                has_long_number: shape.has_long_number || digits > MAX_DIGITS,
            }
        },
    }
}

/// What a scan has seen after all of `text`.
pub open spec fn seen(text: Seq<char>) -> Shape
    decreases text.len(),
{
    if text.len() == 0 {
        blank()
    } else {
        seen_after(seen(text.drop_last()), text.last())
    }
}

/// Whether `text` is of the kind that the JSON parser is given: at most
/// `MAX_CHARS` characters and, outside of its strings, no `[`, at most one
/// `{`, and no more than `MAX_DIGITS` digits in a row.
pub open spec fn is_plain_json(text: Seq<char>) -> bool {
    let shape = seen(text);
    &&& text.len() <= MAX_CHARS
    &&& shape.braces <= 1
    &&& !shape.has_bracket
    &&& !shape.has_long_number
}

/// What a scan has seen after `c`.
pub fn step(shape: Shape, c: char) -> (r: Shape)
    ensures
        r == seen_after(shape, c),
{
    match shape.place {
        Place::Escaped => Shape {
            place: Place::Inside,
            braces: shape.braces,
            has_bracket: shape.has_bracket,
            digits: shape.digits,
            has_long_number: shape.has_long_number,
        },
        Place::Inside => {
            let place = if c == '\\' {
                Place::Escaped
            } else if c == '"' {
                Place::Outside
            } else {
                Place::Inside
            };
            Shape {
                place,
                braces: shape.braces,
                has_bracket: shape.has_bracket,
                digits: shape.digits,
                has_long_number: shape.has_long_number,
            }
        },
        Place::Outside => {
            if c == '"' {
                Shape {
                    place: Place::Inside,
                    braces: shape.braces,
                    has_bracket: shape.has_bracket,
                    digits: 0,
                    has_long_number: shape.has_long_number,
                }
            } else {
                let digits: u8 = if !('0' <= c && c <= '9') {
                    0
                } else if shape.digits <= MAX_DIGITS {
                    shape.digits + 1
                } else {
                    shape.digits
                };
                Shape {
                    place: Place::Outside,
                    braces: if c == '{' && shape.braces < 2 {
                        shape.braces + 1
                    } else {
                        shape.braces
                    },
                    has_bracket: shape.has_bracket || c == '[',
                    digits,
                    has_long_number: shape.has_long_number || digits > MAX_DIGITS,
                }
            }
        },
    }
}

/// Whether `text` is of the kind that the JSON parser is given.
pub fn check_plain_json(text: &str) -> (r: bool)
    ensures
        r == is_plain_json(text@),
{
    let chars = chars_of(text);
    if chars.len() > MAX_CHARS {
        return false;
    }
    let mut shape = Shape {
        place: Place::Outside,
        braces: 0,
        has_bracket: false,
        digits: 0,
        has_long_number: false,
    };
    let mut i: usize = 0;
    assert(text@.take(0) =~= Seq::<char>::empty());
    while i < chars.len()
        invariant
            i <= chars.len(),
            chars@ == text@,
            shape == seen(text@.take(i as int)),
        decreases chars.len() - i,
    {
        assert(text@.take(i + 1).drop_last() =~= text@.take(i as int));
        assert(text@.take(i + 1).last() == chars@[i as int]);
        shape = step(shape, chars[i]);
        i += 1;
    }
    assert(text@.take(chars.len() as int) =~= text@);
    shape.braces <= 1 && !shape.has_bracket && !shape.has_long_number
}

} // verus!
