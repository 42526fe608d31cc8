//! The options of `cargo kcov` as they were given on the command line.

use crate::text::same_text;
use vstd::prelude::*;

verus! {

/// How many values an option of Cargo takes.
#[derive(Clone, Copy, Debug, PartialEq, Eq, Structural)]
pub enum ArgType {
    /// None: the option is there or not.
    Flag,
    /// One.
    Single,
    /// One each time it is given, and it may be given many times.
    Multiple,
}

/// How many values the option `option` of Cargo takes, for the options that
/// can be handed on to Cargo.
pub open spec fn arg_type_of(option: Seq<char>) -> Option<ArgType> {
    if option == "--manifest-path"@ || option == "--target"@ || option == "--jobs"@ || option
        == "--features"@ || option == "--coveralls"@ {
        Some(ArgType::Single)
    } else if option == "--release"@ || option == "--lib"@ || option == "--no-default-features"@
        || option == "--no-fail-fast"@ || option == "--all"@ {
        Some(ArgType::Flag)
    } else if option == "--bin"@ || option == "--example"@ || option == "--test"@ || option
        == "--bench"@ {
        Some(ArgType::Multiple)
    } else {
        None
    }
}

/// How many values the option `option` of Cargo takes.
pub fn parse_arg_type(option: &str) -> (r: Option<ArgType>)
    ensures
        r == arg_type_of(option@),
{
    if same_text(option, "--manifest-path") || same_text(option, "--target") || same_text(
        option,
        "--jobs",
    ) || same_text(option, "--features") || same_text(option, "--coveralls") {
        Some(ArgType::Single)
    } else if same_text(option, "--release") || same_text(option, "--lib") || same_text(
        option,
        "--no-default-features",
    ) || same_text(option, "--no-fail-fast") || same_text(option, "--all") {
        Some(ArgType::Flag)
    } else if same_text(option, "--bin") || same_text(option, "--example") || same_text(
        option,
        "--test",
    ) || same_text(option, "--bench") {
        Some(ArgType::Multiple)
    } else {
        None
    }
}

/// One option that was given, under the name that the argument parser knows
/// it by, with the values that it was given.
#[derive(Debug, Clone, PartialEq, Eq)]
pub struct GivenOption {
    pub name: String,
    pub values: Vec<String>,
}

/// A `GivenOption` as a mathematical value.
pub struct GivenView {
    pub name: Seq<char>,
    pub values: Seq<Seq<char>>,
}

impl DeepView for GivenOption {
    type V = GivenView;

    open spec fn deep_view(&self) -> GivenView {
        GivenView { name: self.name@, values: self.values.deep_view() }
    }
}

/// The options that were given. Where a name stands twice, the first counts.
#[derive(Debug, Clone, PartialEq, Eq)]
pub struct Matches {
    pub given: Vec<GivenOption>,
}

impl View for Matches {
    type V = Seq<GivenView>;

    open spec fn view(&self) -> Seq<GivenView> {
        self.given.deep_view()
    }
}

/// The values of the option `name` among `given`, or `None` where it was not
/// given.
pub open spec fn values_in(given: Seq<GivenView>, name: Seq<char>) -> Option<Seq<Seq<char>>>
    decreases given.len(),
{
    if given.len() == 0 {
        None
    } else if given[0].name == name {
        Some(given[0].values)
    } else {
        values_in(given.drop_first(), name)
    }
}

/// The first value of the option `name` among `given`.
pub open spec fn value_in(given: Seq<GivenView>, name: Seq<char>) -> Option<Seq<char>> {
    match values_in(given, name) {
        Some(values) => if values.len() > 0 {
            Some(values[0])
        } else {
            None
        },
        None => None,
    }
}

impl Matches {
    /// The values of the option `name`, or `None` where it was not given.
    pub fn values_of(&self, name: &str) -> (r: Option<&Vec<String>>)
        ensures
            match r {
                Some(values) => values_in(self@, name@) == Some(values.deep_view()),
                None => values_in(self@, name@) is None,
            },
    {
        let mut i: usize = 0;
        assert(self@.skip(0) =~= self@);
        while i < self.given.len()
            invariant
                i <= self.given.len(),
                values_in(self@, name@) == values_in(self@.skip(i as int), name@),
            decreases self.given.len() - i,
        {
            assert(self@.skip(i as int).drop_first() =~= self@.skip(i + 1));
            assert(self@.skip(i as int)[0] == self.given[i as int].deep_view());
            if same_text(self.given[i].name.as_str(), name) {
                return Some(&self.given[i].values);
            }
            i += 1;
        }
        None
    }

    /// Whether the option `name` was given.
    pub fn is_present(&self, name: &str) -> (r: bool)
        ensures
            r == values_in(self@, name@).is_some(),
    {
        self.values_of(name).is_some()
    }

    /// The first value of the option `name`.
    pub fn value_of(&self, name: &str) -> (r: Option<&String>)
        ensures
            match r {
                Some(value) => value_in(self@, name@) == Some(value@),
                None => value_in(self@, name@) is None,
            },
    {
        match self.values_of(name) {
            Some(values) => {
                if values.len() > 0 {
                    Some(&values[0])
                } else {
                    None
                }
            },
            None => None,
        }
    }
}

} // verus!
