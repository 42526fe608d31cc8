//! Functions of a sample package. Each of its test targets calls one of
//! them, so that a coverage run over the package shows which targets ran.

use vstd::prelude::*;

verus! {

pub fn test_this_in_first() -> (r: bool)
    ensures
        r,
{
    true
}

pub fn test_this_in_second() -> (r: bool)
    ensures
        r,
{
    true
}

pub fn test_this_in_third() -> (r: bool)
    ensures
        r,
{
    true
}

pub fn test_this_in_fourth() -> (r: bool)
    ensures
        r,
{
    true
}

pub fn test_this_in_fifth() -> (r: bool)
    ensures
        r,
{
    true
}

pub fn test_this_in_sixth() -> (r: bool)
    ensures
        r,
{
    true
}

pub fn test_this_in_seventh() -> (r: bool)
    ensures
        r,
{
    true
}

pub fn test_this_in_eighth() -> (r: bool)
    ensures
        r,
{
    true
}

pub fn test_this_in_korean() -> (r: bool)
    ensures
        r,
{
    true
}

/// No test target calls this one.
pub fn should_never_test_this() -> (r: bool)
    ensures
        r,
{
    true
}

pub fn foo() -> (r: bool)
    ensures
        r,
{
    true
}

} // verus!
