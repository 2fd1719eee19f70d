//! The same function exported under each attribute argument: `name`,
//! `constructor`, `getter`, `setter` and `mt`.
use vstd::prelude::*;

verus! {

/// Returns its argument.
pub fn example1(count: i32) -> (r: i32)
    ensures
        r == count,
{
    count
}

/// Returns its argument.
pub fn example2(count: i32) -> (r: i32)
    ensures
        r == count,
{
    count
}

/// Returns its argument.
pub fn example3(count: i32) -> (r: i32)
    ensures
        r == count,
{
    count
}

/// Returns its argument.
pub fn example4(count: i32) -> (r: i32)
    ensures
        r == count,
{
    count
}

/// Returns its argument.
pub fn example5(count: i32) -> (r: i32)
    ensures
        r == count,
{
    count
}

} // verus!
