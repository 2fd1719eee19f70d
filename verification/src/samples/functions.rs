//! Signatures of growing variety: no argument, one, several, a closure.
use vstd::prelude::*;

verus! {

/// Does nothing.
pub fn example1() {
}

/// One argument, a constant result.
pub fn example2(arg1: bool) -> (r: i32)
    ensures
        r == 4,
{
    4
}

/// Several arguments, a constant result.
pub fn example3(arg1: bool, arg2: i32, arg3: String) -> (r: i32)
    ensures
        r == 4,
{
    4
}

/// Calls the closure with the second argument.
pub fn example4<F: Fn(i32)>(cb: F, second: i32)
    requires
        cb.requires((second,)),
    ensures
        cb.ensures((second,), ()),
{
    cb(second)
}

} // verus!
