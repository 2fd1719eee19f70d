use vstd::prelude::*;

verus! {

/// Twice its argument.
pub fn hello(arg1: i32) -> (r: i32)
    requires
        i32::MIN <= 2 * arg1 <= i32::MAX,
    ensures
        r == 2 * arg1,
{
    arg1 * 2
}

} // verus!
