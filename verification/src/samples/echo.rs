use vstd::prelude::*;

verus! {

/// Returns its argument.
pub fn hello(count: i32) -> (r: i32)
    ensures
        r == count,
{
    count
}

} // verus!
