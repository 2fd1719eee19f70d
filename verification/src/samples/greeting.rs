use vstd::prelude::*;
use crate::text::{signed_decimal, signed_decimal_string};

verus! {

/// `hello world <count>`.
pub fn hello(count: i32) -> (r: String)
    ensures
        r@ == "hello world "@ + signed_decimal(count as int),
{
    let mut s = String::from_str("hello world ");
    let digits = signed_decimal_string(count as i64);
    s.append(digits.as_str());
    s
}

} // verus!
