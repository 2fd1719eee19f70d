use nj_derive::text::{decimal_string, signed_decimal_string};
use nj_derive::util::{default_function_property_name, rust_arg_var};

#[test]
fn decimal_digits() {
    assert_eq!(decimal_string(0), "0");
    assert_eq!(decimal_string(7), "7");
    assert_eq!(decimal_string(10), "10");
    assert_eq!(decimal_string(1234567890), "1234567890");
    assert_eq!(decimal_string(u64::MAX), "18446744073709551615");
}

#[test]
fn signed_digits() {
    assert_eq!(signed_decimal_string(-1), "-1");
    assert_eq!(signed_decimal_string(42), "42");
    assert_eq!(signed_decimal_string(i64::MIN), "-9223372036854775808");
}

#[test]
fn argument_variables() {
    assert_eq!(rust_arg_var(0), "r_arg0");
    assert_eq!(rust_arg_var(12), "r_arg12");
}

#[test]
fn property_names_are_camel_case() {
    assert_eq!(default_function_property_name(&"hello".to_string()), "hello");
    assert_eq!(default_function_property_name(&"hello_world".to_string()), "helloWorld");
    assert_eq!(default_function_property_name(&"make_a_b".to_string()), "makeAB");
    assert_eq!(default_function_property_name(&"_private".to_string()), "private");
    assert_eq!(default_function_property_name(&"trailing_".to_string()), "trailing");
    assert_eq!(default_function_property_name(&"two__gaps".to_string()), "twoGaps");
    assert_eq!(default_function_property_name(&"x_1".to_string()), "x1");
}
