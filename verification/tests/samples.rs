use nj_derive::samples::attributes;
use nj_derive::samples::functions;
use nj_derive::samples::greeting;

#[test]
fn greeting_formats_count() {
    assert_eq!(greeting::hello(5), "hello world 5");
    assert_eq!(greeting::hello(-12), "hello world -12");
}

#[test]
fn echo_and_double() {
    assert_eq!(nj_derive::samples::echo::hello(7), 7);
    assert_eq!(nj_derive::samples::double::hello(21), 42);
    assert_eq!(nj_derive::samples::double::hello(-4), -8);
}

#[test]
fn attribute_examples_return_their_argument() {
    assert_eq!(attributes::example1(1), 1);
    assert_eq!(attributes::example2(2), 2);
    assert_eq!(attributes::example3(3), 3);
    assert_eq!(attributes::example4(4), 4);
    assert_eq!(attributes::example5(5), 5);
}

#[test]
fn function_examples() {
    functions::example1();
    assert_eq!(functions::example2(true), 4);
    assert_eq!(functions::example3(false, 1, "x".to_string()), 4);
    let seen = std::cell::Cell::new(0);
    functions::example4(|v| seen.set(v), 9);
    assert_eq!(seen.get(), 9);
}
