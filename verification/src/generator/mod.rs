//! Emitting the annotated item once its attribute and arguments are accepted.
pub mod function;

pub use function::FunctionGenerator;
