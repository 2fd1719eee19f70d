//! Reading the attribute arguments and the arguments of the annotated function.
pub mod arg;
pub mod attribute;

pub use arg::FunctionArg;
pub use arg::FunctionArgs;
pub use attribute::FunctionAttribute;
pub use attribute::FunctionAttributes;
