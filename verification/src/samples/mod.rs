//! Functions of the kinds the attribute exports to JS: plain values in and
//! out, several arguments, a closure argument.
pub mod attributes;
pub mod double;
pub mod echo;
pub mod functions;
pub mod greeting;
