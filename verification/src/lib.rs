//! Argument and attribute analysis and N-API glue generation for the
//! `node_bindgen` attribute, which turns a Rust function into a function of a
//! Node.js native module.
//!
//! The item and the arguments of the attribute are read as plain values
//! (`model`); `ast` reads the attribute arguments and the function's
//! arguments, `function` generates the native wrapper and its registration,
//! and `expand` decides what the attribute emits.
pub mod ast;
pub mod error;
pub mod expand;
pub mod function;
pub mod generator;
pub mod model;
pub mod samples;
pub mod text;
pub mod util;
