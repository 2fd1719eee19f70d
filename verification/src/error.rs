//! Errors reported for attribute arguments and function signatures that the
//! attribute does not support.
use vstd::prelude::*;

verus! {

/// Why an attribute argument or a function signature was refused.
#[derive(Debug, Clone, Copy, PartialEq, Eq, Structural)]
pub enum DeriveError {
    /// `name = ...` with a value that is not a string literal.
    NameNotString,
    /// A name-value pair other than `name`, a list, or a bare literal.
    UnrecognizedAttribute,
    /// A bare path other than `constructor`, `getter`, `setter` or `mt`.
    UnrecognizedAttributeName,
    /// A bare path without segments.
    InvalidAttribute,
    /// An argument bound by a pattern other than an identifier, or of a type
    /// that is neither a path nor a reference.
    NotSupportedType,
    /// An argument whose type is a generic parameter that is not bounded by a
    /// closure trait such as `Fn(i32)`.
    NotSupportedClosureType,
    /// The same refusal as the two above, as the code generator reports it.
    NotSupportedArgTypes,
}

/// The message reported for an error.
pub open spec fn message_text(e: DeriveError) -> Seq<char> {
    match e {
        DeriveError::NameNotString => "name is not string"@,
        DeriveError::UnrecognizedAttribute => "unrecognized attribute"@,
        DeriveError::UnrecognizedAttributeName => "unrecognized attribute name"@,
        DeriveError::InvalidAttribute => "invalid attribute"@,
        DeriveError::NotSupportedType => "not supported type"@,
        DeriveError::NotSupportedClosureType => "not supported closure type"@,
        DeriveError::NotSupportedArgTypes => "not supported arg types"@,
    }
}

impl DeriveError {
    /// The message reported for this error.
    pub fn message(&self) -> (r: String)
        ensures
            r@ == message_text(*self),
    {
        match self {
            DeriveError::NameNotString => String::from_str("name is not string"),
            DeriveError::UnrecognizedAttribute => String::from_str("unrecognized attribute"),
            DeriveError::UnrecognizedAttributeName => String::from_str("unrecognized attribute name"),
            DeriveError::InvalidAttribute => String::from_str("invalid attribute"),
            DeriveError::NotSupportedType => String::from_str("not supported type"),
            DeriveError::NotSupportedClosureType => String::from_str("not supported closure type"),
            DeriveError::NotSupportedArgTypes => String::from_str("not supported arg types"),
        }
    }
}

#[verifier::external_type_specification]
#[verifier::external_body]
pub struct ExSynError(syn::Error);

#[verifier::external_type_specification]
#[verifier::external_body]
pub struct ExTokenStream(proc_macro2::TokenStream);

/// `syn::Error::new`: an error that reports `message` at `span`. Nothing is
/// claimed of the value, which is opaque here.
#[verifier::external_body]
fn new_error(span: proc_macro2::Span, message: &str) -> (r: syn::Error)
{
    syn::Error::new(span, message)
}

/// `syn::Error::to_compile_error`: the tokens of a `compile_error!` invocation
/// that reports the error at its span. Nothing is claimed of the tokens, which
/// differ inside and outside a procedural macro.
#[verifier::external_body]
fn error_tokens(error: &syn::Error) -> (r: proc_macro2::TokenStream)
{
    error.to_compile_error()
}

/// A refusal and the span of the attribute argument or function argument it
/// is about, where the refusal is reported.
pub struct Refusal {
    pub error: DeriveError,
    pub span: proc_macro2::Span,
}

impl Refusal {
    pub fn new(error: DeriveError, span: proc_macro2::Span) -> (r: Refusal)
        ensures
            r == (Refusal { error, span }),
    {
        Refusal { error, span }
    }

    /// The message reported for this refusal.
    pub fn message(&self) -> (r: String)
        ensures
            r@ == message_text(self.error),
    {
        self.error.message()
    }

    /// The tokens of a compile error that reports this refusal's message at
    /// its span.
    pub fn to_compile_error(&self) -> proc_macro2::TokenStream {
        let message = self.message();
        let error = new_error(self.span, message.as_str());
        error_tokens(&error)
    }
}

} // verus!
