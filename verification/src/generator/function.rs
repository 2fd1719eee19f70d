use vstd::prelude::*;
use crate::ast::attribute::{has_constructor, has_mt};
use crate::ast::{FunctionArgs, FunctionAttributes};
use crate::error::DeriveError;
use crate::function::{FunctionAst, expansion_text};
use crate::model::ItemFn;

verus! {

/// A function whose attribute and arguments were read.
pub struct FunctionGenerator<'a> {
    pub args: FunctionArgs,
    pub attributes: FunctionAttributes,
    pub input_fn: &'a ItemFn,
}

impl<'a> FunctionGenerator<'a> {
    pub fn new(input_fn: &'a ItemFn, args: FunctionArgs, attributes: FunctionAttributes) -> (r: FunctionGenerator<'a>)
        ensures
            r.input_fn == input_fn,
            r.args == args,
            r.attributes == attributes,
    {
        FunctionGenerator { input_fn, args, attributes }
    }

    /// The source text emitted for the function: the function itself for a
    /// constructor; otherwise its native wrapper and the wrapper's
    /// registration, with multi-threaded closures where the attribute has `mt`.
    pub fn generate(&self) -> (r: Result<String, DeriveError>)
        requires
            self.input_fn.sig.well_formed(),
        ensures
            match (r, expansion_text(*self.input_fn, has_constructor(self.attributes@), has_mt(self.attributes@))) {
                (Ok(s), Ok(t)) => s@ == t,
                (Err(e), Err(f)) => e == f,
                _ => false,
            },
    {
        let is_constructor = self.attributes.is_constructor();
        let multi_threaded = self.attributes.is_multi_threaded();
        let ast = FunctionAst::from_ast(self.input_fn, Vec::new());
        ast.generate_with(is_constructor, multi_threaded)
    }

    /// The function's name.
    pub fn name(&self) -> (r: &String)
        ensures
            r@ == self.input_fn.sig.ident@,
    {
        &self.input_fn.sig.ident
    }
}

} // verus!
