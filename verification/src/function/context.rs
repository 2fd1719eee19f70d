//! State shared by the parts of the code generator for one function.
use vstd::prelude::*;

verus! {

/// What the generator knows of the function being wrapped, and the
/// definitions that closure arguments need beside the wrapper.
pub struct FunctionContext {
    pub is_async: bool,
    pub is_multi_threaded: bool,
    pub name: String,
    /// Accumulated definitions (argument structs and their completion functions).
    pub cb_args: Vec<String>,
}

/// The abstract value of a generator context.
pub struct ContextView {
    pub is_async: bool,
    pub is_multi_threaded: bool,
    pub name: Seq<char>,
    pub cb_args: Seq<Seq<char>>,
}

impl View for FunctionContext {
    type V = ContextView;

    open spec fn view(&self) -> ContextView {
        ContextView {
            is_async: self.is_async,
            is_multi_threaded: self.is_multi_threaded,
            name: self.name@,
            cb_args: self.cb_args.deep_view(),
        }
    }
}

impl ContextView {
    /// Closures are called back from another thread: the function is async, or asked for `mt`.
    pub open spec fn async_or_mt(self) -> bool {
        self.is_async || self.is_multi_threaded
    }

    /// The same context with more definitions accumulated.
    pub open spec fn with_cb_args(self, more: Seq<Seq<char>>) -> ContextView {
        ContextView { cb_args: self.cb_args + more, ..self }
    }
}

impl FunctionContext {
    /// A context with no accumulated definitions.
    pub fn new(is_async: bool, is_multi_threaded: bool, name: String) -> (r: FunctionContext)
        ensures
            r@ == (ContextView { is_async, is_multi_threaded, name: name@, cb_args: Seq::empty() }),
    {
        let r = FunctionContext { is_async, is_multi_threaded, name, cb_args: Vec::new() };
        assert(r.cb_args.deep_view() =~= Seq::<Seq<char>>::empty());
        r
    }

    /// Accumulates one more definition.
    pub fn push_cb_arg(&mut self, def: String)
        ensures
            final(self)@ == old(self)@.with_cb_args(seq![def@]),
    {
        self.cb_args.push(def);
        assert(self.cb_args.deep_view() =~= old(self).cb_args.deep_view() + seq![def@]);
    }
}

impl Default for FunctionContext {
    /// A context for a synchronous, single-threaded function with no name yet.
    fn default() -> (r: FunctionContext)
        ensures
            r@ == (ContextView { is_async: false, is_multi_threaded: false, name: Seq::empty(), cb_args: Seq::empty() }),
    {
        FunctionContext::new(false, false, String::new())
    }
}

} // verus!
