//! Closure arguments: a generic parameter bounded by `Fn(...)` is filled with
//! a Rust closure that calls the JS function passed at that position, either
//! directly or, for async and `mt` functions, through a thread-safe function.
use vstd::prelude::*;
use crate::function::context::FunctionContext;
use crate::model::{
    Bound, SegmentArguments, Type, TypeParam, TypeView, clone_types, closure_bound_inputs,
    types_view,
};
use crate::text::{decimal, numbered, numbered2, push_decimal, push_numbered, push_numbered2};
use crate::util::arg_var;

verus! {

/// The abstract value of a closure argument.
pub struct ClosureMeta {
    /// The closure's input types.
    pub inputs: Seq<TypeView>,
    /// The name of the argument.
    pub ident: Seq<char>,
    pub multi_threaded: bool,
}

/// The JS function type that a closure argument is read as.
pub open spec fn callback_type(multi_threaded: bool) -> Seq<char> {
    if multi_threaded {
        "JsMultiThreadedCallbackFunction"@
    } else {
        "JsCallbackFunction"@
    }
}

/// The name of the function that completes an asynchronous call of the closure `ident`.
pub open spec fn complete_ident(ident: Seq<char>) -> Seq<char> {
    "thread_safe_"@ + ident + "_complete"@
}

/// The name of the struct that carries the closure's arguments across threads.
pub open spec fn arg_struct_ident(ident: Seq<char>) -> Seq<char> {
    "Arg"@ + ident
}

/// The name of a path type: its first segment.
pub open spec fn path_name(t: TypeView) -> Seq<char> {
    match t {
        TypeView::Path(p) => p.segments[0],
        _ => Seq::empty(),
    }
}

/// `<a><j>: <type>,` for the closure input `j` where it is a path type; nothing otherwise.
pub open spec fn typed_param(t: TypeView, j: nat, a: Seq<char>) -> Seq<char> {
    match t {
        TypeView::Path(p) => a + decimal(j) + ": "@ + p.segments[0] + ","@,
        _ => Seq::empty(),
    }
}

/// `typed_param` for each closure input, in order.
pub open spec fn typed_params(ins: Seq<TypeView>, a: Seq<char>) -> Seq<char>
    decreases ins.len(),
{
    if ins.len() == 0 {
        Seq::empty()
    } else {
        typed_params(ins.drop_last(), a) + typed_param(ins.last(), (ins.len() - 1) as nat, a)
    }
}

/// The body of a closure that calls the JS function in `var` on the calling thread.
pub open spec fn sync_body(n: nat, var: Seq<char>) -> Seq<char> {
    "let result = (|| {\nlet args = vec!["@ + numbered(n, "cb_arg"@, ","@) + "];\n"@ + var
        + ".call(args)\n})();\nresult.to_js(&js_env);\n"@
}

/// The definitions a closure argument needs beside the wrapper when it is
/// called back from another thread: the struct that carries its arguments,
/// and the function that converts them to JS and calls the JS function.
pub open spec fn async_support(c: ClosureMeta) -> Seq<char> {
    let n = c.inputs.len();
    let st = arg_struct_ident(c.ident);
    "#[derive(Debug)]\nstruct "@ + st + " {\n"@ + typed_params(c.inputs, "arg"@) + "}\n"@
        + "extern \"C\" fn "@ + complete_ident(c.ident)
        + "(env: node_bindgen::sys::napi_env, js_cb: node_bindgen::sys::napi_value, _context: *mut ::std::os::raw::c_void, data: *mut ::std::os::raw::c_void) {\n"@
        + "if env != std::ptr::null_mut() {\nnode_bindgen::core::log::debug!(\"async cb invoked\");\nlet js_env = node_bindgen::core::val::JsEnv::new(env);\nlet result: Result<(), node_bindgen::core::NjError> = (move || {\nlet global = js_env.get_global()?;\nlet my_val: Box<"@
        + st + "> = unsafe { Box::from_raw(data as *mut "@ + st
        + ") };\nnode_bindgen::core::log::trace!(\"arg: {:#?}\", my_val);\n"@
        + numbered2(n, "let js_arg"@, " = my_val.arg"@, ".try_to_js(&js_env)?;\n"@)
        + "node_bindgen::core::log::debug!(\"async cb, invoking js cb\");\njs_env.call_function(global, js_cb, vec!["@
        + numbered(n, "js_arg"@, ","@)
        + "])?;\nnode_bindgen::core::log::trace!(\"async cb, done\");\nOk(())\n})();\nnode_bindgen::core::assert_napi!(result)\n}\n}\n"@
}

/// The body of a closure that hands its arguments to the thread-safe JS function in `var`.
pub open spec fn async_body(c: ClosureMeta, var: Seq<char>) -> Seq<char> {
    "let arg = "@ + arg_struct_ident(c.ident) + " {\n"@ + numbered2(c.inputs.len(), "arg"@, ": cb_arg"@, ","@)
        + "};\nnode_bindgen::core::log::trace!(\"converting rust to raw ptr\");\nlet my_box = Box::new(arg);\nlet ptr = Box::into_raw(my_box);\n"@
        + var + ".call(Some(ptr as *mut core::ffi::c_void)).expect(\"callback should work\");\n"@
}

/// The closure passed to the Rust function for a closure argument.
pub open spec fn closure_expr(c: ClosureMeta, var: Seq<char>, async_or_mt: bool) -> Seq<char> {
    "move | "@ + typed_params(c.inputs, "cb_arg"@) + " | {\n"@ + (if async_or_mt {
        async_body(c, var)
    } else {
        sync_body(c.inputs.len(), var)
    }) + "}\n"@
}

/// The statement that turns the JS function at `index` into a thread-safe function.
pub open spec fn thread_safe_fn(c: ClosureMeta, index: nat, fn_name: Seq<char>) -> Seq<char> {
    "let "@ + arg_var(index) + " = js_cb.create_thread_safe_function(\""@ + fn_name + "_sf\", "@
        + decimal(index) + "usize, Some("@ + complete_ident(c.ident) + "))?;\n"@
}

/// A closure argument of a function.
pub struct ClosureType {
    /// The closure's input types.
    pub ty: Vec<Type>,
    /// The name of the argument.
    pub ident: String,
    pub multi_threaded: bool,
}

impl View for ClosureType {
    type V = ClosureMeta;

    open spec fn view(&self) -> ClosureMeta {
        ClosureMeta { inputs: types_view(self.ty@), ident: self.ident@, multi_threaded: self.multi_threaded }
    }
}

/// Appends `typed_params(ins, a)`.
fn push_typed_params(s: &mut String, ins: &Vec<Type>, a: &str)
    requires
        forall|j: int| 0 <= j < ins@.len() ==> (#[trigger] ins@[j]).well_formed(),
    ensures
        final(s)@ == old(s)@ + typed_params(types_view(ins@), a@),
{
    let ghost tv = types_view(ins@);
    let mut j: usize = 0;
    assert(tv.take(0) =~= Seq::<TypeView>::empty());
    assert(old(s)@ + typed_params(Seq::<TypeView>::empty(), a@) =~= old(s)@);
    while j < ins.len()
        invariant
            j <= ins.len(),
            tv == types_view(ins@),
            forall|k: int| 0 <= k < ins@.len() ==> (#[trigger] ins@[k]).well_formed(),
            s@ == old(s)@ + typed_params(tv.take(j as int), a@),
        decreases ins.len() - j,
    {
        assert(tv.take(j + 1).drop_last() =~= tv.take(j as int));
        assert(tv.take(j + 1).last() == ins@[j as int]@);
        match &ins[j] {
            Type::Path(p) => {
                assert(ins@[j as int].well_formed());
                s.append(a);
                push_decimal(s, j as u64);
                s.append(": ");
                s.append(p.segments[0].as_str());
                s.append(",");
                assert(p.segments.deep_view()[0] == p.segments@[0]@);
            },
            _ => {},
        }
        assert(s@ =~= old(s)@ + typed_params(tv.take(j + 1), a@));
        j = j + 1;
    }
    assert(tv.take(ins.len() as int) =~= tv);
}

impl ClosureType {
    /// The closure input types are path types with at least one segment where they are path types.
    pub open spec fn well_formed(&self) -> bool {
        forall|j: int| 0 <= j < self.ty@.len() ==> (#[trigger] self.ty@[j]).well_formed()
    }

    /// The closure that the generic parameter `param` stands for, where its
    /// first bound is a closure trait such as `Fn(i32)`.
    pub fn from(ident: &String, param: &TypeParam, multi_threaded: bool) -> (r: Option<ClosureType>)
        ensures
            match closure_bound_inputs(*param) {
                Some(ins) => r matches Some(c) && c@ == (ClosureMeta {
                    inputs: types_view(ins),
                    ident: ident@,
                    multi_threaded,
                }) && forall|j: int| 0 <= j < ins.len() ==> (#[trigger] c.ty@[j]).well_formed() == ins[j].well_formed(),
                None => r is None,
            },
    {
        if param.bounds.len() == 0 {
            return None;
        }
        match &param.bounds[0] {
            Bound::Trait(segs) => {
                if segs.len() == 0 {
                    None
                } else {
                    match &segs[0].arguments {
                        SegmentArguments::Parenthesized(inputs) => Some(
                            ClosureType { ty: clone_types(inputs), ident: ident.clone(), multi_threaded },
                        ),
                        _ => None,
                    }
                }
            },
            Bound::Lifetime => None,
        }
    }

    /// The JS function type that the argument is read as.
    pub fn type_ident(&self) -> (r: String)
        ensures
            r@ == callback_type(self.multi_threaded),
    {
        if self.multi_threaded {
            String::from_str("JsMultiThreadedCallbackFunction")
        } else {
            String::from_str("JsCallbackFunction")
        }
    }

    /// The closure passed to the Rust function; for async and `mt` functions
    /// it also accumulates the definitions the closure needs.
    pub fn as_arg_token_stream(&self, arg_index: usize, closure_var: &String, ctx: &mut FunctionContext) -> (r: String)
        requires
            self.well_formed(),
        ensures
            r@ == closure_expr(self@, closure_var@, old(ctx)@.async_or_mt()),
            final(ctx)@ == old(ctx)@.with_cb_args(
                if old(ctx)@.async_or_mt() { seq![async_support(self@)] } else { Seq::empty() },
            ),
    {
        let mut s = String::from_str("move | ");
        push_typed_params(&mut s, &self.ty, "cb_arg");
        s.append(" | {\n");
        let inner = if ctx.is_async || ctx.is_multi_threaded {
            self.as_async_arg_token_stream(arg_index, closure_var, ctx)
        } else {
            proof {
                assert(ctx@.with_cb_args(Seq::empty()) =~= ctx@);
            }
            self.as_sync_arg_token_stream(arg_index, closure_var)
        };
        s.append(inner.as_str());
        s.append("}\n");
        assert(s@ =~= closure_expr(self@, closure_var@, old(ctx)@.async_or_mt()));
        s
    }

    /// The body of a closure that calls the JS function on the calling thread.
    pub fn as_sync_arg_token_stream(&self, _i: usize, closure_var: &String) -> (r: String)
        ensures
            r@ == sync_body(self@.inputs.len(), closure_var@),
    {
        let mut s = String::from_str("let result = (|| {\nlet args = vec![");
        push_numbered(&mut s, self.ty.len(), "cb_arg", ",");
        s.append("];\n");
        s.append(closure_var.as_str());
        s.append(".call(args)\n})();\nresult.to_js(&js_env);\n");
        assert(s@ =~= sync_body(self@.inputs.len(), closure_var@));
        s
    }

    /// The name of the function that completes an asynchronous call of the closure.
    pub fn async_js_callback_identifier(&self) -> (r: String)
        ensures
            r@ == complete_ident(self.ident@),
    {
        let mut s = String::from_str("thread_safe_");
        s.append(self.ident.as_str());
        s.append("_complete");
        s
    }

    /// The definitions the closure needs beside the wrapper when it is called back from another thread.
    fn async_support_text(&self) -> (r: String)
        requires
            self.well_formed(),
        ensures
            r@ == async_support(self@),
    {
        let n = self.ty.len();
        let mut st = String::from_str("Arg");
        st.append(self.ident.as_str());
        let complete = self.async_js_callback_identifier();
        let mut s = String::from_str("#[derive(Debug)]\nstruct ");
        s.append(st.as_str());
        s.append(" {\n");
        push_typed_params(&mut s, &self.ty, "arg");
        s.append("}\n");
        s.append("extern \"C\" fn ");
        s.append(complete.as_str());
        s.append("(env: node_bindgen::sys::napi_env, js_cb: node_bindgen::sys::napi_value, _context: *mut ::std::os::raw::c_void, data: *mut ::std::os::raw::c_void) {\n");
        s.append("if env != std::ptr::null_mut() {\nnode_bindgen::core::log::debug!(\"async cb invoked\");\nlet js_env = node_bindgen::core::val::JsEnv::new(env);\nlet result: Result<(), node_bindgen::core::NjError> = (move || {\nlet global = js_env.get_global()?;\nlet my_val: Box<");
        s.append(st.as_str());
        s.append("> = unsafe { Box::from_raw(data as *mut ");
        s.append(st.as_str());
        s.append(") };\nnode_bindgen::core::log::trace!(\"arg: {:#?}\", my_val);\n");
        push_numbered2(&mut s, n, "let js_arg", " = my_val.arg", ".try_to_js(&js_env)?;\n");
        s.append("node_bindgen::core::log::debug!(\"async cb, invoking js cb\");\njs_env.call_function(global, js_cb, vec![");
        push_numbered(&mut s, n, "js_arg", ",");
        s.append("])?;\nnode_bindgen::core::log::trace!(\"async cb, done\");\nOk(())\n})();\nnode_bindgen::core::assert_napi!(result)\n}\n}\n");
        assert(s@ =~= async_support(self@));
        s
    }

    /// The body of a closure that hands its arguments to the thread-safe JS
    /// function; accumulates the struct and completion function it needs.
    pub fn as_async_arg_token_stream(&self, _index: usize, closure_var: &String, ctx: &mut FunctionContext) -> (r: String)
        requires
            self.well_formed(),
        ensures
            r@ == async_body(self@, closure_var@),
            final(ctx)@ == old(ctx)@.with_cb_args(seq![async_support(self@)]),
    {
        let support = self.async_support_text();
        ctx.push_cb_arg(support);
        let mut s = String::from_str("let arg = ");
        s.append("Arg");
        s.append(self.ident.as_str());
        s.append(" {\n");
        push_numbered2(&mut s, self.ty.len(), "arg", ": cb_arg", ",");
        s.append("};\nnode_bindgen::core::log::trace!(\"converting rust to raw ptr\");\nlet my_box = Box::new(arg);\nlet ptr = Box::into_raw(my_box);\n");
        s.append(closure_var.as_str());
        s.append(".call(Some(ptr as *mut core::ffi::c_void)).expect(\"callback should work\");\n");
        assert(s@ =~= async_body(self@, closure_var@));
        s
    }

    /// The statement that turns the JS function at `index` into a thread-safe function.
    pub fn generate_as_async_token_stream(&self, index: usize, ctx: &FunctionContext) -> (r: String)
        ensures
            r@ == thread_safe_fn(self@, index as nat, ctx@.name),
    {
        let mut s = String::from_str("let ");
        s.append(crate::util::rust_arg_var(index).as_str());
        s.append(" = js_cb.create_thread_safe_function(\"");
        s.append(ctx.name.as_str());
        s.append("_sf\", ");
        push_decimal(&mut s, index as u64);
        s.append("usize, Some(");
        s.append(self.async_js_callback_identifier().as_str());
        s.append("))?;\n");
        assert(s@ =~= thread_safe_fn(self@, index as nat, ctx@.name));
        s
    }
}

} // verus!
