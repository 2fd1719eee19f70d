//! Generation of the N-API glue for a free function or a method: a native
//! wrapper that reads the JS arguments, calls the Rust function and converts
//! its result back to JS, and the registration of the wrapper as a property.
pub mod arg;
pub mod closure;
pub mod context;
pub mod laws;
pub mod metadata;

pub use context::FunctionContext;
pub use metadata::FunctionArgMetadata;

use vstd::prelude::*;
use crate::ast::attribute::path_has_segment;
use crate::error::DeriveError;
use crate::function::arg::ArgView;
use crate::function::context::ContextView;
use crate::function::metadata::{
    arg_extraction_text, first_receiver, input_defs, invoke_text, metadata_outcome, receiver_text,
};
use crate::model::{ItemFn, MetaItem};
use crate::text::{concat_all, push_all};
use crate::util::{default_function_property_name, property_name};
use crate::ast::attribute::has_attribute;

verus! {

/// A kind of function attribute, as the code generator names them.
pub enum FunctionAttribute {
    Getter,
    Setter,
    Constructor,
    /// `name = ...`, with the literal's text.
    Name(String),
    Register,
    Other,
}

/// Whether an argument is a bare path one of whose segments is `attribute`.
pub open spec fn is_path_attribute(item: MetaItem, attribute: Seq<char>) -> bool {
    item matches MetaItem::Path { segments, .. } && path_has_segment(segments.deep_view(), attribute)
}

/// Whether some argument is a bare path one of whose segments is `attribute`.
pub open spec fn has_path_attribute(args: Seq<MetaItem>, attribute: Seq<char>) -> bool {
    exists|i: int| 0 <= i < args.len() && #[trigger] is_path_attribute(args[i], attribute)
}

/// The identifier of the native wrapper of the function `name`: `n_<name>`.
pub open spec fn napi_fn_ident(name: Seq<char>) -> Seq<char> {
    "n_"@ + name
}

/// How the call of the Rust function becomes the wrapper's JS value: an async
/// function without result is spawned and answered with null; an async
/// function with a result is answered with a promise; any other result is
/// converted to JS.
pub open spec fn wrapper_text(is_async: bool, has_default_output: bool, name: Seq<char>, invoke: Seq<char>) -> Seq<char> {
    if is_async {
        if has_default_output {
            "node_bindgen::core::future::spawn(async move {\n"@ + invoke + ".await;\n});\nOk(std::ptr::null_mut())\n"@
        } else {
            "(node_bindgen::core::JsPromiseFuture::new(\n"@ + invoke + ", \""@ + name + "_ft\"\n)).try_to_js(&js_env)\n"@
        }
    } else {
        invoke + ".try_to_js(&js_env)\n"@
    }
}

/// The body of the wrapper: read the JS arguments, bind the receiver of a
/// method, call the Rust function, and convert the outcome to JS.
pub open spec fn rust_invocation_text(name: Seq<char>, has_default_output: bool, is_method: bool, args: Seq<ArgView>, ctx: ContextView) -> Seq<char> {
    "let result: Result<node_bindgen::sys::napi_value, node_bindgen::core::NjError> = (move || {\n"@
        + arg_extraction_text(args, ctx) + receiver_text(is_method)
        + wrapper_text(ctx.is_async, has_default_output, name, invoke_text(is_method, name, args, ctx))
        + "})();\nresult.to_js(&js_env)\n"@
}

/// The native wrapper `id`, with `input_fn` and the definitions `defs` inside it.
pub open spec fn raw_template(id: Seq<char>, input_fn: Seq<char>, defs: Seq<Seq<char>>, invocation: Seq<char>) -> Seq<char> {
    "#[no_mangle]\npub extern \"C\" fn "@ + id
        + "(env: node_bindgen::sys::napi_env, cb_info: node_bindgen::sys::napi_callback_info) -> node_bindgen::sys::napi_value {\nuse node_bindgen::core::TryIntoJs;\nuse node_bindgen::core::IntoJs;\nuse node_bindgen::core::val::JsCallbackFunction;\n"@
        + input_fn + "\n"@ + concat_all(defs) + "let js_env = node_bindgen::core::val::JsEnv::new(env);\n"@
        + invocation + "}\n"@
}

/// The context in which the wrapper of a function is generated.
pub open spec fn initial_context(is_async: bool, multi_threaded: bool, name: Seq<char>) -> ContextView {
    ContextView { is_async, is_multi_threaded: multi_threaded, name, cb_args: Seq::empty() }
}

/// The native wrapper of a function. A free function is placed inside its
/// wrapper; a method stays beside it, since it needs its `Self`.
pub open spec fn napi_code_text(
    name: Seq<char>,
    text: Seq<char>,
    is_async: bool,
    has_default_output: bool,
    args: Seq<ArgView>,
    is_method: bool,
    multi_threaded: bool,
) -> Seq<char> {
    let ctx = initial_context(is_async, multi_threaded, name);
    let inv = rust_invocation_text(name, has_default_output, is_method, args, ctx);
    let defs = input_defs(args, ctx);
    if is_method {
        text + "\n"@ + raw_template(napi_fn_ident(name), Seq::empty(), defs, inv)
    } else {
        raw_template(napi_fn_ident(name), text, defs, inv)
    }
}

/// The registration of the wrapper of a free function as the JS property
/// named after it in camel case; nothing for a method.
pub open spec fn property_code_text(name: Seq<char>, is_method: bool) -> Seq<char> {
    if is_method {
        Seq::empty()
    } else {
        "#[node_bindgen::core::ctor]\nfn register_"@ + napi_fn_ident(name)
            + "() {\nlet property = node_bindgen::core::Property::new(\""@ + property_name(name)
            + "\").method("@ + napi_fn_ident(name) + ");\nnode_bindgen::core::submit_property(property);\n}\n"@
    }
}

/// What a function is turned into: a constructor is left as it is; any other
/// function becomes its native wrapper and the wrapper's registration, unless
/// an argument is refused. Closures are called back from other threads where
/// `multi_threaded` holds.
pub open spec fn expansion_text(item: ItemFn, is_constructor: bool, multi_threaded: bool) -> Result<Seq<char>, DeriveError> {
    if is_constructor {
        Ok(item.text@)
    } else {
        let mt = multi_threaded;
        match metadata_outcome(item.sig.inputs@, item.sig.generics@, mt) {
            Err(e) => Err(e),
            Ok(args) => {
                let is_method = first_receiver(item.sig.inputs@) is Some;
                Ok(napi_code_text(
                    item.sig.ident@,
                    item.text@,
                    item.sig.is_async,
                    item.sig.has_default_output,
                    args,
                    is_method,
                    mt,
                ) + "\n"@ + property_code_text(item.sig.ident@, is_method))
            },
        }
    }
}

/// What the attribute with the raw arguments `attrs` turns a function into:
/// it is a constructor where an argument is the bare path `constructor`, and
/// its closures are multi-threaded where one is `mt`.
pub open spec fn expansion_outcome(item: ItemFn, attrs: Seq<MetaItem>) -> Result<Seq<char>, DeriveError> {
    expansion_text(item, has_path_attribute(attrs, "constructor"@), has_path_attribute(attrs, "mt"@))
}

/// A function with the raw arguments of its attribute.
pub struct FunctionAst<'a> {
    pub fn_item: &'a ItemFn,
    pub args: Vec<MetaItem>,
}

impl<'a> FunctionAst<'a> {
    pub fn from_ast(fn_item: &'a ItemFn, args: Vec<MetaItem>) -> (r: FunctionAst<'a>)
        ensures
            r.fn_item == fn_item,
            r.args == args,
    {
        FunctionAst { fn_item, args }
    }

    pub fn is_async(&self) -> (r: bool)
        ensures
            r == self.fn_item.sig.is_async,
    {
        self.fn_item.sig.is_async
    }

    /// Whether the function returns `()`.
    pub fn has_default_output(&self) -> (r: bool)
        ensures
            r == self.fn_item.sig.has_default_output,
    {
        self.fn_item.sig.has_default_output
    }

    /// Whether the function is a constructor: the attribute has `constructor`.
    pub fn is_constructor(&self) -> (r: bool)
        ensures
            r == has_path_attribute(self.args@, "constructor"@),
    {
        self.has_attribute("constructor")
    }

    /// Whether closures are called back from other threads: the attribute has `mt`.
    pub fn support_multi_threaded(&self) -> (r: bool)
        ensures
            r == has_path_attribute(self.args@, "mt"@),
    {
        self.has_attribute("mt")
    }

    /// Whether some argument of the attribute is a bare path one of whose segments is `attribute`.
    pub fn has_attribute(&self, attribute: &str) -> (r: bool)
        ensures
            r == has_path_attribute(self.args@, attribute@),
    {
        let mut i: usize = 0;
        while i < self.args.len()
            invariant
                i <= self.args.len(),
                forall|j: int| 0 <= j < i ==> !#[trigger] is_path_attribute(self.args@[j], attribute@),
            decreases self.args.len() - i,
        {
            if let MetaItem::Path { segments, .. } = &self.args[i] {
                if has_attribute(segments, attribute) {
                    assert(is_path_attribute(self.args@[i as int], attribute@));
                    return true;
                }
            }
            i = i + 1;
        }
        false
    }

    /// The function's name.
    pub fn name(&self) -> (r: &String)
        ensures
            r@ == self.fn_item.sig.ident@,
    {
        &self.fn_item.sig.ident
    }

    /// The identifier of the native wrapper: `n_<name>`.
    pub fn napi_fn_id(&self) -> (r: String)
        ensures
            r@ == napi_fn_ident(self.fn_item.sig.ident@),
    {
        let mut s = String::from_str("n_");
        s.append(self.name().as_str());
        s
    }

    /// Reads the function's arguments for the code generator.
    pub fn analyze_args(&self) -> (r: Result<FunctionArgMetadata, DeriveError>)
        requires
            self.fn_item.sig.well_formed(),
        ensures
            match (r, metadata_outcome(self.fn_item.sig.inputs@, self.fn_item.sig.generics@, has_path_attribute(self.args@, "mt"@))) {
                (Ok(m), Ok(v)) => m.arg_views() == v && m.well_formed()
                    && crate::text::opt_view(m.receiver) == first_receiver(self.fn_item.sig.inputs@)
                    && m.multi_threaded == has_path_attribute(self.args@, "mt"@),
                (Err(e), Err(f)) => e == f,
                _ => false,
            },
    {
        FunctionArgMetadata::parse(&self.fn_item.sig, self.support_multi_threaded())
    }

    /// The source text the attribute turns the function into, or the reason it
    /// refuses it; a refusal is reported at the macro invocation.
    pub fn as_token_stream(&self) -> (r: Result<String, DeriveError>)
        requires
            self.fn_item.sig.well_formed(),
        ensures
            match (r, expansion_outcome(*self.fn_item, self.args@)) {
                (Ok(s), Ok(t)) => s@ == t,
                (Err(e), Err(f)) => e == f,
                _ => false,
            },
    {
        self.generate_with(self.is_constructor(), self.support_multi_threaded())
    }

    /// The source text the function is turned into, as a constructor or not,
    /// with multi-threaded closures or not.
    pub fn generate_with(&self, is_constructor: bool, multi_threaded: bool) -> (r: Result<String, DeriveError>)
        requires
            self.fn_item.sig.well_formed(),
        ensures
            match (r, expansion_text(*self.fn_item, is_constructor, multi_threaded)) {
                (Ok(s), Ok(t)) => s@ == t,
                (Err(e), Err(f)) => e == f,
                _ => false,
            },
    {
        if is_constructor {
            return Ok(self.fn_item.text.clone());
        }
        let args = match FunctionArgMetadata::parse(&self.fn_item.sig, multi_threaded) {
            Ok(data) => data,
            Err(err) => {
                return Err(err);
            },
        };
        let napi_code = self.generate_napi_code(&args);
        let property_code = self.generate_property_code(&args);
        let mut s = napi_code;
        s.append("\n");
        s.append(property_code.as_str());
        Ok(s)
    }

    /// The native wrapper of the function.
    pub fn generate_napi_code(&self, args: &FunctionArgMetadata) -> (r: String)
        requires
            args.well_formed(),
        ensures
            r@ == napi_code_text(
                self.fn_item.sig.ident@,
                self.fn_item.text@,
                self.fn_item.sig.is_async,
                self.fn_item.sig.has_default_output,
                args.arg_views(),
                args.receiver is Some,
                args.multi_threaded,
            ),
    {
        let ident_n_api_fn = self.napi_fn_id();
        let mut ctx = FunctionContext::new(self.is_async(), args.is_multi_threaded(), self.name().clone());
        let rust_invocation = self.generate_rust_invocation(args, &mut ctx);
        proof {
            assert(ctx@.cb_args =~= input_defs(
                args.arg_views(),
                initial_context(self.fn_item.sig.is_async, args.multi_threaded, self.fn_item.sig.ident@),
            ));
        }
        if args.is_method() {
            let empty = String::new();
            let napi_fn = raw_napi_function_template(self.napi_fn_id(), empty, &ctx.cb_args, rust_invocation);
            let mut s = self.fn_item.text.clone();
            s.append("\n");
            s.append(napi_fn.as_str());
            s
        } else {
            raw_napi_function_template(ident_n_api_fn, self.fn_item.text.clone(), &ctx.cb_args, rust_invocation)
        }
    }

    /// The body of the native wrapper; accumulates the definitions that closure arguments need.
    pub fn generate_rust_invocation(&self, function_args: &FunctionArgMetadata, ctx: &mut FunctionContext) -> (r: String)
        requires
            function_args.well_formed(),
        ensures
            r@ == rust_invocation_text(
                self.fn_item.sig.ident@,
                self.fn_item.sig.has_default_output,
                function_args.receiver is Some,
                function_args.arg_views(),
                old(ctx)@,
            ),
            final(ctx)@ == old(ctx)@.with_cb_args(input_defs(function_args.arg_views(), old(ctx)@)),
    {
        let js_to_rust_values = function_args.as_arg_token(ctx);
        let receiver = function_args.receiver();
        let rust_invoke = function_args.as_token_stream(self.name(), ctx);
        let rust_invoke_ft_wrapper = if ctx.is_async {
            if self.has_default_output() {
                let mut w = String::from_str("node_bindgen::core::future::spawn(async move {\n");
                w.append(rust_invoke.as_str());
                w.append(".await;\n});\nOk(std::ptr::null_mut())\n");
                w
            } else {
                let mut w = String::from_str("(node_bindgen::core::JsPromiseFuture::new(\n");
                w.append(rust_invoke.as_str());
                w.append(", \"");
                w.append(self.name().as_str());
                w.append("_ft\"\n)).try_to_js(&js_env)\n");
                w
            }
        } else {
            let mut w = rust_invoke;
            w.append(".try_to_js(&js_env)\n");
            w
        };
        let mut s = String::from_str("let result: Result<node_bindgen::sys::napi_value, node_bindgen::core::NjError> = (move || {\n");
        s.append(js_to_rust_values.as_str());
        s.append(receiver.as_str());
        s.append(rust_invoke_ft_wrapper.as_str());
        s.append("})();\nresult.to_js(&js_env)\n");
        assert(s@ =~= rust_invocation_text(
            self.fn_item.sig.ident@,
            self.fn_item.sig.has_default_output,
            function_args.receiver is Some,
            function_args.arg_views(),
            old(ctx)@,
        ));
        s
    }

    /// The registration of the wrapper as a JS property; nothing for a method.
    pub fn generate_property_code(&self, args: &FunctionArgMetadata) -> (r: String)
        ensures
            r@ == property_code_text(self.fn_item.sig.ident@, args.receiver is Some),
    {
        if args.is_method() {
            return String::new();
        }
        let ident_n_api_fn = self.napi_fn_id();
        let property_name = default_function_property_name(self.name());
        let mut s = String::from_str("#[node_bindgen::core::ctor]\nfn register_");
        s.append(ident_n_api_fn.as_str());
        s.append("() {\nlet property = node_bindgen::core::Property::new(\"");
        s.append(property_name.as_str());
        s.append("\").method(");
        s.append(ident_n_api_fn.as_str());
        s.append(");\nnode_bindgen::core::submit_property(property);\n}\n");
        assert(s@ =~= property_code_text(self.fn_item.sig.ident@, args.receiver is Some));
        s
    }
}

/// The native wrapper `ident_n_api_fn`, with `input_fn` and the definitions inside it.
pub fn raw_napi_function_template(
    ident_n_api_fn: String,
    input_fn: String,
    rust_args_struct: &Vec<String>,
    rust_invocation: String,
) -> (r: String)
    ensures
        r@ == raw_template(ident_n_api_fn@, input_fn@, rust_args_struct.deep_view(), rust_invocation@),
{
    let mut s = String::from_str("#[no_mangle]\npub extern \"C\" fn ");
    s.append(ident_n_api_fn.as_str());
    s.append("(env: node_bindgen::sys::napi_env, cb_info: node_bindgen::sys::napi_callback_info) -> node_bindgen::sys::napi_value {\nuse node_bindgen::core::TryIntoJs;\nuse node_bindgen::core::IntoJs;\nuse node_bindgen::core::val::JsCallbackFunction;\n");
    s.append(input_fn.as_str());
    s.append("\n");
    push_all(&mut s, rust_args_struct);
    s.append("let js_env = node_bindgen::core::val::JsEnv::new(env);\n");
    s.append(rust_invocation.as_str());
    s.append("}\n");
    assert(s@ =~= raw_template(ident_n_api_fn@, input_fn@, rust_args_struct.deep_view(), rust_invocation@));
    s
}

/// The source text the attribute with the raw arguments `attributes` turns a
/// function into, or the reason it refuses it.
pub fn generate_function(input_fn: ItemFn, attributes: Vec<MetaItem>) -> (r: Result<String, DeriveError>)
    requires
        input_fn.sig.well_formed(),
    ensures
        match (r, expansion_outcome(input_fn, attributes@)) {
            (Ok(s), Ok(t)) => s@ == t,
            (Err(e), Err(f)) => e == f,
            _ => false,
        },
{
    let fn_wrapper = FunctionAst::from_ast(&input_fn, attributes);
    fn_wrapper.as_token_stream()
}

} // verus!
