//! Properties of the generated glue that span several parts of the generator.
use vstd::prelude::*;
use crate::ast::arg::{args_outcome, arg_type_outcome, has_receiver_spec};
use crate::function::arg::{
    ArgView, arg_input, arg_meta, get_value_stmt, is_callback_view, js_to_rust, rust_fn_arg,
};
use crate::function::closure::{
    ClosureMeta, arg_struct_ident, async_body, async_support, closure_expr, complete_ident,
    sync_body, thread_safe_fn, typed_params,
};
use crate::function::context::ContextView;
use crate::function::metadata::{
    arg_extraction_text, constructor_args_text, constructor_new_text, first_receiver, input_defs, input_pieces, js_extraction,
    metadata_outcome, nc_count,
};
use crate::function::{
    expansion_outcome, has_path_attribute, napi_code_text, napi_fn_ident, property_code_text,
};
use crate::model::{FnArg, ItemFn, MetaItem, Pat, TypeParam};
use crate::text::{
    decimal, lemma_numbered_lists, lemma_occurs, lemma_occurs_in, lemma_starts_with,
    lemma_starts_with_occurs, numbered, numbered2, occurs, starts_with,
};
use crate::util::{arg_var, property_name, reference_name};

verus! {

/// The wrapper of a free function is the function registered as its JS
/// property: the generated code begins with the definition of `n_<name>`,
/// and registers the property named after the function in camel case with
/// `.method(n_<name>)`.
pub proof fn law_free_function_registers_its_wrapper(item: ItemFn, attrs: Seq<MetaItem>)
    requires
        !has_path_attribute(attrs, "constructor"@),
        expansion_outcome(item, attrs) is Ok,
        first_receiver(item.sig.inputs@) is None,
    ensures
        starts_with(expansion_outcome(item, attrs)->Ok_0, "#[no_mangle]\npub extern \"C\" fn "@ + napi_fn_ident(item.sig.ident@)),
        occurs(
            expansion_outcome(item, attrs)->Ok_0,
            "() {\nlet property = node_bindgen::core::Property::new(\""@ + property_name(item.sig.ident@)
                + "\").method("@ + napi_fn_ident(item.sig.ident@),
        ),
{
    let name = item.sig.ident@;
    let id = napi_fn_ident(name);
    let t = expansion_outcome(item, attrs)->Ok_0;
    let mt = has_path_attribute(attrs, "mt"@);
    let args = metadata_outcome(item.sig.inputs@, item.sig.generics@, mt)->Ok_0;
    let napi = napi_code_text(name, item.text@, item.sig.is_async, item.sig.has_default_output, args, false, mt);
    let head = "#[no_mangle]\npub extern \"C\" fn "@ + id;
    assert(t == napi + "\n"@ + property_code_text(name, false));
    assert(starts_with(t, head)) by {
        let rest = napi.subrange(head.len() as int, napi.len() as int) + "\n"@ + property_code_text(name, false);
        assert(t =~= head + rest);
        lemma_starts_with(head, rest);
    }
    let reg = "() {\nlet property = node_bindgen::core::Property::new(\""@ + property_name(name) + "\").method("@ + id;
    let before = napi + "\n"@ + "#[node_bindgen::core::ctor]\nfn register_"@ + id;
    let after = ");\nnode_bindgen::core::submit_property(property);\n}\n"@;
    assert(t =~= before + reg + after);
    lemma_occurs(before, reg, after);
}

/// A method stays beside its wrapper, ahead of it: the generated code begins
/// with the method and then the definition of `n_<name>`; no property is
/// registered for it.
pub proof fn law_method_precedes_its_wrapper(item: ItemFn, attrs: Seq<MetaItem>)
    requires
        !has_path_attribute(attrs, "constructor"@),
        expansion_outcome(item, attrs) is Ok,
        first_receiver(item.sig.inputs@) is Some,
    ensures
        starts_with(
            expansion_outcome(item, attrs)->Ok_0,
            item.text@ + "\n"@ + "#[no_mangle]\npub extern \"C\" fn "@ + napi_fn_ident(item.sig.ident@),
        ),
        property_code_text(item.sig.ident@, true) == Seq::<char>::empty(),
{
    let name = item.sig.ident@;
    let t = expansion_outcome(item, attrs)->Ok_0;
    let mt = has_path_attribute(attrs, "mt"@);
    let args = metadata_outcome(item.sig.inputs@, item.sig.generics@, mt)->Ok_0;
    let napi = napi_code_text(name, item.text@, item.sig.is_async, item.sig.has_default_output, args, true, mt);
    let head = item.text@ + "\n"@ + "#[no_mangle]\npub extern \"C\" fn "@ + napi_fn_ident(name);
    let rest = napi.subrange(head.len() as int, napi.len() as int) + "\n"@;
    assert(t =~= head + rest);
    lemma_starts_with(head, rest);
}

/// The number of arguments before position `j` that are JS arguments never
/// exceeds the number of all of them, and grows by one past each JS argument.
pub proof fn lemma_nc_count_take(args: Seq<ArgView>, j: int)
    requires
        0 <= j <= args.len(),
    ensures
        nc_count(args.take(j)) <= nc_count(args),
        j < args.len() && !is_callback_view(args[j]) ==> nc_count(args.take(j)) < nc_count(args),
    decreases args.len() - j,
{
    if j < args.len() {
        assert(args.take(j + 1).drop_last() =~= args.take(j));
        lemma_nc_count_take(args, j + 1);
    } else {
        assert(args.take(j) =~= args);
    }
}

/// The pieces passed to the Rust function are one per argument, in order.
pub proof fn lemma_input_pieces_index(args: Seq<ArgView>, ctx: ContextView, j: int)
    requires
        0 <= j < args.len(),
    ensures
        input_pieces(args, ctx).len() == args.len(),
        input_pieces(args, ctx)[j] == arg_input(args[j], nc_count(args.take(j)), ctx),
    decreases args.len(),
{
    if j < args.len() - 1 {
        assert(args.drop_last().take(j) =~= args.take(j));
        lemma_input_pieces_index(args.drop_last(), ctx, j);
    } else {
        assert(args.drop_last() =~= args.take(j));
        lemma_input_pieces_len(args.drop_last(), ctx);
    }
}

proof fn lemma_input_pieces_len(args: Seq<ArgView>, ctx: ContextView)
    ensures
        input_pieces(args, ctx).len() == args.len(),
    decreases args.len(),
{
    if args.len() > 0 {
        lemma_input_pieces_len(args.drop_last(), ctx);
    }
}

/// The statements for a prefix of the arguments begin the statements for all of them.
proof fn lemma_js_extraction_prefix(args: Seq<ArgView>, ctx: ContextView, j: int)
    requires
        0 <= j <= args.len(),
    ensures
        js_extraction(args.take(j), ctx).is_prefix_of(js_extraction(args, ctx)),
    decreases args.len() - j,
{
    if j < args.len() {
        assert(args.take(j + 1).drop_last() =~= args.take(j));
        lemma_js_extraction_prefix(args, ctx, j + 1);
        let a = js_extraction(args.take(j), ctx);
        let b = js_extraction(args.take(j + 1), ctx);
        let c = js_extraction(args, ctx);
        assert(a.is_prefix_of(b));
        assert forall|i: int| 0 <= i < a.len() implies a[i] == c[i] by {
            assert(a[i] == b[i]);
        }
    } else {
        assert(args.take(j) =~= args);
    }
}

/// Each JS argument is read and passed under one name: the argument at `j`,
/// the `k`-th JS argument, is read by the `k`-th statement into `r_arg<k>`
/// (with `k` below the count the callback info is asked for), and the
/// `j`-th piece passed to the Rust function is made from `r_arg<k>`. Distinct
/// JS arguments get distinct numbers, in order.
pub proof fn law_js_arguments_read_and_passed_in_order(args: Seq<ArgView>, ctx: ContextView, j: int, j2: int)
    requires
        0 <= j < j2 < args.len(),
        !is_callback_view(args[j]),
        !is_callback_view(args[j2]),
    ensures
        nc_count(args.take(j)) < nc_count(args.take(j2)),
        nc_count(args.take(j2)) < nc_count(args),
        input_pieces(args, ctx)[j] == arg_input(args[j], nc_count(args.take(j)), ctx),
        (js_extraction(args.take(j), ctx) + js_to_rust(args[j], nc_count(args.take(j)), ctx)).is_prefix_of(
            js_extraction(args, ctx),
        ),
{
    lemma_nc_count_take(args.take(j2), j);
    assert(args.take(j2).take(j) =~= args.take(j));
    assert(args.take(j2)[j] == args[j]);
    lemma_nc_count_take(args, j2);
    lemma_input_pieces_index(args, ctx, j);
    assert(args.take(j + 1).drop_last() =~= args.take(j));
    assert(js_extraction(args.take(j + 1), ctx) =~= js_extraction(args.take(j), ctx) + js_to_rust(args[j], nc_count(args.take(j)), ctx));
    lemma_js_extraction_prefix(args, ctx, j + 1);
}

/// The value a constructor builds names the same fields as the constructor
/// invocation: `constructor_new` and `as_constructor_invocation` give the same text.
pub proof fn law_constructor_new_matches_invocation(args: Seq<ArgView>)
    ensures
        constructor_new_text(args) == numbered(nc_count(args), "arg"@, ","@),
    decreases args.len(),
{
    if args.len() > 0 {
        law_constructor_new_matches_invocation(args.drop_last());
        if !is_callback_view(args.last()) {
            let n = nc_count(args.drop_last());
            assert(numbered(n + 1, "arg"@, ","@) == numbered(n, "arg"@, ","@) + "arg"@ + decimal(n) + ","@);
            assert(constructor_new_text(args) =~= numbered(n + 1, "arg"@, ","@));
        } else {
            assert(constructor_new_text(args) =~= constructor_new_text(args.drop_last()));
        }
    }
}

/// The kinds the argument reader gives, marked as multi-threaded or not.
pub open spec fn marked(v: Seq<crate::ast::arg::FunctionArgView>, multi_threaded: bool) -> Seq<ArgView> {
    v.map_values(|a: crate::ast::arg::FunctionArgView| arg_meta(a.typ, multi_threaded))
}

/// The argument reader and the code generator accept the same functions, and
/// read their arguments alike: `FunctionArgs::from_ast` succeeds exactly when
/// `FunctionArgMetadata::parse` does, and then the generator's arguments are
/// the reader's, with closures marked as multi-threaded or not.
pub proof fn law_readers_agree(inputs: Seq<FnArg>, gens: Seq<TypeParam>, multi_threaded: bool)
    ensures
        args_outcome(inputs, gens) is Ok <==> metadata_outcome(inputs, gens, multi_threaded) is Ok,
        args_outcome(inputs, gens) is Ok ==> metadata_outcome(inputs, gens, multi_threaded)->Ok_0
            == marked(args_outcome(inputs, gens)->Ok_0, multi_threaded),
    decreases inputs.len(),
{
    if inputs.len() > 0 {
        law_readers_agree(inputs.drop_last(), gens, multi_threaded);
        match args_outcome(inputs.drop_last(), gens) {
            Ok(v) => {
                match inputs.last() {
                    FnArg::Typed(Pat::Ident(id), ty, _) => {
                        match arg_type_outcome(id@, ty, gens) {
                            Ok(k) => {
                                let w = v.push(crate::ast::arg::FunctionArgView { arg_index: 0, typ: k });
                                assert(marked(w, multi_threaded) =~= marked(v, multi_threaded).push(arg_meta(k, multi_threaded)));
                            },
                            Err(_) => {},
                        }
                    },
                    _ => {},
                }
            },
            Err(_) => {},
        }
    } else {
        assert(marked(Seq::empty(), multi_threaded) =~= Seq::<ArgView>::empty());
    }
}

/// The closures of a list of arguments.
pub open spec fn closure_count(args: Seq<ArgView>) -> nat
    decreases args.len(),
{
    if args.len() == 0 {
        0
    } else {
        closure_count(args.drop_last()) + if args.last() is Closure { 1nat } else { 0nat }
    }
}

/// For an async or `mt` function, every closure argument brings exactly one
/// definition beside the wrapper, in the order of the arguments; for any other
/// function, none does.
pub proof fn law_one_definition_per_closure(args: Seq<ArgView>, ctx: ContextView)
    ensures
        input_defs(args, ctx).len() == if ctx.async_or_mt() { closure_count(args) } else { 0 },
    decreases args.len(),
{
    if args.len() > 0 {
        law_one_definition_per_closure(args.drop_last(), ctx);
    }
}

/// The names an asynchronous closure relies on are those its definitions
/// introduce: the thread-safe function is completed by the function that the
/// closure's definitions define, and the closure builds the struct they declare.
pub proof fn law_async_closure_names_agree(c: ClosureMeta, index: nat, fn_name: Seq<char>, var: Seq<char>)
    ensures
        occurs(thread_safe_fn(c, index, fn_name), "usize, Some("@ + complete_ident(c.ident)),
        occurs(async_support(c), "extern \"C\" fn "@ + complete_ident(c.ident)),
        starts_with(async_support(c), "#[derive(Debug)]\nstruct "@ + arg_struct_ident(c.ident)),
        starts_with(async_body(c, var), "let arg = "@ + arg_struct_ident(c.ident)),
{
    let t = thread_safe_fn(c, index, fn_name);
    let a = "let "@ + crate::util::arg_var(index) + " = js_cb.create_thread_safe_function(\""@ + fn_name + "_sf\", "@ + decimal(index);
    let m = "usize, Some("@ + complete_ident(c.ident);
    let b = "))?;\n"@;
    assert(t =~= a + m + b);
    lemma_occurs(a, m, b);
    let s = async_support(c);
    let head = "#[derive(Debug)]\nstruct "@ + arg_struct_ident(c.ident);
    let s_rest = s.subrange(head.len() as int, s.len() as int);
    assert(s =~= head + s_rest);
    lemma_starts_with(head, s_rest);
    let pre = head + " {\n"@ + crate::function::closure::typed_params(c.inputs, "arg"@) + "}\n"@;
    let mid = "extern \"C\" fn "@ + complete_ident(c.ident);
    let post = s.subrange((pre.len() + mid.len()) as int, s.len() as int);
    assert(s =~= pre + mid + post);
    lemma_occurs(pre, mid, post);
    let body = async_body(c, var);
    let bhead = "let arg = "@ + arg_struct_ident(c.ident);
    let brest = body.subrange(bhead.len() as int, body.len() as int);
    assert(body =~= bhead + brest);
    lemma_starts_with(bhead, brest);
}

/// The argument reader and the code generator agree on which functions are
/// methods: some input is a receiver exactly when a first receiver is found.
pub proof fn law_method_detection_agrees(inputs: Seq<FnArg>)
    ensures
        has_receiver_spec(inputs) <==> first_receiver(inputs) is Some,
    decreases inputs.len(),
{
    if inputs.len() > 0 {
        let init = inputs.drop_last();
        law_method_detection_agrees(init);
        if has_receiver_spec(init) {
            let i = choose|i: int| 0 <= i < init.len() && init[i] is Receiver;
            assert(inputs[i] is Receiver);
        }
        if has_receiver_spec(inputs) && !has_receiver_spec(init) {
            let i = choose|i: int| 0 <= i < inputs.len() && inputs[i] is Receiver;
            if i < init.len() {
                assert(init[i] is Receiver);
            }
        }
        if inputs.last() is Receiver {
            assert(inputs[inputs.len() - 1] is Receiver);
        }
    }
}

/// The vector a closure of a synchronous function calls the JS function in
/// `var` with.
pub open spec fn sync_call(n: nat, var: Seq<char>) -> Seq<char> {
    "let args = vec!["@ + numbered(n, "cb_arg"@, ","@) + "];\n"@ + var + ".call(args)"@
}

/// A closure of a synchronous function hands the JS function every one of its
/// parameters, in order: for a closure with `n` inputs, the JS function is
/// called with the vector `cb_arg0, ..., cb_arg<n-1>`, so each parameter
/// `cb_arg<k>` with `k < n` is passed.
pub proof fn law_sync_closure_passes_every_parameter(c: ClosureMeta, var: Seq<char>)
    ensures
        occurs(closure_expr(c, var, false), sync_call(c.inputs.len(), var)),
        forall|k: nat| k < c.inputs.len() ==> occurs(sync_call(c.inputs.len(), var), "cb_arg"@ + #[trigger] decimal(k) + ","@),
{
    let n = c.inputs.len();
    reveal_strlit("let result = (|| {\nlet args = vec![");
    reveal_strlit("let result = (|| {\n");
    reveal_strlit("let args = vec![");
    reveal_strlit(".call(args)\n})();\nresult.to_js(&js_env);\n");
    reveal_strlit(".call(args)");
    reveal_strlit("\n})();\nresult.to_js(&js_env);\n");
    let nums = numbered(n, "cb_arg"@, ","@);
    let pre = "let result = (|| {\n"@;
    let post = "\n})();\nresult.to_js(&js_env);\n"@;
    let call = sync_call(n, var);
    let body = sync_body(n, var);
    assert(body =~= pre + call + post);
    lemma_occurs(pre, call, post);
    let head = "move | "@ + typed_params(c.inputs, "cb_arg"@) + " | {\n"@;
    assert(closure_expr(c, var, false) =~= head + body + "}\n"@);
    lemma_occurs_in(head, body, "}\n"@, call);
    assert forall|k: nat| k < n implies occurs(call, "cb_arg"@ + #[trigger] decimal(k) + ","@) by {
        lemma_numbered_lists(n, k, "cb_arg"@, ","@);
        assert(call =~= "let args = vec!["@ + nums + ("];\n"@ + var + ".call(args)"@));
        lemma_occurs_in("let args = vec!["@, nums, "];\n"@ + var + ".call(args)"@, "cb_arg"@ + decimal(k) + ","@);
    }
}

/// The call of the JS function in the function that completes an
/// asynchronous call of a closure with `n` inputs.
pub open spec fn completion_call(n: nat) -> Seq<char> {
    "js_env.call_function(global, js_cb, vec!["@ + numbered(n, "js_arg"@, ","@) + "])?;"@
}

/// The function that completes an asynchronous call of a closure converts
/// each of the closure's `n` values to JS (`js_arg<k>` from `my_val.arg<k>`)
/// and calls the JS function with all of them, in order: the vector is
/// `js_arg0, ..., js_arg<n-1>`, with the same `n`.
pub proof fn law_completion_passes_every_value(c: ClosureMeta)
    ensures
        occurs(async_support(c), numbered2(c.inputs.len(), "let js_arg"@, " = my_val.arg"@, ".try_to_js(&js_env)?;\n"@)),
        occurs(async_support(c), completion_call(c.inputs.len())),
        forall|k: nat| k < c.inputs.len() ==> occurs(completion_call(c.inputs.len()), "js_arg"@ + #[trigger] decimal(k) + ","@),
{
    let n = c.inputs.len();
    let st = arg_struct_ident(c.ident);
    let conv = numbered2(n, "let js_arg"@, " = my_val.arg"@, ".try_to_js(&js_env)?;\n"@);
    let nums = numbered(n, "js_arg"@, ","@);
    let head = "#[derive(Debug)]\nstruct "@ + st + " {\n"@ + typed_params(c.inputs, "arg"@) + "}\n"@
        + "extern \"C\" fn "@ + complete_ident(c.ident)
        + "(env: node_bindgen::sys::napi_env, js_cb: node_bindgen::sys::napi_value, _context: *mut ::std::os::raw::c_void, data: *mut ::std::os::raw::c_void) {\n"@
        + "if env != std::ptr::null_mut() {\nnode_bindgen::core::log::debug!(\"async cb invoked\");\nlet js_env = node_bindgen::core::val::JsEnv::new(env);\nlet result: Result<(), node_bindgen::core::NjError> = (move || {\nlet global = js_env.get_global()?;\nlet my_val: Box<"@
        + st + "> = unsafe { Box::from_raw(data as *mut "@ + st
        + ") };\nnode_bindgen::core::log::trace!(\"arg: {:#?}\", my_val);\n"@;
    let la = "node_bindgen::core::log::debug!(\"async cb, invoking js cb\");\njs_env.call_function(global, js_cb, vec!["@;
    let lb = "])?;\nnode_bindgen::core::log::trace!(\"async cb, done\");\nOk(())\n})();\nnode_bindgen::core::assert_napi!(result)\n}\n}\n"@;
    let x = async_support(c);
    assert(x =~= head + conv + (la + nums + lb));
    lemma_occurs(head, conv, la + nums + lb);
    reveal_strlit("node_bindgen::core::log::debug!(\"async cb, invoking js cb\");\njs_env.call_function(global, js_cb, vec![");
    reveal_strlit("node_bindgen::core::log::debug!(\"async cb, invoking js cb\");\n");
    reveal_strlit("js_env.call_function(global, js_cb, vec![");
    reveal_strlit("])?;\nnode_bindgen::core::log::trace!(\"async cb, done\");\nOk(())\n})();\nnode_bindgen::core::assert_napi!(result)\n}\n}\n");
    reveal_strlit("])?;");
    reveal_strlit("\nnode_bindgen::core::log::trace!(\"async cb, done\");\nOk(())\n})();\nnode_bindgen::core::assert_napi!(result)\n}\n}\n");
    let la1 = "node_bindgen::core::log::debug!(\"async cb, invoking js cb\");\n"@;
    let lb2 = "\nnode_bindgen::core::log::trace!(\"async cb, done\");\nOk(())\n})();\nnode_bindgen::core::assert_napi!(result)\n}\n}\n"@;
    let call = completion_call(n);
    assert(la =~= la1 + "js_env.call_function(global, js_cb, vec!["@);
    assert(lb =~= "])?;"@ + lb2);
    assert(x =~= (head + conv + la1) + call + lb2);
    lemma_occurs(head + conv + la1, call, lb2);
    assert forall|k: nat| k < n implies occurs(call, "js_arg"@ + #[trigger] decimal(k) + ","@) by {
        lemma_numbered_lists(n, k, "js_arg"@, ","@);
        assert(call =~= "js_env.call_function(global, js_cb, vec!["@ + nums + "])?;"@);
        lemma_occurs_in("js_env.call_function(global, js_cb, vec!["@, nums, "])?;"@, "js_arg"@ + decimal(k) + ","@);
    }
}

/// The JS arguments among a list of arguments: all but the callback info.
pub open spec fn js_arguments(args: Seq<ArgView>) -> Seq<ArgView> {
    args.filter(|a: ArgView| !is_callback_view(a))
}

/// The running count of JS arguments is the number of arguments that are not
/// the callback info.
proof fn lemma_nc_count_counts_js_arguments(args: Seq<ArgView>)
    ensures
        nc_count(args) == js_arguments(args).len(),
    decreases args.len(),
{
    reveal(Seq::filter);
    if args.len() > 0 {
        lemma_nc_count_counts_js_arguments(args.drop_last());
    }
}

/// The wrapper asks the callback info for as many JS arguments as the
/// function takes (every argument but `&JsCallback`, closures included), and
/// reads each JS argument at its position among the JS arguments, which is
/// below that count.
pub proof fn law_callback_info_counts_js_arguments(args: Seq<ArgView>, ctx: ContextView)
    ensures
        starts_with(
            arg_extraction_text(args, ctx),
            "let js_cb = js_env.get_cb_info(cb_info, "@ + decimal(js_arguments(args).len()) + ")?;\n"@,
        ),
        forall|j: int| 0 <= j < args.len() && !is_callback_view(#[trigger] args[j]) ==> {
            &&& js_arguments(args.take(j)).len() < js_arguments(args).len()
            &&& occurs(arg_extraction_text(args, ctx), js_to_rust(args[j], js_arguments(args.take(j)).len(), ctx))
        },
{
    lemma_nc_count_counts_js_arguments(args);
    let head = "let js_cb = js_env.get_cb_info(cb_info, "@ + decimal(js_arguments(args).len()) + ")?;\n"@;
    let x = arg_extraction_text(args, ctx);
    assert(x =~= head + js_extraction(args, ctx));
    lemma_starts_with(head, js_extraction(args, ctx));
    assert forall|j: int| 0 <= j < args.len() && !is_callback_view(#[trigger] args[j]) implies {
        &&& js_arguments(args.take(j)).len() < js_arguments(args).len()
        &&& occurs(x, js_to_rust(args[j], js_arguments(args.take(j)).len(), ctx))
    } by {
        lemma_nc_count_counts_js_arguments(args.take(j));
        lemma_nc_count_take(args, j);
        let k = nc_count(args.take(j));
        let pre = js_extraction(args.take(j), ctx);
        let piece = js_to_rust(args[j], k, ctx);
        assert(args.take(j + 1).drop_last() =~= args.take(j));
        assert(js_extraction(args.take(j + 1), ctx) =~= pre + piece);
        lemma_js_extraction_prefix(args, ctx, j + 1);
        let all = js_extraction(args, ctx);
        assert(starts_with(all, pre + piece));
        lemma_starts_with_occurs(all, pre, piece);
        lemma_occurs_in(head, all, Seq::empty(), piece);
        assert(head + all + Seq::<char>::empty() =~= x);
    }
}

/// The fields of a constructor for a prefix of the arguments begin those for all of them.
proof fn lemma_constructor_args_prefix(args: Seq<ArgView>, j: int)
    requires
        0 <= j <= args.len(),
    ensures
        constructor_args_text(args.take(j)).is_prefix_of(constructor_args_text(args)),
    decreases args.len() - j,
{
    if j < args.len() {
        assert(args.take(j + 1).drop_last() =~= args.take(j));
        lemma_constructor_args_prefix(args, j + 1);
        let a = constructor_args_text(args.take(j));
        let b = constructor_args_text(args.take(j + 1));
        let c = constructor_args_text(args);
        assert(a.is_prefix_of(b));
        assert forall|i: int| 0 <= i < a.len() implies a[i] == c[i] by {
            assert(a[i] == b[i]);
        }
    } else {
        assert(args.take(j) =~= args);
    }
}

/// A constructor declares a field for each path-typed argument with the
/// argument's whole source type: the argument at `j` of type `p` gives the
/// field `arg<k>: <source text of p>,`, `k` being its position among the JS
/// arguments.
pub proof fn law_constructor_field_has_the_source_type(args: Seq<ArgView>)
    ensures
        forall|j: int| 0 <= j < args.len() && #[trigger] args[j] is Path ==> occurs(
            constructor_args_text(args),
            "arg"@ + decimal(js_arguments(args.take(j)).len()) + ": "@ + args[j]->Path_0.text + ","@,
        ),
{
    assert forall|j: int| 0 <= j < args.len() && #[trigger] args[j] is Path implies occurs(
        constructor_args_text(args),
        "arg"@ + decimal(js_arguments(args.take(j)).len()) + ": "@ + args[j]->Path_0.text + ","@,
    ) by {
        lemma_nc_count_counts_js_arguments(args.take(j));
        let k = nc_count(args.take(j));
        let pre = constructor_args_text(args.take(j));
        let piece = "arg"@ + decimal(k) + ": "@ + args[j]->Path_0.text + ","@;
        assert(args.take(j + 1).drop_last() =~= args.take(j));
        assert(rust_fn_arg(args[j], k) == piece);
        assert(constructor_args_text(args.take(j + 1)) =~= pre + piece);
        lemma_constructor_args_prefix(args, j + 1);
        let all = constructor_args_text(args);
        assert(starts_with(all, pre + piece));
        lemma_starts_with_occurs(all, pre, piece);
    }
}

/// An asynchronous closure forwards every one of its `n` parameters to the
/// completion function: the struct it builds sets `arg<k>` to `cb_arg<k>` for
/// each `k < n`, and the completion function converts those same fields.
pub proof fn law_async_closure_forwards_every_parameter(c: ClosureMeta, var: Seq<char>)
    ensures
        occurs(async_body(c, var), numbered2(c.inputs.len(), "arg"@, ": cb_arg"@, ","@)),
        occurs(async_support(c), numbered2(c.inputs.len(), "let js_arg"@, " = my_val.arg"@, ".try_to_js(&js_env)?;\n"@)),
{
    let n = c.inputs.len();
    let h = "let arg = "@ + arg_struct_ident(c.ident) + " {\n"@;
    let fields = numbered2(n, "arg"@, ": cb_arg"@, ","@);
    let rest = "};\nnode_bindgen::core::log::trace!(\"converting rust to raw ptr\");\nlet my_box = Box::new(arg);\nlet ptr = Box::into_raw(my_box);\n"@
        + var + ".call(Some(ptr as *mut core::ffi::c_void)).expect(\"callback should work\");\n"@;
    assert(async_body(c, var) =~= h + fields + rest);
    lemma_occurs(h, fields, rest);
    law_completion_passes_every_value(c);
}

/// The statement that reads a JS argument binds the variable of its position
/// and reads the JS argument at that position: `let r_arg<i> = ...` with
/// `::<T>(<i>)?;` for a plain read, or the index `<i>usize` for a thread-safe
/// function.
pub proof fn law_read_binds_and_reads_its_position(a: ArgView, i: nat, ctx: ContextView)
    requires
        !is_callback_view(a),
        a is Path ==> a->Path_0.name() is Some,
        a is Ref ==> reference_name(a->Ref_0) is Some,
    ensures
        starts_with(js_to_rust(a, i, ctx), "let "@ + arg_var(i)),
        occurs(
            js_to_rust(a, i, ctx),
            if a is Closure && ctx.async_or_mt() {
                "_sf\", "@ + decimal(i) + "usize, Some("@
            } else {
                ">("@ + decimal(i) + ")?;\n"@
            },
        ),
{
    let x = js_to_rust(a, i, ctx);
    let head = "let "@ + arg_var(i);
    if a is Closure && ctx.async_or_mt() {
        let c = a->Closure_0;
        let mid = "_sf\", "@ + decimal(i) + "usize, Some("@;
        let pre = head + " = js_cb.create_thread_safe_function(\""@ + ctx.name;
        let post = crate::function::closure::complete_ident(c.ident) + "))?;\n"@;
        assert(x =~= pre + mid + post);
        lemma_occurs(pre, mid, post);
        assert(x =~= head + (" = js_cb.create_thread_safe_function(\""@ + ctx.name + mid + post));
        lemma_starts_with(head, " = js_cb.create_thread_safe_function(\""@ + ctx.name + mid + post);
    } else {
        let (t, g) = match a {
            ArgView::Closure(c) => (crate::function::closure::callback_type(c.multi_threaded), "get_value"@),
            ArgView::Path(p) => (p.name()->Some_0, "get_value"@),
            ArgView::Ref(r) => (reference_name(r)->Some_0, "get_ref"@),
            ArgView::JSCallback(_) => (Seq::empty(), Seq::empty()),
        };
        assert(x == get_value_stmt(Some(t), i, g));
        let mid = ">("@ + decimal(i) + ")?;\n"@;
        let pre = head + " = js_cb."@ + g + "::<"@ + t;
        assert(x =~= pre + mid);
        lemma_occurs(pre, mid, Seq::empty());
        assert(pre + mid + Seq::<char>::empty() =~= x);
        assert(x =~= head + (" = js_cb."@ + g + "::<"@ + t + mid));
        lemma_starts_with(head, " = js_cb."@ + g + "::<"@ + t + mid);
    }
}

} // verus!
