use nj_derive::error::DeriveError;
use nj_derive::function::{generate_function, FunctionAst};
use nj_derive::model::{
    Bound, FnArg, ItemFn, MetaItem, Pat, SegmentArguments, Signature, TraitSegment, Type,
    TypeParam, TypePath, TypeReference,
};

fn path_type(name: &str) -> Type {
    Type::Path(TypePath { segments: vec![name.to_string()], text: name.to_string(), span: proc_macro2::Span::call_site() })
}

fn typed(name: &str, ty: Type) -> FnArg {
    FnArg::Typed(Pat::Ident(name.to_string()), ty, proc_macro2::Span::call_site())
}

fn closure_param(name: &str, inputs: Vec<Type>) -> TypeParam {
    TypeParam {
        ident: name.to_string(),
        bounds: vec![Bound::Trait(vec![TraitSegment {
            ident: "Fn".to_string(),
            arguments: SegmentArguments::Parenthesized(inputs),
        }])],
    }
}

fn item(name: &str, is_async: bool, unit: bool, generics: Vec<TypeParam>, inputs: Vec<FnArg>, text: &str) -> ItemFn {
    ItemFn {
        sig: Signature {
            ident: name.to_string(),
            is_async,
            has_default_output: unit,
            generics,
            inputs,
        },
        text: text.to_string(),
    }
}

fn attr(name: &str) -> MetaItem {
    MetaItem::Path { segments: vec![name.to_string()], span: proc_macro2::Span::call_site(), ident_span: proc_macro2::Span::call_site() }
}

const HEAD: &str = "(env: node_bindgen::sys::napi_env, cb_info: node_bindgen::sys::napi_callback_info) -> node_bindgen::sys::napi_value {\nuse node_bindgen::core::TryIntoJs;\nuse node_bindgen::core::IntoJs;\nuse node_bindgen::core::val::JsCallbackFunction;\n";
const RESULT_HEAD: &str = "let result: Result<node_bindgen::sys::napi_value, node_bindgen::core::NjError> = (move || {\n";
const RESULT_TAIL: &str = "})();\nresult.to_js(&js_env)\n";
const JS_ENV: &str = "let js_env = node_bindgen::core::val::JsEnv::new(env);\n";

fn registration(fn_name: &str, property: &str) -> String {
    format!(
        "#[node_bindgen::core::ctor]\nfn register_n_{}() {{\nlet property = node_bindgen::core::Property::new(\"{}\").method(n_{});\nnode_bindgen::core::submit_property(property);\n}}\n",
        fn_name, property, fn_name
    )
}

#[test]
fn doubling_function_is_wrapped_and_registered() {
    let text = "fn hello(arg1: i32) -> i32 { arg1 * 2 }";
    let f = item("hello", false, false, vec![], vec![typed("arg1", path_type("i32"))], text);
    let out = FunctionAst::from_ast(&f, vec![]).as_token_stream().ok().expect("accepted");
    let expected = format!(
        "#[no_mangle]\npub extern \"C\" fn n_hello{}{}\n{}{}let js_cb = js_env.get_cb_info(cb_info, 1)?;\nlet r_arg0 = js_cb.get_value::<i32>(0)?;\nhello( r_arg0, ).try_to_js(&js_env)\n{}}}\n\n{}",
        HEAD, text, JS_ENV, RESULT_HEAD, RESULT_TAIL, registration("hello", "hello")
    );
    assert_eq!(out, expected);
}

#[test]
fn generated_code_lexes() {
    let text = "fn hello(arg1: i32) -> i32 { arg1 * 2 }";
    let f = item("hello", false, false, vec![], vec![typed("arg1", path_type("i32"))], text);
    let code = generate_function(f, vec![]).ok().expect("accepted");
    let tokens: proc_macro2::TokenStream = code.parse().ok().expect("lexes");
    let s = tokens.to_string();
    assert!(s.contains("n_hello"));
    assert!(s.contains("register_n_hello"));
    assert!(s.contains("get_cb_info"));
}

#[test]
fn property_name_is_camel_case() {
    let text = "fn hello_world() {}";
    let f = item("hello_world", false, true, vec![], vec![], text);
    let out = FunctionAst::from_ast(&f, vec![]).as_token_stream().ok().expect("accepted");
    assert!(out.ends_with(&registration("hello_world", "helloWorld")));
    assert!(out.contains("let js_cb = js_env.get_cb_info(cb_info, 0)?;\n"));
}

#[test]
fn constructor_is_emitted_unchanged() {
    let text = "fn hello(count: i32) -> i32 { count }";
    let f = item("hello", false, false, vec![], vec![typed("count", path_type("i32"))], text);
    let out = FunctionAst::from_ast(&f, vec![attr("constructor")]).as_token_stream().ok().expect("accepted");
    assert_eq!(out, text);
}

#[test]
fn several_arguments_are_numbered() {
    let text = "fn example3(arg1: bool, arg2: i32, arg3: String) -> i32 { 4 }";
    let f = item(
        "example3",
        false,
        false,
        vec![],
        vec![typed("arg1", path_type("bool")), typed("arg2", path_type("i32")), typed("arg3", path_type("String"))],
        text,
    );
    let out = FunctionAst::from_ast(&f, vec![]).as_token_stream().ok().expect("accepted");
    assert!(out.contains(
        "let js_cb = js_env.get_cb_info(cb_info, 3)?;\nlet r_arg0 = js_cb.get_value::<bool>(0)?;\nlet r_arg1 = js_cb.get_value::<i32>(1)?;\nlet r_arg2 = js_cb.get_value::<String>(2)?;\nexample3( r_arg0,r_arg1,r_arg2, ).try_to_js(&js_env)\n"
    ));
}

#[test]
fn method_stays_beside_its_wrapper() {
    let text = "fn get(&self, x: i32) -> i32 { x }";
    let f = item(
        "get",
        false,
        false,
        vec![],
        vec![FnArg::Receiver("&self".to_string()), typed("x", path_type("i32"))],
        text,
    );
    let out = FunctionAst::from_ast(&f, vec![]).as_token_stream().ok().expect("accepted");
    let expected = format!(
        "{}\n#[no_mangle]\npub extern \"C\" fn n_get{}\n{}{}let js_cb = js_env.get_cb_info(cb_info, 1)?;\nlet r_arg0 = js_cb.get_value::<i32>(0)?;\nlet receiver = (js_cb.unwrap_mut::<Self>()?);\nreceiver.get( r_arg0, ).try_to_js(&js_env)\n{}}}\n\n",
        text, HEAD, JS_ENV, RESULT_HEAD, RESULT_TAIL
    );
    assert_eq!(out, expected);
}

#[test]
fn async_function_without_result_is_spawned() {
    let text = "async fn run(n: i32) {}";
    let f = item("run", true, true, vec![], vec![typed("n", path_type("i32"))], text);
    let out = FunctionAst::from_ast(&f, vec![]).as_token_stream().ok().expect("accepted");
    assert!(out.contains(
        "node_bindgen::core::future::spawn(async move {\nrun( r_arg0, ).await;\n});\nOk(std::ptr::null_mut())\n"
    ));
}

#[test]
fn async_function_with_result_is_a_promise() {
    let text = "async fn example6(arg: f64) -> f64 { 0.0 }";
    let f = item("example6", true, false, vec![], vec![typed("arg", path_type("f64"))], text);
    let out = FunctionAst::from_ast(&f, vec![]).as_token_stream().ok().expect("accepted");
    assert!(out.contains(
        "(node_bindgen::core::JsPromiseFuture::new(\nexample6( r_arg0, ), \"example6_ft\"\n)).try_to_js(&js_env)\n"
    ));
}

#[test]
fn sync_closure_calls_the_js_function() {
    let text = "fn example4<F: Fn(i32)>(cb: F, second: i32) { cb(second) }";
    let f = item(
        "example4",
        false,
        true,
        vec![closure_param("F", vec![path_type("i32")])],
        vec![typed("cb", path_type("F")), typed("second", path_type("i32"))],
        text,
    );
    let out = FunctionAst::from_ast(&f, vec![]).as_token_stream().ok().expect("accepted");
    assert!(out.contains("let r_arg0 = js_cb.get_value::<JsCallbackFunction>(0)?;\nlet r_arg1 = js_cb.get_value::<i32>(1)?;\n"));
    assert!(out.contains(
        "example4( move | cb_arg0: i32, | {\nlet result = (|| {\nlet args = vec![cb_arg0,];\nr_arg0.call(args)\n})();\nresult.to_js(&js_env);\n}\nr_arg1, ).try_to_js(&js_env)\n"
    ));
}

#[test]
fn async_closure_goes_through_a_thread_safe_function() {
    let text = "async fn example5<F: Fn(f64, String)>(seconds: i32, cb: F) {}";
    let f = item(
        "example5",
        true,
        true,
        vec![closure_param("F", vec![path_type("f64"), path_type("String")])],
        vec![typed("seconds", path_type("i32")), typed("cb", path_type("F"))],
        text,
    );
    let out = FunctionAst::from_ast(&f, vec![]).as_token_stream().ok().expect("accepted");
    assert!(out.contains(
        "let r_arg1 = js_cb.create_thread_safe_function(\"example5_sf\", 1usize, Some(thread_safe_cb_complete))?;\n"
    ));
    assert!(out.contains("#[derive(Debug)]\nstruct Argcb {\narg0: f64,arg1: String,}\nextern \"C\" fn thread_safe_cb_complete("));
    assert!(out.contains("let js_arg0 = my_val.arg0.try_to_js(&js_env)?;\nlet js_arg1 = my_val.arg1.try_to_js(&js_env)?;\n"));
    assert!(out.contains("js_env.call_function(global, js_cb, vec![js_arg0,js_arg1,])?;\n"));
    assert!(out.contains("let arg = Argcb {\narg0: cb_arg0,arg1: cb_arg1,};\n"));
    assert!(out.contains("r_arg1.call(Some(ptr as *mut core::ffi::c_void)).expect(\"callback should work\");\n"));
}

#[test]
fn mt_closure_is_multi_threaded() {
    let text = "fn example5<F: Fn(i32)>(cb: F) {}";
    let f = item(
        "example5",
        false,
        true,
        vec![closure_param("F", vec![path_type("i32")])],
        vec![typed("cb", path_type("F"))],
        text,
    );
    let out = FunctionAst::from_ast(&f, vec![attr("mt")]).as_token_stream().ok().expect("accepted");
    assert!(out.contains("create_thread_safe_function(\"example5_sf\", 0usize, Some(thread_safe_cb_complete))?;\n"));
    assert!(out.contains("struct Argcb {\narg0: i32,}\n"));
}

#[test]
fn js_callback_info_is_passed_by_reference() {
    let text = "fn f(cb: &JsCallback, n: i32) {}";
    let cb = Type::Reference(TypeReference {
        elem: Some(TypePath { segments: vec!["JsCallback".to_string()], text: "JsCallback".to_string(), span: proc_macro2::Span::call_site() }),
        text: "&JsCallback".to_string(),
    });
    let f = item("f", false, true, vec![], vec![typed("cb", cb), typed("n", path_type("i32"))], text);
    let out = FunctionAst::from_ast(&f, vec![]).as_token_stream().ok().expect("accepted");
    assert!(out.contains("let js_cb = js_env.get_cb_info(cb_info, 1)?;\nlet r_arg0 = js_cb.get_value::<i32>(0)?;\n"));
    assert!(out.contains("f( &js_cb,r_arg0, ).try_to_js(&js_env)\n"));
}

#[test]
fn reference_is_read_by_reference() {
    let text = "fn f(s: &MyObj) {}";
    let r = Type::Reference(TypeReference {
        elem: Some(TypePath { segments: vec!["MyObj".to_string()], text: "MyObj".to_string(), span: proc_macro2::Span::call_site() }),
        text: "&MyObj".to_string(),
    });
    let f = item("f", false, true, vec![], vec![typed("s", r)], text);
    let out = FunctionAst::from_ast(&f, vec![]).as_token_stream().ok().expect("accepted");
    assert!(out.contains("let r_arg0 = js_cb.get_ref::<MyObj>(0)?;\n"));
}

#[test]
fn unsupported_argument_is_refused() {
    let text = "fn f(t: (i32, i32)) {}";
    let f = item("f", false, true, vec![], vec![typed("t", Type::Other("(i32, i32)".to_string(), proc_macro2::Span::call_site()))], text);
    let r = FunctionAst::from_ast(&f, vec![]).as_token_stream();
    assert!(matches!(r, Err(DeriveError::NotSupportedArgTypes)));
    assert_eq!(DeriveError::NotSupportedArgTypes.message(), "not supported arg types");
}

#[test]
fn unsupported_pattern_is_refused() {
    let f = item("f", false, true, vec![], vec![FnArg::Typed(Pat::Other, path_type("i32"), proc_macro2::Span::call_site())], "fn f((a): i32) {}");
    let r = FunctionAst::from_ast(&f, vec![]).as_token_stream();
    assert!(matches!(r, Err(DeriveError::NotSupportedType)));
}

#[test]
fn generated_function_refuses_what_the_generator_refuses() {
    let f = item("f", false, true, vec![], vec![typed("t", Type::Other("()".to_string(), proc_macro2::Span::call_site()))], "fn f(t: ()) {}");
    let r = generate_function(f, vec![]);
    assert!(matches!(r, Err(DeriveError::NotSupportedArgTypes)));
}
