use nj_derive::function::arg::FunctionArg;
use nj_derive::function::metadata::FunctionArgMetadata;
use nj_derive::function::FunctionContext;
use nj_derive::model::{FnArg, Pat, Signature, Type, TypePath, TypeReference};

fn path_type(name: &str) -> Type {
    Type::Path(TypePath { segments: vec![name.to_string()], text: name.to_string(), span: proc_macro2::Span::call_site() })
}

fn typed(name: &str, ty: Type) -> FnArg {
    FnArg::Typed(Pat::Ident(name.to_string()), ty, proc_macro2::Span::call_site())
}

fn js_callback() -> Type {
    Type::Reference(TypeReference {
        elem: Some(TypePath { segments: vec!["JsCallback".to_string()], text: "JsCallback".to_string(), span: proc_macro2::Span::call_site() }),
        text: "&JsCallback".to_string(),
    })
}

fn sig(inputs: Vec<FnArg>) -> Signature {
    Signature { ident: "make".to_string(), is_async: false, has_default_output: false, generics: vec![], inputs }
}

fn meta(inputs: Vec<FnArg>) -> FunctionArgMetadata {
    FunctionArgMetadata::parse(&sig(inputs), false).ok().expect("accepted")
}

#[test]
fn constructor_helpers_skip_the_callback_info() {
    let m = meta(vec![typed("a", path_type("f64")), typed("cb", js_callback()), typed("b", path_type("String"))]);
    assert_eq!(m.rust_args_len(), 2);
    assert_eq!(m.constructor_args(), "arg0: f64,arg1: String,");
    assert_eq!(m.constructor_new(), "arg0,arg1,");
    assert_eq!(m.as_constructor_invocation(), "arg0,arg1,");
    assert_eq!(
        m.as_constructor_try_to_js(),
        "let arg0 = self.arg0.try_to_js(js_env)?;\nlet arg1 = self.arg1.try_to_js(js_env)?;\n"
    );
}

#[test]
fn constructor_refuses_references() {
    let r = Type::Reference(TypeReference { elem: None, text: "&[u8]".to_string() });
    let m = meta(vec![typed("r", r)]);
    assert_eq!(m.constructor_args(), "compile_error!(\"ref can't be used in constructor\")");
}

#[test]
fn reference_without_path_cannot_be_read() {
    let r = Type::Reference(TypeReference { elem: None, text: "&[u8]".to_string() });
    let m = meta(vec![typed("r", r)]);
    let ctx = FunctionContext::new(false, false, "make".to_string());
    assert_eq!(
        m.as_arg_token(&ctx),
        "let js_cb = js_env.get_cb_info(cb_info, 1)?;\ncompile_error!(\"not supported type \")"
    );
}

#[test]
fn receiver_is_found_first() {
    let s = sig(vec![typed("a", path_type("i32")), FnArg::Receiver("&mut self".to_string())]);
    assert_eq!(FunctionArgMetadata::find_receiver(&s), Some("&mut self".to_string()));
    let m = FunctionArgMetadata::parse(&s, true).ok().expect("accepted");
    assert!(m.is_method());
    assert!(m.is_multi_threaded());
    assert_eq!(m.receiver(), "let receiver = (js_cb.unwrap_mut::<Self>()?);\n");
}

#[test]
fn arguments_are_passed_in_order() {
    let m = meta(vec![typed("cb", js_callback()), typed("a", path_type("i32"))]);
    let mut ctx = FunctionContext::new(false, false, "make".to_string());
    let pieces = m.rust_args_input(&mut ctx);
    assert_eq!(pieces, vec!["&js_cb,".to_string(), "r_arg0,".to_string()]);
    assert!(ctx.cb_args.is_empty());
    let mut ctx2 = FunctionContext::new(false, false, "make".to_string());
    assert_eq!(m.as_token_stream(&"make".to_string(), &mut ctx2), "make( &js_cb,r_arg0, )");
}

#[test]
fn free_function_has_no_receiver_binding() {
    let m = meta(vec![]);
    assert!(!m.is_method());
    assert_eq!(m.receiver(), "");
    assert_eq!(m.rust_args_len(), 0);
    assert_eq!(m.constructor_args(), "");
}

#[test]
fn callback_info_is_never_read_from_js() {
    let m = meta(vec![typed("cb", js_callback())]);
    let ctx = FunctionContext::new(false, false, "make".to_string());
    assert!(m.args[0].is_callback());
    assert_eq!(
        m.args[0].js_to_rust_token_stream(0, &ctx),
        "compile_error!(\"should not be converted from JS\")"
    );
    assert!(matches!(m.args[0], FunctionArg::JSCallback(_)));
}

#[test]
fn default_context_is_empty() {
    let ctx = FunctionContext::default();
    assert!(!ctx.is_async);
    assert!(!ctx.is_multi_threaded);
    assert_eq!(ctx.name, "");
    assert!(ctx.cb_args.is_empty());
}
