use nj_derive::error::DeriveError;
use nj_derive::expand::{expand, item_is_well_formed, NodeItem};
use nj_derive::model::{Bound, FnArg, ItemFn, Lit, MetaItem, Pat, SegmentArguments, Signature, TraitSegment, Type, TypeParam, TypePath};

fn sp() -> proc_macro2::Span {
    proc_macro2::Span::call_site()
}

fn path_type(name: &str) -> Type {
    Type::Path(TypePath { segments: vec![name.to_string()], text: name.to_string(), span: sp() })
}

fn typed(name: &str, ty: Type) -> FnArg {
    FnArg::Typed(Pat::Ident(name.to_string()), ty, sp())
}

fn bare(name: &str) -> MetaItem {
    MetaItem::Path { segments: vec![name.to_string()], span: sp(), ident_span: sp() }
}

fn sum() -> ItemFn {
    ItemFn {
        sig: Signature {
            ident: "sum".to_string(),
            is_async: false,
            has_default_output: false,
            generics: vec![],
            inputs: vec![typed("first", path_type("i32")), typed("second", path_type("i32"))],
        },
        text: "fn sum(first: i32, second: i32) -> i32 { return first+second }".to_string(),
    }
}

fn hello() -> ItemFn {
    ItemFn {
        sig: Signature {
            ident: "hello".to_string(),
            is_async: false,
            has_default_output: false,
            generics: vec![],
            inputs: vec![typed("arg1", path_type("i32"))],
        },
        text: "fn hello(arg1: i32) -> i32 { arg1 * 2 }".to_string(),
    }
}

const HEAD: &str = "(env: node_bindgen::sys::napi_env, cb_info: node_bindgen::sys::napi_callback_info) -> node_bindgen::sys::napi_value {\nuse node_bindgen::core::TryIntoJs;\nuse node_bindgen::core::IntoJs;\nuse node_bindgen::core::val::JsCallbackFunction;\n";

#[test]
fn function_becomes_its_native_wrapper() {
    let out = expand(vec![], NodeItem::Function(sum())).ok().expect("accepted");
    let expected = format!(
        "#[no_mangle]\npub extern \"C\" fn n_sum{}fn sum(first: i32, second: i32) -> i32 {{ return first+second }}\nlet js_env = node_bindgen::core::val::JsEnv::new(env);\nlet result: Result<node_bindgen::sys::napi_value, node_bindgen::core::NjError> = (move || {{\nlet js_cb = js_env.get_cb_info(cb_info, 2)?;\nlet r_arg0 = js_cb.get_value::<i32>(0)?;\nlet r_arg1 = js_cb.get_value::<i32>(1)?;\nsum( r_arg0,r_arg1, ).try_to_js(&js_env)\n}})();\nresult.to_js(&js_env)\n}}\n\n#[node_bindgen::core::ctor]\nfn register_n_sum() {{\nlet property = node_bindgen::core::Property::new(\"sum\").method(n_sum);\nnode_bindgen::core::submit_property(property);\n}}\n",
        HEAD
    );
    assert_eq!(out, expected);
    let tokens: proc_macro2::TokenStream = out.parse().ok().expect("lexes");
    assert!(tokens.to_string().contains("pub extern \"C\" fn n_sum"));
}

#[test]
fn constructor_is_emitted_as_it_is() {
    let out = expand(vec![bare("constructor")], NodeItem::Function(hello())).ok().expect("accepted");
    assert_eq!(out, "fn hello(arg1: i32) -> i32 { arg1 * 2 }");
}

#[test]
fn mt_makes_closures_thread_safe() {
    let mut f = hello();
    f.sig.generics = vec![TypeParam {
        ident: "F".to_string(),
        bounds: vec![Bound::Trait(vec![TraitSegment {
            ident: "Fn".to_string(),
            arguments: SegmentArguments::Parenthesized(vec![path_type("i32")]),
        }])],
    }];
    f.sig.inputs = vec![typed("cb", path_type("F"))];
    let out = expand(vec![bare("mt")], NodeItem::Function(f)).ok().expect("accepted");
    assert!(out.contains("create_thread_safe_function"));
}

#[test]
fn impl_block_emits_nothing() {
    let out = expand(vec![], NodeItem::Impl("impl A {}".to_string())).ok().expect("accepted");
    assert_eq!(out, "");
}

#[test]
fn attribute_is_read_before_the_item() {
    let bad_attr = vec![MetaItem::NameValue { path: vec!["name".to_string()], lit: Lit::Other("20".to_string()), span: sp() }];
    let mut f = hello();
    f.sig.inputs = vec![FnArg::Typed(Pat::Other, Type::Other("()".to_string(), sp()), sp())];
    assert!(matches!(expand(bad_attr, NodeItem::Function(f)).map_err(|r| r.error), Err(DeriveError::NameNotString)));
}

#[test]
fn refused_argument_is_reported() {
    let mut f = hello();
    f.sig.inputs = vec![typed("t", Type::Other("(u8,)".to_string(), sp()))];
    match expand(vec![], NodeItem::Function(f)) {
        Err(refusal) => {
            assert_eq!(refusal.error, DeriveError::NotSupportedType);
            assert_eq!(refusal.message(), "not supported type");
        }
        Ok(_) => panic!("expected a refusal"),
    }
}

#[test]
fn gibberish_attribute_is_refused() {
    match expand(vec![bare("gibberish")], NodeItem::Function(hello())) {
        Err(refusal) => {
            assert_eq!(refusal.message(), "unrecognized attribute name");
            let tokens = refusal.to_compile_error().to_string();
            assert!(tokens.contains("compile_error"));
            assert!(tokens.contains("unrecognized attribute name"));
        }
        Ok(_) => panic!("expected a refusal"),
    }
}

#[test]
fn well_formedness_is_checked() {
    assert!(item_is_well_formed(&NodeItem::Function(hello())));
    let mut f = hello();
    f.sig.inputs = vec![typed("x", Type::Path(TypePath { segments: vec![], text: String::new(), span: sp() }))];
    assert!(!item_is_well_formed(&NodeItem::Function(f)));
    let mut g = hello();
    g.sig.generics = vec![TypeParam {
        ident: "F".to_string(),
        bounds: vec![Bound::Trait(vec![TraitSegment {
            ident: "Fn".to_string(),
            arguments: SegmentArguments::Parenthesized(vec![Type::Path(TypePath { segments: vec![], text: String::new(), span: sp() })]),
        }])],
    }];
    assert!(!item_is_well_formed(&NodeItem::Function(g)));
    assert!(item_is_well_formed(&NodeItem::Impl(String::new())));
}
