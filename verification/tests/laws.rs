use nj_derive::ast::arg::FunctionArgs;
use nj_derive::function::metadata::FunctionArgMetadata;
use nj_derive::expand::{expand, NodeItem};
use nj_derive::function::{generate_function, FunctionAst};
use nj_derive::model::{
    Bound, FnArg, ItemFn, MetaItem, Pat, SegmentArguments, Signature, TraitSegment, Type,
    TypeParam, TypePath,
};

fn path_type(name: &str) -> Type {
    Type::Path(TypePath { segments: vec![name.to_string()], text: name.to_string(), span: proc_macro2::Span::call_site() })
}

fn typed(name: &str, ty: Type) -> FnArg {
    FnArg::Typed(Pat::Ident(name.to_string()), ty, proc_macro2::Span::call_site())
}

fn closure_param(name: &str, inputs: Vec<Type>) -> TypeParam {
    TypeParam {
        ident: name.to_string(),
        bounds: vec![Bound::Trait(vec![TraitSegment {
            ident: "Fn".to_string(),
            arguments: SegmentArguments::Parenthesized(inputs),
        }])],
    }
}

fn item(name: &str, is_async: bool, generics: Vec<TypeParam>, inputs: Vec<FnArg>) -> ItemFn {
    ItemFn {
        sig: Signature { ident: name.to_string(), is_async, has_default_output: true, generics, inputs },
        text: format!("fn {}() {{}}", name),
    }
}

#[test]
fn registered_property_calls_the_defined_wrapper() {
    let f = item("add_two", false, vec![], vec![typed("a", path_type("i32"))]);
    let out = FunctionAst::from_ast(&f, vec![]).as_token_stream().ok().expect("accepted");
    assert!(out.starts_with("#[no_mangle]\npub extern \"C\" fn n_add_two("));
    assert!(out.contains("() {\nlet property = node_bindgen::core::Property::new(\"addTwo\").method(n_add_two)"));
}

#[test]
fn both_readers_accept_and_refuse_alike() {
    let clone = Bound::Trait(vec![TraitSegment { ident: "Clone".to_string(), arguments: SegmentArguments::Plain }]);
    let cases = vec![
        item("a", false, vec![], vec![typed("x", path_type("i32"))]),
        item("b", false, vec![closure_param("F", vec![path_type("i32")])], vec![typed("cb", path_type("F"))]),
        item("c", false, vec![TypeParam { ident: "T".to_string(), bounds: vec![clone] }], vec![typed("t", path_type("T"))]),
        item("d", false, vec![], vec![typed("t", Type::Other("[u8; 4]".to_string(), proc_macro2::Span::call_site()))]),
        item("e", false, vec![], vec![FnArg::Typed(Pat::Other, path_type("i32"), proc_macro2::Span::call_site())]),
        item("f", false, vec![], vec![FnArg::Receiver("self".to_string())]),
    ];
    let expected = [true, true, false, false, false, true];
    for (f, ok) in cases.iter().zip(expected.iter()) {
        assert_eq!(FunctionArgs::from_ast(f).is_ok(), *ok);
        assert_eq!(FunctionArgMetadata::parse(&f.sig, false).is_ok(), *ok);
        assert_eq!(FunctionArgMetadata::parse(&f.sig, true).is_ok(), *ok);
    }
}

#[test]
fn one_definition_per_closure_when_async() {
    let f = item(
        "two",
        true,
        vec![closure_param("F", vec![path_type("i32")]), closure_param("G", vec![])],
        vec![typed("f", path_type("F")), typed("g", path_type("G"))],
    );
    let out = FunctionAst::from_ast(&f, vec![]).as_token_stream().ok().expect("accepted");
    assert_eq!(out.matches("#[derive(Debug)]\nstruct Arg").count(), 2);
    assert!(out.contains("struct Argf {\narg0: i32,}\n"));
    assert!(out.contains("struct Argg {\n}\n"));
    let sync = item("two", false, vec![closure_param("F", vec![path_type("i32")])], vec![typed("f", path_type("F"))]);
    let out2 = FunctionAst::from_ast(&sync, vec![]).as_token_stream().ok().expect("accepted");
    assert_eq!(out2.matches("#[derive(Debug)]").count(), 0);
}

#[test]
fn mt_attribute_anywhere_in_a_path_counts() {
    let f = item("m", false, vec![closure_param("F", vec![])], vec![typed("f", path_type("F"))]);
    let out = FunctionAst::from_ast(
        &f,
        vec![MetaItem::Path {
            segments: vec!["x".to_string(), "mt".to_string()],
            span: proc_macro2::Span::call_site(),
            ident_span: proc_macro2::Span::call_site(),
        }],
    )
        .as_token_stream()
        .ok()
        .expect("accepted");
    assert!(out.contains("create_thread_safe_function"));
}

#[test]
fn both_readers_see_methods_alike() {
    let plain = item("p", false, vec![], vec![typed("x", path_type("i32"))]);
    let method = item("m", false, vec![], vec![typed("x", path_type("i32")), FnArg::Receiver("&self".to_string())]);
    for (f, is_method) in [(plain, false), (method, true)] {
        let args = FunctionArgs::from_ast(&f).ok().expect("accepted");
        let meta = FunctionArgMetadata::parse(&f.sig, false).ok().expect("accepted");
        assert_eq!(args.is_method(), is_method);
        assert_eq!(meta.is_method(), is_method);
    }
}

#[test]
fn constructor_value_and_invocation_name_the_same_fields() {
    let f = item("c", false, vec![], vec![typed("a", path_type("i32")), typed("b", path_type("u8"))]);
    let meta = FunctionArgMetadata::parse(&f.sig, false).ok().expect("accepted");
    assert_eq!(meta.constructor_new(), meta.as_constructor_invocation());
}

#[test]
fn expansion_agrees_with_the_generator() {
    let make = || {
        item("pick", false, vec![closure_param("F", vec![path_type("i32")])], vec![typed("f", path_type("F")), typed("n", path_type("i32"))])
    };
    let bare = |names: &[&str]| -> Vec<MetaItem> {
        names
            .iter()
            .map(|n| MetaItem::Path {
                segments: vec![n.to_string()],
                span: proc_macro2::Span::call_site(),
                ident_span: proc_macro2::Span::call_site(),
            })
            .collect()
    };
    for names in [&[][..], &["mt"][..], &["constructor"][..], &["getter", "mt"][..]] {
        let emitted = expand(bare(names), NodeItem::Function(make())).ok().expect("accepted");
        let generated = generate_function(make(), bare(names)).ok().expect("accepted");
        assert_eq!(emitted, generated);
    }
}
