use nj_derive::ast::arg::{find_generic, has_receiver, ClosureType, FunctionArgType, FunctionArgs};
use nj_derive::error::DeriveError;
use nj_derive::model::{
    Bound, FnArg, ItemFn, Pat, SegmentArguments, Signature, TraitSegment, Type, TypeParam,
    TypePath, TypeReference,
};

fn path_type(name: &str) -> Type {
    Type::Path(TypePath { segments: vec![name.to_string()], text: name.to_string(), span: proc_macro2::Span::call_site() })
}

fn reference(name: &str) -> Type {
    Type::Reference(TypeReference {
        elem: Some(TypePath { segments: vec![name.to_string()], text: name.to_string(), span: proc_macro2::Span::call_site() }),
        text: format!("&{}", name),
    })
}

fn typed(name: &str, ty: Type) -> FnArg {
    FnArg::Typed(Pat::Ident(name.to_string()), ty, proc_macro2::Span::call_site())
}

fn param(name: &str, bounds: Vec<Bound>) -> TypeParam {
    TypeParam { ident: name.to_string(), bounds }
}

fn fn_bound(inputs: Vec<Type>) -> Bound {
    Bound::Trait(vec![TraitSegment { ident: "Fn".to_string(), arguments: SegmentArguments::Parenthesized(inputs) }])
}

fn item(generics: Vec<TypeParam>, inputs: Vec<FnArg>) -> ItemFn {
    ItemFn {
        sig: Signature { ident: "f".to_string(), is_async: false, has_default_output: true, generics, inputs },
        text: "fn f() {}".to_string(),
    }
}

#[test]
fn plain_arguments_are_path_arguments() {
    let f = item(vec![], vec![typed("arg1", path_type("bool")), typed("arg2", path_type("i32")), typed("arg3", path_type("String"))]);
    let args = FunctionArgs::from_ast(&f).ok().expect("accepted");
    assert!(!args.is_method());
    assert_eq!(args.args.len(), 3);
    for a in &args.args {
        assert_eq!(a.arg_index, 0);
        assert!(matches!(a.typ, FunctionArgType::Path(_)));
    }
}

#[test]
fn receiver_makes_a_method() {
    let f = item(vec![], vec![FnArg::Receiver("&self".to_string()), typed("x", path_type("i32"))]);
    assert!(has_receiver(&f.sig));
    let args = FunctionArgs::from_ast(&f).ok().expect("accepted");
    assert!(args.is_method());
    assert_eq!(args.args.len(), 1);
}

#[test]
fn closure_generic_is_a_closure() {
    let f = item(
        vec![param("F", vec![fn_bound(vec![path_type("i32")])])],
        vec![typed("cb", path_type("F")), typed("second", path_type("i32"))],
    );
    let args = FunctionArgs::from_ast(&f).ok().expect("accepted");
    match &args.args[0].typ {
        FunctionArgType::Closure(c) => {
            assert_eq!(c.ident, "cb");
            assert_eq!(c.ty.len(), 1);
        }
        _ => panic!("expected a closure"),
    }
    assert!(matches!(args.args[1].typ, FunctionArgType::Path(_)));
}

#[test]
fn other_generic_is_refused() {
    let clone = Bound::Trait(vec![TraitSegment { ident: "Clone".to_string(), arguments: SegmentArguments::Plain }]);
    let f = item(vec![param("T", vec![clone])], vec![typed("t", path_type("T"))]);
    assert!(matches!(FunctionArgs::from_ast(&f).map_err(|r| r.error), Err(DeriveError::NotSupportedClosureType)));
    assert_eq!(DeriveError::NotSupportedClosureType.message(), "not supported closure type");
}

#[test]
fn lifetime_or_missing_bound_is_no_closure() {
    let p = param("T", vec![Bound::Lifetime]);
    assert!(ClosureType::from(&"t".to_string(), &p).is_none());
    let q = param("T", vec![]);
    assert!(ClosureType::from(&"t".to_string(), &q).is_none());
    let angle = Bound::Trait(vec![TraitSegment { ident: "Into".to_string(), arguments: SegmentArguments::AngleBracketed }]);
    assert!(ClosureType::from(&"t".to_string(), &param("T", vec![angle])).is_none());
}

#[test]
fn references_are_read_by_kind() {
    let f = item(vec![], vec![typed("cb", reference("JsCallback")), typed("o", reference("MyObj"))]);
    let args = FunctionArgs::from_ast(&f).ok().expect("accepted");
    assert!(matches!(args.args[0].typ, FunctionArgType::JSCallback(_)));
    assert!(matches!(args.args[1].typ, FunctionArgType::Ref(_)));
}

#[test]
fn other_types_and_patterns_are_refused() {
    let f = item(vec![], vec![typed("t", Type::Other("(i32, i32)".to_string(), proc_macro2::Span::call_site()))]);
    assert!(matches!(FunctionArgs::from_ast(&f).map_err(|r| r.error), Err(DeriveError::NotSupportedType)));
    let g = item(vec![], vec![FnArg::Typed(Pat::Other, path_type("i32"), proc_macro2::Span::call_site())]);
    assert!(matches!(FunctionArgs::from_ast(&g).map_err(|r| r.error), Err(DeriveError::NotSupportedType)));
    assert_eq!(DeriveError::NotSupportedType.message(), "not supported type");
}

#[test]
fn first_generic_of_the_name_is_found() {
    let gens = vec![param("A", vec![]), param("F", vec![Bound::Lifetime]), param("F", vec![])];
    let found = find_generic(&gens, &"F".to_string()).expect("found");
    assert_eq!(found.bounds.len(), 1);
    assert!(find_generic(&gens, &"G".to_string()).is_none());
}
