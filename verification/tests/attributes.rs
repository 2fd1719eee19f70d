use nj_derive::ast::attribute::{FunctionAttribute, FunctionAttributes};
use nj_derive::error::DeriveError;
use nj_derive::model::{Lit, MetaItem};

fn path(segments: &[&str]) -> Vec<String> {
    segments.iter().map(|s| s.to_string()).collect()
}

fn sp() -> proc_macro2::Span {
    proc_macro2::Span::call_site()
}

fn bare(segments: Vec<String>) -> MetaItem {
    MetaItem::Path { segments, span: sp(), ident_span: sp() }
}

fn name_value(path: Vec<String>, lit: Lit) -> MetaItem {
    MetaItem::NameValue { path, lit, span: sp() }
}

fn read(attr: MetaItem) -> Result<FunctionAttribute, DeriveError> {
    FunctionAttribute::from_ast(attr).map_err(|r| r.error)
}

fn read_all(attrs: Vec<MetaItem>) -> Result<FunctionAttributes, DeriveError> {
    FunctionAttributes::from_ast(attrs).map_err(|r| r.error)
}

#[test]
fn name_with_string_is_accepted() {
    match read(name_value(path(&["name"]), Lit::Str("hello2".to_string()))) {
        Ok(FunctionAttribute::Name(s)) => assert_eq!(s, "hello2"),
        _ => panic!("expected a name"),
    }
}

#[test]
fn name_with_number_is_refused() {
    let r = read(name_value(path(&["name"]), Lit::Other("20".to_string())));
    assert!(matches!(r, Err(DeriveError::NameNotString)));
    assert_eq!(DeriveError::NameNotString.message(), "name is not string");
}

#[test]
fn other_name_value_is_refused() {
    let r = read(name_value(path(&["name2"]), Lit::Str("hello".to_string())));
    assert!(matches!(r, Err(DeriveError::UnrecognizedAttribute)));
    assert_eq!(DeriveError::UnrecognizedAttribute.message(), "unrecognized attribute");
}

#[test]
fn name_anywhere_in_the_path_counts() {
    let r = read(name_value(path(&["js", "name"]), Lit::Str("x".to_string())));
    assert!(matches!(r, Ok(FunctionAttribute::Name(_))));
}

#[test]
fn gibberish_is_refused() {
    let r = read(bare(path(&["gibberish"])));
    assert!(matches!(r, Err(DeriveError::UnrecognizedAttributeName)));
    assert_eq!(DeriveError::UnrecognizedAttributeName.message(), "unrecognized attribute name");
}

#[test]
fn known_paths_are_accepted() {
    match read(bare(path(&["constructor"]))) {
        Ok(FunctionAttribute::Constructor(i)) => assert_eq!(i, "constructor"),
        _ => panic!("expected constructor"),
    }
    match read(bare(path(&["getter"]))) {
        Ok(FunctionAttribute::Getter(i)) => assert_eq!(i, "getter"),
        _ => panic!("expected getter"),
    }
    match read(bare(path(&["setter"]))) {
        Ok(FunctionAttribute::Setter(i)) => assert_eq!(i, "setter"),
        _ => panic!("expected setter"),
    }
    match read(bare(path(&["mt"]))) {
        Ok(FunctionAttribute::MT(i)) => assert_eq!(i, "mt"),
        _ => panic!("expected mt"),
    }
}

#[test]
fn first_segment_decides() {
    assert!(matches!(read(bare(path(&["mt", "x"]))), Ok(FunctionAttribute::MT(_))));
    assert!(matches!(read(bare(path(&["x", "mt"]))), Err(DeriveError::UnrecognizedAttributeName)));
}

#[test]
fn empty_path_is_invalid() {
    assert!(matches!(read(bare(Vec::new())), Err(DeriveError::InvalidAttribute)));
    assert_eq!(DeriveError::InvalidAttribute.message(), "invalid attribute");
}

#[test]
fn lists_and_literals_are_refused() {
    assert!(matches!(read(MetaItem::List { path: path(&["getter"]), span: sp() }), Err(DeriveError::UnrecognizedAttribute)));
    assert!(matches!(read(MetaItem::Lit { lit: Lit::Str("x".to_string()), span: sp() }), Err(DeriveError::UnrecognizedAttribute)));
}

#[test]
fn all_attributes_are_read_in_order() {
    let attrs = read_all(vec![
        bare(path(&["constructor"])),
        name_value(path(&["name"]), Lit::Str("n".to_string())),
    ])
    .ok()
    .expect("accepted");
    assert_eq!(attrs.attrs.len(), 2);
    assert!(matches!(attrs.attrs[0], FunctionAttribute::Constructor(_)));
    assert!(matches!(attrs.attrs[1], FunctionAttribute::Name(_)));
}

#[test]
fn first_refused_attribute_decides_the_error() {
    let r = read_all(vec![
        bare(path(&["mt"])),
        MetaItem::Lit { lit: Lit::Other("1".to_string()), span: sp() },
        bare(path(&["gibberish"])),
    ]);
    assert!(matches!(r, Err(DeriveError::UnrecognizedAttribute)));
}

#[test]
fn no_attributes_is_fine() {
    let attrs = read_all(Vec::new()).ok().expect("accepted");
    assert!(attrs.attrs.is_empty());
    assert!(!attrs.is_constructor());
    assert!(!attrs.is_multi_threaded());
}

#[test]
fn constructor_and_mt_are_found_among_the_attributes() {
    let attrs = read_all(vec![
        name_value(path(&["name"]), Lit::Str("n".to_string())),
        bare(path(&["mt"])),
    ])
    .ok()
    .expect("accepted");
    assert!(attrs.is_multi_threaded());
    assert!(!attrs.is_constructor());
    let attrs = read_all(vec![bare(path(&["getter"])), bare(path(&["constructor"]))]).ok().expect("accepted");
    assert!(attrs.is_constructor());
    assert!(!attrs.is_multi_threaded());
}

#[test]
fn refusal_carries_its_message() {
    let r = FunctionAttribute::from_ast(bare(path(&["gibberish"])));
    match r {
        Err(refusal) => assert_eq!(refusal.message(), "unrecognized attribute name"),
        Ok(_) => panic!("expected a refusal"),
    }
}
