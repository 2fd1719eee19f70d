//! The parts of a Rust function item and of attribute arguments that the
//! analysis reads, held as plain values.
//!
//! Each type mirrors the syntax node of the same role: a path is given by the
//! identifiers of its segments, a type by its kind and its source text. The
//! nodes at which a refusal is reported carry their source span, an opaque
//! `proc_macro2::Span`.
use vstd::prelude::*;

verus! {

#[verifier::external_type_specification]
#[verifier::external_body]
pub struct ExSpan(proc_macro2::Span);

/// A literal in attribute arguments.
pub enum Lit {
    /// A string literal, with its value.
    Str(String),
    /// Any other literal, with its source text.
    Other(String),
}

/// One item of the attribute arguments `#[node_bindgen(...)]`.
pub enum MetaItem {
    /// A bare path such as `constructor`, given by its segment identifiers,
    /// with the span of the path and that of its first identifier (the
    /// path's own span where it has no segment).
    Path { segments: Vec<String>, span: proc_macro2::Span, ident_span: proc_macro2::Span },
    /// A name-value pair such as `name = "hello"`, with the pair's span.
    NameValue { path: Vec<String>, lit: Lit, span: proc_macro2::Span },
    /// A list such as `getter(a, b)`, given by its path, with the list's span.
    List { path: Vec<String>, span: proc_macro2::Span },
    /// A bare literal, with its span.
    Lit { lit: Lit, span: proc_macro2::Span },
}

/// A path type such as `i32` or `std::string::String`.
pub struct TypePath {
    /// The identifiers of the path's segments, in order.
    pub segments: Vec<String>,
    /// The type's source text.
    pub text: String,
    /// The type's span.
    pub span: proc_macro2::Span,
}

/// A reference type such as `&JsCallback` or `&mut Foo`.
pub struct TypeReference {
    /// The referenced type, where it is a path type.
    pub elem: Option<TypePath>,
    /// The type's source text.
    pub text: String,
}

/// The type of a function argument or of a closure parameter.
pub enum Type {
    Path(TypePath),
    Reference(TypeReference),
    /// Any other type (tuple, slice, ...), with its source text and span.
    Other(String, proc_macro2::Span),
}

/// What follows the identifier of a segment in a trait bound.
pub enum SegmentArguments {
    /// No arguments.
    Plain,
    /// `<...>`
    AngleBracketed,
    /// `(A, B) -> C`, with the input types; the form of `Fn(A, B)`.
    Parenthesized(Vec<Type>),
}

/// A segment of the path of a trait bound.
pub struct TraitSegment {
    pub ident: String,
    pub arguments: SegmentArguments,
}

/// A bound of a generic type parameter.
pub enum Bound {
    /// A trait bound, given by the segments of its path.
    Trait(Vec<TraitSegment>),
    /// A lifetime bound such as `'a`.
    Lifetime,
}

/// A generic type parameter such as `F: Fn(i32)`.
pub struct TypeParam {
    pub ident: String,
    pub bounds: Vec<Bound>,
}

/// The pattern that binds a typed argument.
pub enum Pat {
    /// A plain identifier.
    Ident(String),
    /// Any other pattern (tuple, wildcard, ...).
    Other,
}

/// An input of a function signature.
pub enum FnArg {
    /// `self`, `&self` or `&mut self`, with its source text.
    Receiver(String),
    /// `pat: ty`, with the span of the whole argument.
    Typed(Pat, Type, proc_macro2::Span),
}

/// A function signature.
pub struct Signature {
    /// The function's name.
    pub ident: String,
    /// Whether the function is `async`.
    pub is_async: bool,
    /// Whether the function has no return type (returns `()`).
    pub has_default_output: bool,
    /// The generic type parameters, in order.
    pub generics: Vec<TypeParam>,
    /// The inputs, in order.
    pub inputs: Vec<FnArg>,
}

/// A function item: its signature and its whole source text.
pub struct ItemFn {
    pub sig: Signature,
    pub text: String,
}

/// The abstract value of a path type: segment identifiers and source text.
pub struct TypePathView {
    pub segments: Seq<Seq<char>>,
    pub text: Seq<char>,
}

/// The abstract value of a type.
pub enum TypeView {
    Path(TypePathView),
    Reference(Option<TypePathView>, Seq<char>),
    Other(Seq<char>),
}

impl View for TypePath {
    type V = TypePathView;

    open spec fn view(&self) -> TypePathView {
        TypePathView { segments: self.segments.deep_view(), text: self.text@ }
    }
}

impl View for TypeReference {
    type V = (Option<TypePathView>, Seq<char>);

    open spec fn view(&self) -> (Option<TypePathView>, Seq<char>) {
        (
            match self.elem {
                Some(p) => Some(p@),
                None => None,
            },
            self.text@,
        )
    }
}

impl View for Type {
    type V = TypeView;

    open spec fn view(&self) -> TypeView {
        match self {
            Type::Path(p) => TypeView::Path(p@),
            Type::Reference(r) => TypeView::Reference(r@.0, r@.1),
            Type::Other(t, _) => TypeView::Other(t@),
        }
    }
}

/// The abstract value of a sequence of types.
pub open spec fn types_view(ts: Seq<Type>) -> Seq<TypeView> {
    ts.map_values(|t: Type| t@)
}

impl TypePathView {
    /// The identifier that names the type: that of its first segment.
    pub open spec fn name(self) -> Option<Seq<char>> {
        if self.segments.len() > 0 {
            Some(self.segments[0])
        } else {
            None
        }
    }
}

impl TypePath {
    /// A path type has at least one segment.
    pub open spec fn well_formed(&self) -> bool {
        self.segments.len() > 0
    }

    pub fn clone_path(&self) -> (r: TypePath)
        ensures
            r@ == self@,
            r.segments.len() == self.segments.len(),
            r.span == self.span,
    {
        let segments = self.segments.clone();
        proof {
            assert(segments.deep_view() =~= self.segments.deep_view());
        }
        TypePath { segments, text: self.text.clone(), span: self.span }
    }
}

impl TypeReference {
    pub fn clone_reference(&self) -> (r: TypeReference)
        ensures
            r@ == self@,
    {
        let elem = match &self.elem {
            Some(p) => Some(p.clone_path()),
            None => None,
        };
        TypeReference { elem, text: self.text.clone() }
    }
}

impl Type {
    /// A path type, where the type is one, has at least one segment.
    pub open spec fn well_formed(&self) -> bool {
        match self {
            Type::Path(p) => p.well_formed(),
            _ => true,
        }
    }

    /// Whether the type is well formed.
    pub fn is_well_formed(&self) -> (r: bool)
        ensures
            r == self.well_formed(),
    {
        match self {
            Type::Path(p) => p.segments.len() > 0,
            _ => true,
        }
    }

    pub fn clone_type(&self) -> (r: Type)
        ensures
            r@ == self@,
            r.well_formed() == self.well_formed(),
    {
        match self {
            Type::Path(p) => Type::Path(p.clone_path()),
            Type::Reference(r) => Type::Reference(r.clone_reference()),
            Type::Other(t, sp) => Type::Other(t.clone(), *sp),
        }
    }
}

/// The input types of a closure bound, where the first bound of a generic
/// parameter is a trait whose first segment has parenthesized arguments
/// (`F: Fn(A, B)`); none otherwise.
pub open spec fn closure_bound_inputs(param: TypeParam) -> Option<Seq<Type>> {
    if param.bounds@.len() == 0 {
        None
    } else {
        match param.bounds@[0] {
            Bound::Trait(segs) => {
                if segs@.len() == 0 {
                    None
                } else {
                    match segs@[0].arguments {
                        SegmentArguments::Parenthesized(inputs) => Some(inputs@),
                        _ => None,
                    }
                }
            },
            Bound::Lifetime => None,
        }
    }
}

impl Signature {
    /// The types of the typed inputs that are path types have at least one segment.
    pub open spec fn inputs_well_formed(&self) -> bool {
        forall|i: int| 0 <= i < self.inputs@.len() ==> (#[trigger] self.inputs@[i] matches FnArg::Typed(_, t, _) ==> t.well_formed())
    }

    /// Every path type that the code generator reads has at least one segment:
    /// the types of the typed inputs, and the inputs of closure bounds.
    pub open spec fn well_formed(&self) -> bool {
        &&& self.inputs_well_formed()
        &&& forall|i: int| 0 <= i < self.generics@.len() ==> (#[trigger] closure_bound_inputs(self.generics@[i]) matches Some(ts) ==> forall|j: int| 0 <= j < ts.len() ==> #[trigger] ts[j].well_formed())
    }
}

/// Every type of a list is well formed.
pub open spec fn all_well_formed(ts: Seq<Type>) -> bool {
    forall|j: int| 0 <= j < ts.len() ==> #[trigger] ts[j].well_formed()
}

/// Whether every type of a list is well formed.
pub fn types_well_formed(ts: &Vec<Type>) -> (r: bool)
    ensures
        r == all_well_formed(ts@),
{
    let mut i: usize = 0;
    while i < ts.len()
        invariant
            i <= ts.len(),
            forall|j: int| 0 <= j < i ==> #[trigger] ts@[j].well_formed(),
        decreases ts.len() - i,
    {
        if !ts[i].is_well_formed() {
            return false;
        }
        i = i + 1;
    }
    true
}

/// Whether the inputs of the closure bound of a parameter, where it has one, are well formed.
pub fn closure_bound_well_formed(param: &TypeParam) -> (r: bool)
    ensures
        r == match closure_bound_inputs(*param) {
            Some(ts) => all_well_formed(ts),
            None => true,
        },
{
    if param.bounds.len() == 0 {
        return true;
    }
    match &param.bounds[0] {
        Bound::Trait(segs) => {
            if segs.len() == 0 {
                true
            } else {
                match &segs[0].arguments {
                    SegmentArguments::Parenthesized(inputs) => types_well_formed(inputs),
                    _ => true,
                }
            }
        },
        Bound::Lifetime => true,
    }
}

impl Signature {
    /// Whether the signature is well formed.
    pub fn is_well_formed(&self) -> (r: bool)
        ensures
            r == self.well_formed(),
    {
        let mut i: usize = 0;
        while i < self.inputs.len()
            invariant
                i <= self.inputs.len(),
                forall|j: int| 0 <= j < i ==> (#[trigger] self.inputs@[j] matches FnArg::Typed(_, t, _) ==> t.well_formed()),
            decreases self.inputs.len() - i,
        {
            if let FnArg::Typed(_, t, _) = &self.inputs[i] {
                if !t.is_well_formed() {
                    return false;
                }
            }
            i = i + 1;
        }
        let mut k: usize = 0;
        while k < self.generics.len()
            invariant
                k <= self.generics.len(),
                self.inputs_well_formed(),
                forall|j: int| 0 <= j < k ==> (#[trigger] closure_bound_inputs(self.generics@[j]) matches Some(ts) ==> forall|m: int| 0 <= m < ts.len() ==> #[trigger] ts[m].well_formed()),
            decreases self.generics.len() - k,
        {
            if !closure_bound_well_formed(&self.generics[k]) {
                return false;
            }
            k = k + 1;
        }
        true
    }
}

/// Clones a list of types.
pub fn clone_types(ts: &Vec<Type>) -> (r: Vec<Type>)
    ensures
        types_view(r@) == types_view(ts@),
        r@.len() == ts@.len(),
        forall|j: int| 0 <= j < ts@.len() ==> (#[trigger] r@[j]).well_formed() == ts@[j].well_formed(),
{
    let mut r: Vec<Type> = Vec::new();
    let mut i: usize = 0;
    while i < ts.len()
        invariant
            i <= ts.len(),
            r@.len() == i,
            forall|j: int| 0 <= j < i ==> (#[trigger] r@[j])@ == ts@[j]@,
            forall|j: int| 0 <= j < i ==> (#[trigger] r@[j]).well_formed() == ts@[j].well_formed(),
        decreases ts.len() - i,
    {
        r.push(ts[i].clone_type());
        i = i + 1;
    }
    assert(types_view(r@) =~= types_view(ts@));
    r
}

} // verus!
