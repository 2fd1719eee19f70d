//! Reading the arguments of the annotated function: which are plain values,
//! references, closures, or the JS callback info itself.
use vstd::prelude::*;
use crate::error::{DeriveError, Refusal};
use crate::model::{
    Bound, FnArg, ItemFn, Pat, SegmentArguments, Signature, Type, TypeParam, TypePathView,
    TypeView, clone_types, closure_bound_inputs, types_view,
};
use crate::util::{MyReferenceType, MyTypePath, is_js_callback};

verus! {

/// The index of the first generic type parameter named `name`.
pub open spec fn find_generic_index(gens: Seq<TypeParam>, name: Seq<char>) -> Option<int>
    decreases gens.len(),
{
    if gens.len() == 0 {
        None
    } else {
        match find_generic_index(gens.drop_last(), name) {
            Some(k) => Some(k),
            None => if gens.last().ident@ == name {
                Some(gens.len() - 1)
            } else {
                None
            },
        }
    }
}

/// The abstract value of a closure argument: the closure's input types and
/// the name of the argument.
pub struct ClosureView {
    pub inputs: Seq<TypeView>,
    pub ident: Seq<char>,
}

/// The abstract value of the kind of an argument.
pub enum FunctionArgTypeView {
    Path(TypePathView),
    Ref((Option<TypePathView>, Seq<char>)),
    Closure(ClosureView),
    JSCallback((Option<TypePathView>, Seq<char>)),
}

/// The abstract value of an argument.
pub struct FunctionArgView {
    pub arg_index: u32,
    pub typ: FunctionArgTypeView,
}

/// How an argument named `ident` of type `ty` is read, given the generic
/// parameters of the function: a path type that names a generic parameter is
/// a closure if that parameter is bounded by a closure trait, and refused
/// otherwise; another path type is a plain value; a reference is the JS
/// callback info if it is `&JsCallback`, a reference argument otherwise; any
/// other type is refused. A refusal is reported at the type.
pub open spec fn arg_type_outcome(ident: Seq<char>, ty: Type, gens: Seq<TypeParam>) -> Result<FunctionArgTypeView, Refusal> {
    match ty {
        Type::Path(p) => match find_generic_index(gens, p@.segments[0]) {
            Some(k) => match closure_bound_inputs(gens[k]) {
                Some(ins) => Ok(FunctionArgTypeView::Closure(ClosureView { inputs: types_view(ins), ident })),
                None => Err(Refusal { error: DeriveError::NotSupportedClosureType, span: p.span }),
            },
            None => Ok(FunctionArgTypeView::Path(p@)),
        },
        Type::Reference(r) => if is_js_callback(r@) {
            Ok(FunctionArgTypeView::JSCallback(r@))
        } else {
            Ok(FunctionArgTypeView::Ref(r@))
        },
        Type::Other(_, span) => Err(Refusal { error: DeriveError::NotSupportedType, span }),
    }
}

/// The first generic type parameter named `ident`.
pub fn find_generic<'a>(generics: &'a Vec<TypeParam>, ident: &String) -> (r: Option<&'a TypeParam>)
    ensures
        match find_generic_index(generics@, ident@) {
            Some(k) => 0 <= k < generics@.len() && r == Some(&generics@[k]),
            None => r is None,
        },
{
    let mut i: usize = 0;
    proof {
        assert(generics@.take(0) =~= Seq::<TypeParam>::empty());
    }
    while i < generics.len()
        invariant
            i <= generics.len(),
            find_generic_index(generics@.take(i as int), ident@) is None,
        decreases generics.len() - i,
    {
        proof {
            assert(generics@.take(i + 1).drop_last() =~= generics@.take(i as int));
        }
        if generics[i].ident == *ident {
            proof {
                lemma_find_generic_extend(generics@, (i + 1) as int, ident@);
            }
            return Some(&generics[i]);
        }
        i = i + 1;
    }
    proof {
        assert(generics@.take(i as int) =~= generics@);
    }
    None
}

/// Once a prefix of the parameters holds the first one named `name`, so do all longer ones.
pub proof fn lemma_find_generic_extend(gens: Seq<TypeParam>, k: int, name: Seq<char>)
    requires
        0 <= k <= gens.len(),
        find_generic_index(gens.take(k), name) is Some,
    ensures
        find_generic_index(gens, name) == find_generic_index(gens.take(k), name),
        find_generic_index(gens, name) matches Some(j) && 0 <= j < k,
    decreases gens.len() - k,
{
    lemma_find_generic_bound(gens.take(k), name);
    if k < gens.len() {
        assert(gens.take(k + 1).drop_last() =~= gens.take(k));
        lemma_find_generic_extend(gens, k + 1, name);
    } else {
        assert(gens.take(k) =~= gens);
    }
}

/// The index found is a position of the sequence, holding a parameter of that name.
pub proof fn lemma_find_generic_bound(gens: Seq<TypeParam>, name: Seq<char>)
    ensures
        find_generic_index(gens, name) matches Some(j) ==> 0 <= j < gens.len() && gens[j].ident@ == name,
    decreases gens.len(),
{
    if gens.len() > 0 {
        lemma_find_generic_bound(gens.drop_last(), name);
    }
}

/// A closure argument: the input types of its closure bound and the argument's name.
pub struct ClosureType {
    pub ty: Vec<Type>,
    pub ident: String,
}

impl View for ClosureType {
    type V = ClosureView;

    open spec fn view(&self) -> ClosureView {
        ClosureView { inputs: types_view(self.ty@), ident: self.ident@ }
    }
}

impl ClosureType {
    /// The closure that the generic parameter `param` stands for, where its
    /// first bound is a closure trait such as `Fn(i32)`.
    pub fn from(ident: &String, param: &TypeParam) -> (r: Option<ClosureType>)
        ensures
            match closure_bound_inputs(*param) {
                Some(ins) => r matches Some(c) && c@ == (ClosureView { inputs: types_view(ins), ident: ident@ })
                    && forall|j: int| 0 <= j < ins.len() ==> (#[trigger] c.ty@[j]).well_formed() == ins[j].well_formed(),
                None => r is None,
            },
    {
        if param.bounds.len() == 0 {
            return None;
        }
        match &param.bounds[0] {
            Bound::Trait(segs) => {
                if segs.len() == 0 {
                    None
                } else {
                    match &segs[0].arguments {
                        SegmentArguments::Parenthesized(inputs) => Some(
                            ClosureType { ty: clone_types(inputs), ident: ident.clone() },
                        ),
                        _ => None,
                    }
                }
            },
            Bound::Lifetime => None,
        }
    }
}

/// How an argument is read.
pub enum FunctionArgType {
    Path(MyTypePath),
    Ref(MyReferenceType),
    Closure(ClosureType),
    JSCallback(MyReferenceType),
}

impl View for FunctionArgType {
    type V = FunctionArgTypeView;

    open spec fn view(&self) -> FunctionArgTypeView {
        match self {
            FunctionArgType::Path(p) => FunctionArgTypeView::Path(p@),
            FunctionArgType::Ref(r) => FunctionArgTypeView::Ref(r@),
            FunctionArgType::Closure(c) => FunctionArgTypeView::Closure(c@),
            FunctionArgType::JSCallback(r) => FunctionArgTypeView::JSCallback(r@),
        }
    }
}

/// An argument of the annotated function.
pub struct FunctionArg {
    pub arg_index: u32,
    pub typ: FunctionArgType,
}

impl View for FunctionArg {
    type V = FunctionArgView;

    open spec fn view(&self) -> FunctionArgView {
        FunctionArgView { arg_index: self.arg_index, typ: self.typ@ }
    }
}

/// The abstract value of the outcome of reading an argument.
pub open spec fn arg_type_result_view(r: Result<FunctionArg, Refusal>) -> Result<FunctionArgTypeView, Refusal> {
    match r {
        Ok(a) => Ok(a.typ@),
        Err(e) => Err(e),
    }
}

impl FunctionArg {
    /// Reads the argument `ident: ty`.
    pub fn new(arg_index: u32, ident: &String, ty: &Type, generics: &Vec<TypeParam>) -> (r: Result<FunctionArg, Refusal>)
        requires
            ty.well_formed(),
        ensures
            arg_type_result_view(r) == arg_type_outcome(ident@, *ty, generics@),
            r matches Ok(a) ==> a.arg_index == arg_index,
    {
        match ty {
            Type::Path(path_type) => {
                let my_type = MyTypePath::new(path_type.clone_path());
                let name = match my_type.type_ident() {
                    Some(n) => n,
                    None => {
                        return Err(Refusal::new(DeriveError::NotSupportedType, path_type.span));
                    },
                };
                match find_generic(generics, &name) {
                    Some(param) => match ClosureType::from(ident, param) {
                        Some(closure) => Ok(FunctionArg { arg_index, typ: FunctionArgType::Closure(closure) }),
                        None => Err(Refusal::new(DeriveError::NotSupportedClosureType, path_type.span)),
                    },
                    None => Ok(FunctionArg { arg_index, typ: FunctionArgType::Path(my_type) }),
                }
            },
            Type::Reference(ref_type) => {
                let my_type = MyReferenceType::new(ref_type.clone_reference());
                if my_type.is_callback() {
                    Ok(FunctionArg { arg_index, typ: FunctionArgType::JSCallback(my_type) })
                } else {
                    Ok(FunctionArg { arg_index, typ: FunctionArgType::Ref(my_type) })
                }
            },
            Type::Other(_, span) => Err(Refusal::new(DeriveError::NotSupportedType, *span)),
        }
    }
}

/// Whether some input is a receiver (`self`, `&self`, `&mut self`): the function is a method.
pub open spec fn has_receiver_spec(inputs: Seq<FnArg>) -> bool {
    exists|i: int| 0 <= i < inputs.len() && inputs[i] is Receiver
}

/// Whether the signature has a receiver, which makes the function a method.
pub fn has_receiver(sig: &Signature) -> (r: bool)
    ensures
        r == has_receiver_spec(sig.inputs@),
{
    let mut i: usize = 0;
    while i < sig.inputs.len()
        invariant
            i <= sig.inputs.len(),
            forall|j: int| 0 <= j < i ==> !(sig.inputs@[j] is Receiver),
        decreases sig.inputs.len() - i,
    {
        if let FnArg::Receiver(_) = &sig.inputs[i] {
            return true;
        }
        i = i + 1;
    }
    false
}

/// How the inputs of a function are read: receivers are skipped; each typed
/// input in turn, stopping at the first that is refused. Every argument gets
/// the index 0. An argument bound by another pattern than an identifier is
/// refused at the argument.
pub open spec fn args_outcome(inputs: Seq<FnArg>, gens: Seq<TypeParam>) -> Result<Seq<FunctionArgView>, Refusal>
    decreases inputs.len(),
{
    if inputs.len() == 0 {
        Ok(Seq::empty())
    } else {
        match args_outcome(inputs.drop_last(), gens) {
            Err(e) => Err(e),
            Ok(v) => match inputs.last() {
                FnArg::Receiver(_) => Ok(v),
                FnArg::Typed(Pat::Ident(id), ty, _) => match arg_type_outcome(id@, ty, gens) {
                    Err(e) => Err(e),
                    Ok(k) => Ok(v.push(FunctionArgView { arg_index: 0, typ: k })),
                },
                FnArg::Typed(Pat::Other, _, span) => Err(Refusal { error: DeriveError::NotSupportedType, span }),
            },
        }
    }
}

/// Once a prefix of the inputs is refused, so is every longer prefix, for the same reason.
pub proof fn lemma_args_outcome_err(inputs: Seq<FnArg>, gens: Seq<TypeParam>, k: int)
    requires
        0 <= k <= inputs.len(),
        args_outcome(inputs.take(k), gens) is Err,
    ensures
        args_outcome(inputs, gens) == args_outcome(inputs.take(k), gens),
    decreases inputs.len() - k,
{
    if k < inputs.len() {
        assert(inputs.take(k + 1).drop_last() =~= inputs.take(k));
        lemma_args_outcome_err(inputs, gens, k + 1);
    } else {
        assert(inputs.take(k) =~= inputs);
    }
}

/// The arguments of the annotated function.
pub struct FunctionArgs {
    pub args: Vec<FunctionArg>,
    pub is_method: bool,
}

impl View for FunctionArgs {
    type V = (Seq<FunctionArgView>, bool);

    open spec fn view(&self) -> (Seq<FunctionArgView>, bool) {
        (self.args@.map_values(|a: FunctionArg| a@), self.is_method)
    }
}

impl FunctionArgs {
    /// Reads the arguments of a function; the first input refused decides the error.
    pub fn from_ast(input_fn: &ItemFn) -> (r: Result<FunctionArgs, Refusal>)
        requires
            input_fn.sig.inputs_well_formed(),
        ensures
            match (r, args_outcome(input_fn.sig.inputs@, input_fn.sig.generics@)) {
                (Ok(a), Ok(v)) => a@ == (v, has_receiver_spec(input_fn.sig.inputs@)),
                (Err(e), Err(f)) => e == f,
                _ => false,
            },
    {
        let sig = &input_fn.sig;
        let generics = &sig.generics;
        let mut args: Vec<FunctionArg> = Vec::new();
        let is_method = has_receiver(sig);
        let i: u32 = 0;
        let mut n: usize = 0;
        let ghost inputs = sig.inputs@;
        proof {
            assert(inputs.take(0) =~= Seq::<FnArg>::empty());
            assert(args@.map_values(|a: FunctionArg| a@) =~= Seq::<FunctionArgView>::empty());
        }
        while n < sig.inputs.len()
            invariant
                n <= sig.inputs.len(),
                inputs == sig.inputs@,
                inputs == input_fn.sig.inputs@,
                generics@ == input_fn.sig.generics@,
                i == 0,
                sig.inputs_well_formed(),
                args_outcome(inputs.take(n as int), generics@) == Ok::<Seq<FunctionArgView>, Refusal>(
                    args@.map_values(|a: FunctionArg| a@),
                ),
            decreases sig.inputs.len() - n,
        {
            proof {
                assert(inputs.take(n + 1).drop_last() =~= inputs.take(n as int));
                assert(inputs.take(n + 1).last() == inputs[n as int]);
            }
            let ghost prev = args@;
            match &sig.inputs[n] {
                FnArg::Receiver(_) => {},
                FnArg::Typed(pat, ty, arg_span) => {
                    match pat {
                        Pat::Ident(identity) => {
                            proof {
                                assert(sig.inputs@[n as int] matches FnArg::Typed(_, t, _) ==> t.well_formed());
                            }
                            match FunctionArg::new(i, identity, ty, generics) {
                                Ok(arg) => {
                                    args.push(arg);
                                    proof {
                                        assert(args@.map_values(|a: FunctionArg| a@) =~= prev.map_values(
                                            |a: FunctionArg| a@,
                                        ).push(arg@));
                                    }
                                },
                                Err(e) => {
                                    proof {
                                        assert(args_outcome(inputs.take(n + 1), generics@) == Err::<Seq<FunctionArgView>, Refusal>(e));
                                        lemma_args_outcome_err(inputs, generics@, (n + 1) as int);
                                    }
                                    return Err(e);
                                },
                            }
                        },
                        Pat::Other => {
                            proof {
                                assert(args_outcome(inputs.take(n + 1), generics@) == Err::<Seq<FunctionArgView>, Refusal>(
                                    Refusal { error: DeriveError::NotSupportedType, span: *arg_span },
                                ));
                                lemma_args_outcome_err(inputs, generics@, (n + 1) as int);
                            }
                            return Err(Refusal::new(DeriveError::NotSupportedType, *arg_span));
                        },
                    }
                },
            }
            n = n + 1;
        }
        proof {
            assert(inputs.take(n as int) =~= inputs);
        }
        Ok(FunctionArgs { args, is_method })
    }

    /// Whether the function is a method.
    pub fn is_method(&self) -> (r: bool)
        ensures
            r == self.is_method,
    {
        self.is_method
    }
}

} // verus!
