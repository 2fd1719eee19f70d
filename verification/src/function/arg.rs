//! The arguments of a function as the code generator reads them, and the
//! code that moves each one from JS to Rust.
use vstd::prelude::*;
use crate::ast::arg::{FunctionArgTypeView, arg_type_outcome, find_generic, find_generic_index};
use crate::function::closure::{
    ClosureMeta, ClosureType, async_support, callback_type, closure_expr, thread_safe_fn,
};
use crate::function::context::{ContextView, FunctionContext};
use crate::model::{Type, TypeParam, TypePathView, closure_bound_inputs, types_view};
use crate::text::{decimal, push_decimal};
use crate::util::{MyReferenceType, MyTypePath, arg_var, reference_name, rust_arg_var};

verus! {

/// The abstract value of an argument as the code generator reads it.
pub enum ArgView {
    Path(TypePathView),
    Ref((Option<TypePathView>, Seq<char>)),
    Closure(ClosureMeta),
    JSCallback((Option<TypePathView>, Seq<char>)),
}

/// The kind of an argument, with closures marked as multi-threaded or not.
pub open spec fn arg_meta(k: FunctionArgTypeView, multi_threaded: bool) -> ArgView {
    match k {
        FunctionArgTypeView::Path(p) => ArgView::Path(p),
        FunctionArgTypeView::Ref(r) => ArgView::Ref(r),
        FunctionArgTypeView::Closure(c) => ArgView::Closure(
            ClosureMeta { inputs: c.inputs, ident: c.ident, multi_threaded },
        ),
        FunctionArgTypeView::JSCallback(r) => ArgView::JSCallback(r),
    }
}

/// Every closure bound of the parameters has path input types with at least one segment.
pub open spec fn generics_well_formed(gens: Seq<TypeParam>) -> bool {
    forall|i: int| 0 <= i < gens.len() ==> (#[trigger] closure_bound_inputs(gens[i]) matches Some(ts)
        ==> forall|j: int| 0 <= j < ts.len() ==> #[trigger] ts[j].well_formed())
}

/// `arg<i>: <type>,`: the field for the argument at `i` in a constructor;
/// a compile error for arguments that a constructor cannot take.
pub open spec fn rust_fn_arg(a: ArgView, i: nat) -> Seq<char> {
    match a {
        ArgView::Path(p) => "arg"@ + decimal(i) + ": "@ + p.text + ","@,
        ArgView::Closure(_) => "compile_error!(\"closure can't be used in constructor \")"@,
        ArgView::JSCallback(_) => "compile_error!(\"JsCallback can't be used in constructor\")"@,
        ArgView::Ref(_) => "compile_error!(\"ref can't be used in constructor\")"@,
    }
}

/// `arg<i>,`
pub open spec fn struct_arg(i: nat) -> Seq<char> {
    "arg"@ + decimal(i) + ","@
}

/// `let r_arg<i> = js_cb.<getter>::<T>(<i>)?;` for a type named `T`; a compile
/// error where the type has no name.
pub open spec fn get_value_stmt(name: Option<Seq<char>>, i: nat, getter: Seq<char>) -> Seq<char> {
    match name {
        Some(t) => "let "@ + arg_var(i) + " = js_cb."@ + getter + "::<"@ + t + ">("@ + decimal(i) + ")?;\n"@,
        None => "compile_error!(\"not supported type \")"@,
    }
}

/// The statement that reads the JS argument at position `i` into `r_arg<i>`.
pub open spec fn js_to_rust(a: ArgView, i: nat, ctx: ContextView) -> Seq<char> {
    match a {
        ArgView::Closure(c) => if ctx.async_or_mt() {
            thread_safe_fn(c, i, ctx.name)
        } else {
            get_value_stmt(Some(callback_type(c.multi_threaded)), i, "get_value"@)
        },
        ArgView::Path(p) => get_value_stmt(p.name(), i, "get_value"@),
        ArgView::Ref(r) => get_value_stmt(reference_name(r), i, "get_ref"@),
        ArgView::JSCallback(_) => "compile_error!(\"should not be converted from JS\")"@,
    }
}

/// What is passed to the Rust function for an argument read into `r_arg<i>`:
/// the variable itself, a closure that calls it, or the callback info.
pub open spec fn arg_input(a: ArgView, i: nat, ctx: ContextView) -> Seq<char> {
    match a {
        ArgView::Path(_) => arg_var(i) + ","@,
        ArgView::Ref(_) => arg_var(i) + ","@,
        ArgView::Closure(c) => closure_expr(c, arg_var(i), ctx.async_or_mt()),
        ArgView::JSCallback(_) => "&js_cb,"@,
    }
}

/// The definitions that passing an argument adds beside the wrapper.
pub open spec fn arg_input_defs(a: ArgView, ctx: ContextView) -> Seq<Seq<char>> {
    match a {
        ArgView::Closure(c) => if ctx.async_or_mt() { seq![async_support(c)] } else { Seq::empty() },
        _ => Seq::empty(),
    }
}

/// The callback info itself is not a JS argument.
pub open spec fn is_callback_view(a: ArgView) -> bool {
    a is JSCallback
}

/// An argument of the function.
pub enum FunctionArg {
    Path(MyTypePath),
    Ref(MyReferenceType),
    Closure(ClosureType),
    JSCallback(MyReferenceType),
}

impl View for FunctionArg {
    type V = ArgView;

    open spec fn view(&self) -> ArgView {
        match self {
            FunctionArg::Path(p) => ArgView::Path(p@),
            FunctionArg::Ref(r) => ArgView::Ref(r@),
            FunctionArg::Closure(c) => ArgView::Closure(c@),
            FunctionArg::JSCallback(r) => ArgView::JSCallback(r@),
        }
    }
}

/// The generic parameters of the function.
pub struct GenerericInfo<'a> {
    pub generics: &'a Vec<TypeParam>,
}

impl<'a> GenerericInfo<'a> {
    pub fn new(generics: &'a Vec<TypeParam>) -> (r: GenerericInfo<'a>)
        ensures
            r.generics == generics,
    {
        GenerericInfo { generics }
    }

    /// The first generic type parameter named `ident`.
    pub fn find_generic(&self, ident: &String) -> (r: Option<&'a TypeParam>)
        ensures
            match find_generic_index(self.generics@, ident@) {
                Some(k) => 0 <= k < self.generics@.len() && r == Some(&self.generics@[k]),
                None => r is None,
            },
    {
        find_generic(self.generics, ident)
    }
}

impl FunctionArg {
    /// Closure arguments have well-formed input types.
    pub open spec fn well_formed(&self) -> bool {
        match self {
            FunctionArg::Closure(c) => c.well_formed(),
            _ => true,
        }
    }

    /// Reads the argument `ident: ty`; none where the type is not supported.
    pub fn new(ident: &String, ty: &Type, generics: GenerericInfo, multi_threaded: bool) -> (r: Option<FunctionArg>)
        requires
            ty.well_formed(),
            generics_well_formed(generics.generics@),
        ensures
            match arg_type_outcome(ident@, *ty, generics.generics@) {
                Ok(k) => r matches Some(a) && a@ == arg_meta(k, multi_threaded) && a.well_formed(),
                Err(_) => r is None,
            },
    {
        match ty {
            Type::Path(path_type) => {
                let my_type = MyTypePath::new(path_type.clone_path());
                let name = match my_type.type_ident() {
                    Some(n) => n,
                    None => {
                        return None;
                    },
                };
                match generics.find_generic(&name) {
                    Some(param) => {
                        proof {
                            let k = find_generic_index(generics.generics@, name@)->Some_0;
                            assert(closure_bound_inputs(generics.generics@[k]) matches Some(ts) ==> forall|j: int| 0 <= j < ts.len() ==> #[trigger] ts[j].well_formed());
                        }
                        match ClosureType::from(ident, param, multi_threaded) {
                            Some(closure) => {
                                proof {
                                    let k = find_generic_index(generics.generics@, name@)->Some_0;
                                    let ins = closure_bound_inputs(*param)->Some_0;
                                    assert(closure.ty@.len() == types_view(closure.ty@).len());
                                    assert(ins.len() == types_view(ins).len());
                                    assert forall|j: int| 0 <= j < closure.ty@.len() implies (#[trigger] closure.ty@[j]).well_formed() by {
                                        assert(ins[j].well_formed());
                                    }
                                }
                                Some(FunctionArg::Closure(closure))
                            },
                            None => None,
                        }
                    },
                    None => Some(FunctionArg::Path(my_type)),
                }
            },
            Type::Reference(ref_type) => {
                let my_type = MyReferenceType::new(ref_type.clone_reference());
                if my_type.is_callback() {
                    Some(FunctionArg::JSCallback(my_type))
                } else {
                    Some(FunctionArg::Ref(my_type))
                }
            },
            Type::Other(_, _) => None,
        }
    }

    /// The field for this argument at `index` in a constructor.
    pub fn as_rust_fn_arg(&self, index: usize) -> (r: String)
        ensures
            r@ == rust_fn_arg(self@, index as nat),
    {
        match self {
            FunctionArg::Path(ty) => {
                let mut s = String::from_str("arg");
                push_decimal(&mut s, index as u64);
                s.append(": ");
                s.append(ty.inner().text.as_str());
                s.append(",");
                s
            },
            FunctionArg::Closure(_) => String::from_str("compile_error!(\"closure can't be used in constructor \")"),
            FunctionArg::JSCallback(_) => String::from_str("compile_error!(\"JsCallback can't be used in constructor\")"),
            FunctionArg::Ref(_) => String::from_str("compile_error!(\"ref can't be used in constructor\")"),
        }
    }

    /// `arg<index>,`
    pub fn as_struct_arg(&self, index: usize) -> (r: String)
        ensures
            r@ == struct_arg(index as nat),
    {
        let mut s = String::from_str("arg");
        push_decimal(&mut s, index as u64);
        s.append(",");
        s
    }

    /// What is passed to the Rust function for this argument; the index
    /// moves on for every argument but the callback info.
    pub fn as_arg_token_stream(&self, index: &mut usize, ctx: &mut FunctionContext) -> (r: String)
        requires
            self.well_formed(),
            *old(index) < usize::MAX,
        ensures
            r@ == arg_input(self@, *old(index) as nat, old(ctx)@),
            final(ctx)@ == old(ctx)@.with_cb_args(arg_input_defs(self@, old(ctx)@)),
            *final(index) == *old(index) + (if is_callback_view(self@) { 0int } else { 1int }),
    {
        match self {
            FunctionArg::Path(t) => {
                let output = t.as_arg_token_stream(*index);
                *index = *index + 1;
                proof { assert(ctx@.with_cb_args(Seq::empty()) =~= ctx@); }
                output
            },
            FunctionArg::Ref(t) => {
                let output = t.as_arg_token_stream(*index);
                *index = *index + 1;
                proof { assert(ctx@.with_cb_args(Seq::empty()) =~= ctx@); }
                output
            },
            FunctionArg::Closure(t) => {
                let arg_name = rust_arg_var(*index);
                let output = t.as_arg_token_stream(*index, &arg_name, ctx);
                *index = *index + 1;
                output
            },
            FunctionArg::JSCallback(_) => {
                proof { assert(ctx@.with_cb_args(Seq::empty()) =~= ctx@); }
                String::from_str("&js_cb,")
            },
        }
    }

    /// Whether this is the callback info, which is no JS argument.
    pub fn is_callback(&self) -> (r: bool)
        ensures
            r == is_callback_view(self@),
    {
        match self {
            FunctionArg::JSCallback(_) => true,
            _ => false,
        }
    }

    /// The statement that reads the JS argument at `arg_index` into `r_arg<arg_index>`.
    pub fn js_to_rust_token_stream(&self, arg_index: usize, ctx: &FunctionContext) -> (r: String)
        ensures
            r@ == js_to_rust(self@, arg_index as nat, ctx@),
    {
        match self {
            FunctionArg::Closure(ty) => {
                if ctx.is_async {
                    ty.generate_as_async_token_stream(arg_index, ctx)
                } else if ctx.is_multi_threaded {
                    ty.generate_as_async_token_stream(arg_index, ctx)
                } else {
                    rust_value(Some(ty.type_ident()), arg_index)
                }
            },
            FunctionArg::Path(ty) => rust_value(ty.type_ident(), arg_index),
            FunctionArg::Ref(ty) => rust_ref(ty.type_ident(), arg_index),
            FunctionArg::JSCallback(_) => String::from_str("compile_error!(\"should not be converted from JS\")"),
        }
    }
}

/// Appends `let r_arg<index> = js_cb.<getter>::<T>(<index>)?;`.
fn get_value_text(type_ident_text: String, index: usize, getter: &str) -> (r: String)
    ensures
        r@ == get_value_stmt(Some(type_ident_text@), index as nat, getter@),
{
    let mut s = String::from_str("let ");
    s.append(rust_arg_var(index).as_str());
    s.append(" = js_cb.");
    s.append(getter);
    s.append("::<");
    s.append(type_ident_text.as_str());
    s.append(">(");
    push_decimal(&mut s, index as u64);
    s.append(")?;\n");
    assert(s@ =~= get_value_stmt(Some(type_ident_text@), index as nat, getter@));
    s
}

/// The statement that reads the JS argument at `index` as a value of the named type.
pub fn rust_value(possible_type_ident: Option<String>, index: usize) -> (r: String)
    ensures
        r@ == get_value_stmt(crate::text::opt_view(possible_type_ident), index as nat, "get_value"@),
{
    match possible_type_ident {
        Some(type_ident_text) => get_value_text(type_ident_text, index, "get_value"),
        None => String::from_str("compile_error!(\"not supported type \")"),
    }
}

/// The statement that reads the JS argument at `index` as a reference to the named type.
pub fn rust_ref(possible_type_ident: Option<String>, index: usize) -> (r: String)
    ensures
        r@ == get_value_stmt(crate::text::opt_view(possible_type_ident), index as nat, "get_ref"@),
{
    match possible_type_ident {
        Some(type_ident_text) => get_value_text(type_ident_text, index, "get_ref"),
        None => String::from_str("compile_error!(\"not supported type \")"),
    }
}

} // verus!
