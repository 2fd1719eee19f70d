//! The arguments of a function as a whole: how many JS arguments it takes,
//! how they are read, and how the Rust function is called with them.
use vstd::prelude::*;
use crate::ast::arg::arg_type_outcome;
use crate::error::DeriveError;
use crate::function::arg::{
    ArgView, FunctionArg, GenerericInfo, arg_input, arg_input_defs, arg_meta, generics_well_formed,
    is_callback_view, js_to_rust, rust_fn_arg, struct_arg,
};
use crate::function::context::{ContextView, FunctionContext};
use crate::model::{FnArg, Pat, Signature, TypeParam};
use crate::text::{concat_all, decimal, numbered, numbered2, push_all, push_decimal, push_numbered, push_numbered2};

verus! {

/// The abstract values of a list of arguments.
pub open spec fn args_view(args: Seq<FunctionArg>) -> Seq<ArgView> {
    args.map_values(|a: FunctionArg| a@)
}

/// The number of JS arguments: the arguments other than the callback info.
pub open spec fn nc_count(args: Seq<ArgView>) -> nat
    decreases args.len(),
{
    if args.len() == 0 {
        0
    } else {
        nc_count(args.drop_last()) + if is_callback_view(args.last()) { 0nat } else { 1nat }
    }
}

/// The fields of a constructor, one for each JS argument, numbered among the JS arguments.
pub open spec fn constructor_args_text(args: Seq<ArgView>) -> Seq<char>
    decreases args.len(),
{
    if args.len() == 0 {
        Seq::empty()
    } else {
        constructor_args_text(args.drop_last()) + if is_callback_view(args.last()) {
            Seq::empty()
        } else {
            rust_fn_arg(args.last(), nc_count(args.drop_last()))
        }
    }
}

/// `arg0,arg1,...` for the JS arguments.
pub open spec fn constructor_new_text(args: Seq<ArgView>) -> Seq<char>
    decreases args.len(),
{
    if args.len() == 0 {
        Seq::empty()
    } else {
        constructor_new_text(args.drop_last()) + if is_callback_view(args.last()) {
            Seq::empty()
        } else {
            struct_arg(nc_count(args.drop_last()))
        }
    }
}

/// The statements that read the JS arguments, the `k`-th JS argument into `r_arg<k>`.
pub open spec fn js_extraction(args: Seq<ArgView>, ctx: ContextView) -> Seq<char>
    decreases args.len(),
{
    if args.len() == 0 {
        Seq::empty()
    } else {
        js_extraction(args.drop_last(), ctx) + if is_callback_view(args.last()) {
            Seq::empty()
        } else {
            js_to_rust(args.last(), nc_count(args.drop_last()), ctx)
        }
    }
}

/// What is passed to the Rust function for each argument, in order; the
/// `k`-th JS argument as `r_arg<k>`.
pub open spec fn input_pieces(args: Seq<ArgView>, ctx: ContextView) -> Seq<Seq<char>>
    decreases args.len(),
{
    if args.len() == 0 {
        Seq::empty()
    } else {
        input_pieces(args.drop_last(), ctx).push(arg_input(args.last(), nc_count(args.drop_last()), ctx))
    }
}

/// The definitions that passing the arguments adds beside the wrapper.
pub open spec fn input_defs(args: Seq<ArgView>, ctx: ContextView) -> Seq<Seq<char>>
    decreases args.len(),
{
    if args.len() == 0 {
        Seq::empty()
    } else {
        input_defs(args.drop_last(), ctx) + arg_input_defs(args.last(), ctx)
    }
}

/// Reads the callback info for the JS arguments, then each JS argument.
pub open spec fn arg_extraction_text(args: Seq<ArgView>, ctx: ContextView) -> Seq<char> {
    "let js_cb = js_env.get_cb_info(cb_info, "@ + decimal(nc_count(args)) + ")?;\n"@ + js_extraction(args, ctx)
}

/// Binds `receiver` to the object a method is called on.
pub open spec fn receiver_text(is_method: bool) -> Seq<char> {
    if is_method {
        "let receiver = (js_cb.unwrap_mut::<Self>()?);\n"@
    } else {
        Seq::empty()
    }
}

/// The call of the Rust function (or method, on `receiver`) with the arguments.
pub open spec fn invoke_text(is_method: bool, fn_ident: Seq<char>, args: Seq<ArgView>, ctx: ContextView) -> Seq<char> {
    (if is_method { "receiver."@ } else { Seq::empty() }) + fn_ident + "( "@ + concat_all(input_pieces(args, ctx)) + " )"@
}

/// The text of the first receiver among the inputs.
pub open spec fn first_receiver(inputs: Seq<FnArg>) -> Option<Seq<char>>
    decreases inputs.len(),
{
    if inputs.len() == 0 {
        None
    } else {
        match first_receiver(inputs.drop_last()) {
            Some(t) => Some(t),
            None => match inputs.last() {
                FnArg::Receiver(t) => Some(t@),
                _ => None,
            },
        }
    }
}

/// How the inputs of a function are read by the code generator: receivers are
/// skipped; each typed input in turn, stopping at the first that is refused.
pub open spec fn metadata_outcome(inputs: Seq<FnArg>, gens: Seq<TypeParam>, multi_threaded: bool) -> Result<Seq<ArgView>, DeriveError>
    decreases inputs.len(),
{
    if inputs.len() == 0 {
        Ok(Seq::empty())
    } else {
        match metadata_outcome(inputs.drop_last(), gens, multi_threaded) {
            Err(e) => Err(e),
            Ok(v) => match inputs.last() {
                FnArg::Receiver(_) => Ok(v),
                FnArg::Typed(Pat::Ident(id), ty, _) => match arg_type_outcome(id@, ty, gens) {
                    Err(_) => Err(DeriveError::NotSupportedArgTypes),
                    Ok(k) => Ok(v.push(arg_meta(k, multi_threaded))),
                },
                FnArg::Typed(Pat::Other, _, _) => Err(DeriveError::NotSupportedType),
            },
        }
    }
}

/// Once a prefix of the inputs is refused, so is every longer prefix, for the same reason.
pub proof fn lemma_metadata_outcome_err(inputs: Seq<FnArg>, gens: Seq<TypeParam>, mt: bool, k: int)
    requires
        0 <= k <= inputs.len(),
        metadata_outcome(inputs.take(k), gens, mt) is Err,
    ensures
        metadata_outcome(inputs, gens, mt) == metadata_outcome(inputs.take(k), gens, mt),
    decreases inputs.len() - k,
{
    if k < inputs.len() {
        assert(inputs.take(k + 1).drop_last() =~= inputs.take(k));
        lemma_metadata_outcome_err(inputs, gens, mt, k + 1);
    } else {
        assert(inputs.take(k) =~= inputs);
    }
}

/// A prefix of the receivers keeps the first receiver found.
proof fn lemma_first_receiver_extend(inputs: Seq<FnArg>, k: int)
    requires
        0 <= k <= inputs.len(),
        first_receiver(inputs.take(k)) is Some,
    ensures
        first_receiver(inputs) == first_receiver(inputs.take(k)),
    decreases inputs.len() - k,
{
    if k < inputs.len() {
        assert(inputs.take(k + 1).drop_last() =~= inputs.take(k));
        lemma_first_receiver_extend(inputs, k + 1);
    } else {
        assert(inputs.take(k) =~= inputs);
    }
}

/// The arguments of a function as the code generator reads them.
pub struct FunctionArgMetadata {
    /// The receiver's text, for a method.
    pub receiver: Option<String>,
    pub args: Vec<FunctionArg>,
    pub multi_threaded: bool,
}

impl FunctionArgMetadata {
    /// Closure arguments have well-formed input types.
    pub open spec fn well_formed(&self) -> bool {
        forall|i: int| 0 <= i < self.args@.len() ==> (#[trigger] self.args@[i]).well_formed()
    }

    /// The abstract values of the arguments.
    pub open spec fn arg_views(&self) -> Seq<ArgView> {
        args_view(self.args@)
    }

    /// Reads the inputs of a signature; the first input refused decides the error.
    pub fn parse(sig: &Signature, multi_threaded: bool) -> (r: Result<FunctionArgMetadata, DeriveError>)
        requires
            sig.well_formed(),
        ensures
            match (r, metadata_outcome(sig.inputs@, sig.generics@, multi_threaded)) {
                (Ok(m), Ok(v)) => m.arg_views() == v && m.well_formed()
                    && crate::text::opt_view(m.receiver) == first_receiver(sig.inputs@)
                    && m.multi_threaded == multi_threaded,
                (Err(e), Err(f)) => e == f,
                _ => false,
            },
    {
        let generics = &sig.generics;
        let mut args: Vec<FunctionArg> = Vec::new();
        let receiver = Self::find_receiver(sig);
        let mut n: usize = 0;
        let ghost inputs = sig.inputs@;
        proof {
            assert(inputs.take(0) =~= Seq::<FnArg>::empty());
            assert(args_view(args@) =~= Seq::<ArgView>::empty());
            assert(generics_well_formed(generics@)) by {
                assert forall|i: int| 0 <= i < generics@.len() implies (#[trigger] crate::model::closure_bound_inputs(generics@[i]) matches Some(ts)
                    ==> forall|j: int| 0 <= j < ts.len() ==> #[trigger] ts[j].well_formed()) by {
                    assert(crate::model::closure_bound_inputs(sig.generics@[i]) matches Some(ts) ==> forall|j: int| 0 <= j < ts.len() ==> #[trigger] ts[j].well_formed());
                }
            }
        }
        while n < sig.inputs.len()
            invariant
                n <= sig.inputs.len(),
                inputs == sig.inputs@,
                sig.well_formed(),
                generics == &sig.generics,
                generics_well_formed(generics@),
                metadata_outcome(inputs.take(n as int), generics@, multi_threaded) == Ok::<Seq<ArgView>, DeriveError>(args_view(args@)),
                forall|i: int| 0 <= i < args@.len() ==> (#[trigger] args@[i]).well_formed(),
            decreases sig.inputs.len() - n,
        {
            proof {
                assert(inputs.take(n + 1).drop_last() =~= inputs.take(n as int));
                assert(inputs.take(n + 1).last() == inputs[n as int]);
            }
            let ghost prev = args@;
            match &sig.inputs[n] {
                FnArg::Receiver(_) => {},
                FnArg::Typed(pat, ty, _) => {
                    match pat {
                        Pat::Ident(identity) => {
                            proof {
                                assert(sig.inputs@[n as int] matches FnArg::Typed(_, t, _) ==> t.well_formed());
                            }
                            match FunctionArg::new(identity, ty, GenerericInfo::new(generics), multi_threaded) {
                                Some(arg) => {
                                    args.push(arg);
                                    proof {
                                        assert(args_view(args@) =~= args_view(prev).push(arg@));
                                    }
                                },
                                None => {
                                    proof {
                                        assert(metadata_outcome(inputs.take(n + 1), generics@, multi_threaded) == Err::<Seq<ArgView>, DeriveError>(DeriveError::NotSupportedArgTypes));
                                        lemma_metadata_outcome_err(inputs, generics@, multi_threaded, (n + 1) as int);
                                    }
                                    return Err(DeriveError::NotSupportedArgTypes);
                                },
                            }
                        },
                        Pat::Other => {
                            proof {
                                assert(metadata_outcome(inputs.take(n + 1), generics@, multi_threaded) == Err::<Seq<ArgView>, DeriveError>(DeriveError::NotSupportedType));
                                lemma_metadata_outcome_err(inputs, generics@, multi_threaded, (n + 1) as int);
                            }
                            return Err(DeriveError::NotSupportedType);
                        },
                    }
                },
            }
            n = n + 1;
        }
        proof {
            assert(inputs.take(n as int) =~= inputs);
        }
        Ok(FunctionArgMetadata { receiver, args, multi_threaded })
    }

    /// The text of the first receiver of the signature, if any.
    pub fn find_receiver(sig: &Signature) -> (r: Option<String>)
        ensures
            crate::text::opt_view(r) == first_receiver(sig.inputs@),
    {
        let mut i: usize = 0;
        let ghost inputs = sig.inputs@;
        assert(inputs.take(0) =~= Seq::<FnArg>::empty());
        while i < sig.inputs.len()
            invariant
                i <= sig.inputs.len(),
                inputs == sig.inputs@,
                first_receiver(inputs.take(i as int)) is None,
            decreases sig.inputs.len() - i,
        {
            assert(inputs.take(i + 1).drop_last() =~= inputs.take(i as int));
            if let FnArg::Receiver(rec) = &sig.inputs[i] {
                proof {
                    lemma_first_receiver_extend(inputs, (i + 1) as int);
                }
                return Some(rec.clone());
            }
            i = i + 1;
        }
        assert(inputs.take(i as int) =~= inputs);
        None
    }

    /// Whether the function is a method.
    pub fn is_method(&self) -> (r: bool)
        ensures
            r == (self.receiver is Some),
    {
        self.receiver.is_some()
    }

    /// Whether closures are called back from other threads.
    pub fn is_multi_threaded(&self) -> (r: bool)
        ensures
            r == self.multi_threaded,
    {
        self.multi_threaded
    }

    /// The fields of a constructor for the JS arguments.
    pub fn constructor_args(&self) -> (r: String)
        ensures
            r@ == constructor_args_text(self.arg_views()),
    {
        let ghost av = self.arg_views();
        let mut s = String::new();
        let mut k: usize = 0;
        let mut i: usize = 0;
        assert(av.take(0) =~= Seq::<ArgView>::empty());
        while i < self.args.len()
            invariant
                i <= self.args.len(),
                av == args_view(self.args@),
                k == nc_count(av.take(i as int)),
                k <= i,
                s@ == constructor_args_text(av.take(i as int)),
            decreases self.args.len() - i,
        {
            assert(av.take(i + 1).drop_last() =~= av.take(i as int));
            assert(av.take(i + 1).last() == self.args@[i as int]@);
            let arg = &self.args[i];
            if !arg.is_callback() {
                let piece = arg.as_rust_fn_arg(k);
                s.append(piece.as_str());
                k = k + 1;
            }
            i = i + 1;
        }
        assert(av.take(i as int) =~= av);
        s
    }

    /// `arg0,arg1,...` for the JS arguments, to build a constructed value.
    pub fn constructor_new(&self) -> (r: String)
        ensures
            r@ == constructor_new_text(self.arg_views()),
    {
        let ghost av = self.arg_views();
        let mut s = String::new();
        let mut k: usize = 0;
        let mut i: usize = 0;
        assert(av.take(0) =~= Seq::<ArgView>::empty());
        while i < self.args.len()
            invariant
                i <= self.args.len(),
                av == args_view(self.args@),
                k == nc_count(av.take(i as int)),
                k <= i,
                s@ == constructor_new_text(av.take(i as int)),
            decreases self.args.len() - i,
        {
            assert(av.take(i + 1).drop_last() =~= av.take(i as int));
            assert(av.take(i + 1).last() == self.args@[i as int]@);
            let arg = &self.args[i];
            if !arg.is_callback() {
                let piece = arg.as_struct_arg(k);
                s.append(piece.as_str());
                k = k + 1;
            }
            i = i + 1;
        }
        assert(av.take(i as int) =~= av);
        s
    }

    /// What is passed to the Rust function for each argument; accumulates the
    /// definitions that closure arguments need.
    pub fn rust_args_input(&self, ctx: &mut FunctionContext) -> (r: Vec<String>)
        requires
            self.well_formed(),
        ensures
            r.deep_view() == input_pieces(self.arg_views(), old(ctx)@),
            final(ctx)@ == old(ctx)@.with_cb_args(input_defs(self.arg_views(), old(ctx)@)),
    {
        let ghost av = self.arg_views();
        let ghost c0 = ctx@;
        let mut arg_index: usize = 0;
        let mut out: Vec<String> = Vec::new();
        let mut i: usize = 0;
        assert(av.take(0) =~= Seq::<ArgView>::empty());
        assert(out.deep_view() =~= Seq::<Seq<char>>::empty());
        assert(c0.with_cb_args(Seq::empty()) =~= c0);
        while i < self.args.len()
            invariant
                i <= self.args.len(),
                self.well_formed(),
                av == args_view(self.args@),
                c0 == old(ctx)@,
                arg_index == nc_count(av.take(i as int)),
                arg_index <= i,
                out.deep_view() == input_pieces(av.take(i as int), c0),
                ctx@ == c0.with_cb_args(input_defs(av.take(i as int), c0)),
            decreases self.args.len() - i,
        {
            assert(av.take(i + 1).drop_last() =~= av.take(i as int));
            assert(av.take(i + 1).last() == self.args@[i as int]@);
            let ghost prev_out = out.deep_view();
            let piece = self.args[i].as_arg_token_stream(&mut arg_index, ctx);
            out.push(piece);
            assert(out.deep_view() =~= prev_out.push(piece@));
            assert(ctx@ =~= c0.with_cb_args(input_defs(av.take(i + 1), c0))) by {
                assert(input_defs(av.take(i + 1), c0) =~= input_defs(av.take(i as int), c0) + arg_input_defs(av[i as int], c0));
                assert(c0.cb_args + input_defs(av.take(i as int), c0) + arg_input_defs(av[i as int], c0) =~= c0.cb_args + input_defs(av.take(i + 1), c0));
            }
            i = i + 1;
        }
        assert(av.take(i as int) =~= av);
        out
    }

    /// The number of JS arguments.
    pub fn rust_args_len(&self) -> (r: usize)
        ensures
            r == nc_count(self.arg_views()),
    {
        let ghost av = self.arg_views();
        let mut k: usize = 0;
        let mut i: usize = 0;
        assert(av.take(0) =~= Seq::<ArgView>::empty());
        while i < self.args.len()
            invariant
                i <= self.args.len(),
                av == args_view(self.args@),
                k == nc_count(av.take(i as int)),
                k <= i,
            decreases self.args.len() - i,
        {
            assert(av.take(i + 1).drop_last() =~= av.take(i as int));
            assert(av.take(i + 1).last() == self.args@[i as int]@);
            if !self.args[i].is_callback() {
                k = k + 1;
            }
            i = i + 1;
        }
        assert(av.take(i as int) =~= av);
        k
    }

    /// Reads the callback info for as many JS arguments as there are, then
    /// each JS argument into its variable.
    pub fn as_arg_token(&self, ctx: &FunctionContext) -> (r: String)
        ensures
            r@ == arg_extraction_text(self.arg_views(), ctx@),
    {
        let arg_len = self.rust_args_len();
        let mut s = String::from_str("let js_cb = js_env.get_cb_info(cb_info, ");
        push_decimal(&mut s, arg_len as u64);
        s.append(")?;\n");
        let ghost head = s@;
        let ghost av = self.arg_views();
        let mut k: usize = 0;
        let mut i: usize = 0;
        assert(av.take(0) =~= Seq::<ArgView>::empty());
        assert(s@ =~= head + js_extraction(Seq::<ArgView>::empty(), ctx@));
        while i < self.args.len()
            invariant
                i <= self.args.len(),
                av == args_view(self.args@),
                k == nc_count(av.take(i as int)),
                k <= i,
                s@ == head + js_extraction(av.take(i as int), ctx@),
            decreases self.args.len() - i,
        {
            assert(av.take(i + 1).drop_last() =~= av.take(i as int));
            assert(av.take(i + 1).last() == self.args@[i as int]@);
            let arg = &self.args[i];
            if !arg.is_callback() {
                let piece = arg.js_to_rust_token_stream(k, ctx);
                s.append(piece.as_str());
                k = k + 1;
            }
            assert(s@ =~= head + js_extraction(av.take(i + 1), ctx@));
            i = i + 1;
        }
        assert(av.take(i as int) =~= av);
        assert(s@ =~= arg_extraction_text(self.arg_views(), ctx@));
        s
    }

    /// Converts each field `arg<i>` of a constructed value to JS.
    pub fn as_constructor_try_to_js(&self) -> (r: String)
        ensures
            r@ == numbered2(nc_count(self.arg_views()), "let arg"@, " = self.arg"@, ".try_to_js(js_env)?;\n"@),
    {
        let arg_len = self.rust_args_len();
        let mut s = String::new();
        push_numbered2(&mut s, arg_len, "let arg", " = self.arg", ".try_to_js(js_env)?;\n");
        assert(s@ =~= numbered2(arg_len as nat, "let arg"@, " = self.arg"@, ".try_to_js(js_env)?;\n"@));
        s
    }

    /// `arg0,arg1,...` for the JS arguments, to invoke a constructor.
    pub fn as_constructor_invocation(&self) -> (r: String)
        ensures
            r@ == numbered(nc_count(self.arg_views()), "arg"@, ","@),
    {
        let arg_len = self.rust_args_len();
        let mut s = String::new();
        push_numbered(&mut s, arg_len, "arg", ",");
        assert(s@ =~= numbered(arg_len as nat, "arg"@, ","@));
        s
    }

    /// Binds `receiver` for a method; nothing for a free function.
    pub fn receiver(&self) -> (r: String)
        ensures
            r@ == receiver_text(self.receiver is Some),
    {
        if self.is_method() {
            String::from_str("let receiver = (js_cb.unwrap_mut::<Self>()?);\n")
        } else {
            String::new()
        }
    }

    /// The call of the Rust function with the arguments; accumulates the
    /// definitions that closure arguments need.
    pub fn as_token_stream(&self, rust_fn_ident: &String, ctx: &mut FunctionContext) -> (r: String)
        requires
            self.well_formed(),
        ensures
            r@ == invoke_text(self.receiver is Some, rust_fn_ident@, self.arg_views(), old(ctx)@),
            final(ctx)@ == old(ctx)@.with_cb_args(input_defs(self.arg_views(), old(ctx)@)),
    {
        let rust_args_input = self.rust_args_input(ctx);
        let mut s = if self.is_method() {
            String::from_str("receiver.")
        } else {
            String::new()
        };
        s.append(rust_fn_ident.as_str());
        s.append("( ");
        push_all(&mut s, &rust_args_input);
        s.append(" )");
        assert(s@ =~= invoke_text(self.receiver is Some, rust_fn_ident@, self.arg_views(), old(ctx)@));
        s
    }
}

} // verus!
