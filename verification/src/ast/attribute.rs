//! The arguments of `#[node_bindgen(...)]`: `name = "..."`, `constructor`,
//! `getter`, `setter` and `mt`.
use vstd::prelude::*;
use crate::error::{DeriveError, Refusal};
use crate::model::{Lit, MetaItem};
use crate::text::equals_str;

verus! {

/// One recognized attribute argument.
pub enum FunctionAttribute {
    Getter(String),
    Setter(String),
    Constructor(String),
    /// `name = "..."`, with the string's value.
    Name(String),
    /// `mt`: callbacks are called from other threads.
    MT(String),
}

/// The abstract value of a recognized attribute argument.
pub enum FunctionAttributeView {
    Getter(Seq<char>),
    Setter(Seq<char>),
    Constructor(Seq<char>),
    Name(Seq<char>),
    MT(Seq<char>),
}

impl View for FunctionAttribute {
    type V = FunctionAttributeView;

    open spec fn view(&self) -> FunctionAttributeView {
        match self {
            FunctionAttribute::Getter(i) => FunctionAttributeView::Getter(i@),
            FunctionAttribute::Setter(i) => FunctionAttributeView::Setter(i@),
            FunctionAttribute::Constructor(i) => FunctionAttributeView::Constructor(i@),
            FunctionAttribute::Name(s) => FunctionAttributeView::Name(s@),
            FunctionAttribute::MT(i) => FunctionAttributeView::MT(i@),
        }
    }
}

/// Whether some segment of a path is `name`.
pub open spec fn path_has_segment(path: Seq<Seq<char>>, name: Seq<char>) -> bool {
    exists|i: int| 0 <= i < path.len() && path[i] == name
}

/// What a bare path argument is read as: by the identifier of its first
/// segment. A path without segments is refused at the path; an unknown
/// identifier at the identifier.
pub open spec fn path_attribute(path: Seq<Seq<char>>, span: proc_macro2::Span, ident_span: proc_macro2::Span) -> Result<FunctionAttributeView, Refusal> {
    if path.len() == 0 {
        Err(Refusal { error: DeriveError::InvalidAttribute, span })
    } else {
        let ident = path[0];
        if ident == "constructor"@ {
            Ok(FunctionAttributeView::Constructor(ident))
        } else if ident == "getter"@ {
            Ok(FunctionAttributeView::Getter(ident))
        } else if ident == "setter"@ {
            Ok(FunctionAttributeView::Setter(ident))
        } else if ident == "mt"@ {
            Ok(FunctionAttributeView::MT(ident))
        } else {
            Err(Refusal { error: DeriveError::UnrecognizedAttributeName, span: ident_span })
        }
    }
}

/// What an attribute argument is read as; a refusal is reported at the argument.
pub open spec fn attribute_outcome(attr: MetaItem) -> Result<FunctionAttributeView, Refusal> {
    match attr {
        MetaItem::Path { segments, span, ident_span } => path_attribute(segments.deep_view(), span, ident_span),
        MetaItem::NameValue { path, lit, span } => {
            if path_has_segment(path.deep_view(), "name"@) {
                match lit {
                    Lit::Str(s) => Ok(FunctionAttributeView::Name(s@)),
                    Lit::Other(_) => Err(Refusal { error: DeriveError::NameNotString, span }),
                }
            } else {
                Err(Refusal { error: DeriveError::UnrecognizedAttribute, span })
            }
        },
        MetaItem::List { span, .. } => Err(Refusal { error: DeriveError::UnrecognizedAttribute, span }),
        MetaItem::Lit { span, .. } => Err(Refusal { error: DeriveError::UnrecognizedAttribute, span }),
    }
}

/// The abstract value of the outcome of reading an attribute argument.
pub open spec fn attribute_result_view(r: Result<FunctionAttribute, Refusal>) -> Result<FunctionAttributeView, Refusal> {
    match r {
        Ok(a) => Ok(a@),
        Err(e) => Err(e),
    }
}

impl FunctionAttribute {
    /// Reads one attribute argument.
    pub fn from_ast(attr: MetaItem) -> (r: Result<FunctionAttribute, Refusal>)
        ensures
            attribute_result_view(r) == attribute_outcome(attr),
    {
        match attr {
            MetaItem::Path { segments, span, ident_span } => {
                let ident = find_any_identifier(segments, span)?;
                if equals_str(&ident, "constructor") {
                    Ok(FunctionAttribute::Constructor(ident))
                } else if equals_str(&ident, "getter") {
                    Ok(FunctionAttribute::Getter(ident))
                } else if equals_str(&ident, "setter") {
                    Ok(FunctionAttribute::Setter(ident))
                } else if equals_str(&ident, "mt") {
                    Ok(FunctionAttribute::MT(ident))
                } else {
                    Err(Refusal::new(DeriveError::UnrecognizedAttributeName, ident_span))
                }
            },
            MetaItem::NameValue { path, lit, span } => {
                if has_attribute(&path, "name") {
                    match lit {
                        Lit::Str(s) => Ok(FunctionAttribute::Name(s)),
                        Lit::Other(_) => Err(Refusal::new(DeriveError::NameNotString, span)),
                    }
                } else {
                    Err(Refusal::new(DeriveError::UnrecognizedAttribute, span))
                }
            },
            MetaItem::List { span, .. } => Err(Refusal::new(DeriveError::UnrecognizedAttribute, span)),
            MetaItem::Lit { span, .. } => Err(Refusal::new(DeriveError::UnrecognizedAttribute, span)),
        }
    }
}

/// Whether some segment of the path of a name-value argument is `attr_name`.
pub fn has_attribute(path: &Vec<String>, attr_name: &str) -> (r: bool)
    ensures
        r == path_has_segment(path.deep_view(), attr_name@),
{
    let mut i: usize = 0;
    while i < path.len()
        invariant
            i <= path.len(),
            forall|j: int| 0 <= j < i ==> path.deep_view()[j] != attr_name@,
        decreases path.len() - i,
    {
        if equals_str(&path[i], attr_name) {
            assert(path.deep_view()[i as int] == attr_name@);
            return true;
        }
        i = i + 1;
    }
    false
}

/// The identifier of the first segment of a path; a path without segments is
/// refused at the path's span.
pub fn find_any_identifier(path: Vec<String>, span: proc_macro2::Span) -> (r: Result<String, Refusal>)
    ensures
        path.len() == 0 ==> r == Err::<String, Refusal>(Refusal { error: DeriveError::InvalidAttribute, span }),
        path.len() > 0 ==> (r matches Ok(s) && s@ == path.deep_view()[0]),
{
    if path.len() == 0 {
        Err(Refusal::new(DeriveError::InvalidAttribute, span))
    } else {
        let mut path = path;
        Ok(path.swap_remove(0))
    }
}

/// The recognized attribute arguments of one `#[node_bindgen(...)]`.
pub struct FunctionAttributes {
    pub attrs: Vec<FunctionAttribute>,
}

impl View for FunctionAttributes {
    type V = Seq<FunctionAttributeView>;

    open spec fn view(&self) -> Seq<FunctionAttributeView> {
        self.attrs@.map_values(|a: FunctionAttribute| a@)
    }
}

/// What a list of attribute arguments is read as: each argument in turn,
/// stopping at the first that is refused.
pub open spec fn attributes_outcome(args: Seq<MetaItem>) -> Result<Seq<FunctionAttributeView>, Refusal>
    decreases args.len(),
{
    if args.len() == 0 {
        Ok(Seq::empty())
    } else {
        match attributes_outcome(args.drop_last()) {
            Err(e) => Err(e),
            Ok(v) => match attribute_outcome(args.last()) {
                Err(e) => Err(e),
                Ok(a) => Ok(v.push(a)),
            },
        }
    }
}

impl FunctionAttributes {
    /// Reads all attribute arguments; the first one refused decides the error.
    pub fn from_ast(args: Vec<MetaItem>) -> (r: Result<FunctionAttributes, Refusal>)
        ensures
            match (r, attributes_outcome(args@)) {
                (Ok(a), Ok(v)) => a@ == v,
                (Err(e), Err(f)) => e == f,
                _ => false,
            },
    {
        let ghost all = args@;
        let total = args.len();
        let mut rest = args;
        let mut attrs: Vec<FunctionAttribute> = Vec::new();
        let mut i: usize = 0;
        proof {
            assert(all.take(0) =~= Seq::<MetaItem>::empty());
            assert(all.skip(0) =~= all);
            assert(attrs@.map_values(|a: FunctionAttribute| a@) =~= Seq::<FunctionAttributeView>::empty());
        }
        while rest.len() > 0
            invariant
                i <= all.len(),
                all.len() == total,
                all == args@,
                rest@ == all.skip(i as int),
                rest.len() == all.len() - i,
                attributes_outcome(all.take(i as int)) == Ok::<Seq<FunctionAttributeView>, Refusal>(
                    attrs@.map_values(|a: FunctionAttribute| a@),
                ),
            decreases rest.len(),
        {
            let attr = rest.remove(0);
            proof {
                assert(all.take(i + 1).drop_last() =~= all.take(i as int));
                assert(all.take(i + 1).last() == attr);
                assert(all.skip(i + 1) =~= rest@);
            }
            let ghost prev = attrs@;
            match FunctionAttribute::from_ast(attr) {
                Ok(a) => {
                    attrs.push(a);
                    proof {
                        assert(attrs@.map_values(|a: FunctionAttribute| a@) =~= prev.map_values(
                            |a: FunctionAttribute| a@,
                        ).push(a@));
                    }
                },
                Err(e) => {
                    proof {
                        assert(attributes_outcome(all.take(i + 1)) == Err::<Seq<FunctionAttributeView>, Refusal>(e));
                        lemma_attributes_outcome_err(all, (i + 1) as int);
                    }
                    return Err(e);
                },
            }
            i = i + 1;
        }
        proof {
            assert(all.take(i as int) =~= all);
        }
        Ok(FunctionAttributes { attrs })
    }
}

/// Whether some recognized argument is `constructor`.
pub open spec fn has_constructor(attrs: Seq<FunctionAttributeView>) -> bool {
    exists|i: int| 0 <= i < attrs.len() && #[trigger] attrs[i] is Constructor
}

/// Whether some recognized argument is `mt`.
pub open spec fn has_mt(attrs: Seq<FunctionAttributeView>) -> bool {
    exists|i: int| 0 <= i < attrs.len() && #[trigger] attrs[i] is MT
}

impl FunctionAttributes {
    /// Whether the function is a constructor.
    pub fn is_constructor(&self) -> (r: bool)
        ensures
            r == has_constructor(self@),
    {
        let mut i: usize = 0;
        while i < self.attrs.len()
            invariant
                i <= self.attrs.len(),
                forall|j: int| 0 <= j < i ==> !(#[trigger] self@[j] is Constructor),
            decreases self.attrs.len() - i,
        {
            if let FunctionAttribute::Constructor(_) = &self.attrs[i] {
                assert(self@[i as int] is Constructor);
                return true;
            }
            i = i + 1;
        }
        false
    }

    /// Whether closures are called back from other threads.
    pub fn is_multi_threaded(&self) -> (r: bool)
        ensures
            r == has_mt(self@),
    {
        let mut i: usize = 0;
        while i < self.attrs.len()
            invariant
                i <= self.attrs.len(),
                forall|j: int| 0 <= j < i ==> !(#[trigger] self@[j] is MT),
            decreases self.attrs.len() - i,
        {
            if let FunctionAttribute::MT(_) = &self.attrs[i] {
                assert(self@[i as int] is MT);
                return true;
            }
            i = i + 1;
        }
        false
    }
}

/// Once a prefix of the arguments is refused, so is every longer prefix, for the same reason.
pub proof fn lemma_attributes_outcome_err(args: Seq<MetaItem>, k: int)
    requires
        0 <= k <= args.len(),
        attributes_outcome(args.take(k)) is Err,
    ensures
        attributes_outcome(args) == attributes_outcome(args.take(k)),
    decreases args.len() - k,
{
    if k < args.len() {
        assert(args.take(k + 1).drop_last() =~= args.take(k));
        lemma_attributes_outcome_err(args, k + 1);
    } else {
        assert(args.take(k) =~= args);
    }
}

/// A list of attribute arguments is accepted exactly when each argument is,
/// and then each argument reads as it would alone, in the same order.
pub proof fn law_attributes_accepted_one_by_one(args: Seq<MetaItem>)
    ensures
        attributes_outcome(args) is Ok <==> forall|i: int| 0 <= i < args.len() ==> #[trigger] attribute_outcome(args[i]) is Ok,
        attributes_outcome(args) is Ok ==> {
            &&& attributes_outcome(args)->Ok_0.len() == args.len()
            &&& forall|i: int| 0 <= i < args.len() ==> #[trigger] attributes_outcome(args)->Ok_0[i] == attribute_outcome(args[i])->Ok_0
        },
    decreases args.len(),
{
    if args.len() > 0 {
        let init = args.drop_last();
        law_attributes_accepted_one_by_one(init);
        assert forall|i: int| 0 <= i < init.len() implies #[trigger] init[i] == args[i] by {}
        if attributes_outcome(init) is Ok && attribute_outcome(args.last()) is Ok {
            let v = attributes_outcome(args)->Ok_0;
            assert forall|i: int| 0 <= i < args.len() implies #[trigger] v[i] == attribute_outcome(args[i])->Ok_0 by {
                if i < init.len() {
                    assert(init[i] == args[i]);
                }
            }
        }
        if forall|i: int| 0 <= i < args.len() ==> #[trigger] attribute_outcome(args[i]) is Ok {
            assert forall|i: int| 0 <= i < init.len() implies #[trigger] attribute_outcome(init[i]) is Ok by {
                assert(init[i] == args[i]);
            }
            assert(attribute_outcome(args[args.len() - 1]) is Ok);
        }
        if attributes_outcome(args) is Ok {
            assert forall|i: int| 0 <= i < args.len() implies #[trigger] attribute_outcome(args[i]) is Ok by {
                if i < init.len() {
                    assert(init[i] == args[i]);
                    assert(attribute_outcome(init[i]) is Ok);
                } else {
                    assert(args[i] == args.last());
                }
            }
        }
        if !(attribute_outcome(args.last()) is Ok) {
            assert(!(attribute_outcome(args[args.len() - 1]) is Ok));
        }
        if !(attributes_outcome(init) is Ok) {
            let i = choose|i: int| 0 <= i < init.len() && !(#[trigger] attribute_outcome(init[i]) is Ok);
            assert(!(attribute_outcome(args[i]) is Ok));
        }
    }
}

} // verus!
