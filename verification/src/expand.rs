//! What `#[node_bindgen(...)]` emits for the item it annotates.
use vstd::prelude::*;
use crate::ast::arg::args_outcome;
use crate::ast::attribute::{
    FunctionAttributeView, attribute_outcome, attributes_outcome, has_constructor, has_mt,
    law_attributes_accepted_one_by_one,
};
use crate::ast::{FunctionArgs, FunctionAttributes};
use crate::error::Refusal;
use crate::function::{expansion_outcome, expansion_text, has_path_attribute, is_path_attribute};
use crate::function::laws::law_readers_agree;
use crate::generator::FunctionGenerator;
use crate::model::{ItemFn, MetaItem};

verus! {

/// The item that the attribute annotates.
pub enum NodeItem {
    Function(ItemFn),
    /// An `impl` block, with its source text.
    Impl(String),
}

/// What the attribute emits: the attribute arguments are read first; for a
/// function, its arguments are read, and then the function is turned into
/// its native wrapper and the wrapper's registration (a constructor is
/// emitted as it is); for an `impl` block, nothing is emitted. A refusal is
/// reported at the attribute argument or the function argument it is about.
pub open spec fn expand_outcome(attrs: Seq<MetaItem>, item: NodeItem) -> Result<Seq<char>, Refusal> {
    match attributes_outcome(attrs) {
        Err(e) => Err(e),
        Ok(v) => match item {
            NodeItem::Function(f) => match args_outcome(f.sig.inputs@, f.sig.generics@) {
                Err(e) => Err(e),
                Ok(_) => Ok(expansion_text(f, has_constructor(v), has_mt(v))->Ok_0),
            },
            NodeItem::Impl(_) => Ok(Seq::empty()),
        },
    }
}

/// Every path type that the code generator reads in a function item has at
/// least one segment.
pub open spec fn item_well_formed(item: NodeItem) -> bool {
    match item {
        NodeItem::Function(f) => f.sig.well_formed(),
        NodeItem::Impl(_) => true,
    }
}

/// Whether the item is well formed.
pub fn item_is_well_formed(item: &NodeItem) -> (r: bool)
    ensures
        r == item_well_formed(*item),
{
    match item {
        NodeItem::Function(f) => f.sig.is_well_formed(),
        NodeItem::Impl(_) => true,
    }
}

/// A function whose attribute arguments and arguments are read without
/// refusal is turned into its wrapper without refusal.
pub proof fn law_accepted_function_is_generated(attrs: Seq<MetaItem>, f: ItemFn)
    requires
        attributes_outcome(attrs) is Ok,
        args_outcome(f.sig.inputs@, f.sig.generics@) is Ok,
    ensures
        expansion_text(f, has_constructor(attributes_outcome(attrs)->Ok_0), has_mt(attributes_outcome(attrs)->Ok_0)) is Ok,
{
    law_readers_agree(f.sig.inputs@, f.sig.generics@, has_mt(attributes_outcome(attrs)->Ok_0));
}

/// Bare paths among the attribute arguments have a single segment, as
/// `constructor` and `mt` do.
pub open spec fn bare_paths_are_single(attrs: Seq<MetaItem>) -> bool {
    forall|i: int| 0 <= i < attrs.len() ==> (#[trigger] attrs[i] matches MetaItem::Path { segments, .. } ==> segments@.len() == 1)
}

/// An accepted argument whose bare path has a single segment reads as
/// `constructor` (or `mt`) exactly when the path is that name.
proof fn lemma_flag_of_argument(a: MetaItem)
    requires
        attribute_outcome(a) is Ok,
        a matches MetaItem::Path { segments, .. } ==> segments@.len() == 1,
    ensures
        (attribute_outcome(a)->Ok_0 is Constructor) == is_path_attribute(a, "constructor"@),
        (attribute_outcome(a)->Ok_0 is MT) == is_path_attribute(a, "mt"@),
{
    reveal_strlit("constructor");
    reveal_strlit("getter");
    reveal_strlit("setter");
    reveal_strlit("mt");
    if let MetaItem::Path { segments, span, ident_span } = a {
        let p = segments.deep_view();
        assert(p.len() == 1);
        assert(crate::ast::attribute::path_has_segment(p, "constructor"@) == (p[0] == "constructor"@));
        assert(crate::ast::attribute::path_has_segment(p, "mt"@) == (p[0] == "mt"@));
        if p[0] == "mt"@ {
            assert(p[0].len() == 2);
            assert(p[0] != "constructor"@);
            assert(p[0] != "getter"@);
            assert(p[0] != "setter"@);
        }
    }
}

/// Where every bare path among the attribute arguments has a single segment,
/// the attribute emits for an accepted function exactly what the code
/// generator makes of it with the raw arguments: its wrapper and the
/// wrapper's registration, or the function itself for a constructor.
pub proof fn law_expand_emits_the_generated_function(attrs: Seq<MetaItem>, f: ItemFn)
    requires
        bare_paths_are_single(attrs),
        expand_outcome(attrs, NodeItem::Function(f)) is Ok,
    ensures
        expansion_outcome(f, attrs) is Ok,
        expand_outcome(attrs, NodeItem::Function(f))->Ok_0 == expansion_outcome(f, attrs)->Ok_0,
{
    law_attributes_accepted_one_by_one(attrs);
    let v = attributes_outcome(attrs)->Ok_0;
    assert forall|i: int| 0 <= i < attrs.len() implies
        ((#[trigger] v[i] is Constructor) == is_path_attribute(attrs[i], "constructor"@)
        && (v[i] is MT) == is_path_attribute(attrs[i], "mt"@)) by {
        assert(attribute_outcome(attrs[i]) is Ok);
        lemma_flag_of_argument(attrs[i]);
    }
    if has_constructor(v) {
        let i = choose|i: int| 0 <= i < v.len() && #[trigger] v[i] is Constructor;
        assert(is_path_attribute(attrs[i], "constructor"@));
    }
    if has_path_attribute(attrs, "constructor"@) {
        let i = choose|i: int| 0 <= i < attrs.len() && #[trigger] is_path_attribute(attrs[i], "constructor"@);
        assert(v[i] is Constructor);
    }
    if has_mt(v) {
        let i = choose|i: int| 0 <= i < v.len() && #[trigger] v[i] is MT;
        assert(is_path_attribute(attrs[i], "mt"@));
    }
    if has_path_attribute(attrs, "mt"@) {
        let i = choose|i: int| 0 <= i < attrs.len() && #[trigger] is_path_attribute(attrs[i], "mt"@);
        assert(v[i] is MT);
    }
    law_accepted_function_is_generated(attrs, f);
}

/// The source text the attribute with arguments `attrs` emits for `item`, or
/// the refusal it reports.
pub fn expand(attrs: Vec<MetaItem>, item: NodeItem) -> (r: Result<String, Refusal>)
    requires
        item_well_formed(item),
    ensures
        match (r, expand_outcome(attrs@, item)) {
            (Ok(s), Ok(t)) => s@ == t,
            (Err(e), Err(f)) => e == f,
            _ => false,
        },
{
    let ghost all = attrs@;
    let attribute = match FunctionAttributes::from_ast(attrs) {
        Ok(attr) => attr,
        Err(err) => {
            return Err(err);
        },
    };
    match item {
        NodeItem::Function(fn_item) => {
            match FunctionArgs::from_ast(&fn_item) {
                Err(err) => Err(err),
                Ok(args) => {
                    proof {
                        law_accepted_function_is_generated(all, fn_item);
                    }
                    let generator = FunctionGenerator::new(&fn_item, args, attribute);
                    match generator.generate() {
                        Ok(code) => Ok(code),
                        Err(_) => {
                            proof {
                                assert(false);
                            }
                            Ok(String::new())
                        },
                    }
                },
            }
        },
        NodeItem::Impl(_) => Ok(String::new()),
    }
}

} // verus!
