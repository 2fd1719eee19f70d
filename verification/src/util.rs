//! Naming conventions of the generated code and views of argument types.
use vstd::prelude::*;
use crate::model::{TypePath, TypePathView, TypeReference};
use crate::text::{ascii_upper, char_at, char_count, decimal, equals_str, opt_view, push_char, push_decimal, to_ascii_upper};

verus! {

/// The name of the Rust variable that holds the JS argument at `index`: `r_arg<index>`.
pub open spec fn arg_var(index: nat) -> Seq<char> {
    "r_arg"@ + decimal(index)
}

/// The name of the Rust variable that holds the JS argument at `index`.
pub fn rust_arg_var(index: usize) -> (r: String)
    ensures
        r@ == arg_var(index as nat),
{
    let mut s = String::from_str("r_arg");
    push_decimal(&mut s, index as u64);
    s
}

/// Converts a snake-case name to camel case, reading it from left to right:
/// underscores are dropped, and a character that follows an underscore is
/// upper-cased (ASCII letters only) unless nothing has been written yet.
/// The second component says whether the next character is to be upper-cased.
pub open spec fn camel_fold(s: Seq<char>) -> (Seq<char>, bool)
    decreases s.len(),
{
    if s.len() == 0 {
        (Seq::empty(), false)
    } else {
        let (out, pending) = camel_fold(s.drop_last());
        let c = s.last();
        if c == '_' {
            (out, out.len() > 0)
        } else if pending {
            (out.push(ascii_upper(c)), false)
        } else {
            (out.push(c), false)
        }
    }
}

/// The JS property name under which a function is registered: its name in camel case.
pub open spec fn property_name(fn_name: Seq<char>) -> Seq<char> {
    camel_fold(fn_name).0
}

/// The JS property name under which a function is registered: its name in
/// camel case (`hello_world` is registered as `helloWorld`).
pub fn default_function_property_name(fn_name: &String) -> (r: String)
    ensures
        r@ == property_name(fn_name@),
{
    let n = char_count(fn_name);
    let mut out = String::new();
    let mut pending = false;
    let mut i: usize = 0;
    proof {
        assert(fn_name@.take(0) =~= Seq::<char>::empty());
    }
    while i < n
        invariant
            n == fn_name@.len(),
            i <= n,
            (out@, pending) == camel_fold(fn_name@.take(i as int)),
        decreases n - i,
    {
        let c = char_at(fn_name, i);
        proof {
            assert(fn_name@.take(i + 1).drop_last() =~= fn_name@.take(i as int));
        }
        if c == '_' {
            pending = char_count(&out) > 0;
        } else if pending {
            push_char(&mut out, to_ascii_upper(c));
            pending = false;
        } else {
            push_char(&mut out, c);
        }
        i = i + 1;
    }
    proof {
        assert(fn_name@.take(n as int) =~= fn_name@);
    }
    out
}

/// What camel-case conversion writes never holds an underscore, and the
/// character to upper-case is pending only once something has been written.
proof fn lemma_camel_fold(s: Seq<char>)
    ensures
        !camel_fold(s).0.contains('_'),
        camel_fold(s).1 ==> camel_fold(s).0.len() > 0,
        !s.contains('_') ==> camel_fold(s) == (s, false),
    decreases s.len(),
{
    if s.len() > 0 {
        let init = s.drop_last();
        lemma_camel_fold(init);
        let (out, pending) = camel_fold(init);
        let c = s.last();
        if !s.contains('_') {
            assert(!init.contains('_')) by {
                if init.contains('_') {
                    let i = choose|i: int| 0 <= i < init.len() && init[i] == '_';
                    assert(s[i] == '_');
                }
            }
            assert(c != '_') by {
                assert(s[s.len() - 1] == c);
            }
            assert(init.push(c) =~= s);
        }
        if c != '_' {
            let ch = if pending { ascii_upper(c) } else { c };
            assert(ch != '_');
            assert(!out.push(ch).contains('_')) by {
                if out.push(ch).contains('_') {
                    let i = choose|i: int| 0 <= i < out.push(ch).len() && out.push(ch)[i] == '_';
                    if i < out.len() {
                        assert(out[i] == '_');
                    }
                }
            }
        }
    }
}

/// A JS property name never holds an underscore.
pub proof fn law_property_name_has_no_underscore(fn_name: Seq<char>)
    ensures
        !property_name(fn_name).contains('_'),
{
    lemma_camel_fold(fn_name);
}

/// A function name without underscores is its own JS property name.
pub proof fn law_property_name_keeps_plain_names(fn_name: Seq<char>)
    requires
        !fn_name.contains('_'),
    ensures
        property_name(fn_name) == fn_name,
{
    lemma_camel_fold(fn_name);
}

/// What camel-case conversion writes for a text begins what it writes for
/// any longer text.
proof fn lemma_camel_fold_prefix(s: Seq<char>, t: Seq<char>)
    ensures
        camel_fold(s).0.is_prefix_of(camel_fold(s + t).0),
    decreases t.len(),
{
    if t.len() > 0 {
        let t0 = t.drop_last();
        lemma_camel_fold_prefix(s, t0);
        assert((s + t).drop_last() =~= s + t0);
        let a = camel_fold(s).0;
        let b = camel_fold(s + t0).0;
        let c = camel_fold(s + t).0;
        assert(b.is_prefix_of(c));
        assert forall|i: int| 0 <= i < a.len() implies a[i] == c[i] by {
            assert(a[i] == b[i]);
        }
    } else {
        assert(s + t =~= s);
    }
}

/// A text with a character other than `_` has something written for it.
proof fn lemma_camel_fold_writes(s: Seq<char>, i: int)
    requires
        0 <= i < s.len(),
        s[i] != '_',
    ensures
        camel_fold(s).0.len() > 0,
    decreases s.len(),
{
    if s.last() == '_' {
        assert(i < s.len() - 1);
        assert(s.drop_last()[i] == s[i]);
        lemma_camel_fold_writes(s.drop_last(), i);
    }
}

/// After written text, a run of underscores writes nothing and leaves the
/// next character to be upper-cased.
proof fn lemma_camel_fold_underscores(p: Seq<char>, u: Seq<char>)
    requires
        camel_fold(p).0.len() > 0,
        u.len() > 0,
        forall|i: int| 0 <= i < u.len() ==> u[i] == '_',
    ensures
        camel_fold(p + u) == (camel_fold(p).0, true),
    decreases u.len(),
{
    assert((p + u).drop_last() =~= p + u.drop_last());
    assert((p + u).last() == '_');
    if u.len() > 1 {
        lemma_camel_fold_underscores(p, u.drop_last());
    } else {
        assert(p + u.drop_last() =~= p);
    }
}

/// Camel case upper-cases the first character after every run of underscores
/// that follows written text, wherever it stands: for a name `p` holding a
/// character other than `_`, a run `u` of underscores and a character `c`
/// other than `_`, the property name of `p`, `u`, `c` and any rest `q` begins
/// with that of `p` and then `c` upper-cased.
pub proof fn law_property_name_capitalizes_after_underscores(p: Seq<char>, u: Seq<char>, c: char, q: Seq<char>)
    requires
        exists|i: int| 0 <= i < p.len() && p[i] != '_',
        u.len() > 0,
        forall|i: int| 0 <= i < u.len() ==> u[i] == '_',
        c != '_',
    ensures
        (property_name(p) + seq![ascii_upper(c)]).is_prefix_of(property_name(p + u + seq![c] + q)),
{
    let i = choose|i: int| 0 <= i < p.len() && p[i] != '_';
    lemma_camel_fold_writes(p, i);
    lemma_camel_fold_underscores(p, u);
    let pu = p + u;
    assert((pu + seq![c]).drop_last() =~= pu);
    assert(camel_fold(pu + seq![c]).0 =~= property_name(p) + seq![ascii_upper(c)]);
    lemma_camel_fold_prefix(pu + seq![c], q);
    assert(pu + seq![c] + q =~= p + u + seq![c] + q);
}

/// A character that follows another character than `_` is written as it is:
/// for a name `p` that does not end with `_` and a character `c` other than
/// `_`, the property name of `p`, `c` and any rest `q` begins with that of `p`
/// and then `c`.
pub proof fn law_property_name_keeps_characters_within_words(p: Seq<char>, c: char, q: Seq<char>)
    requires
        p.len() > 0,
        p.last() != '_',
        c != '_',
    ensures
        (property_name(p) + seq![c]).is_prefix_of(property_name(p + seq![c] + q)),
{
    assert(p.drop_last().push(p.last()) =~= p);
    assert(camel_fold(p).1 == false);
    assert((p + seq![c]).drop_last() =~= p);
    assert(camel_fold(p + seq![c]).0 =~= property_name(p) + seq![c]);
    lemma_camel_fold_prefix(p + seq![c], q);
}

/// A path type as the code generator reads it.
pub struct MyTypePath(pub TypePath);

impl View for MyTypePath {
    type V = TypePathView;

    open spec fn view(&self) -> TypePathView {
        self.0@
    }
}

impl MyTypePath {
    pub fn new(path: TypePath) -> (r: MyTypePath)
        ensures
            r@ == path@,
            r.0.well_formed() == path.well_formed(),
    {
        MyTypePath(path)
    }

    /// The identifier that names the type: that of its first segment.
    pub fn type_ident(&self) -> (r: Option<String>)
        ensures
            opt_view(r) == self@.name(),
    {
        if self.0.segments.len() > 0 {
            Some(self.0.segments[0].clone())
        } else {
            None
        }
    }

    /// The type itself.
    pub fn inner(&self) -> (r: &TypePath)
        ensures
            r@ == self@,
    {
        &self.0
    }

    /// The expression that passes the argument at `index` to the Rust function: `r_arg<index>,`.
    pub fn as_arg_token_stream(&self, index: usize) -> (r: String)
        ensures
            r@ == arg_var(index as nat) + ","@,
    {
        let mut s = rust_arg_var(index);
        s.append(",");
        s
    }
}

/// The name of the referenced type of a reference type, where it is a path type.
pub open spec fn reference_name(r: (Option<TypePathView>, Seq<char>)) -> Option<Seq<char>> {
    match r.0 {
        Some(p) => p.name(),
        None => None,
    }
}

/// Whether a reference type is `&JsCallback`, by which a function asks for the
/// JS callback info itself.
pub open spec fn is_js_callback(r: (Option<TypePathView>, Seq<char>)) -> bool {
    reference_name(r) == Some("JsCallback"@)
}

/// A reference type as the code generator reads it.
pub struct MyReferenceType(pub TypeReference);

impl View for MyReferenceType {
    type V = (Option<TypePathView>, Seq<char>);

    open spec fn view(&self) -> (Option<TypePathView>, Seq<char>) {
        self.0@
    }
}

impl MyReferenceType {
    pub fn new(reference: TypeReference) -> (r: MyReferenceType)
        ensures
            r@ == reference@,
    {
        MyReferenceType(reference)
    }

    /// The name of the referenced type, where it is a path type.
    pub fn type_ident(&self) -> (r: Option<String>)
        ensures
            opt_view(r) == reference_name(self@),
    {
        match &self.0.elem {
            Some(p) => {
                if p.segments.len() > 0 {
                    Some(p.segments[0].clone())
                } else {
                    None
                }
            },
            None => None,
        }
    }

    /// Whether this is `&JsCallback`.
    pub fn is_callback(&self) -> (r: bool)
        ensures
            r == is_js_callback(self@),
    {
        match self.type_ident() {
            Some(n) => equals_str(&n, "JsCallback"),
            None => false,
        }
    }

    /// The expression that passes the argument at `index` to the Rust function: `r_arg<index>,`.
    pub fn as_arg_token_stream(&self, index: usize) -> (r: String)
        ensures
            r@ == arg_var(index as nat) + ","@,
    {
        let mut s = rust_arg_var(index);
        s.append(",");
        s
    }
}

} // verus!
