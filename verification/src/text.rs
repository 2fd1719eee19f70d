//! Building blocks for the source text that the code generator emits.
use vstd::prelude::*;

verus! {

/// The character of a decimal digit.
pub open spec fn digit_char(d: nat) -> char {
    if d == 0 { '0' }
    else if d == 1 { '1' }
    else if d == 2 { '2' }
    else if d == 3 { '3' }
    else if d == 4 { '4' }
    else if d == 5 { '5' }
    else if d == 6 { '6' }
    else if d == 7 { '7' }
    else if d == 8 { '8' }
    else { '9' }
}

/// The decimal representation of a natural number, without sign or leading zeros.
pub open spec fn decimal(n: nat) -> Seq<char>
    decreases n,
{
    if n < 10 {
        seq![digit_char(n)]
    } else {
        decimal(n / 10).push(digit_char(n % 10))
    }
}

/// The decimal representation of a signed integer: a `-` before the digits of a negative one.
pub open spec fn signed_decimal(n: int) -> Seq<char> {
    if n < 0 {
        seq!['-'] + decimal((-n) as nat)
    } else {
        decimal(n as nat)
    }
}

/// Appends one character to a string: `String::push`.
#[verifier::external_body]
pub(crate) fn push_char(s: &mut String, c: char)
    ensures
        final(s)@ == old(s)@.push(c),
{
    s.push(c);
}

/// The character of the digit `d`.
pub fn digit(d: u64) -> (c: char)
    requires
        d < 10,
    ensures
        c == digit_char(d as nat),
{
    match d {
        0 => '0',
        1 => '1',
        2 => '2',
        3 => '3',
        4 => '4',
        5 => '5',
        6 => '6',
        7 => '7',
        8 => '8',
        _ => '9',
    }
}

/// Appends the decimal representation of `n` to `s`.
pub fn push_decimal(s: &mut String, n: u64)
    ensures
        final(s)@ == old(s)@ + decimal(n as nat),
    decreases n,
{
    if n < 10 {
        push_char(s, digit(n));
        assert(decimal(n as nat) == seq![digit_char(n as nat)]);
    } else {
        push_decimal(s, n / 10);
        push_char(s, digit(n % 10));
    }
}

/// The decimal representation of `n`.
pub fn decimal_string(n: u64) -> (r: String)
    ensures
        r@ == decimal(n as nat),
{
    let mut s = String::new();
    push_decimal(&mut s, n);
    s
}

/// The decimal representation of a signed number, with `-` before a negative one.
pub fn signed_decimal_string(n: i64) -> (r: String)
    ensures
        r@ == signed_decimal(n as int),
{
    let mut s = String::new();
    if n < 0 {
        push_char(&mut s, '-');
        let m: u64 = if n == i64::MIN {
            9223372036854775808u64
        } else {
            (-n) as u64
        };
        push_decimal(&mut s, m);
    } else {
        push_decimal(&mut s, n as u64);
    }
    s
}


/// Whether a string holds exactly the characters of a literal.
pub fn equals_str(a: &String, b: &str) -> (r: bool)
    ensures
        r == (a@ == b@),
{
    let t = String::from_str(b);
    *a == t
}

/// The upper-case letter of an ASCII lower-case letter; any other character unchanged.
pub open spec fn ascii_upper(c: char) -> char {
    if 'a' <= c && c <= 'z' {
        ((c as u32) - 32) as char
    } else {
        c
    }
}

/// The upper-case letter of an ASCII lower-case letter; any other character unchanged.
pub fn to_ascii_upper(c: char) -> (r: char)
    ensures
        r == ascii_upper(c),
{
    if 'a' <= c && c <= 'z' {
        ((c as u8) - 32) as char
    } else {
        c
    }
}

/// The number of characters of a string.
pub fn char_count(s: &String) -> (n: usize)
    ensures
        n == s@.len(),
{
    s.as_str().unicode_len()
}

/// The character at position `i` of a string.
pub fn char_at(s: &String, i: usize) -> (c: char)
    requires
        i < s@.len(),
    ensures
        c == s@[i as int],
{
    s.as_str().get_char(i)
}


/// The abstract value of an optional string.
pub open spec fn opt_view(o: Option<String>) -> Option<Seq<char>> {
    match o {
        Some(s) => Some(s@),
        None => None,
    }
}


/// `a0c a1c ... a(n-1)c`: for each `j` below `n`, `a`, the digits of `j`, then `c`.
pub open spec fn numbered(n: nat, a: Seq<char>, c: Seq<char>) -> Seq<char>
    decreases n,
{
    if n == 0 {
        Seq::empty()
    } else {
        numbered((n - 1) as nat, a, c) + a + decimal((n - 1) as nat) + c
    }
}

/// For each `j` below `n`: `a`, the digits of `j`, `b`, the digits of `j`, then `c`.
pub open spec fn numbered2(n: nat, a: Seq<char>, b: Seq<char>, c: Seq<char>) -> Seq<char>
    decreases n,
{
    if n == 0 {
        Seq::empty()
    } else {
        numbered2((n - 1) as nat, a, b, c) + a + decimal((n - 1) as nat) + b + decimal((n - 1) as nat) + c
    }
}

/// The pieces one after another.
pub open spec fn concat_all(pieces: Seq<Seq<char>>) -> Seq<char>
    decreases pieces.len(),
{
    if pieces.len() == 0 {
        Seq::empty()
    } else {
        concat_all(pieces.drop_last()) + pieces.last()
    }
}

/// Appends `numbered(n, a, c)`.
pub fn push_numbered(s: &mut String, n: usize, a: &str, c: &str)
    ensures
        final(s)@ == old(s)@ + numbered(n as nat, a@, c@),
{
    let mut j: usize = 0;
    assert(old(s)@ + numbered(0, a@, c@) =~= old(s)@);
    while j < n
        invariant
            j <= n,
            s@ == old(s)@ + numbered(j as nat, a@, c@),
        decreases n - j,
    {
        s.append(a);
        push_decimal(s, j as u64);
        s.append(c);
        assert(s@ =~= old(s)@ + numbered((j + 1) as nat, a@, c@));
        j = j + 1;
    }
}

/// Appends `numbered2(n, a, b, c)`.
pub fn push_numbered2(s: &mut String, n: usize, a: &str, b: &str, c: &str)
    ensures
        final(s)@ == old(s)@ + numbered2(n as nat, a@, b@, c@),
{
    let mut j: usize = 0;
    assert(old(s)@ + numbered2(0, a@, b@, c@) =~= old(s)@);
    while j < n
        invariant
            j <= n,
            s@ == old(s)@ + numbered2(j as nat, a@, b@, c@),
        decreases n - j,
    {
        s.append(a);
        push_decimal(s, j as u64);
        s.append(b);
        push_decimal(s, j as u64);
        s.append(c);
        assert(s@ =~= old(s)@ + numbered2((j + 1) as nat, a@, b@, c@));
        j = j + 1;
    }
}

/// Appends all pieces, one after another.
pub fn push_all(s: &mut String, pieces: &Vec<String>)
    ensures
        final(s)@ == old(s)@ + concat_all(pieces.deep_view()),
{
    let mut j: usize = 0;
    assert(pieces.deep_view().take(0) =~= Seq::<Seq<char>>::empty());
    assert(old(s)@ + concat_all(Seq::<Seq<char>>::empty()) =~= old(s)@);
    while j < pieces.len()
        invariant
            j <= pieces.len(),
            s@ == old(s)@ + concat_all(pieces.deep_view().take(j as int)),
        decreases pieces.len() - j,
    {
        s.append(pieces[j].as_str());
        assert(pieces.deep_view().take(j + 1).drop_last() =~= pieces.deep_view().take(j as int));
        assert(s@ =~= old(s)@ + concat_all(pieces.deep_view().take(j + 1)));
        j = j + 1;
    }
    assert(pieces.deep_view().take(pieces.len() as int) =~= pieces.deep_view());
}


/// Whether `s` begins with `t`.
pub open spec fn starts_with(s: Seq<char>, t: Seq<char>) -> bool {
    t.len() <= s.len() && s.subrange(0, t.len() as int) == t
}

/// Whether `t` occurs in `s`.
pub open spec fn occurs(s: Seq<char>, t: Seq<char>) -> bool {
    exists|i: int| 0 <= i && i + t.len() <= s.len() && #[trigger] s.subrange(i, i + t.len()) == t
}

/// `t` occurs in any text made of something, `t`, and something.
pub proof fn lemma_occurs(a: Seq<char>, t: Seq<char>, b: Seq<char>)
    ensures
        occurs(a + t + b, t),
{
    let s = a + t + b;
    assert(s.subrange(a.len() as int, (a.len() + t.len()) as int) =~= t);
}

/// A text begins with what it is made of first.
pub proof fn lemma_starts_with(t: Seq<char>, b: Seq<char>)
    ensures
        starts_with(t + b, t),
{
    assert((t + b).subrange(0, t.len() as int) =~= t);
}

/// A text that begins with `a` and then `t` holds `t`.
pub proof fn lemma_starts_with_occurs(s: Seq<char>, a: Seq<char>, t: Seq<char>)
    requires
        starts_with(s, a + t),
    ensures
        occurs(s, t),
{
    assert(s.subrange(a.len() as int, (a.len() + t.len()) as int) =~= (a + t).subrange(a.len() as int, (a.len() + t.len()) as int));
    assert((a + t).subrange(a.len() as int, (a.len() + t.len()) as int) =~= t);
}

/// What occurs in a part of a text occurs in the text.
pub proof fn lemma_occurs_in(h: Seq<char>, s: Seq<char>, e: Seq<char>, t: Seq<char>)
    requires
        occurs(s, t),
    ensures
        occurs(h + s + e, t),
{
    let i = choose|i: int| 0 <= i && i + t.len() <= s.len() && #[trigger] s.subrange(i, i + t.len()) == t;
    let x = h + s + e;
    assert(x.subrange(h.len() + i, h.len() + i + t.len()) =~= s.subrange(i, i + t.len()));
}

/// A text begins with whatever begins what it begins with.
pub proof fn lemma_starts_with_trans(s: Seq<char>, t: Seq<char>, u: Seq<char>)
    requires
        starts_with(s, t),
        starts_with(t, u),
    ensures
        starts_with(s, u),
{
    assert(s.subrange(0, u.len() as int) =~= t.subrange(0, u.len() as int));
}

/// The first `m` numbered items begin the first `n`, for `m <= n`.
pub proof fn lemma_numbered_prefix(n: nat, m: nat, a: Seq<char>, c: Seq<char>)
    requires
        m <= n,
    ensures
        starts_with(numbered(n, a, c), numbered(m, a, c)),
    decreases n,
{
    if m < n {
        let k = (n - 1) as nat;
        lemma_numbered_prefix(k, m, a, c);
        lemma_starts_with(numbered(k, a, c), a + decimal(k) + c);
        assert(numbered(n, a, c) =~= numbered(k, a, c) + (a + decimal(k) + c));
        lemma_starts_with_trans(numbered(n, a, c), numbered(k, a, c), numbered(m, a, c));
    } else {
        lemma_starts_with(numbered(n, a, c), Seq::empty());
        assert(numbered(n, a, c) + Seq::<char>::empty() =~= numbered(n, a, c));
    }
}

/// Each index below `n` is listed among the first `n` numbered items.
pub proof fn lemma_numbered_lists(n: nat, k: nat, a: Seq<char>, c: Seq<char>)
    requires
        k < n,
    ensures
        occurs(numbered(n, a, c), a + decimal(k) + c),
{
    lemma_numbered_prefix(n, k + 1, a, c);
    assert(numbered(k + 1, a, c) =~= numbered(k, a, c) + (a + decimal(k) + c));
    lemma_starts_with_occurs(numbered(n, a, c), numbered(k, a, c), a + decimal(k) + c);
}

} // verus!
