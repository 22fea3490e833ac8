//! Character-sequence models of the strings the library builds, and the
//! std string operations it relies on.
use vstd::prelude::*;
use itertools::Itertools;

verus! {

/// The ASCII digit for `d < 10`.
pub open spec fn digit_char(d: nat) -> char {
    if d == 0 { '0' }
    else if d == 1 { '1' }
    else if d == 2 { '2' }
    else if d == 3 { '3' }
    else if d == 4 { '4' }
    else if d == 5 { '5' }
    else if d == 6 { '6' }
    else if d == 7 { '7' }
    else if d == 8 { '8' }
    else { '9' }
}

/// Decimal representation of `n`, without leading zeros.
pub open spec fn decimal(n: nat) -> Seq<char>
    decreases n,
{
    if n < 10 {
        seq![digit_char(n)]
    } else {
        decimal(n / 10) + seq![digit_char(n % 10)]
    }
}

pub open spec fn is_upper_ascii(c: char) -> bool {
    'A' <= c && c <= 'Z'
}

/// `c` with ASCII upper-case letters mapped to lower case.
pub open spec fn lower_ascii_char(c: char) -> char {
    if is_upper_ascii(c) { ((c as u32) + 32) as char } else { c }
}

pub open spec fn lower_ascii(s: Seq<char>) -> Seq<char> {
    s.map_values(|c: char| lower_ascii_char(c))
}

/// Relies on `u64`'s `Display` (through `to_string`): decimal digits, no
/// leading zeros.
#[verifier::external_body]
pub(crate) fn u64_to_decimal(n: u64) -> (r: String)
    ensures
        r@ == decimal(n as nat),
{
    n.to_string()
}

/// Relies on `str::to_ascii_lowercase`: ASCII letters are lowered, every
/// other character is kept.
#[verifier::external_body]
pub(crate) fn to_ascii_lowercase(s: &str) -> (r: String)
    ensures
        r@ == lower_ascii(s@),
{
    s.to_ascii_lowercase()
}

/// Whether two strings hold the same characters.
pub fn str_eq(a: &str, b: &str) -> (r: bool)
    ensures
        r == (a@ == b@),
{
    a.to_owned() == b.to_owned()
}

/// The strings of `s` with `sep` between each two.
pub open spec fn joined(s: Seq<Seq<char>>, sep: Seq<char>) -> Seq<char>
    decreases s.len(),
{
    if s.len() == 0 {
        seq![]
    } else if s.len() == 1 {
        s[0]
    } else {
        joined(s.drop_last(), sep) + sep + s.last()
    }
}

/// Whether `s` begins with `p`.
pub open spec fn starts_with(s: Seq<char>, p: Seq<char>) -> bool {
    p.len() <= s.len() && s.subrange(0, p.len() as int) == p
}

/// A string that differs from `p` at a position of `p` does not begin with it.
pub proof fn lemma_differs_at(s: Seq<char>, p: Seq<char>, k: int)
    requires
        0 <= k < p.len(),
        k >= s.len() || s[k] != p[k],
    ensures
        !starts_with(s, p),
{
    if starts_with(s, p) {
        assert(s.subrange(0, p.len() as int)[k] == s[k]);
    }
}

/// Relies on `Itertools::join`: the items, written out, with `sep` between
/// each two.
#[verifier::external_body]
pub(crate) fn join_strings(v: &Vec<String>, sep: &str) -> (r: String)
    ensures
        r@ == joined(v.deep_view(), sep@),
{
    v.iter().join(sep)
}

/// The pieces of `s` between the occurrences of `c`, in order, empty
/// pieces included.
pub open spec fn split_char(s: Seq<char>, c: char) -> Seq<Seq<char>>
    decreases s.len(),
{
    if s.len() == 0 {
        seq![seq![]]
    } else {
        let p = split_char(s.drop_last(), c);
        if s.last() == c {
            p.push(seq![])
        } else {
            p.update(p.len() - 1, p.last().push(s.last()))
        }
    }
}

/// Splitting yields at least one piece.
pub proof fn lemma_split_nonempty(s: Seq<char>, c: char)
    ensures
        split_char(s, c).len() >= 1,
    decreases s.len(),
{
    if s.len() > 0 {
        lemma_split_nonempty(s.drop_last(), c);
    }
}

/// Relies on `str::split` with a `char` pattern: the pieces between the
/// occurrences of `sep`, in order, empty pieces included.
#[verifier::external_body]
pub(crate) fn split_on(s: &str, sep: char) -> (r: Vec<String>)
    ensures
        r.deep_view() == split_char(s@, sep),
{
    s.split(sep).map(|p| p.to_owned()).collect()
}

/// `s` without the prefix `p`, if it begins with it.
pub fn strip_prefix(s: &str, p: &str) -> (r: Option<String>)
    ensures
        starts_with(s@, p@) ==> r is Some && r->0@ == s@.subrange(p@.len() as int, s@.len() as int),
        !starts_with(s@, p@) ==> r is None,
{
    let sl = s.unicode_len();
    let pl = p.unicode_len();
    if pl > sl {
        return None;
    }
    let mut i: usize = 0;
    while i < pl
        invariant
            i <= pl <= sl,
            sl == s@.len(),
            pl == p@.len(),
            forall|j: int| 0 <= j < i ==> s@[j] == p@[j],
        decreases pl - i,
    {
        if s.get_char(i) != p.get_char(i) {
            proof {
                lemma_differs_at(s@, p@, i as int);
            }
            return None;
        }
        i = i + 1;
    }
    assert(s@.subrange(0, pl as int) =~= p@);
    Some(s.substring_char(pl, sl).to_owned())
}

/// Joining the pieces of a split with the separator gives the string back.
pub proof fn lemma_split_join(s: Seq<char>, c: char)
    ensures
        joined(split_char(s, c), seq![c]) == s,
    decreases s.len(),
{
    if s.len() > 0 {
        let p = split_char(s.drop_last(), c);
        lemma_split_join(s.drop_last(), c);
        lemma_split_nonempty(s.drop_last(), c);
        let q = split_char(s, c);
        assert(s =~= s.drop_last().push(s.last()));
        if s.last() == c {
            assert(q.drop_last() =~= p);
            assert(q.len() >= 2);
            assert(joined(q, seq![c]) == joined(p, seq![c]) + seq![c] + q.last());
            assert(joined(q, seq![c]) =~= s);
        } else if p.len() == 1 {
            assert(q.len() == 1);
            assert(joined(q, seq![c]) == q[0]);
            assert(joined(p, seq![c]) == p[0]);
            assert(joined(q, seq![c]) =~= s);
        } else {
            assert(q.drop_last() =~= p.drop_last());
            assert(joined(p, seq![c]) == joined(p.drop_last(), seq![c]) + seq![c] + p.last());
            assert(joined(q, seq![c]) == joined(p.drop_last(), seq![c]) + seq![c] + q.last());
            assert(joined(q, seq![c]) =~= s);
        }
    }
}

} // verus!
