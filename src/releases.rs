//! Official releases: the upstream tag listing resolved into release
//! versions, newest first, and the entries synthesized for them.
use vstd::prelude::*;
use itertools::Itertools;
use crate::error::{Error, Result};
use crate::text::{lemma_split_join, lemma_split_nonempty, split_char, split_on, starts_with, strip_prefix};
use crate::version::{Version, version_le};

verus! {

/// The pattern of a release version tag: three dot-separated numbers.
pub const RELEASE_PATTERN: &'static str = r"^\d+\.\d+\.\d+$";

pub open spec fn is_ascii_digit(c: char) -> bool {
    '0' <= c && c <= '9'
}

pub open spec fn all_ascii(s: Seq<char>) -> bool {
    forall|i: int| 0 <= i < s.len() ==> (s[i] as u32) < 128
}

/// `s` is a non-empty run of ASCII digits.
pub open spec fn digits(s: Seq<char>) -> bool {
    s.len() > 0 && forall|i: int| 0 <= i < s.len() ==> is_ascii_digit(#[trigger] s[i])
}

/// `s` is three dot-separated runs of ASCII digits.
pub open spec fn release_form(s: Seq<char>) -> bool {
    let p = split_char(s, '.');
    p.len() == 3 && digits(p[0]) && digits(p[1]) && digits(p[2])
}

/// Value of a run of decimal digits.
pub open spec fn digits_value(s: Seq<char>) -> nat
    decreases s.len(),
{
    if s.len() == 0 {
        0
    } else {
        (digits_value(s.drop_last()) * 10 + (s.last() as u32) - 48) as nat
    }
}

/// A version component that a semantic version accepts: no leading zero,
/// and within `u64`.
pub open spec fn component_ok(d: Seq<char>) -> bool {
    (d.len() == 1 || d[0] != '0') && digits_value(d) <= u64::MAX
}

/// The version that a string in release form denotes, if its components are
/// acceptable.
pub open spec fn release_value(s: Seq<char>) -> Option<(u64, u64, u64)> {
    let p = split_char(s, '.');
    if component_ok(p[0]) && component_ok(p[1]) && component_ok(p[2]) {
        Some((digits_value(p[0]) as u64, digits_value(p[1]) as u64, digits_value(p[2]) as u64))
    } else {
        None
    }
}

pub open spec fn pow10(n: nat) -> nat
    decreases n,
{
    if n == 0 {
        1
    } else {
        10 * pow10((n - 1) as nat)
    }
}

pub open spec fn digit_chars(s: Seq<char>) -> bool {
    forall|i: int| 0 <= i < s.len() ==> is_ascii_digit(#[trigger] s[i])
}

proof fn lemma_pow10_monotone(m: nat, n: nat)
    requires
        m <= n,
    ensures
        pow10(m) <= pow10(n),
    decreases n,
{
    if m < n {
        lemma_pow10_monotone(m, (n - 1) as nat);
    }
}

proof fn lemma_digits_upper(d: Seq<char>)
    requires
        digit_chars(d),
    ensures
        digits_value(d) < pow10(d.len()),
    decreases d.len(),
{
    if d.len() > 0 {
        let dl = d.drop_last();
        lemma_digits_upper(dl);
        let v1 = digits_value(dl);
        let p1 = pow10(dl.len());
        let dg = (d.last() as u32) as int - 48;
        assert(is_ascii_digit(d[d.len() - 1]));
        assert(digits_value(d) == v1 * 10 + dg);
        assert(v1 * 10 + dg < 10 * p1) by (nonlinear_arith)
            requires
                v1 + 1 <= p1,
                0 <= dg <= 9,
        ;
    }
}

proof fn lemma_digits_lower(d: Seq<char>)
    requires
        d.len() > 0,
        digit_chars(d),
        d[0] != '0',
    ensures
        digits_value(d) >= pow10((d.len() - 1) as nat),
    decreases d.len(),
{
    let dl = d.drop_last();
    assert(is_ascii_digit(d[d.len() - 1]));
    if d.len() == 1 {
        assert(digits_value(dl) == 0);
    } else {
        assert(dl[0] == d[0]);
        lemma_digits_lower(dl);
        let v1 = digits_value(dl);
        let p1 = pow10((dl.len() - 1) as nat);
        let dg = (d.last() as u32) as int - 48;
        assert(v1 * 10 + dg >= 10 * p1) by (nonlinear_arith)
            requires
                v1 >= p1,
                0 <= dg,
        ;
    }
}

proof fn lemma_digits_same_len(a: Seq<char>, b: Seq<char>)
    requires
        digit_chars(a),
        digit_chars(b),
        a.len() == b.len(),
        digits_value(a) == digits_value(b),
    ensures
        a == b,
    decreases a.len(),
{
    if a.len() > 0 {
        let x = digits_value(a.drop_last());
        let y = digits_value(b.drop_last());
        let d = (a.last() as u32) as int - 48;
        let e = (b.last() as u32) as int - 48;
        assert(is_ascii_digit(a[a.len() - 1]));
        assert(is_ascii_digit(b[b.len() - 1]));
        assert(d == e && x == y) by (nonlinear_arith)
            requires
                x * 10 + d == y * 10 + e,
                0 <= d <= 9,
                0 <= e <= 9,
                x >= 0,
                y >= 0,
        ;
        lemma_digits_same_len(a.drop_last(), b.drop_last());
        assert(a =~= a.drop_last().push(a.last()));
        assert(b =~= b.drop_last().push(b.last()));
    }
}

/// Components without leading zeros are equal when their values are.
proof fn lemma_component_injective(a: Seq<char>, b: Seq<char>)
    requires
        digits(a),
        digits(b),
        a.len() == 1 || a[0] != '0',
        b.len() == 1 || b[0] != '0',
        digits_value(a) == digits_value(b),
    ensures
        a == b,
{
    if a.len() < b.len() {
        lemma_digits_upper(a);
        lemma_digits_lower(b);
        lemma_pow10_monotone(a.len(), (b.len() - 1) as nat);
    } else if b.len() < a.len() {
        lemma_digits_upper(b);
        lemma_digits_lower(a);
        lemma_pow10_monotone(b.len(), (a.len() - 1) as nat);
    } else {
        lemma_digits_same_len(a, b);
    }
}

/// Distinct strings in release form denote distinct versions.
proof fn lemma_release_injective(s: Seq<char>, t: Seq<char>)
    requires
        release_form(s),
        release_form(t),
        release_value(s) is Some,
        release_value(s) == release_value(t),
    ensures
        s == t,
{
    let p = split_char(s, '.');
    let q = split_char(t, '.');
    assert forall|k: int| 0 <= k < 3 implies p[k] == q[k] by {
        lemma_component_injective(p[k], q[k]);
    }
    assert(p =~= q);
    lemma_split_join(s, '.');
    lemma_split_join(t, '.');
}

/// Whether the release pattern matches `s`.
pub uninterp spec fn release_pattern_match(s: Seq<char>) -> bool;

/// Major, minor and patch of `s` as a semantic version, if it is one.
pub uninterp spec fn semver_triple(s: Seq<char>) -> Option<(u64, u64, u64)>;

/// Relies on `regex::Regex::new` and `Regex::is_match` for the release
/// pattern, which compiles. On ASCII text `\d` matches exactly the digits
/// `0`-`9`, and `^`/`$` anchor at the ends of the text.
#[verifier::external_body]
fn pattern_matches(pattern: &str, s: &str) -> (r: bool)
    requires
        pattern@ == RELEASE_PATTERN@,
    ensures
        r == release_pattern_match(s@),
        all_ascii(s@) ==> (r == release_form(s@)),
{
    regex::Regex::new(pattern).unwrap().is_match(s)
}

/// Relies on `semver::Version::parse`: for digits separated by two dots it
/// succeeds exactly when no component has a leading zero and each fits in
/// `u64`, with those values.
#[verifier::external_body]
fn parse_semver(s: &str) -> (r: Option<(u64, u64, u64)>)
    ensures
        r == semver_triple(s@),
        release_form(s@) ==> r == release_value(s@),
{
    semver::Version::parse(s).ok().map(|v| (v.major, v.minor, v.patch))
}

/// `s` with every later copy of an item removed.
pub open spec fn dedup(s: Seq<Seq<char>>) -> Seq<Seq<char>>
    decreases s.len(),
{
    if s.len() == 0 {
        seq![]
    } else {
        let p = dedup(s.drop_last());
        if p.contains(s.last()) {
            p
        } else {
            p.push(s.last())
        }
    }
}

/// Every item kept by `dedup` is an item of `s`, and no item is kept twice.
proof fn lemma_dedup(s: Seq<Seq<char>>)
    ensures
        dedup(s).no_duplicates(),
        forall|i: int| 0 <= i < dedup(s).len() ==> s.contains(#[trigger] dedup(s)[i]),
    decreases s.len(),
{
    if s.len() > 0 {
        lemma_dedup(s.drop_last());
        let p = dedup(s.drop_last());
        assert forall|i: int| 0 <= i < dedup(s).len() implies s.contains(#[trigger] dedup(s)[i]) by {
            if i < p.len() {
                let k = choose|k: int| 0 <= k < s.drop_last().len() && s.drop_last()[k] == p[i];
                assert(s[k] == p[i]);
            } else {
                assert(s[s.len() - 1] == s.last());
            }
        }
    }
}

/// Relies on `Itertools::unique`: the items in order, keeping the first of
/// equal items.
#[verifier::external_body]
fn unique_strings(v: Vec<String>) -> (r: Vec<String>)
    ensures
        r.deep_view() == dedup(v.deep_view()),
{
    v.into_iter().unique().collect()
}

pub open spec fn triple_le(a: (u64, u64, u64), b: (u64, u64, u64)) -> bool {
    a.0 < b.0 || (a.0 == b.0 && (a.1 < b.1 || (a.1 == b.1 && a.2 <= b.2)))
}

/// Relies on `Itertools::sorted`: the same items in ascending order; tuples
/// compare lexicographically.
#[verifier::external_body]
fn sort_triples(v: Vec<(u64, u64, u64)>) -> (r: Vec<(u64, u64, u64)>)
    ensures
        r@.to_multiset() == v@.to_multiset(),
        forall|i: int, j: int| 0 <= i < j < r@.len() ==> triple_le(r@[i], r@[j]),
{
    v.into_iter().sorted().collect()
}

/// The version named by a string, if it is a semantic version (pre-release
/// and build parts are not kept).
pub fn parse_version(s: &str) -> (r: Option<Version>)
    ensures
        match semver_triple(s@) {
            Some(t) => r == Some(Version { major: t.0, minor: t.1, patch: t.2 }),
            None => r is None,
        },
{
    match parse_semver(s) {
        Some(t) => Some(Version { major: t.0, minor: t.1, patch: t.2 }),
        None => None,
    }
}

/// The version tag of a listing line `<hash>\t<ref>`: its ref without the
/// release tag prefix, if it has one.
pub open spec fn tag_of_line(line: Seq<char>) -> Option<Seq<char>> {
    let f = split_char(line, '\t');
    if f.len() >= 2 && starts_with(f[1], "refs/tags/llvmorg-"@) {
        Some(f[1].subrange("refs/tags/llvmorg-"@.len() as int, f[1].len() as int))
    } else {
        None
    }
}

/// The version tags of the lines that match the release pattern, in order.
pub open spec fn release_tags(lines: Seq<Seq<char>>) -> Seq<Seq<char>>
    decreases lines.len(),
{
    if lines.len() == 0 {
        seq![]
    } else {
        let p = release_tags(lines.drop_last());
        match tag_of_line(lines.last()) {
            Some(t) => if release_pattern_match(t) {
                p.push(t)
            } else {
                p
            },
            None => p,
        }
    }
}

/// The lines of a listing, without the piece after its last newline.
pub open spec fn listing_lines(listing: Seq<char>) -> Seq<Seq<char>> {
    split_char(listing, '\n').drop_last()
}

/// The distinct release tags of a listing, in order of first appearance.
pub open spec fn listing_tags(listing: Seq<char>) -> Seq<Seq<char>> {
    dedup(release_tags(listing_lines(listing)))
}

pub open spec fn all_parse(u: Seq<Seq<char>>) -> bool {
    forall|i: int| 0 <= i < u.len() ==> (#[trigger] semver_triple(u[i])) is Some
}

pub open spec fn parsed_triples(u: Seq<Seq<char>>) -> Seq<(u64, u64, u64)> {
    u.map_values(|t: Seq<char>| semver_triple(t)->0)
}

pub open spec fn version_triple(v: Version) -> (u64, u64, u64) {
    (v.major, v.minor, v.patch)
}

/// Each version precedes or equals the one before it.
pub open spec fn descending(vs: Seq<Version>) -> bool {
    forall|i: int, j: int| 0 <= i < j < vs.len() ==> version_le(#[trigger] vs[j], #[trigger] vs[i])
}

/// `vs` holds the versions that the tags `u` name, newest first; with
/// ASCII tags, each version once.
pub open spec fn resolved(vs: Seq<Version>, u: Seq<Seq<char>>) -> bool {
    &&& vs.map_values(|v: Version| version_triple(v)).to_multiset() == parsed_triples(u).to_multiset()
    &&& descending(vs)
    &&& (forall|k: int| 0 <= k < u.len() ==> all_ascii(#[trigger] u[k])) ==> vs.no_duplicates()
}

/// `t` is one of the tags `u` that is no semantic version.
pub open spec fn unparsed_tag(u: Seq<Seq<char>>, t: Seq<char>) -> bool {
    exists|i: int| 0 <= i < u.len() && (#[trigger] semver_triple(u[i])) is None && t == u[i]
}

/// `r` holds the versions that the tags `u` name, newest first, or the
/// `InvalidVersion` error for one of them that is no semantic version.
pub open spec fn resolve_result(r: Result<Vec<Version>>, u: Seq<Seq<char>>) -> bool {
    if all_parse(u) {
        r matches Ok(vs) && resolved(vs@, u)
    } else {
        r matches Err(Error::InvalidVersion { version }) && unparsed_tag(u, version@)
    }
}

fn collect_release_tags(lines: &Vec<String>) -> (r: Vec<String>)
    ensures
        r.deep_view() == release_tags(lines.deep_view()),
        forall|k: int|
            0 <= k < r@.len() && all_ascii(#[trigger] r.deep_view()[k]) ==> release_form(
                r.deep_view()[k],
            ),
{
    let mut r: Vec<String> = Vec::new();
    let mut i: usize = 0;
    while i < lines.len()
        invariant
            i <= lines@.len(),
            r.deep_view() == release_tags(lines.deep_view().subrange(0, i as int)),
            forall|k: int|
                0 <= k < r@.len() && all_ascii(#[trigger] r.deep_view()[k]) ==> release_form(
                    r.deep_view()[k],
                ),
        decreases lines@.len() - i,
    {
        let ghost before = r.deep_view();
        let ghost sub = lines.deep_view().subrange(0, i + 1);
        assert(sub.drop_last() =~= lines.deep_view().subrange(0, i as int));
        assert(sub.last() == lines@[i as int]@);
        let fields = split_on(lines[i].as_str(), '\t');
        if fields.len() >= 2 {
            assert(fields.deep_view()[1] == fields@[1]@);
            match strip_prefix(fields[1].as_str(), "refs/tags/llvmorg-") {
                Some(t) => {
                    if pattern_matches(RELEASE_PATTERN, t.as_str()) {
                        r.push(t);
                        assert(r.deep_view() =~= before.push(t@));
                    }
                },
                None => {},
            }
        }
        i = i + 1;
    }
    assert(lines.deep_view().subrange(0, lines@.len() as int) =~= lines.deep_view());
    r
}

/// The release versions of an upstream tag listing (`<hash>\t<ref>` lines):
/// tags outside the release prefix or pattern are dropped, duplicates
/// removed, and the versions sorted newest first. A tag that matches the
/// pattern but is no semantic version is an `InvalidVersion` error.
pub fn resolve_versions(listing: &str) -> (r: Result<Vec<Version>>)
    ensures
        resolve_result(r, listing_tags(listing@)),
{
    let mut lines = split_on(listing, '\n');
    let ghost all = lines.deep_view();
    proof {
        lemma_split_nonempty(listing@, '\n');
    }
    let ghost before = lines@;
    lines.pop();
    assert(lines@ =~= before.drop_last());
    assert(lines.deep_view() =~= all.drop_last());
    let tags = collect_release_tags(&lines);
    let ghost tv = tags.deep_view();
    let uniq = unique_strings(tags);
    let ghost u = uniq.deep_view();
    proof {
        lemma_dedup(tv);
        assert forall|k: int| 0 <= k < u.len() && all_ascii(#[trigger] u[k]) implies release_form(
            u[k],
        ) by {
            let m = choose|m: int| 0 <= m < tv.len() && tv[m] == u[k];
            assert(all_ascii(tv[m]));
        }
    }
    let mut parsed: Vec<(u64, u64, u64)> = Vec::new();
    let mut i: usize = 0;
    while i < uniq.len()
        invariant
            i <= uniq@.len(),
            u == uniq.deep_view(),
            u == listing_tags(listing@),
            parsed@ == parsed_triples(u.subrange(0, i as int)),
            forall|j: int| 0 <= j < i ==> (#[trigger] semver_triple(u[j])) is Some,
            forall|j: int|
                0 <= j < i && release_form(u[j]) ==> #[trigger] semver_triple(u[j])
                    == release_value(u[j]),
        decreases uniq@.len() - i,
    {
        assert(u[i as int] == uniq@[i as int]@);
        match parse_semver(uniq[i].as_str()) {
            Some(t) => {
                parsed.push(t);
                assert(parsed@ =~= parsed_triples(u.subrange(0, i + 1)));
            },
            None => {
                return Err(Error::invalid_version(uniq[i].as_str()));
            },
        }
        i = i + 1;
    }
    assert(u.subrange(0, u.len() as int) =~= u);
    proof {
        if forall|k: int| 0 <= k < u.len() ==> all_ascii(#[trigger] u[k]) {
            assert forall|a: int, b: int|
                0 <= a < parsed@.len() && 0 <= b < parsed@.len() && a != b implies parsed@[a]
                != parsed@[b] by {
                assert(all_ascii(u[a]) && all_ascii(u[b]));
                assert(release_form(u[a]) && release_form(u[b]));
                if parsed@[a] == parsed@[b] {
                    lemma_release_injective(u[a], u[b]);
                }
            }
            parsed@.lemma_multiset_has_no_duplicates();
        }
    }
    let ghost pv = parsed@;
    let sorted = sort_triples(parsed);
    let n = sorted.len();
    let mut out: Vec<Version> = Vec::new();
    let mut k: usize = n;
    while k > 0
        invariant
            k <= n == sorted@.len(),
            out@.len() == n - k,
            forall|j: int| 0 <= j < n - k ==> version_triple(#[trigger] out@[j]) == sorted@[n - 1 - j],
        decreases k,
    {
        let t = sorted[k - 1];
        out.push(Version { major: t.0, minor: t.1, patch: t.2 });
        k = k - 1;
    }
    assert(out@.map_values(|v: Version| version_triple(v)) =~= sorted@.reverse());
    proof {
        sorted@.lemma_reverse_to_multiset();
        let om = out@.map_values(|v: Version| version_triple(v));
        if forall|k: int| 0 <= k < u.len() ==> all_ascii(#[trigger] u[k]) {
            assert(om.to_multiset() == pv.to_multiset());
            om.lemma_multiset_has_no_duplicates_conv();
            assert forall|a: int, b: int|
                0 <= a < out@.len() && 0 <= b < out@.len() && a != b implies out@[a] != out@[b] by {
                assert(om[a] != om[b]);
            }
        }
        assert forall|a: int, b: int| 0 <= a < b < out@.len() implies version_le(
            #[trigger] out@[b],
            #[trigger] out@[a],
        ) by {
            assert(triple_le(sorted@[n - 1 - b], sorted@[n - 1 - a]));
        }
    }
    Ok(out)
}

} // verus!
