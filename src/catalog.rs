//! The catalog of entries: those of the configuration file followed by the
//! official releases, looked up by name.
use vstd::prelude::*;
use crate::entry::{Entry, EntrySetting, HostOs, invalid_entry, is_local, is_official, is_remote_of, plain_path};
use crate::error::{Error, Result};
use crate::releases::{all_parse, listing_tags, parse_version, resolve_result, resolve_versions, resolved, semver_triple};
use crate::version::Version;

verus! {

/// The official entries of the releases in an upstream tag listing, newest
/// first.
pub fn official_releases(listing: &str, os: HostOs) -> (r: Result<Vec<Entry>>)
    ensures
        official_result(r, listing@, os),
{
    let versions = match resolve_versions(listing) {
        Ok(v) => v,
        Err(e) => return Err(e),
    };
    let mut entries: Vec<Entry> = Vec::new();
    let mut i: usize = 0;
    while i < versions.len()
        invariant
            i <= versions@.len(),
            entries@.len() == i,
            forall|j: int| 0 <= j < i ==> is_official(#[trigger] entries@[j], versions@[j], os),
            all_parse(listing_tags(listing@)),
            resolved(versions@, listing_tags(listing@)),
        decreases versions@.len() - i,
    {
        let v = versions[i];
        entries.push(Entry::official(v.major, v.minor, v.patch, os));
        i = i + 1;
    }
    assert(officials_of(entries@, versions@, os));
    let r: Result<Vec<Entry>> = Ok(entries);
    assert(r matches Ok(es) && es@ == entries@);
    assert(all_parse(listing_tags(listing@)));
    assert(official_result(r, listing@, os));
    r
}

/// `es` are the official entries of the versions `vs`, in order.
pub open spec fn officials_of(es: Seq<Entry>, vs: Seq<Version>, os: HostOs) -> bool {
    es.len() == vs.len() && forall|j: int| 0 <= j < es.len() ==> is_official(#[trigger] es[j], vs[j], os)
}

/// `r` holds the official entries of the releases of `listing`, newest
/// first, or the `InvalidVersion` error where a release tag is no version.
pub open spec fn official_result(r: Result<Vec<Entry>>, listing: Seq<char>, os: HostOs) -> bool {
    let u = listing_tags(listing);
    if all_parse(u) {
        r matches Ok(es) && exists|vs: Seq<Version>| resolved(vs, u) && #[trigger] officials_of(es@, vs, os)
    } else {
        r matches Err(Error::InvalidVersion { .. })
    }
}

/// A setting names exactly one source: a URL or a path.
pub open spec fn setting_valid(s: EntrySetting) -> bool {
    s.url is Some != s.path is Some
}

/// A setting that parses whatever the environment holds: valid, and with a
/// path that needs no expansion, if any.
pub open spec fn loadable(s: EntrySetting) -> bool {
    &&& setting_valid(s)
    &&& s.path is Some ==> plain_path(s.path->0@)
}

pub open spec fn all_loadable(c: Seq<(String, EntrySetting)>) -> bool {
    forall|i: int| 0 <= i < c.len() ==> loadable(#[trigger] c[i].1)
}

/// The version an entry name stands for, if it is a semantic version.
pub open spec fn name_version(name: Seq<char>) -> Option<Version> {
    match semver_triple(name) {
        Some(t) => Some(Version { major: t.0, minor: t.1, patch: t.2 }),
        None => None,
    }
}

/// `e` is what `parse_setting` makes of the configured entry `named`.
pub open spec fn configured_entry(e: Entry, named: (String, EntrySetting)) -> bool {
    let name = named.0@;
    let version = name_version(name);
    let s = named.1;
    if s.url is Some {
        is_remote_of(Ok(e), name, version, s)
    } else {
        exists|p: Seq<char>| is_local(Ok(e), name, version, p, s)
    }
}

/// The entries of the configuration file (in the order given), then the
/// official releases of the upstream tag listing.
pub fn load_entries(configured: Vec<(String, EntrySetting)>, listing: &str, os: HostOs) -> (r:
    Result<Vec<Entry>>)
    ensures
        (exists|i: int| 0 <= i < configured@.len() && !setting_valid(#[trigger] configured@[i].1))
            ==> r is Err,
        all_loadable(configured@) && all_parse(listing_tags(listing@)) ==> r is Ok,
        !all_parse(listing_tags(listing@)) ==> r is Err,
        r matches Ok(es) ==> {
            &&& es@.len() >= configured@.len()
            &&& forall|i: int|
                0 <= i < configured@.len() ==> configured_entry(#[trigger] es@[i], configured@[i])
            &&& exists|vs: Seq<Version>|
                resolved(vs, listing_tags(listing@)) && #[trigger] officials_of(
                    es@.subrange(configured@.len() as int, es@.len() as int),
                    vs,
                    os,
                )
        },
{
    let ghost conf = configured@;
    let n = configured.len();
    let mut rest = configured;
    let mut entries: Vec<Entry> = Vec::new();
    let mut i: usize = 0;
    while rest.len() > 0
        invariant
            i + rest@.len() == conf.len(),
            conf == configured@,
            conf.len() == n,
            rest@ == conf.subrange(i as int, conf.len() as int),
            entries@.len() == i,
            forall|j: int| 0 <= j < i ==> configured_entry(#[trigger] entries@[j], conf[j]),
            forall|j: int| 0 <= j < i ==> setting_valid(#[trigger] conf[j].1),
        decreases rest@.len(),
    {
        let (name, setting) = rest.remove(0);
        assert(conf[i as int] == (name, setting));
        let version = parse_version(name.as_str());
        let e = match Entry::parse_setting(name.as_str(), version, setting) {
            Ok(e) => e,
            Err(err) => {
                assert(!loadable(conf[i as int].1));
                assert(!all_loadable(conf));
                let r: Result<Vec<Entry>> = Err(err);
                return r;
            },
        };
        entries.push(e);
        i = i + 1;
        assert(rest@ =~= conf.subrange(i as int, conf.len() as int));
    }
    let mut official = match official_releases(listing, os) {
        Ok(o) => o,
        Err(err) => return Err(err),
    };
    let ghost off = official@;
    let ghost pre = entries@;
    assert(all_parse(listing_tags(listing@)));
    entries.append(&mut official);
    assert(entries@ =~= pre + off);
    assert(entries@.subrange(conf.len() as int, entries@.len() as int) =~= off);
    assert forall|j: int| 0 <= j < conf.len() implies configured_entry(
        #[trigger] entries@[j],
        configured@[j],
    ) by {
        assert(entries@[j] == pre[j]);
    }
    Ok(entries)
}

/// The first entry of the catalog with the given name.
pub fn load_entry(entries: Vec<Entry>, name: &str) -> (r: Result<Entry>)
    ensures
        match first_named(entries@, name@) {
            Some(i) => r == Ok::<Entry, Error>(entries@[i]),
            None => invalid_entry(r, name@),
        },
{
    let ghost orig = entries@;
    let mut catalog = entries;
    let mut i: usize = 0;
    while i < catalog.len()
        invariant
            catalog@ == orig,
            orig == entries@,
            i <= catalog@.len(),
            forall|j: int| 0 <= j < i ==> (#[trigger] catalog@[j]).spec_name() != name@,
        decreases catalog@.len() - i,
    {
        if crate::text::str_eq(catalog[i].name(), name) {
            proof {
                lemma_first_named(catalog@, name@, i as int);
            }
            let e = catalog.remove(i);
            assert(e == orig[i as int]);
            assert(first_named(orig, name@) == Some(i as int));
            let r: Result<Entry> = Ok(e);
            assert(r == Ok::<Entry, Error>(orig[i as int]));
            return r;
        }
        i = i + 1;
    }
    proof {
        lemma_first_named_none(catalog@, name@);
    }
    Err(Error::InvalidEntry { name: name.to_owned(), message: "Entry not found".to_owned() })
}

/// Index of the first entry named `name`.
pub open spec fn first_named(es: Seq<Entry>, name: Seq<char>) -> Option<int>
    decreases es.len(),
{
    if es.len() == 0 {
        None
    } else {
        match first_named(es.drop_last(), name) {
            Some(i) => Some(i),
            None => if es.last().spec_name() == name {
                Some(es.len() - 1)
            } else {
                None
            },
        }
    }
}

proof fn lemma_first_named(es: Seq<Entry>, name: Seq<char>, i: int)
    requires
        0 <= i < es.len(),
        es[i].spec_name() == name,
        forall|j: int| 0 <= j < i ==> (#[trigger] es[j]).spec_name() != name,
    ensures
        first_named(es, name) == Some(i),
    decreases es.len(),
{
    if i < es.len() - 1 {
        lemma_first_named(es.drop_last(), name, i);
    } else {
        lemma_first_named_none(es.drop_last(), name);
    }
}

proof fn lemma_first_named_none(es: Seq<Entry>, name: Seq<char>)
    requires
        forall|j: int| 0 <= j < es.len() ==> (#[trigger] es[j]).spec_name() != name,
    ensures
        first_named(es, name) is None,
    decreases es.len(),
{
    if es.len() > 0 {
        lemma_first_named_none(es.drop_last(), name);
    }
}

} // verus!
