//! Release versions: `major.minor.patch` triples, ordered by semantic-version
//! precedence.
use vstd::prelude::*;
use crate::text::{decimal, u64_to_decimal};

verus! {

/// A release version.
#[derive(PartialEq, Eq, Structural, Debug, Clone, Copy)]
pub struct Version {
    pub major: u64,
    pub minor: u64,
    pub patch: u64,
}

/// `a` precedes or equals `b` (lexicographic on major, minor, patch).
pub open spec fn version_le(a: Version, b: Version) -> bool {
    a.major < b.major || (a.major == b.major && (a.minor < b.minor || (a.minor == b.minor
        && a.patch <= b.patch)))
}

/// The display form `major.minor.patch`.
pub open spec fn version_text(v: Version) -> Seq<char> {
    decimal(v.major as nat) + "."@ + decimal(v.minor as nat) + "."@ + decimal(v.patch as nat)
}

impl Version {
    pub fn new(major: u64, minor: u64, patch: u64) -> (r: Version)
        ensures
            r == (Version { major, minor, patch }),
    {
        Version { major, minor, patch }
    }

    /// Whether `self` precedes or equals `other`.
    pub fn le(&self, other: &Version) -> (r: bool)
        ensures
            r == version_le(*self, *other),
    {
        self.major < other.major || (self.major == other.major && (self.minor < other.minor || (
        self.minor == other.minor && self.patch <= other.patch)))
    }

    /// The display form `major.minor.patch`.
    pub fn to_string(&self) -> (r: String)
        ensures
            r@ == version_text(*self),
    {
        let mut s = u64_to_decimal(self.major);
        s.append(".");
        let mi = u64_to_decimal(self.minor);
        s.append(mi.as_str());
        s.append(".");
        let pa = u64_to_decimal(self.patch);
        s.append(pa.as_str());
        s
    }
}

} // verus!
