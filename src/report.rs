//! The audit report as the presenter reads it: findings in report order, each
//! naming an advisory and the package it concerns.

use vstd::prelude::*;

verus! {

/// The identity of a package: name, version and source together.
pub type PackageKey = (Seq<char>, Seq<char>, Option<Seq<char>>);

/// The view of an optional string.
pub open spec fn opt_view(s: Option<String>) -> Option<Seq<char>> {
    match s {
        Some(t) => Some(t@),
        None => None,
    }
}

/// A package of the audited lockfile.
#[derive(Clone, Debug, PartialEq, Eq)]
pub struct PackageId {
    pub name: String,
    pub version: String,
    /// Where the package comes from; `None` for a path dependency.
    pub source: Option<String>,
}

impl PackageId {
    pub open spec fn key(&self) -> PackageKey {
        (self.name@, self.version@, opt_view(self.source))
    }

    /// Whether two packages have the same identity.
    pub fn same_identity(&self, other: &PackageId) -> (r: bool)
        ensures
            r == (self.key() == other.key()),
    {
        if self.name != other.name || self.version != other.version {
            return false;
        }
        match (&self.source, &other.source) {
            (Some(a), Some(b)) => *a == *b,
            (None, None) => true,
            _ => false,
        }
    }

    /// A copy with the same identity.
    pub fn duplicate(&self) -> (r: PackageId)
        ensures
            r.key() == self.key(),
    {
        let source = match &self.source {
            Some(s) => Some(s.clone()),
            None => None,
        };
        PackageId { name: self.name.clone(), version: self.version.clone(), source }
    }
}

/// A published advisory.
#[derive(Clone, Debug)]
pub struct Advisory {
    /// Identifier such as `RUSTSEC-2020-0001`, `CVE-2021-1234` or `GHSA-...`.
    pub id: String,
    pub date: String,
    pub title: String,
    /// The advisory's own link, used where the identifier has no canonical one.
    pub url: Option<String>,
}

/// A package version matched by an advisory.
#[derive(Clone, Debug)]
pub struct Vulnerability {
    pub advisory: Advisory,
    pub package: PackageId,
    /// Version ranges that fix the vulnerability, in advisory order.
    pub patched: Vec<String>,
}

/// An informational advisory about a package.
#[derive(Clone, Debug)]
pub struct Warning {
    pub advisory: Advisory,
    pub package: PackageId,
}

/// The vulnerabilities part of a report.
#[derive(Clone, Debug)]
pub struct VulnerabilityInfo {
    pub found: bool,
    pub count: usize,
    pub list: Vec<Vulnerability>,
}

/// The result of one audit run.
#[derive(Clone, Debug)]
pub struct Report {
    pub vulnerabilities: VulnerabilityInfo,
    pub warnings: Vec<Warning>,
}

impl Report {
    /// As an audit produces it: vulnerabilities are flagged as found exactly
    /// when the list holds some.
    pub open spec fn well_formed(&self) -> bool {
        self.vulnerabilities.found == (self.vulnerabilities.list@.len() > 0)
    }
}

} // verus!
