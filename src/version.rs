//! Semantic versions and their precedence.

use vstd::prelude::*;
use core::cmp::Ordering;

verus! {

/// A semantic version as far as precedence reads it: build metadata takes
/// no part in precedence and is not kept.
#[derive(Clone, Debug)]
pub struct Version {
    pub major: u64,
    pub minor: u64,
    pub patch: u64,
    /// The pre-release tag, empty for a release.
    pub pre: String,
}

impl Version {
    pub open spec fn model(&self) -> (u64, u64, u64, Seq<char>) {
        (self.major, self.minor, self.patch, self.pre@)
    }

    /// The pre-release tag is one that version parsing produces.
    pub open spec fn wf(&self) -> bool {
        is_parsed_prerelease(self.pre@)
    }
}

/// The version that semver reads in a text, if the text is one.
pub uninterp spec fn semver_of(text: Seq<char>) -> Option<(u64, u64, u64, Seq<char>)>;

/// The precedence order that semver gives two pre-release tags.
pub uninterp spec fn prerelease_order(a: Seq<char>, b: Seq<char>) -> Ordering;

/// `p` is the pre-release tag of some text that parses as a version.
pub open spec fn is_parsed_prerelease(p: Seq<char>) -> bool {
    exists|t: Seq<char>| tag_of(#[trigger] semver_of(t)) == Some(p)
}

/// The pre-release tag of a version that was read.
pub open spec fn tag_of(m: Option<(u64, u64, u64, Seq<char>)>) -> Option<Seq<char>> {
    match m {
        Some((_, _, _, pre)) => Some(pre),
        None => None,
    }
}

pub open spec fn compare_nums(a: u64, b: u64) -> Ordering {
    if a < b {
        Ordering::Less
    } else if a > b {
        Ordering::Greater
    } else {
        Ordering::Equal
    }
}

/// Semantic-versioning precedence: major, minor and patch numerically, then
/// the pre-release tags, where a pre-release comes before its release.
pub open spec fn precedence(a: (u64, u64, u64, Seq<char>), b: (u64, u64, u64, Seq<char>)) -> Ordering {
    if a.0 != b.0 {
        compare_nums(a.0, b.0)
    } else if a.1 != b.1 {
        compare_nums(a.1, b.1)
    } else if a.2 != b.2 {
        compare_nums(a.2, b.2)
    } else {
        prerelease_order(a.3, b.3)
    }
}

/// Relies on `semver::Version::parse`; the error is kept as its message.
#[verifier::external_body]
fn parse_semver(text: &str) -> (r: Result<Version, String>)
    ensures
        match r {
            Ok(v) => semver_of(text@) == Some(v.model()),
            Err(_) => semver_of(text@) is None,
        },
{
    match semver::Version::parse(text) {
        Ok(v) => Ok(Version { major: v.major, minor: v.minor, patch: v.patch, pre: v.pre.as_str().to_string() }),
        Err(e) => Err(e.to_string()),
    }
}

/// Relies on `semver::Prerelease::new`, which accepts every pre-release tag
/// that `Version::parse` produced, and on `Prerelease`'s `Ord`: a release
/// (empty tag) comes after every pre-release, equal tags are equal.
#[verifier::external_body]
fn compare_prerelease(a: &str, b: &str) -> (r: Ordering)
    requires
        is_parsed_prerelease(a@),
        is_parsed_prerelease(b@),
    ensures
        r == prerelease_order(a@, b@),
        a@ == b@ ==> r == Ordering::Equal,
        a@.len() == 0 && b@.len() > 0 ==> r == Ordering::Greater,
        a@.len() > 0 && b@.len() == 0 ==> r == Ordering::Less,
{
    semver::Prerelease::new(a).unwrap().cmp(&semver::Prerelease::new(b).unwrap())
}

/// Reads a version from text.
pub fn parse_version(text: &str) -> (r: Result<Version, String>)
    ensures
        match r {
            Ok(v) => semver_of(text@) == Some(v.model()) && v.wf(),
            Err(_) => semver_of(text@) is None,
        },
{
    let r = parse_semver(text);
    if let Ok(v) = &r {
        assert(tag_of(semver_of(text@)) == Some(v.pre@));
    }
    r
}

fn cmp_u64(a: u64, b: u64) -> (r: Ordering)
    ensures
        r == compare_nums(a, b),
{
    if a < b {
        Ordering::Less
    } else if a > b {
        Ordering::Greater
    } else {
        Ordering::Equal
    }
}

/// Compares two versions by precedence.
pub fn compare_versions(a: &Version, b: &Version) -> (r: Ordering)
    requires
        a.wf(),
        b.wf(),
    ensures
        r == precedence(a.model(), b.model()),
{
    if a.major != b.major {
        cmp_u64(a.major, b.major)
    } else if a.minor != b.minor {
        cmp_u64(a.minor, b.minor)
    } else if a.patch != b.patch {
        cmp_u64(a.patch, b.patch)
    } else {
        compare_prerelease(a.pre.as_str(), b.pre.as_str())
    }
}

} // verus!
