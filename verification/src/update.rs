//! Whether a newer release of the tool is out: the latest release's tag is
//! compared with the running version by SemVer precedence (the `semver` crate).
use vstd::prelude::*;

use crate::text::{chars_of, strip_all_prefix, string_of, trim_start_matches};

verus! {

#[verifier::external_type_specification]
#[verifier::external_body]
pub struct ExSemverVersion(semver::Version);

/// What `semver::Version::parse` makes of a text: the version's parts, or `None`
/// when the text is not a SemVer version.
pub uninterp spec fn semver_parse(text: Seq<char>) -> Option<(u64, u64, u64, Seq<char>, Seq<char>)>;

/// Whether version `a` comes before version `b` (`<` on `semver::Version`).
pub uninterp spec fn semver_lt(a: (u64, u64, u64, Seq<char>, Seq<char>), b: (u64, u64, u64, Seq<char>, Seq<char>)) -> bool;

/// A parsed version.
pub struct SemVer {
    major: u64,
    minor: u64,
    patch: u64,
    pre: String,
    build: String,
    raw: semver::Version,
}

impl SemVer {
    /// The version's parts.
    pub closed spec fn view(&self) -> (u64, u64, u64, Seq<char>, Seq<char>) {
        (self.major, self.minor, self.patch, self.pre@, self.build@)
    }

    pub fn major(&self) -> (r: u64)
        ensures
            r == self@.0,
    {
        self.major
    }

    pub fn minor(&self) -> (r: u64)
        ensures
            r == self@.1,
    {
        self.minor
    }

    pub fn patch(&self) -> (r: u64)
        ensures
            r == self@.2,
    {
        self.patch
    }
}

/// Parses `text` as a SemVer version (`semver::Version::parse`).
#[verifier::external_body]
fn parse_semver(text: &str) -> (r: Option<SemVer>)
    ensures
        match r {
            Some(v) => semver_parse(text@) == Some(v@),
            None => semver_parse(text@) is None,
        },
{
    match semver::Version::parse(text) {
        Ok(v) => Some(SemVer {
            major: v.major,
            minor: v.minor,
            patch: v.patch,
            pre: v.pre.as_str().to_string(),
            build: v.build.as_str().to_string(),
            raw: v,
        }),
        Err(_) => None,
    }
}

/// The version `major.minor.patch`, without pre-release or build metadata
/// (`semver::Version::new`).
#[verifier::external_body]
fn semver_new(major: u64, minor: u64, patch: u64) -> (r: SemVer)
    ensures
        r@ == (major, minor, patch, Seq::<char>::empty(), Seq::<char>::empty()),
{
    let v = semver::Version::new(major, minor, patch);
    SemVer {
        major: v.major,
        minor: v.minor,
        patch: v.patch,
        pre: v.pre.as_str().to_string(),
        build: v.build.as_str().to_string(),
        raw: v,
    }
}

/// Whether `a` comes before `b` (`<` on `semver::Version`). The order compares
/// major, minor and patch first, in that order.
#[verifier::external_body]
fn semver_less(a: &SemVer, b: &SemVer) -> (r: bool)
    ensures
        r == semver_lt(a@, b@),
        a@.0 != b@.0 ==> r == (a@.0 < b@.0),
        a@.0 == b@.0 && a@.1 != b@.1 ==> r == (a@.1 < b@.1),
        a@.0 == b@.0 && a@.1 == b@.1 && a@.2 != b@.2 ==> r == (a@.2 < b@.2),
        a@ == b@ ==> !r,
{
    a.raw < b.raw
}

/// The version a text stands for: its parsed version, or 0.0.0.
pub open spec fn version_or_zero(text: Seq<char>) -> (u64, u64, u64, Seq<char>, Seq<char>) {
    match semver_parse(text) {
        Some(p) => p,
        None => (0, 0, 0, Seq::<char>::empty(), Seq::<char>::empty()),
    }
}

/// Parses a version, taking 0.0.0 where the text is not one.
pub fn parse_or_zero(text: &str) -> (r: SemVer)
    ensures
        r@ == version_or_zero(text@),
{
    match parse_semver(text) {
        Some(v) => v,
        None => semver_new(0, 0, 0),
    }
}

/// Whether `latest` (a release tag, its leading `v`s dropped) comes after the
/// running version `current`; a text that is not a version counts as 0.0.0.
pub open spec fn newer(current: Seq<char>, latest: Seq<char>) -> bool {
    semver_lt(version_or_zero(current), version_or_zero(strip_all_prefix(latest, seq!['v'])))
}

/// Whether a newer release than `current` is out, its tag being `latest`.
pub fn is_update_available(current: &str, latest: &str) -> (r: bool)
    ensures
        r == newer(current@, latest@),
        strip_all_prefix(latest@, seq!['v']) == current@ ==> !r,
        version_or_zero(current@).0 < version_or_zero(strip_all_prefix(latest@, seq!['v'])).0 ==> r,
        version_or_zero(current@).0 > version_or_zero(strip_all_prefix(latest@, seq!['v'])).0 ==> !r,
{
    let cur = parse_or_zero(current);
    let v = vec!['v'];
    let tag = string_of(&trim_start_matches(&chars_of(latest), &v));
    assert(v@ =~= seq!['v']);
    let lat = parse_or_zero(tag.as_str());
    semver_less(&cur, &lat)
}

/// A release on GitHub: its tag and its page.
pub struct GithubRelease {
    pub tag_name: String,
    pub html_url: String,
}

/// What the tool offers at start: whether an update is available, and the
/// release to show when it is.
pub fn update_offer(current: &str, latest: Option<GithubRelease>) -> (r: (bool, Option<GithubRelease>))
    ensures
        match latest {
            Some(rel) => if newer(current@, rel.tag_name@) {
                r.0 && r.1 == Some(rel)
            } else {
                !r.0 && r.1 is None
            },
            None => !r.0 && r.1 is None,
        },
{
    match latest {
        Some(rel) => {
            if is_update_available(current, rel.tag_name.as_str()) {
                (true, Some(rel))
            } else {
                (false, None)
            }
        },
        None => (false, None),
    }
}

/// Leading `v`s of a release tag do not matter: `v1.2.3` is the same as
/// `1.2.3`.
pub proof fn lemma_tag_v_prefix_ignored(current: Seq<char>, tag: Seq<char>)
    ensures
        newer(current, seq!['v'] + tag) == newer(current, tag),
{
    let t = seq!['v'] + tag;
    assert(t.subrange(0, 1) =~= seq!['v']);
    assert(t.subrange(1, t.len() as int) =~= tag);
}

} // verus!
