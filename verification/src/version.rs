//! Semantic versions: parsing, ordering and text.
//!
//! Parsing and the ordering of pre-release identifiers are the `semver`
//! crate's; the precedence of whole versions and their text are defined and
//! proved here.

use core::cmp::Ordering;
use vstd::prelude::*;
use vstd::string::*;

use crate::text::{begins_with_digit, decimal, decimal_string, lemma_decimal_begins_with_digit};

verus! {

/// A semantic version, held as the plain values that `semver` parsed.
#[derive(Debug, PartialEq, Eq)]
pub struct Version {
    major: u64,
    minor: u64,
    patch: u64,
    pre: String,
    build: String,
}

/// What a version holds.
pub struct VersionView {
    pub major: u64,
    pub minor: u64,
    pub patch: u64,
    /// The pre-release identifiers, empty for a release.
    pub pre: Seq<char>,
    /// The build metadata, empty where there is none.
    pub build: Seq<char>,
}

impl View for Version {
    type V = VersionView;

    closed spec fn view(&self) -> VersionView {
        VersionView {
            major: self.major,
            minor: self.minor,
            patch: self.patch,
            pre: self.pre@,
            build: self.build@,
        }
    }
}

/// The error of `semver::Version::parse`. Nothing is claimed of it: it is
/// only carried from the call to where it is turned into `None`.
#[verifier::external_type_specification]
#[verifier::external_body]
pub struct ExSemverError(semver::Error);

/// The version that `semver::Version::parse` reads from a text, `None` where
/// it refuses the text.
pub uninterp spec fn semver_version(text: Seq<char>) -> Option<VersionView>;

/// How `semver::Prerelease` orders two pre-release texts. A text that is no
/// pre-release counts as the empty one, which is that of a release.
pub uninterp spec fn semver_prerelease_order(a: Seq<char>, b: Seq<char>) -> Ordering;

/// An order, seen from the other side.
pub open spec fn reverse_order(order: Ordering) -> Ordering {
    match order {
        Ordering::Less => Ordering::Greater,
        Ordering::Equal => Ordering::Equal,
        Ordering::Greater => Ordering::Less,
    }
}

/// Calls `semver::Version::parse` and moves the fields of what it returns into
/// a [`Version`]. The contract names the outcome, so that the same text always
/// gives the same version or the same refusal, and claims one thing of it: a
/// text that is accepted is the text of its version, since the parser takes
/// numbers without leading zeros and keeps the identifiers as they are written.
#[verifier::external_body]
fn semver_parse(text: &str) -> (parsed: Result<Version, semver::Error>)
    ensures
        match parsed {
            Ok(version) => semver_version(text@) == Some(version@) && version_text(version@)
                == text@,
            Err(_) => semver_version(text@) is None,
        },
{
    match semver::Version::parse(text) {
        Ok(v) => Ok(
            Version {
                major: v.major,
                minor: v.minor,
                patch: v.patch,
                pre: v.pre.as_str().to_owned(),
                build: v.build.as_str().to_owned(),
            },
        ),
        Err(e) => Err(e),
    }
}

/// Calls `Ord::cmp` of `semver::Prerelease` on the two texts, each made a
/// pre-release by `semver::Prerelease::new`. The contract names the outcome
/// and claims of it what the total order that `semver` documents for
/// pre-releases gives: a text is ordered equal to itself, the order of two
/// texts is the reverse of their order the other way round, and the empty
/// text, which is that of a release, is not ordered before any other.
#[verifier::external_body]
fn prerelease_order(a: &str, b: &str) -> (order: Ordering)
    ensures
        order == semver_prerelease_order(a@, b@),
        a@ == b@ ==> order == Ordering::Equal,
        semver_prerelease_order(b@, a@) == reverse_order(order),
        a@.len() == 0 ==> order != Ordering::Less,
{
    let x = semver::Prerelease::new(a).unwrap_or_default();
    let y = semver::Prerelease::new(b).unwrap_or_default();
    x.cmp(&y)
}

/// The order of two numbers.
pub open spec fn number_order(a: u64, b: u64) -> Ordering {
    if a < b {
        Ordering::Less
    } else if a == b {
        Ordering::Equal
    } else {
        Ordering::Greater
    }
}

/// The first of two orders that decides, as in a lexicographic comparison.
pub open spec fn then_order(first: Ordering, second: Ordering) -> Ordering {
    if first == Ordering::Equal {
        second
    } else {
        first
    }
}

/// The precedence of versions: major, minor and patch as numbers, then the
/// pre-release, where a release comes after its pre-releases. Build metadata
/// has no part in it.
pub open spec fn version_order(a: VersionView, b: VersionView) -> Ordering {
    then_order(
        number_order(a.major, b.major),
        then_order(
            number_order(a.minor, b.minor),
            then_order(
                number_order(a.patch, b.patch),
                semver_prerelease_order(a.pre, b.pre),
            ),
        ),
    )
}

/// Whether two versions differ in nothing but their build metadata.
pub open spec fn same_precedence(a: VersionView, b: VersionView) -> bool {
    a.major == b.major && a.minor == b.minor && a.patch == b.patch && a.pre == b.pre
}

/// Whether `a` is strictly newer than `b`.
pub open spec fn version_newer(a: VersionView, b: VersionView) -> bool {
    version_order(a, b) == Ordering::Greater
}

/// A version as text: `major.minor.patch`, then `-` and the pre-release where
/// there is one, then `+` and the build metadata where there is some.
pub open spec fn version_text(v: VersionView) -> Seq<char> {
    decimal(v.major as nat) + "."@ + decimal(v.minor as nat) + "."@ + decimal(v.patch as nat) + (
    if v.pre.len() > 0 {
        "-"@ + v.pre
    } else {
        Seq::empty()
    }) + (if v.build.len() > 0 {
        "+"@ + v.build
    } else {
        Seq::empty()
    })
}

/// The text of a version begins with a digit, that of its major number.
pub proof fn lemma_version_text_begins_with_digit(v: VersionView)
    ensures
        begins_with_digit(version_text(v)),
{
    lemma_decimal_begins_with_digit(v.major as nat);
    assert(version_text(v)[0] == decimal(v.major as nat)[0]);
}

fn order_numbers(a: u64, b: u64) -> (order: Ordering)
    ensures
        order == number_order(a, b),
{
    if a < b {
        Ordering::Less
    } else if a == b {
        Ordering::Equal
    } else {
        Ordering::Greater
    }
}

impl Version {
    /// The release `major.minor.patch`, with no pre-release and no build metadata.
    pub fn new(major: u64, minor: u64, patch: u64) -> (version: Version)
        ensures
            version@ == (VersionView {
                major,
                minor,
                patch,
                pre: Seq::empty(),
                build: Seq::empty(),
            }),
    {
        Version { major, minor, patch, pre: String::new(), build: String::new() }
    }

    /// Reads a version from text, `None` where the text is no semantic
    /// version. A version that is read writes the same text back.
    pub fn parse(text: &str) -> (parsed: Option<Version>)
        ensures
            match parsed {
                Some(version) => semver_version(text@) == Some(version@) && version_text(
                    version@,
                ) == text@,
                None => semver_version(text@) is None,
            },
            parsed is Some ==> begins_with_digit(text@),
    {
        match semver_parse(text) {
            Ok(version) => {
                proof {
                    lemma_version_text_begins_with_digit(version@);
                }
                Some(version)
            },
            Err(_) => None,
        }
    }

    pub fn major(&self) -> (major: u64)
        ensures
            major == self@.major,
    {
        self.major
    }

    pub fn minor(&self) -> (minor: u64)
        ensures
            minor == self@.minor,
    {
        self.minor
    }

    pub fn patch(&self) -> (patch: u64)
        ensures
            patch == self@.patch,
    {
        self.patch
    }

    /// The pre-release identifiers, empty for a release.
    pub fn pre(&self) -> (pre: &str)
        ensures
            pre@ == self@.pre,
    {
        self.pre.as_str()
    }

    /// The build metadata, empty where there is none.
    pub fn build(&self) -> (build: &str)
        ensures
            build@ == self@.build,
    {
        self.build.as_str()
    }

    /// Orders this version against another by precedence. Versions that
    /// differ in nothing but their build metadata are equal in it.
    pub fn compare(&self, other: &Version) -> (order: Ordering)
        ensures
            order == version_order(self@, other@),
            version_order(other@, self@) == reverse_order(order),
            same_precedence(self@, other@) ==> order == Ordering::Equal,
    {
        match order_numbers(self.major, other.major) {
            Ordering::Equal => {},
            decided => {
                return decided;
            },
        }
        match order_numbers(self.minor, other.minor) {
            Ordering::Equal => {},
            decided => {
                return decided;
            },
        }
        match order_numbers(self.patch, other.patch) {
            Ordering::Equal => {},
            decided => {
                return decided;
            },
        }
        prerelease_order(self.pre.as_str(), other.pre.as_str())
    }

    /// Whether this version is strictly newer than another. A version is not
    /// newer than one that it differs from in build metadata alone, nor than
    /// one that is newer than it.
    pub fn newer_than(&self, other: &Version) -> (newer: bool)
        ensures
            newer == version_newer(self@, other@),
            same_precedence(self@, other@) ==> !newer,
            version_newer(other@, self@) ==> !newer,
    {
        match self.compare(other) {
            Ordering::Greater => true,
            _ => false,
        }
    }

    /// The version as text.
    pub fn to_string(&self) -> (text: String)
        ensures
            text@ == version_text(self@),
    {
        let mut text = decimal_string(self.major);
        text.append(".");
        text.append(decimal_string(self.minor).as_str());
        text.append(".");
        text.append(decimal_string(self.patch).as_str());
        if self.pre.as_str().unicode_len() > 0 {
            text.append("-");
            text.append(self.pre.as_str());
        }
        if self.build.as_str().unicode_len() > 0 {
            text.append("+");
            text.append(self.build.as_str());
        }
        assert(text@ =~= version_text(self@));
        text
    }
}

impl Clone for Version {
    fn clone(&self) -> (copy: Version)
        ensures
            copy@ == self@,
    {
        Version {
            major: self.major,
            minor: self.minor,
            patch: self.patch,
            pre: self.pre.clone(),
            build: self.build.clone(),
        }
    }
}

} // verus!
