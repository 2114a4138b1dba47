//! The release manifest: the document a release endpoint serves, and the
//! release description that is read from it.

use vstd::prelude::*;
use vstd::string::*;

use crate::error::{ManifestError, ManifestErrorView, UpdateError, UpdateErrorView};
use crate::location::{url_serialization, Url};
use crate::text::{begins_with_digit, clone_text, option_text};
use crate::timestamp::{rfc3339_timestamp, Timestamp};
use crate::version::{semver_version, version_text, Version, VersionView};

verus! {

/// One entry of a manifest's `platforms` object, as decoded: the target
/// identifier and the text of its `url` field.
#[derive(Debug)]
pub struct PlatformEntry {
    pub target: String,
    pub url: String,
}

/// A manifest as decoded from JSON, before any of its fields is validated.
/// A field that is absent or `null` in the JSON object is `None` here.
#[derive(Debug)]
pub struct ManifestDocument {
    pub version: Option<String>,
    /// An alias of `version`.
    pub name: Option<String>,
    pub notes: Option<String>,
    pub pub_date: Option<String>,
    pub platforms: Vec<PlatformEntry>,
}

/// What a platform entry holds.
pub struct PlatformEntryView {
    pub target: Seq<char>,
    pub url: Seq<char>,
}

/// What a manifest document holds.
pub struct ManifestDocumentView {
    pub version: Option<Seq<char>>,
    pub name: Option<Seq<char>>,
    pub notes: Option<Seq<char>>,
    pub pub_date: Option<Seq<char>>,
    pub platforms: Seq<PlatformEntryView>,
}

impl View for PlatformEntry {
    type V = PlatformEntryView;

    open spec fn view(&self) -> PlatformEntryView {
        PlatformEntryView { target: self.target@, url: self.url@ }
    }
}

impl View for ManifestDocument {
    type V = ManifestDocumentView;

    open spec fn view(&self) -> ManifestDocumentView {
        ManifestDocumentView {
            version: option_text(self.version),
            name: option_text(self.name),
            notes: option_text(self.notes),
            pub_date: option_text(self.pub_date),
            platforms: Seq::new(self.platforms@.len(), |i: int| self.platforms@[i]@),
        }
    }
}

/// The artifact of one platform.
#[derive(Debug)]
pub struct ReleaseManifestPlatform {
    /// Download URL for the platform.
    pub url: Url,
}

impl View for ReleaseManifestPlatform {
    type V = Seq<char>;

    open spec fn view(&self) -> Seq<char> {
        self.url@
    }
}

/// A release as a manifest describes it.
#[derive(Debug)]
pub struct RemoteRelease {
    version: Version,
    notes: Option<String>,
    pub_date: Option<Timestamp>,
    /// One entry per target; no target occurs twice.
    platforms: Vec<(String, ReleaseManifestPlatform)>,
}

/// What a release holds.
pub struct RemoteReleaseView {
    /// Version to install.
    pub version: VersionView,
    /// Release notes.
    pub notes: Option<Seq<char>>,
    /// Release date.
    pub pub_date: Option<Timestamp>,
    /// The download URL of each target that the release has an artifact for.
    pub platforms: Map<Seq<char>, Seq<char>>,
}

/// A version text without the one `v` that manifests may write before it.
pub open spec fn strip_leading_v(text: Seq<char>) -> Seq<char> {
    if text.len() > 0 && text[0] == 'v' {
        text.subrange(1, text.len() as int)
    } else {
        text
    }
}

/// The version that a manifest's version text stands for.
pub open spec fn manifest_version(text: Seq<char>) -> Option<VersionView> {
    semver_version(strip_leading_v(text))
}

/// The one version text of a document: `version` or its alias `name`.
pub open spec fn version_field(doc: ManifestDocumentView) -> Result<Seq<char>, ManifestErrorView> {
    match (doc.version, doc.name) {
        (Some(_), Some(_)) => Err(ManifestErrorView::DuplicateVersion),
        (Some(text), None) => Ok(text),
        (None, Some(text)) => Ok(text),
        (None, None) => Err(ManifestErrorView::MissingVersion),
    }
}

/// The platforms of a document, read in order: each URL must parse, and a
/// target that is listed again replaces its earlier entry. The error names the
/// target of the first entry whose URL does not parse.
pub open spec fn platforms_of(entries: Seq<PlatformEntryView>) -> Result<
    Map<Seq<char>, Seq<char>>,
    Seq<char>,
>
    decreases entries.len(),
{
    if entries.len() == 0 {
        Ok(Map::empty())
    } else {
        match platforms_of(entries.drop_last()) {
            Err(target) => Err(target),
            Ok(platforms) => match url_serialization(entries.last().url) {
                None => Err(entries.last().target),
                Some(address) => Ok(platforms.insert(entries.last().target, address)),
            },
        }
    }
}

/// A release put together from fields that were accepted and from what the
/// platforms gave.
pub open spec fn release_with(
    version: VersionView,
    notes: Option<Seq<char>>,
    pub_date: Option<Timestamp>,
    platforms: Result<Map<Seq<char>, Seq<char>>, Seq<char>>,
) -> Result<RemoteReleaseView, ManifestErrorView> {
    match platforms {
        Err(target) => Err(ManifestErrorView::InvalidUrl(target)),
        Ok(platforms) => Ok(RemoteReleaseView { version, notes, pub_date, platforms }),
    }
}

/// The release that a document describes, or why it describes none. The
/// fields are judged in a fixed order: the version field, the version text,
/// the date, then the platforms.
pub open spec fn release_of(doc: ManifestDocumentView) -> Result<
    RemoteReleaseView,
    ManifestErrorView,
> {
    match version_field(doc) {
        Err(reason) => Err(reason),
        Ok(text) => match manifest_version(text) {
            None => Err(ManifestErrorView::InvalidVersion),
            Some(version) => match doc.pub_date {
                None => release_with(version, doc.notes, None, platforms_of(doc.platforms)),
                Some(date) => match rfc3339_timestamp(date) {
                    None => Err(ManifestErrorView::InvalidDate),
                    Some(timestamp) => release_with(
                        version,
                        doc.notes,
                        Some(timestamp),
                        platforms_of(doc.platforms),
                    ),
                },
            },
        },
    }
}

spec fn distinct_targets(entries: Seq<(String, ReleaseManifestPlatform)>) -> bool {
    forall|i: int, j: int|
        0 <= i < j < entries.len() ==> (#[trigger] entries[i]).0@ != (#[trigger] entries[j]).0@
}

spec fn lists_target(entries: Seq<(String, ReleaseManifestPlatform)>, target: Seq<char>) -> bool {
    exists|i: int| 0 <= i < entries.len() && (#[trigger] entries[i]).0@ == target
}

spec fn slot_of(entries: Seq<(String, ReleaseManifestPlatform)>, target: Seq<char>) -> int {
    choose|i: int| 0 <= i < entries.len() && (#[trigger] entries[i]).0@ == target
}

spec fn entries_map(entries: Seq<(String, ReleaseManifestPlatform)>) -> Map<Seq<char>, Seq<char>> {
    Map::new(
        |target: Seq<char>| lists_target(entries, target),
        |target: Seq<char>| entries[slot_of(entries, target)].1@,
    )
}

proof fn lemma_slot(entries: Seq<(String, ReleaseManifestPlatform)>, i: int)
    requires
        distinct_targets(entries),
        0 <= i < entries.len(),
    ensures
        lists_target(entries, entries[i].0@),
        slot_of(entries, entries[i].0@) == i,
        entries_map(entries).dom().contains(entries[i].0@),
        entries_map(entries)[entries[i].0@] == entries[i].1@,
{
    let target = entries[i].0@;
    let j = slot_of(entries, target);
    assert(0 <= j < entries.len() && entries[j].0@ == target);
    if j < i {
        assert(entries[j].0@ != entries[i].0@);
    } else if i < j {
        assert(entries[i].0@ != entries[j].0@);
    }
}

/// Where `target` stands among the entries.
fn find_target(entries: &Vec<(String, ReleaseManifestPlatform)>, target: &str) -> (found: Option<
    usize,
>)
    ensures
        match found {
            Some(i) => i < entries@.len() && entries@[i as int].0@ == target@,
            None => !lists_target(entries@, target@),
        },
{
    let mut i: usize = 0;
    while i < entries.len()
        invariant
            i <= entries@.len(),
            forall|k: int| 0 <= k < i ==> (#[trigger] entries@[k]).0@ != target@,
        decreases entries@.len() - i,
    {
        if crate::text::str_eq(entries[i].0.as_str(), target) {
            return Some(i);
        }
        i += 1;
    }
    None
}

/// Lists `platform` under `target`, in place of what was listed there.
fn put_target(
    entries: &mut Vec<(String, ReleaseManifestPlatform)>,
    target: String,
    platform: ReleaseManifestPlatform,
)
    requires
        distinct_targets(old(entries)@),
    ensures
        distinct_targets(final(entries)@),
        entries_map(final(entries)@) == entries_map(old(entries)@).insert(target@, platform@),
{
    let ghost before = entries@;
    let ghost key = target@;
    let ghost value = platform@;
    match find_target(entries, target.as_str()) {
        Some(i) => {
            entries.set(i, (target, platform));
            let ghost after = entries@;
            assert(distinct_targets(after)) by {
                assert forall|a: int, b: int| 0 <= a < b < after.len() implies (
                #[trigger] after[a]).0@ != (#[trigger] after[b]).0@ by {
                    assert(before[a].0@ != before[b].0@);
                }
            }
            assert(entries_map(after) =~= entries_map(before).insert(key, value)) by {
                assert forall|t: Seq<char>| #[trigger]
                    entries_map(before).insert(key, value).dom().contains(
                        t,
                    ) implies entries_map(after).dom().contains(t) by {
                    if t == key {
                        assert(after[i as int].0@ == key);
                    } else {
                        let j = slot_of(before, t);
                        assert(after[j].0@ == t);
                    }
                }
                assert forall|t: Seq<char>| #[trigger]
                    entries_map(after).dom().contains(t) implies entries_map(before).insert(
                    key,
                    value,
                ).dom().contains(t) by {
                    let j = slot_of(after, t);
                    assert(before[j].0@ == t);
                }
                assert forall|t: Seq<char>| #[trigger]
                    entries_map(after).dom().contains(t) implies entries_map(after)[t]
                    == entries_map(before).insert(key, value)[t] by {
                    let j = slot_of(after, t);
                    lemma_slot(after, j);
                    if t != key {
                        lemma_slot(before, j);
                    }
                }
            }
        },
        None => {
            entries.push((target, platform));
            let ghost after = entries@;
            let ghost n = before.len() as int;
            assert(distinct_targets(after)) by {
                assert forall|a: int, b: int| 0 <= a < b < after.len() implies (
                #[trigger] after[a]).0@ != (#[trigger] after[b]).0@ by {
                    if b < n {
                        assert(before[a].0@ != before[b].0@);
                    } else {
                        assert(before[a].0@ != key);
                    }
                }
            }
            assert(entries_map(after) =~= entries_map(before).insert(key, value)) by {
                assert forall|t: Seq<char>| #[trigger]
                    entries_map(before).insert(key, value).dom().contains(
                        t,
                    ) implies entries_map(after).dom().contains(t) by {
                    if t == key {
                        assert(after[n].0@ == key);
                    } else {
                        let j = slot_of(before, t);
                        assert(after[j].0@ == t);
                    }
                }
                assert forall|t: Seq<char>| #[trigger]
                    entries_map(after).dom().contains(t) implies entries_map(before).insert(
                    key,
                    value,
                ).dom().contains(t) by {
                    let j = slot_of(after, t);
                    if j < n {
                        assert(before[j].0@ == t);
                    }
                }
                assert forall|t: Seq<char>| #[trigger]
                    entries_map(after).dom().contains(t) implies entries_map(after)[t]
                    == entries_map(before).insert(key, value)[t] by {
                    let j = slot_of(after, t);
                    lemma_slot(after, j);
                    if j < n {
                        lemma_slot(before, j);
                    }
                }
            }
        },
    }
}

impl View for RemoteRelease {
    type V = RemoteReleaseView;

    closed spec fn view(&self) -> RemoteReleaseView {
        RemoteReleaseView {
            version: self.version@,
            notes: option_text(self.notes),
            pub_date: self.pub_date,
            platforms: entries_map(self.platforms@),
        }
    }
}

/// Reads the version text of a manifest: a semantic version, which one `v`
/// may precede. The version that is read writes the text back without the `v`.
pub fn parse_version(text: &str) -> (parsed: Result<Version, UpdateError>)
    ensures
        match parsed {
            Ok(version) => manifest_version(text@) == Some(version@) && version_text(version@)
                == strip_leading_v(text@),
            Err(e) => manifest_version(text@) is None && e@ == UpdateErrorView::Manifest(
                ManifestErrorView::InvalidVersion,
            ),
        },
        parsed is Ok ==> begins_with_digit(strip_leading_v(text@)),
        text@.len() >= 2 && text@[0] == 'v' && text@[1] == 'v' ==> parsed is Err,
{
    let len = text.unicode_len();
    let bare = if len > 0 && text.get_char(0) == 'v' {
        text.substring_char(1, len)
    } else {
        text
    };
    match Version::parse(bare) {
        Some(version) => Ok(version),
        None => Err(UpdateError::Manifest(ManifestError::InvalidVersion)),
    }
}

impl RemoteRelease {
    #[verifier::type_invariant]
    spec fn well_formed(self) -> bool {
        distinct_targets(self.platforms@)
    }

    /// Reads a release from a decoded manifest. Every field is validated: a
    /// document with a malformed version, date or URL describes no release.
    pub fn deserialize(doc: &ManifestDocument) -> (release: Result<RemoteRelease, UpdateError>)
        ensures
            match release {
                Ok(r) => release_of(doc@) == Ok::<RemoteReleaseView, ManifestErrorView>(r@),
                Err(e) => release_of(doc@) is Err && e@ == UpdateErrorView::Manifest(
                    release_of(doc@)->Err_0,
                ),
            },
    {
        let text = match (&doc.version, &doc.name) {
            (Some(_), Some(_)) => {
                return Err(UpdateError::Manifest(ManifestError::DuplicateVersion));
            },
            (Some(text), None) => text,
            (None, Some(text)) => text,
            (None, None) => {
                return Err(UpdateError::Manifest(ManifestError::MissingVersion));
            },
        };
        let version = match parse_version(text.as_str()) {
            Ok(version) => version,
            Err(e) => {
                return Err(e);
            },
        };
        let pub_date = match &doc.pub_date {
            Some(date) => match Timestamp::parse_rfc3339(date.as_str()) {
                Some(timestamp) => Some(timestamp),
                None => {
                    return Err(UpdateError::Manifest(ManifestError::InvalidDate));
                },
            },
            None => None,
        };
        let notes = clone_text(&doc.notes);
        let ghost total = doc@.platforms;
        let mut entries: Vec<(String, ReleaseManifestPlatform)> = Vec::new();
        assert(entries_map(entries@) =~= Map::empty());
        assert(total.take(0) =~= Seq::empty());
        let mut done: usize = 0;
        while done < doc.platforms.len()
            invariant
                done <= doc.platforms@.len(),
                total == doc@.platforms,
                release_of(doc@) == release_with(
                    version@,
                    option_text(notes),
                    pub_date,
                    platforms_of(total),
                ),
                distinct_targets(entries@),
                platforms_of(total.take(done as int)) == Ok::<Map<Seq<char>, Seq<char>>, Seq<char>>(
                    entries_map(entries@),
                ),
            decreases doc.platforms@.len() - done,
        {
            let entry = &doc.platforms[done];
            proof {
                assert(total.take(done + 1).drop_last() =~= total.take(done as int));
                assert(total.take(done + 1).last() == entry@);
            }
            match Url::parse(entry.url.as_str()) {
                Some(address) => {
                    put_target(
                        &mut entries,
                        entry.target.clone(),
                        ReleaseManifestPlatform { url: address },
                    );
                },
                None => {
                    proof {
                        lemma_platforms_fail(total, done + 1);
                    }
                    return Err(
                        UpdateError::Manifest(ManifestError::InvalidUrl(entry.target.clone())),
                    );
                },
            }
            done += 1;
        }
        assert(total.take(done as int) =~= total);
        Ok(RemoteRelease { version, notes, pub_date, platforms: entries })
    }

    /// The download URL of the artifact for `target`.
    pub fn download_url(&self, target: &str) -> (url: Result<&Url, UpdateError>)
        ensures
            match url {
                Ok(address) => self@.platforms.dom().contains(target@) && address@
                    == self@.platforms[target@],
                Err(e) => !self@.platforms.dom().contains(target@) && e@
                    == UpdateErrorView::TargetNotFound(target@),
            },
    {
        proof {
            use_type_invariant(self);
        }
        match find_target(&self.platforms, target) {
            Some(i) => {
                proof {
                    lemma_slot(self.platforms@, i as int);
                }
                Ok(&self.platforms[i].1.url)
            },
            None => Err(UpdateError::TargetNotFound(String::from_str(target))),
        }
    }

    /// Version to install.
    pub fn version(&self) -> (version: &Version)
        ensures
            version@ == self@.version,
    {
        &self.version
    }

    /// Release notes.
    pub fn notes(&self) -> (notes: &Option<String>)
        ensures
            option_text(*notes) == self@.notes,
    {
        &self.notes
    }

    /// Release date.
    pub fn pub_date(&self) -> (date: Option<Timestamp>)
        ensures
            date == self@.pub_date,
    {
        self.pub_date
    }
}

/// Once a prefix of the entries holds a URL that does not parse, every longer
/// prefix fails on the same entry.
proof fn lemma_platforms_fail(entries: Seq<PlatformEntryView>, upto: int)
    requires
        0 <= upto <= entries.len(),
        platforms_of(entries.take(upto)) is Err,
    ensures
        platforms_of(entries) == platforms_of(entries.take(upto)),
    decreases entries.len() - upto,
{
    if upto == entries.len() {
        assert(entries.take(upto) =~= entries);
    } else {
        assert(entries.take(upto + 1).drop_last() =~= entries.take(upto));
        lemma_platforms_fail(entries, upto + 1);
    }
}

/// One `v` written before a version text changes nothing: the text and the
/// text with the `v` stand for the same version, or both for none. This holds
/// of a text that does not itself begin with `v`: only one is taken off.
pub proof fn lemma_leading_v_is_ignored(text: Seq<char>)
    requires
        text.len() == 0 || text[0] != 'v',
    ensures
        manifest_version(seq!['v'] + text) == manifest_version(text),
{
    assert(strip_leading_v(seq!['v'] + text) =~= text);
}

} // verus!
