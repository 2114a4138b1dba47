//! The updater: what it is configured with, and how it decides from a fetched
//! manifest whether there is an update to act on.

use vstd::prelude::*;
use vstd::string::*;

use crate::error::{ManifestError, ManifestErrorView, UpdateError, UpdateErrorView};
use crate::location::Url;
use crate::manifest::{
    release_of,
    ManifestDocument,
    ManifestDocumentView,
    RemoteRelease,
    RemoteReleaseView,
};
use crate::status::{is_success, success_status, NO_CONTENT};
use crate::target::{get_updater_arch, get_updater_target, updater_arch, updater_target, TargetFamily};
use crate::text::{clone_text, option_text};
use crate::timestamp::Timestamp;
use crate::version::{same_precedence, version_newer, version_text, Version, VersionView};

verus! {

/// The configuration of the updater.
#[derive(Debug)]
pub struct Config {
    /// Where the release manifest is served.
    pub endpoint: Option<Url>,
}

/// The updater of one running application.
#[derive(Debug)]
pub struct UniversalUpdater {
    endpoint: Url,
    current_version: Version,
    arch: String,
    target: String,
    json_target: String,
}

/// What an updater holds.
pub struct UniversalUpdaterView {
    /// Where the release manifest is served.
    pub endpoint: Seq<char>,
    /// The version of the running application.
    pub current_version: VersionView,
    /// The architecture token of the running platform.
    pub arch: Seq<char>,
    /// The operating-system token of the running platform.
    pub target: Seq<char>,
    /// The key of the running platform in a manifest's platforms.
    pub json_target: Seq<char>,
}

impl View for UniversalUpdater {
    type V = UniversalUpdaterView;

    closed spec fn view(&self) -> UniversalUpdaterView {
        UniversalUpdaterView {
            endpoint: self.endpoint@,
            current_version: self.current_version@,
            arch: self.arch@,
            target: self.target@,
            json_target: self.json_target@,
        }
    }
}

/// One actionable update: a release that is newer than the running version
/// and has an artifact for the running platform.
#[derive(Debug, PartialEq, Eq)]
pub struct Update {
    current_version: String,
    version: String,
    date: Option<Timestamp>,
    body: Option<String>,
    download_url: Url,
}

/// What an update holds.
pub struct UpdateView {
    pub current_version: Seq<char>,
    pub version: Seq<char>,
    pub date: Option<Timestamp>,
    pub body: Option<Seq<char>>,
    pub download_url: Seq<char>,
}

impl View for Update {
    type V = UpdateView;

    closed spec fn view(&self) -> UpdateView {
        UpdateView {
            current_version: self.current_version@,
            version: self.version@,
            date: self.date,
            body: option_text(self.body),
            download_url: self.download_url@,
        }
    }
}

/// What the one request for the manifest came to.
#[derive(Debug)]
pub enum ManifestResponse {
    /// The transport failed: no response arrived.
    Unreachable,
    /// A response arrived. `document` is its body decoded, `None` where the
    /// body was not read or is no manifest document.
    Answered { status: u16, document: Option<ManifestDocument> },
}

/// What a manifest response holds.
pub enum ManifestResponseView {
    Unreachable,
    Answered { status: u16, document: Option<ManifestDocumentView> },
}

impl View for ManifestResponse {
    type V = ManifestResponseView;

    open spec fn view(&self) -> ManifestResponseView {
        match self {
            ManifestResponse::Unreachable => ManifestResponseView::Unreachable,
            ManifestResponse::Answered { status, document } => ManifestResponseView::Answered {
                status: *status,
                document: match document {
                    Some(doc) => Some(doc@),
                    None => None,
                },
            },
        }
    }
}

/// What an optional update holds.
pub open spec fn option_update(update: Option<Update>) -> Option<UpdateView> {
    match update {
        Some(u) => Some(u@),
        None => None,
    }
}

/// What the outcome of a check holds.
pub open spec fn check_view(outcome: Result<Option<Update>, UpdateError>) -> Result<
    Option<UpdateView>,
    UpdateErrorView,
> {
    match outcome {
        Ok(update) => Ok(option_update(update)),
        Err(e) => Err(e@),
    }
}

/// The updater that a configuration and a platform give. The endpoint is
/// asked for first, then the architecture, then the operating system.
pub open spec fn updater_of(
    endpoint: Option<Seq<char>>,
    current_version: VersionView,
    family: TargetFamily,
    os: Seq<char>,
    arch: Seq<char>,
) -> Result<UniversalUpdaterView, UpdateErrorView> {
    match endpoint {
        None => Err(UpdateErrorView::EmptyEndpoints),
        Some(endpoint) => match updater_arch(family, os, arch) {
            None => Err(UpdateErrorView::UnsupportedArch),
            Some(arch_token) => match updater_target(family, os) {
                None => Err(UpdateErrorView::UnsupportedOs),
                Some(os_token) => Ok(
                    UniversalUpdaterView {
                        endpoint,
                        current_version,
                        arch: arch_token,
                        target: os_token,
                        json_target: os_token + "-"@ + arch_token,
                    },
                ),
            },
        },
    }
}

/// The update that a release is for an application at version `current` on
/// the platform `target`: none unless the release is strictly newer; then the
/// artifact of the platform, whose absence is an error.
pub open spec fn update_of(current: VersionView, release: RemoteReleaseView, target: Seq<char>)
    -> Result<Option<UpdateView>, UpdateErrorView> {
    if version_newer(release.version, current) {
        if release.platforms.dom().contains(target) {
            Ok(
                Some(
                    UpdateView {
                        current_version: version_text(current),
                        version: version_text(release.version),
                        date: release.pub_date,
                        body: release.notes,
                        download_url: release.platforms[target],
                    },
                ),
            )
        } else {
            Err(UpdateErrorView::TargetNotFound(target))
        }
    } else {
        Ok(None)
    }
}

/// The release that a response offers: that of the valid manifest of an
/// answer with a success status.
pub open spec fn offered_release(response: ManifestResponseView) -> Option<RemoteReleaseView> {
    match response {
        ManifestResponseView::Answered { status, document: Some(doc) } => if success_status(
            status,
        ) {
            match release_of(doc) {
                Ok(release) => Some(release),
                Err(_) => None,
            }
        } else {
            None
        },
        _ => None,
    }
}

/// Whether a release is no news to an application at version `current`: it
/// has the same precedence, or the running version is the newer one.
pub open spec fn not_news(release: VersionView, current: VersionView) -> bool {
    same_precedence(release, current) || version_newer(current, release)
}

/// The outcome of a check for the platform `target`, from what the request
/// for the manifest came to.
pub open spec fn check_of(current: VersionView, target: Seq<char>, response: ManifestResponseView)
    -> Result<Option<UpdateView>, UpdateErrorView> {
    match response {
        ManifestResponseView::Unreachable => Err(UpdateErrorView::ReleaseNotFound),
        ManifestResponseView::Answered { status, document } => {
            if !success_status(status) {
                Err(UpdateErrorView::ReleaseNotFound)
            } else if status == NO_CONTENT {
                Ok(None)
            } else {
                match document {
                    None => Err(UpdateErrorView::Manifest(ManifestErrorView::Malformed)),
                    Some(doc) => match release_of(doc) {
                        Err(reason) => Err(UpdateErrorView::Manifest(reason)),
                        Ok(release) => update_of(current, release, target),
                    },
                }
            }
        },
    }
}

/// Sets the updater up for a configuration, the version of the running
/// application and the running platform.
pub fn init(
    config: &Config,
    current_version: Version,
    family: TargetFamily,
    os: &str,
    arch: &str,
) -> (updater: Result<UniversalUpdater, UpdateError>)
    ensures
        match updater {
            Ok(u) => updater_of(
                match config.endpoint {
                    Some(e) => Some(e@),
                    None => None,
                },
                current_version@,
                family,
                os@,
                arch@,
            ) == Ok::<UniversalUpdaterView, UpdateErrorView>(u@),
            Err(e) => updater_of(
                match config.endpoint {
                    Some(e) => Some(e@),
                    None => None,
                },
                current_version@,
                family,
                os@,
                arch@,
            ) == Err::<UniversalUpdaterView, UpdateErrorView>(e@),
        },
{
    let endpoint = match &config.endpoint {
        Some(endpoint) => endpoint.clone(),
        None => {
            return Err(UpdateError::EmptyEndpoints);
        },
    };
    let arch_token = match get_updater_arch(family, os, arch) {
        Some(token) => token,
        None => {
            return Err(UpdateError::UnsupportedArch);
        },
    };
    let os_token = match get_updater_target(family, os) {
        Some(token) => token,
        None => {
            return Err(UpdateError::UnsupportedOs);
        },
    };
    let mut json_target = String::from_str(os_token);
    json_target.append("-");
    json_target.append(arch_token);
    Ok(
        UniversalUpdater {
            endpoint,
            current_version,
            arch: String::from_str(arch_token),
            target: String::from_str(os_token),
            json_target,
        },
    )
}

impl UniversalUpdater {
    /// Where the release manifest is served.
    pub fn endpoint(&self) -> (endpoint: &Url)
        ensures
            endpoint@ == self@.endpoint,
    {
        &self.endpoint
    }

    /// The version of the running application.
    pub fn current_version(&self) -> (version: &Version)
        ensures
            version@ == self@.current_version,
    {
        &self.current_version
    }

    /// The key of the running platform in a manifest's platforms.
    pub fn json_target(&self) -> (target: &str)
        ensures
            target@ == self@.json_target,
    {
        self.json_target.as_str()
    }

    /// The architecture token of the running platform.
    pub fn arch(&self) -> (arch: &str)
        ensures
            arch@ == self@.arch,
    {
        self.arch.as_str()
    }

    /// The operating-system token of the running platform.
    pub fn target(&self) -> (target: &str)
        ensures
            target@ == self@.target,
    {
        self.target.as_str()
    }

    /// Decides whether a release is an update for this application on the
    /// platform `target`: it is one exactly if its version is strictly newer
    /// than the running one, and an update that has no artifact for the
    /// platform is an error.
    pub fn resolve(&self, release: &RemoteRelease, target: &str) -> (outcome: Result<
        Option<Update>,
        UpdateError,
    >)
        ensures
            check_view(outcome) == update_of(self@.current_version, release@, target@),
            outcome matches Ok(Some(_)) ==> version_newer(
                release@.version,
                self@.current_version,
            ),
            !version_newer(release@.version, self@.current_version) ==> outcome matches Ok(None),
            not_news(release@.version, self@.current_version) ==> outcome matches Ok(None),
    {
        if !release.version().newer_than(&self.current_version) {
            return Ok(None);
        }
        let download_url = match release.download_url(target) {
            Ok(address) => address.clone(),
            Err(e) => {
                return Err(e);
            },
        };
        Ok(
            Some(
                Update {
                    current_version: self.current_version.to_string(),
                    version: release.version().to_string(),
                    date: release.pub_date(),
                    body: clone_text(release.notes()),
                    download_url,
                },
            ),
        )
    }

    /// Decides the outcome of a check for the platform `target` from what the
    /// one request for the manifest came to. The status 204 means that there
    /// is no update, whatever the body holds; any other failure to get a
    /// valid manifest is an error, never "no update".
    pub fn check_target(&self, response: &ManifestResponse, target: &str) -> (outcome: Result<
        Option<Update>,
        UpdateError,
    >)
        ensures
            check_view(outcome) == check_of(self@.current_version, target@, response@),
            response matches ManifestResponse::Answered { status, .. } && status == NO_CONTENT
                ==> outcome matches Ok(None),
            offered_release(response@) matches Some(release) && not_news(
                release.version,
                self@.current_version,
            ) ==> outcome matches Ok(None),
    {
        match response {
            ManifestResponse::Unreachable => Err(UpdateError::ReleaseNotFound),
            ManifestResponse::Answered { status, document } => {
                if !is_success(*status) {
                    return Err(UpdateError::ReleaseNotFound);
                }
                if *status == NO_CONTENT {
                    return Ok(None);
                }
                let release = match document {
                    None => {
                        return Err(UpdateError::Manifest(ManifestError::Malformed));
                    },
                    Some(doc) => match RemoteRelease::deserialize(doc) {
                        Ok(release) => release,
                        Err(e) => {
                            return Err(e);
                        },
                    },
                };
                self.resolve(&release, target)
            },
        }
    }

    /// Decides the outcome of a check for the running platform.
    pub fn check(&self, response: &ManifestResponse) -> (outcome: Result<
        Option<Update>,
        UpdateError,
    >)
        ensures
            check_view(outcome) == check_of(self@.current_version, self@.json_target, response@),
            response matches ManifestResponse::Answered { status, .. } && status == NO_CONTENT
                ==> outcome matches Ok(None),
            offered_release(response@) matches Some(release) && not_news(
                release.version,
                self@.current_version,
            ) ==> outcome matches Ok(None),
    {
        self.check_target(response, self.json_target.as_str())
    }
}

impl Update {
    /// The version of the running application.
    pub fn current_version(&self) -> (version: &str)
        ensures
            version@ == self@.current_version,
    {
        self.current_version.as_str()
    }

    /// The version that the update installs.
    pub fn version(&self) -> (version: &str)
        ensures
            version@ == self@.version,
    {
        self.version.as_str()
    }

    /// When the release was published.
    pub fn date(&self) -> (date: Option<Timestamp>)
        ensures
            date == self@.date,
    {
        self.date
    }

    /// The release notes.
    pub fn body(&self) -> (body: &Option<String>)
        ensures
            option_text(*body) == self@.body,
    {
        &self.body
    }

    /// Where the artifact for the running platform is served.
    pub fn download_url(&self) -> (address: &Url)
        ensures
            address@ == self@.download_url,
    {
        &self.download_url
    }
}

/// An update is made exactly for a release that is strictly newer than the
/// running version: a release that is equal or older gives none, whatever
/// platforms it lists, and a newer one gives the artifact of the platform.
pub proof fn lemma_update_iff_newer(current: VersionView, release: RemoteReleaseView, target: Seq<char>)
    ensures
        update_of(current, release, target) matches Ok(Some(_)) ==> version_newer(
            release.version,
            current,
        ),
        !version_newer(release.version, current) ==> update_of(current, release, target) == Ok::<
            Option<UpdateView>,
            UpdateErrorView,
        >(None),
        version_newer(release.version, current) && release.platforms.dom().contains(target) ==> (
        update_of(current, release, target) matches Ok(Some(update)) && update.download_url
            == release.platforms[target] && update.version == version_text(release.version)),
        version_newer(release.version, current) && !release.platforms.dom().contains(target)
            ==> update_of(current, release, target) == Err::<Option<UpdateView>, UpdateErrorView>(
            UpdateErrorView::TargetNotFound(target),
        ),
{
}

/// The status 204 means that there is no update, whatever the body holds.
pub proof fn lemma_no_content_is_no_update(
    current: VersionView,
    target: Seq<char>,
    document: Option<ManifestDocumentView>,
)
    ensures
        check_of(
            current,
            target,
            ManifestResponseView::Answered { status: NO_CONTENT, document },
        ) == Ok::<Option<UpdateView>, UpdateErrorView>(None),
{
}

/// A check never turns a failure into "no update": it answers that there is
/// none only for the status 204 or for a valid manifest whose release is not
/// newer than the running version.
pub proof fn lemma_no_update_is_confirmed(
    current: VersionView,
    target: Seq<char>,
    response: ManifestResponseView,
)
    requires
        check_of(current, target, response) == Ok::<Option<UpdateView>, UpdateErrorView>(None),
    ensures
        response matches ManifestResponseView::Answered { status, document } && success_status(
            status,
        ) && (status == NO_CONTENT || (document matches Some(doc) && release_of(doc) matches Ok(
            release,
        ) && !version_newer(release.version, current))),
{
}

} // verus!
