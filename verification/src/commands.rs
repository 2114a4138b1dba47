//! The two operations that a host calls: `check`, which answers with a
//! metadata record, and the start of a download for an update that an
//! earlier check found.

use vstd::prelude::*;
use vstd::string::*;

use crate::download::{Download, DownloadView};
use crate::error::{UpdateError, UpdateErrorView};
use crate::registry::{RegistryView, Resource, ResourceId, ResourceRegistry, ResourceView};
use crate::text::{clone_text, option_text};
use crate::timestamp::Timestamp;
use crate::status::NO_CONTENT;
use crate::updater::{
    check_of,
    not_news,
    offered_release,
    ManifestResponse,
    UniversalUpdater,
    UniversalUpdaterView,
    UpdateView,
};

verus! {

/// What a check answers with.
#[derive(Debug, PartialEq, Eq)]
pub struct Metadata {
    /// The identifier of the update in the registry, where one is available.
    pub rid: Option<ResourceId>,
    pub available: bool,
    pub current_version: String,
    pub version: String,
    pub date: Option<Timestamp>,
    pub body: Option<String>,
}

/// What a metadata record holds.
pub struct MetadataView {
    pub rid: Option<ResourceId>,
    pub available: bool,
    pub current_version: Seq<char>,
    pub version: Seq<char>,
    pub date: Option<Timestamp>,
    pub body: Option<Seq<char>>,
}

impl View for Metadata {
    type V = MetadataView;

    open spec fn view(&self) -> MetadataView {
        MetadataView {
            rid: self.rid,
            available: self.available,
            current_version: self.current_version@,
            version: self.version@,
            date: self.date,
            body: option_text(self.body),
        }
    }
}

impl MetadataView {
    /// The record that says that no update is available.
    pub open spec fn up_to_date() -> MetadataView {
        MetadataView {
            rid: None,
            available: false,
            current_version: Seq::empty(),
            version: Seq::empty(),
            date: None,
            body: None,
        }
    }

    /// The record that announces `update`, which the registry holds under `rid`.
    pub open spec fn announcing(update: UpdateView, rid: ResourceId) -> MetadataView {
        MetadataView {
            rid: Some(rid),
            available: true,
            current_version: update.current_version,
            version: update.version,
            date: update.date,
            body: update.body,
        }
    }
}

/// What a check answers with and what it leaves in the registry: an update
/// that was found is stored under the next identifier and announced with it;
/// otherwise the registry is as it was.
pub open spec fn check_answer(
    found: Result<Option<UpdateView>, UpdateErrorView>,
    registry: RegistryView,
) -> (Result<MetadataView, UpdateErrorView>, RegistryView) {
    match found {
        Err(e) => (Err(e), registry),
        Ok(None) => (Ok(MetadataView::up_to_date()), registry),
        Ok(Some(update)) => (
            Ok(MetadataView::announcing(update, registry.next)),
            registry.add(ResourceView::Update(update)),
        ),
    }
}

impl Default for Metadata {
    fn default() -> (metadata: Metadata)
        ensures
            metadata@ == MetadataView::up_to_date(),
    {
        Metadata {
            rid: None,
            available: false,
            current_version: String::new(),
            version: String::new(),
            date: None,
            body: None,
        }
    }
}

/// The platform that a check is made for: the one named, else the running one.
pub open spec fn checked_target(updater: UniversalUpdaterView, target: Option<Seq<char>>) -> Seq<
    char,
> {
    match target {
        Some(named) => named,
        None => updater.json_target,
    }
}

/// Checks for an update, from what the one request for the manifest came to.
/// `target` names the platform to check for in place of the running one. An
/// update that is found is stored in the registry, and the answer carries its
/// identifier. A failure to get a valid manifest is an error, never the
/// answer that nothing is available.
pub fn check(
    updater: &UniversalUpdater,
    registry: &mut ResourceRegistry,
    response: &ManifestResponse,
    target: Option<&str>,
) -> (answer: Result<Metadata, UpdateError>)
    requires
        old(registry)@.well_formed(),
        old(registry)@.has_room(),
    ensures
        ({
            let found = check_of(
                updater@.current_version,
                checked_target(
                    updater@,
                    match target {
                        Some(named) => Some(named@),
                        None => None,
                    },
                ),
                response@,
            );
            &&& final(registry)@ == check_answer(found, old(registry)@).1
            &&& match answer {
                Ok(metadata) => check_answer(found, old(registry)@).0 == Ok::<
                    MetadataView,
                    UpdateErrorView,
                >(metadata@),
                Err(e) => check_answer(found, old(registry)@).0 == Err::<
                    MetadataView,
                    UpdateErrorView,
                >(e@),
            }
        }),
        final(registry)@.well_formed(),
        answer matches Ok(metadata) ==> (metadata.available <==> metadata.rid is Some),
        answer matches Ok(metadata) ==> (metadata.rid matches Some(rid) ==> (final(registry)@.get(
            rid,
        ) matches Ok(ResourceView::Update(update)) && update.version == metadata@.version)),
        response matches ManifestResponse::Answered { status, .. } && status == NO_CONTENT ==> (
        answer matches Ok(metadata) && !metadata.available && final(registry)@ == old(registry)@),
        offered_release(response@) matches Some(release) && not_news(
            release.version,
            updater@.current_version,
        ) ==> (answer matches Ok(metadata) && !metadata.available && metadata.rid is None
            && final(registry)@ == old(registry)@),
{
    let found = match target {
        Some(named) => updater.check_target(response, named),
        None => updater.check(response),
    };
    let update = match found {
        Ok(Some(update)) => update,
        Ok(None) => {
            return Ok(Metadata::default());
        },
        Err(e) => {
            return Err(e);
        },
    };
    let mut metadata = Metadata::default();
    metadata.available = true;
    metadata.current_version = String::from_str(update.current_version());
    metadata.version = String::from_str(update.version());
    metadata.date = update.date();
    metadata.body = clone_text(update.body());
    metadata.rid = Some(registry.add(Resource::Update(update)));
    Ok(metadata)
}

/// Begins the download of the update that the registry holds under `rid`.
/// Fails where `rid` names no live update.
pub fn start_download(registry: &ResourceRegistry, rid: ResourceId) -> (started: Result<
    Download,
    UpdateError,
>)
    ensures
        match started {
            Ok(download) => (registry@.get(rid) matches Ok(ResourceView::Update(update))
                && download@ == DownloadView::start(update.download_url)),
            Err(e) => e@ == UpdateErrorView::ResourceNotFound(rid) && !(registry@.get(rid) matches Ok(
                ResourceView::Update(_),
            )),
        },
{
    match registry.get_update(rid) {
        Ok(update) => Ok(update.download()),
        Err(e) => Err(e),
    }
}

/// What a finished download leaves in the registry: its artifact, stored
/// under the next identifier; a download that did not complete leaves nothing.
pub open spec fn stored_download(download: DownloadView, registry: RegistryView) -> (
    Result<ResourceId, UpdateErrorView>,
    RegistryView,
) {
    match download.artifact() {
        Ok(bytes) => (Ok(registry.next), registry.add(ResourceView::DownloadedBytes(bytes))),
        Err(e) => (Err(e), registry),
    }
}

/// Stores the artifact of a complete download until it is installed, and
/// returns its identifier. A download that failed or has not ended has no
/// artifact: nothing of it is ever kept for installation.
pub fn store_download(registry: &mut ResourceRegistry, download: Download) -> (stored: Result<
    ResourceId,
    UpdateError,
>)
    requires
        old(registry)@.well_formed(),
        old(registry)@.has_room(),
    ensures
        final(registry)@ == stored_download(download@, old(registry)@).1,
        final(registry)@.well_formed(),
        match stored {
            Ok(rid) => stored_download(download@, old(registry)@).0 == Ok::<
                ResourceId,
                UpdateErrorView,
            >(rid),
            Err(e) => stored_download(download@, old(registry)@).0 == Err::<
                ResourceId,
                UpdateErrorView,
            >(e@),
        },
{
    match download.into_bytes() {
        Ok(bytes) => Ok(registry.add(Resource::DownloadedBytes(bytes))),
        Err(e) => Err(e),
    }
}

/// What the platform's installer reports of one attempt to apply an artifact.
#[derive(Clone, Debug, PartialEq, Eq)]
pub enum InstallOutcome {
    /// The artifact was applied in full.
    Applied,
    /// Nothing was applied; the application is as it was.
    Failed(String),
}

/// What an install outcome holds.
pub enum InstallOutcomeView {
    Applied,
    Failed(Seq<char>),
}

impl View for InstallOutcome {
    type V = InstallOutcomeView;

    open spec fn view(&self) -> InstallOutcomeView {
        match self {
            InstallOutcome::Applied => InstallOutcomeView::Applied,
            InstallOutcome::Failed(message) => InstallOutcomeView::Failed(message@),
        }
    }
}

/// Whether the registry holds a live update under `update` and live
/// downloaded bytes under `bytes`; else the error that names the identifier
/// at fault, the update's first.
pub open spec fn installable(registry: RegistryView, update: ResourceId, bytes: ResourceId)
    -> Result<(), UpdateErrorView> {
    if !(registry.get(update) matches Ok(ResourceView::Update(_))) {
        Err(UpdateErrorView::ResourceNotFound(update))
    } else if !(registry.get(bytes) matches Ok(ResourceView::DownloadedBytes(_))) {
        Err(UpdateErrorView::ResourceNotFound(bytes))
    } else {
        Ok(())
    }
}

/// How an installation is settled: after a successful one the downloaded
/// bytes are released; after a failed one, or for identifiers that are not
/// live, the registry is as it was.
pub open spec fn settled_install(
    registry: RegistryView,
    update: ResourceId,
    bytes: ResourceId,
    outcome: InstallOutcomeView,
) -> (Result<(), UpdateErrorView>, RegistryView) {
    match installable(registry, update, bytes) {
        Err(e) => (Err(e), registry),
        Ok(_) => match outcome {
            InstallOutcomeView::Applied => (Ok(()), registry.close(bytes)),
            InstallOutcomeView::Failed(message) => (
                Err(UpdateErrorView::Install(message)),
                registry,
            ),
        },
    }
}

/// Settles the installation of the update under `update` from the bytes
/// under `bytes`, for which the installer reported `outcome`. A successful
/// installation releases the downloaded bytes; a failed one is passed on as
/// the error and leaves them where they are.
pub fn install(
    registry: &mut ResourceRegistry,
    update: ResourceId,
    bytes: ResourceId,
    outcome: &InstallOutcome,
) -> (settled: Result<(), UpdateError>)
    ensures
        final(registry)@ == settled_install(old(registry)@, update, bytes, outcome@).1,
        old(registry)@.well_formed() ==> final(registry)@.well_formed(),
        match settled {
            Ok(_) => settled_install(old(registry)@, update, bytes, outcome@).0 == Ok::<
                (),
                UpdateErrorView,
            >(()),
            Err(e) => settled_install(old(registry)@, update, bytes, outcome@).0 == Err::<
                (),
                UpdateErrorView,
            >(e@),
        },
        settled is Ok ==> !final(registry)@.live.dom().contains(bytes),
{
    match registry.get_update(update) {
        Ok(_) => {},
        Err(e) => {
            return Err(e);
        },
    }
    match registry.get_bytes(bytes) {
        Ok(_) => {},
        Err(e) => {
            return Err(e);
        },
    }
    match outcome {
        InstallOutcome::Applied => registry.close(bytes),
        InstallOutcome::Failed(message) => Err(UpdateError::Install(message.clone())),
    }
}

} // verus!
