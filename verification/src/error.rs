//! The errors a self-update can end in.

use vstd::prelude::*;

verus! {

/// Why a fetched manifest was refused.
#[derive(Clone, Debug, PartialEq, Eq)]
pub enum ManifestError {
    /// The body could not be decoded into a manifest document at all.
    Malformed,
    /// Neither `version` nor `name` is present.
    MissingVersion,
    /// Both `version` and `name` are present.
    DuplicateVersion,
    /// The version text is no semantic version.
    InvalidVersion,
    /// `pub_date` is present and is no RFC 3339 timestamp.
    InvalidDate,
    /// The artifact address of the named target is no absolute URL.
    InvalidUrl(String),
}

/// What went wrong while an artifact was downloaded.
#[derive(Clone, Debug, PartialEq, Eq)]
pub enum NetworkFailure {
    /// The server answered the request with this non-success status.
    Status(u16),
    /// The transport failed, before or in the middle of the body.
    Transport(String),
    /// The transport reported something that cannot follow what it reported before.
    OutOfOrder,
}

/// Why a step of a self-update failed.
#[derive(Clone, Debug, PartialEq, Eq)]
pub enum UpdateError {
    /// The configuration names no endpoint.
    EmptyEndpoints,
    /// The running operating system is not one the updater knows.
    UnsupportedOs,
    /// The running architecture is not one the updater knows.
    UnsupportedArch,
    /// The manifest could not be fetched, or came with a non-success status.
    ReleaseNotFound,
    /// The manifest has no artifact for this target.
    TargetNotFound(String),
    /// The manifest was fetched and is not valid.
    Manifest(ManifestError),
    /// The artifact download failed.
    Network(NetworkFailure),
    /// The identifier names no live resource of the kind asked for.
    ResourceNotFound(u64),
    /// The installer could not apply the artifact, and said why.
    Install(String),
}

/// What a manifest error holds.
pub enum ManifestErrorView {
    Malformed,
    MissingVersion,
    DuplicateVersion,
    InvalidVersion,
    InvalidDate,
    InvalidUrl(Seq<char>),
}

/// What a network failure holds.
pub enum NetworkFailureView {
    Status(u16),
    Transport(Seq<char>),
    OutOfOrder,
}

/// What an error holds.
pub enum UpdateErrorView {
    EmptyEndpoints,
    UnsupportedOs,
    UnsupportedArch,
    ReleaseNotFound,
    TargetNotFound(Seq<char>),
    Manifest(ManifestErrorView),
    Network(NetworkFailureView),
    ResourceNotFound(u64),
    Install(Seq<char>),
}

impl View for ManifestError {
    type V = ManifestErrorView;

    open spec fn view(&self) -> ManifestErrorView {
        match self {
            ManifestError::Malformed => ManifestErrorView::Malformed,
            ManifestError::MissingVersion => ManifestErrorView::MissingVersion,
            ManifestError::DuplicateVersion => ManifestErrorView::DuplicateVersion,
            ManifestError::InvalidVersion => ManifestErrorView::InvalidVersion,
            ManifestError::InvalidDate => ManifestErrorView::InvalidDate,
            ManifestError::InvalidUrl(target) => ManifestErrorView::InvalidUrl(target@),
        }
    }
}

impl View for NetworkFailure {
    type V = NetworkFailureView;

    open spec fn view(&self) -> NetworkFailureView {
        match self {
            NetworkFailure::Status(code) => NetworkFailureView::Status(*code),
            NetworkFailure::Transport(message) => NetworkFailureView::Transport(message@),
            NetworkFailure::OutOfOrder => NetworkFailureView::OutOfOrder,
        }
    }
}

impl View for UpdateError {
    type V = UpdateErrorView;

    open spec fn view(&self) -> UpdateErrorView {
        match self {
            UpdateError::EmptyEndpoints => UpdateErrorView::EmptyEndpoints,
            UpdateError::UnsupportedOs => UpdateErrorView::UnsupportedOs,
            UpdateError::UnsupportedArch => UpdateErrorView::UnsupportedArch,
            UpdateError::ReleaseNotFound => UpdateErrorView::ReleaseNotFound,
            UpdateError::TargetNotFound(target) => UpdateErrorView::TargetNotFound(target@),
            UpdateError::Manifest(reason) => UpdateErrorView::Manifest(reason@),
            UpdateError::Network(failure) => UpdateErrorView::Network(failure@),
            UpdateError::ResourceNotFound(id) => UpdateErrorView::ResourceNotFound(*id),
            UpdateError::Install(message) => UpdateErrorView::Install(message@),
        }
    }
}

} // verus!
