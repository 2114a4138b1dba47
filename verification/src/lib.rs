//! Self-update client core: resolves whether a newer release exists for the
//! running platform, drives the streaming download of its artifact and keeps
//! the handles that tie the asynchronous steps together.
//!
//! Everything here is pure: the transport, the JSON decoder and the platform
//! installer live with the host, which hands plain values in and takes plain
//! values back.

pub mod commands;
pub mod download;
pub mod error;
pub mod exchange;
pub mod location;
pub mod manifest;
pub mod registry;
pub mod status;
pub mod target;
pub mod text;
pub mod timestamp;
pub mod updater;
pub mod version;

pub use commands::{check, install, start_download, store_download, InstallOutcome, Metadata};
pub use download::{parse_content_length, Download, DownloadEvent, Phase, Signal};
pub use error::{ManifestError, NetworkFailure, UpdateError};
pub use location::Url;
pub use manifest::{
    parse_version, ManifestDocument, PlatformEntry, ReleaseManifestPlatform, RemoteRelease,
};
pub use registry::{Resource, ResourceId, ResourceRegistry};
pub use target::{get_updater_arch, get_updater_target, target_id, TargetFamily};
pub use timestamp::Timestamp;
pub use updater::{init, Config, ManifestResponse, UniversalUpdater, Update};
pub use version::Version;
