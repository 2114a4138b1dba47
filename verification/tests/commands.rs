use universal_updater::{
    check, init, start_download, Config, ManifestDocument, ManifestError, ManifestResponse,
    Metadata, Phase, PlatformEntry, Resource, ResourceRegistry, TargetFamily, Timestamp,
    UniversalUpdater, UpdateError, Url, Version,
};

fn updater_on(os: &str) -> UniversalUpdater {
    let config = Config { endpoint: Url::parse("https://updates.example.com/latest.json") };
    init(&config, Version::parse("1.0.0").unwrap(), TargetFamily::Desktop, os, "x86_64").unwrap()
}

fn scenario_manifest() -> ManifestDocument {
    ManifestDocument {
        version: Some("2.0.0".to_string()),
        name: None,
        notes: None,
        pub_date: None,
        platforms: vec![PlatformEntry {
            target: "linux-x86_64".to_string(),
            url: "https://x/a.bin".to_string(),
        }],
    }
}

fn answered(status: u16, document: Option<ManifestDocument>) -> ManifestResponse {
    ManifestResponse::Answered { status, document }
}

#[test]
fn check_announces_a_newer_release_with_a_handle() {
    let updater = updater_on("linux");
    let mut registry = ResourceRegistry::new();
    let metadata =
        check(&updater, &mut registry, &answered(200, Some(scenario_manifest())), None).unwrap();
    assert!(metadata.available);
    assert_eq!(metadata.version, "2.0.0");
    assert_eq!(metadata.current_version, "1.0.0");
    assert_eq!(metadata.date, None);
    assert_eq!(metadata.body, None);
    let rid = metadata.rid.unwrap();
    let update = registry.get_update(rid).unwrap();
    assert_eq!(update.version(), "2.0.0");
    assert_eq!(update.download_url().as_str(), "https://x/a.bin");
}

#[test]
fn check_on_another_platform_fails_with_target_not_found() {
    let updater = updater_on("windows");
    let mut registry = ResourceRegistry::new();
    let answer = check(&updater, &mut registry, &answered(200, Some(scenario_manifest())), None);
    assert_eq!(answer, Err(UpdateError::TargetNotFound("windows-x86_64".to_string())));
    assert!(registry.get(0).is_err());
}

#[test]
fn check_with_no_content_is_not_available() {
    let updater = updater_on("linux");
    let mut registry = ResourceRegistry::new();
    for document in [None, Some(scenario_manifest())] {
        let metadata = check(&updater, &mut registry, &answered(204, document), None).unwrap();
        assert_eq!(metadata, Metadata::default());
        assert!(!metadata.available);
        assert_eq!(metadata.rid, None);
    }
    assert!(registry.get(0).is_err());
}

#[test]
fn the_default_metadata_says_up_to_date() {
    let metadata = Metadata::default();
    assert!(!metadata.available);
    assert_eq!(metadata.rid, None);
    assert_eq!(metadata.current_version, "");
    assert_eq!(metadata.version, "");
    assert_eq!(metadata.date, None);
    assert_eq!(metadata.body, None);
}

#[test]
fn check_up_to_date_stores_nothing() {
    let updater = updater_on("linux");
    let mut registry = ResourceRegistry::new();
    let mut same = scenario_manifest();
    same.version = Some("1.0.0".to_string());
    let metadata = check(&updater, &mut registry, &answered(200, Some(same)), None).unwrap();
    assert_eq!(metadata, Metadata::default());
    assert_eq!(registry.add(Resource::DownloadedBytes(vec![])), 0);
}

#[test]
fn check_for_build_metadata_alone_stores_nothing() {
    let config = Config { endpoint: Url::parse("https://updates.example.com/latest.json") };
    let updater = init(
        &config,
        Version::parse("1.0.0+1").unwrap(),
        TargetFamily::Desktop,
        "linux",
        "x86_64",
    )
    .unwrap();
    let mut registry = ResourceRegistry::new();
    let kept = registry.add(Resource::DownloadedBytes(vec![1]));
    let mut doc = scenario_manifest();
    doc.version = Some("1.0.0+2".to_string());
    let metadata = check(&updater, &mut registry, &answered(200, Some(doc)), None).unwrap();
    assert_eq!(metadata, Metadata::default());
    assert!(registry.get(kept).is_ok());
    assert!(registry.get(kept + 1).is_err());
    assert_eq!(registry.add(Resource::DownloadedBytes(vec![])), kept + 1);
}

#[test]
fn check_failure_is_an_error_not_up_to_date() {
    let updater = updater_on("linux");
    let mut registry = ResourceRegistry::new();
    assert_eq!(
        check(&updater, &mut registry, &ManifestResponse::Unreachable, None),
        Err(UpdateError::ReleaseNotFound)
    );
    assert_eq!(
        check(&updater, &mut registry, &answered(503, None), None),
        Err(UpdateError::ReleaseNotFound)
    );
    assert_eq!(
        check(&updater, &mut registry, &answered(200, None), None),
        Err(UpdateError::Manifest(ManifestError::Malformed))
    );
    let mut broken = scenario_manifest();
    broken.pub_date = Some("soon".to_string());
    assert_eq!(
        check(&updater, &mut registry, &answered(200, Some(broken)), None),
        Err(UpdateError::Manifest(ManifestError::InvalidDate))
    );
    assert_eq!(registry.add(Resource::DownloadedBytes(vec![])), 0);
}

#[test]
fn check_carries_notes_and_date() {
    let updater = updater_on("linux");
    let mut registry = ResourceRegistry::new();
    let mut doc = scenario_manifest();
    doc.notes = Some("What is new".to_string());
    doc.pub_date = Some("2000-01-01T00:00:00Z".to_string());
    let metadata = check(&updater, &mut registry, &answered(200, Some(doc)), None).unwrap();
    assert_eq!(metadata.body, Some("What is new".to_string()));
    assert_eq!(
        metadata.date,
        Some(Timestamp { unix_nanos: 946_684_800_000_000_000, offset_seconds: 0 })
    );
}

#[test]
fn check_for_a_named_target() {
    let updater = updater_on("windows");
    let mut registry = ResourceRegistry::new();
    let metadata = check(
        &updater,
        &mut registry,
        &answered(200, Some(scenario_manifest())),
        Some("linux-x86_64"),
    )
    .unwrap();
    assert!(metadata.available);
    let linux = updater_on("linux");
    assert_eq!(
        check(&linux, &mut registry, &answered(200, Some(scenario_manifest())), Some("linux-arm")),
        Err(UpdateError::TargetNotFound("linux-arm".to_string()))
    );
}

#[test]
fn each_check_gets_its_own_handle() {
    let updater = updater_on("linux");
    let mut registry = ResourceRegistry::new();
    let first =
        check(&updater, &mut registry, &answered(200, Some(scenario_manifest())), None).unwrap();
    let second =
        check(&updater, &mut registry, &answered(200, Some(scenario_manifest())), None).unwrap();
    assert_ne!(first.rid, second.rid);
    assert!(registry.get_update(first.rid.unwrap()).is_ok());
    assert!(registry.get_update(second.rid.unwrap()).is_ok());
}

#[test]
fn start_download_for_a_live_update() {
    let updater = updater_on("linux");
    let mut registry = ResourceRegistry::new();
    let metadata =
        check(&updater, &mut registry, &answered(200, Some(scenario_manifest())), None).unwrap();
    let download = start_download(&registry, metadata.rid.unwrap()).unwrap();
    assert_eq!(download.url().as_str(), "https://x/a.bin");
    assert_eq!(download.phase(), Phase::AwaitingResponse);
}

#[test]
fn start_download_for_a_closed_or_unknown_handle_fails() {
    let updater = updater_on("linux");
    let mut registry = ResourceRegistry::new();
    assert_eq!(start_download(&registry, 0).err(), Some(UpdateError::ResourceNotFound(0)));
    let metadata =
        check(&updater, &mut registry, &answered(200, Some(scenario_manifest())), None).unwrap();
    let rid = metadata.rid.unwrap();
    assert_eq!(registry.close(rid), Ok(()));
    assert_eq!(start_download(&registry, rid).err(), Some(UpdateError::ResourceNotFound(rid)));
}

#[test]
fn start_download_for_bytes_fails() {
    let mut registry = ResourceRegistry::new();
    let rid = registry.add(Resource::DownloadedBytes(vec![1, 2, 3]));
    assert_eq!(start_download(&registry, rid).err(), Some(UpdateError::ResourceNotFound(rid)));
}

fn finished_download(registry: &mut ResourceRegistry, body: &[u8]) -> (u64, universal_updater::Download) {
    let updater = updater_on("linux");
    let metadata =
        check(&updater, registry, &answered(200, Some(scenario_manifest())), None).unwrap();
    let rid = metadata.rid.unwrap();
    let mut download = start_download(registry, rid).unwrap();
    assert!(download
        .step(&universal_updater::Signal::Response { status: 200, content_length: None })
        .is_ok());
    assert!(download.step(&universal_updater::Signal::Chunk(body.to_vec())).is_ok());
    assert!(download.step(&universal_updater::Signal::End).is_ok());
    (rid, download)
}

#[test]
fn a_complete_download_is_stored_for_installation() {
    let mut registry = ResourceRegistry::new();
    let (rid, download) = finished_download(&mut registry, &[1, 2, 3, 4]);
    let bytes = universal_updater::store_download(&mut registry, download).unwrap();
    assert_ne!(bytes, rid);
    assert_eq!(registry.get_bytes(bytes), Ok(&vec![1, 2, 3, 4]));
}

#[test]
fn an_incomplete_download_is_never_stored() {
    let updater = updater_on("linux");
    let mut registry = ResourceRegistry::new();
    let metadata =
        check(&updater, &mut registry, &answered(200, Some(scenario_manifest())), None).unwrap();
    let rid = metadata.rid.unwrap();

    let not_begun = start_download(&registry, rid).unwrap();
    assert_eq!(
        universal_updater::store_download(&mut registry, not_begun),
        Err(UpdateError::Network(universal_updater::NetworkFailure::OutOfOrder))
    );

    let mut failed = start_download(&registry, rid).unwrap();
    assert!(failed
        .step(&universal_updater::Signal::Response { status: 200, content_length: None })
        .is_ok());
    assert!(failed.step(&universal_updater::Signal::Chunk(vec![1, 2])).is_ok());
    assert!(failed.step(&universal_updater::Signal::Failure("reset".to_string())).is_err());
    assert_eq!(
        universal_updater::store_download(&mut registry, failed),
        Err(UpdateError::Network(universal_updater::NetworkFailure::OutOfOrder))
    );
    assert_eq!(registry.add(Resource::DownloadedBytes(vec![])), rid + 1);
}

#[test]
fn a_successful_install_releases_the_bytes() {
    let mut registry = ResourceRegistry::new();
    let (rid, download) = finished_download(&mut registry, &[9; 16]);
    let bytes = universal_updater::store_download(&mut registry, download).unwrap();
    assert_eq!(
        universal_updater::install(
            &mut registry,
            rid,
            bytes,
            &universal_updater::InstallOutcome::Applied
        ),
        Ok(())
    );
    assert_eq!(registry.get_bytes(bytes).err(), Some(UpdateError::ResourceNotFound(bytes)));
    assert!(registry.get_update(rid).is_ok());
    assert_eq!(
        universal_updater::install(
            &mut registry,
            rid,
            bytes,
            &universal_updater::InstallOutcome::Applied
        ),
        Err(UpdateError::ResourceNotFound(bytes))
    );
}

#[test]
fn a_failed_install_is_passed_on_and_keeps_the_bytes() {
    let mut registry = ResourceRegistry::new();
    let (rid, download) = finished_download(&mut registry, &[7, 7]);
    let bytes = universal_updater::store_download(&mut registry, download).unwrap();
    assert_eq!(
        universal_updater::install(
            &mut registry,
            rid,
            bytes,
            &universal_updater::InstallOutcome::Failed("disk full".to_string())
        ),
        Err(UpdateError::Install("disk full".to_string()))
    );
    assert_eq!(registry.get_bytes(bytes), Ok(&vec![7, 7]));
    assert_eq!(registry.close(bytes), Ok(()));
}

#[test]
fn install_needs_a_live_update_and_live_bytes() {
    let mut registry = ResourceRegistry::new();
    let (rid, download) = finished_download(&mut registry, &[5]);
    let bytes = universal_updater::store_download(&mut registry, download).unwrap();
    let applied = universal_updater::InstallOutcome::Applied;
    assert_eq!(
        universal_updater::install(&mut registry, 99, bytes, &applied),
        Err(UpdateError::ResourceNotFound(99))
    );
    assert_eq!(
        universal_updater::install(&mut registry, 98, 99, &applied),
        Err(UpdateError::ResourceNotFound(98))
    );
    assert_eq!(
        universal_updater::install(&mut registry, rid, 99, &applied),
        Err(UpdateError::ResourceNotFound(99))
    );
    assert_eq!(
        universal_updater::install(&mut registry, bytes, rid, &applied),
        Err(UpdateError::ResourceNotFound(bytes))
    );
    assert_eq!(
        universal_updater::install(&mut registry, rid, rid, &applied),
        Err(UpdateError::ResourceNotFound(rid))
    );
    assert_eq!(registry.get_bytes(bytes), Ok(&vec![5]));
    assert_eq!(registry.close(rid), Ok(()));
    assert_eq!(
        universal_updater::install(&mut registry, rid, bytes, &applied),
        Err(UpdateError::ResourceNotFound(rid))
    );
    assert_eq!(registry.get_bytes(bytes), Ok(&vec![5]));
}
