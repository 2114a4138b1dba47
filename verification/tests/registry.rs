use universal_updater::{
    init, Config, ManifestDocument, ManifestResponse, PlatformEntry, Resource, ResourceRegistry,
    TargetFamily, Update, UpdateError, Url, Version,
};

fn update(version: &str) -> Update {
    let config = Config { endpoint: Url::parse("https://updates.example.com/latest.json") };
    let updater =
        init(&config, Version::new(1, 0, 0), TargetFamily::Desktop, "linux", "x86_64").unwrap();
    let doc = ManifestDocument {
        version: Some(version.to_string()),
        name: None,
        notes: None,
        pub_date: None,
        platforms: vec![PlatformEntry {
            target: "linux-x86_64".to_string(),
            url: "https://x/a.bin".to_string(),
        }],
    };
    updater
        .check(&ManifestResponse::Answered { status: 200, document: Some(doc) })
        .unwrap()
        .unwrap()
}

#[test]
fn a_new_registry_holds_nothing() {
    let registry = ResourceRegistry::new();
    assert!(registry.has_room());
    for id in [0, 1, 2, u64::MAX] {
        assert_eq!(registry.get(id).err(), Some(UpdateError::ResourceNotFound(id)));
    }
}

#[test]
fn add_then_get_finds_the_value() {
    let mut registry = ResourceRegistry::new();
    let id = registry.add(Resource::Update(update("2.0.0")));
    match registry.get(id) {
        Ok(Resource::Update(found)) => assert_eq!(found.version(), "2.0.0"),
        other => panic!("expected the update, got {:?}", other),
    }
    assert_eq!(registry.get_update(id).unwrap().version(), "2.0.0");
}

#[test]
fn ids_are_handed_out_in_order() {
    let mut registry = ResourceRegistry::new();
    assert_eq!(registry.add(Resource::DownloadedBytes(vec![1])), 0);
    assert_eq!(registry.add(Resource::DownloadedBytes(vec![2])), 1);
    assert_eq!(registry.add(Resource::Update(update("2.0.0"))), 2);
}

#[test]
fn get_after_close_fails() {
    let mut registry = ResourceRegistry::new();
    let id = registry.add(Resource::DownloadedBytes(vec![1, 2, 3]));
    assert_eq!(registry.close(id), Ok(()));
    assert_eq!(registry.get(id).err(), Some(UpdateError::ResourceNotFound(id)));
    assert_eq!(registry.get_bytes(id).err(), Some(UpdateError::ResourceNotFound(id)));
}

#[test]
fn close_after_close_fails() {
    let mut registry = ResourceRegistry::new();
    let id = registry.add(Resource::DownloadedBytes(vec![1, 2, 3]));
    assert_eq!(registry.close(id), Ok(()));
    assert_eq!(registry.close(id), Err(UpdateError::ResourceNotFound(id)));
}

#[test]
fn close_of_an_unknown_id_fails() {
    let mut registry = ResourceRegistry::new();
    assert_eq!(registry.close(7), Err(UpdateError::ResourceNotFound(7)));
    let id = registry.add(Resource::DownloadedBytes(vec![9]));
    assert_eq!(registry.close(id + 1), Err(UpdateError::ResourceNotFound(id + 1)));
    assert_eq!(registry.get_bytes(id), Ok(&vec![9]));
}

#[test]
fn a_closed_id_is_never_handed_out_again() {
    let mut registry = ResourceRegistry::new();
    let first = registry.add(Resource::DownloadedBytes(vec![1]));
    assert_eq!(registry.close(first), Ok(()));
    let mut later = Vec::new();
    for n in 0..50u8 {
        later.push(registry.add(Resource::DownloadedBytes(vec![n])));
    }
    assert!(!later.contains(&first));
    assert_eq!(registry.get(first).err(), Some(UpdateError::ResourceNotFound(first)));
    for id in &later {
        assert_eq!(registry.close(*id), Ok(()));
    }
    let again = registry.add(Resource::DownloadedBytes(vec![0]));
    assert!(again != first && !later.contains(&again));
    assert_eq!(registry.get(first).err(), Some(UpdateError::ResourceNotFound(first)));
}

#[test]
fn add_never_returns_a_live_id() {
    let mut registry = ResourceRegistry::new();
    let mut live: Vec<u64> = Vec::new();
    for round in 0..40u8 {
        let id = registry.add(Resource::DownloadedBytes(vec![round]));
        assert!(!live.contains(&id));
        live.push(id);
        if round % 3 == 0 {
            let closed = live.remove(0);
            assert_eq!(registry.close(closed), Ok(()));
        }
    }
    for id in live {
        assert!(registry.get(id).is_ok());
    }
}

#[test]
fn live_values_do_not_alias() {
    let mut registry = ResourceRegistry::new();
    let a = registry.add(Resource::DownloadedBytes(vec![1, 1]));
    let b = registry.add(Resource::DownloadedBytes(vec![2, 2]));
    assert_ne!(a, b);
    assert_eq!(registry.close(a), Ok(()));
    assert_eq!(registry.get_bytes(b), Ok(&vec![2, 2]));
    let c = registry.add(Resource::DownloadedBytes(vec![3, 3]));
    assert_eq!(registry.get_bytes(b), Ok(&vec![2, 2]));
    assert_eq!(registry.get_bytes(c), Ok(&vec![3, 3]));
}

#[test]
fn typed_getters_refuse_the_other_kind() {
    let mut registry = ResourceRegistry::new();
    let bytes = registry.add(Resource::DownloadedBytes(vec![5]));
    let handle = registry.add(Resource::Update(update("3.0.0")));
    assert_eq!(registry.get_update(bytes).err(), Some(UpdateError::ResourceNotFound(bytes)));
    assert_eq!(registry.get_bytes(handle).err(), Some(UpdateError::ResourceNotFound(handle)));
    assert_eq!(registry.get_bytes(bytes), Ok(&vec![5]));
    assert_eq!(registry.get_update(handle).unwrap().version(), "3.0.0");
}
