use lan_discovery::clock::Timestamp;
use lan_discovery::device::{DeviceType, DiscoveredDevice};
use lan_discovery::store::{DiscoveryStore, PersistenceError, StoredDevices, STORE_FILE_NAME};

fn device(alias: &str, fingerprint: &str, secs: u64) -> DiscoveredDevice {
    DiscoveredDevice {
        alias: alias.to_string(),
        device_model: Some("model".to_string()),
        device_type: Some(DeviceType::Desktop),
        fingerprint: fingerprint.to_string(),
        last_seen: Timestamp::new(secs, 0),
    }
}

fn names(devices: &Vec<DiscoveredDevice>) -> Vec<(String, String)> {
    devices.iter().map(|d| (d.fingerprint.clone(), d.alias.clone())).collect()
}

fn pair(fingerprint: &str, alias: &str) -> (String, String) {
    (fingerprint.to_string(), alias.to_string())
}

#[test]
fn new_store_is_empty() {
    let store = DiscoveryStore::new();
    assert!(store.get_devices().is_empty());
    assert!(store.save(Timestamp::new(0, 0)).is_empty());
}

#[test]
fn store_file_name() {
    assert_eq!(STORE_FILE_NAME, ".discovered");
}

#[test]
fn save_keeps_a_device_at_ten_seconds_and_omits_it_at_thirty_one() {
    let mut store = DiscoveryStore::new();
    store.update_device(device("peer", "abc", 0), Timestamp::new(0, 0));
    assert_eq!(names(&store.save(Timestamp::new(10, 0))), vec![pair("abc", "peer")]);
    assert!(store.save(Timestamp::new(31, 0)).is_empty());
    assert_eq!(names(&store.get_devices()), vec![pair("abc", "peer")]);
}

#[test]
fn save_then_load_yields_the_fresh_devices() {
    let mut store = DiscoveryStore::new();
    let start = Timestamp::new(1000, 0);
    store.update_device(device("old", "fp-old", 1000), start);
    store.update_device(device("edge", "fp-edge", 1010), start);
    store.update_device(device("new", "fp-new", 1035), start);
    let persisted = store.save(Timestamp::new(1040, 0));
    assert_eq!(names(&persisted), vec![pair("fp-new", "new")]);

    let persisted = store.save(Timestamp::new(1039, 999_999_999));
    assert_eq!(names(&persisted), vec![pair("fp-edge", "edge"), pair("fp-new", "new")]);

    let mut reloaded = DiscoveryStore::new();
    let loaded = reloaded.load(StoredDevices::Devices(persisted)).expect("devices load");
    assert_eq!(names(&loaded), vec![pair("fp-edge", "edge"), pair("fp-new", "new")]);
    assert_eq!(names(&reloaded.get_devices()), names(&loaded));
    assert_eq!(reloaded.get_devices()[0].last_seen, Timestamp::new(1010, 0));
}

#[test]
fn update_twice_leaves_one_entry_with_the_latest_alias() {
    let mut store = DiscoveryStore::new();
    let now = Timestamp::new(5, 0);
    store.update_device(device("first", "fp", 1), now);
    store.update_device(device("other", "fp-other", 2), now);
    let persisted = store.update_device(device("second", "fp", 3), now);
    let expected = vec![pair("fp", "second"), pair("fp-other", "other")];
    assert_eq!(names(&store.get_devices()), expected);
    assert_eq!(names(&persisted), expected);
    assert_eq!(store.get_devices()[0].last_seen, Timestamp::new(3, 0));
}

#[test]
fn update_hands_out_only_fresh_devices() {
    let mut store = DiscoveryStore::new();
    store.update_device(device("old", "fp-old", 0), Timestamp::new(0, 0));
    let persisted = store.update_device(device("new", "fp-new", 100), Timestamp::new(100, 0));
    assert_eq!(names(&persisted), vec![pair("fp-new", "new")]);
    assert_eq!(store.get_devices().len(), 2);
}

#[test]
fn prune_drops_stale_devices_from_the_cache() {
    let mut store = DiscoveryStore::new();
    store.update_device(device("old", "fp-old", 0), Timestamp::new(0, 0));
    store.update_device(device("new", "fp-new", 20), Timestamp::new(20, 0));
    let persisted = store.prune_expired(Timestamp::new(30, 0));
    assert_eq!(names(&persisted), vec![pair("fp-new", "new")]);
    assert_eq!(names(&store.get_devices()), vec![pair("fp-new", "new")]);
}

#[test]
fn missing_file_loads_as_empty_cache() {
    let mut store = DiscoveryStore::new();
    store.update_device(device("peer", "fp", 0), Timestamp::new(0, 0));
    let loaded = store.load(StoredDevices::Absent).expect("no file is no error");
    assert!(loaded.is_empty());
    assert!(store.get_devices().is_empty());
}

#[test]
fn unreadable_file_is_an_error_and_keeps_the_cache() {
    let mut store = DiscoveryStore::new();
    store.update_device(device("peer", "fp", 0), Timestamp::new(0, 0));
    let res = store.load(StoredDevices::Unreadable("io".to_string()));
    assert!(matches!(res, Err(PersistenceError::Io(m)) if m == "io"));
    assert_eq!(store.get_devices().len(), 1);
}

#[test]
fn malformed_file_is_an_error_and_keeps_the_cache() {
    let mut store = DiscoveryStore::new();
    store.update_device(device("peer", "fp", 0), Timestamp::new(0, 0));
    let res = store.load(StoredDevices::Malformed("bad".to_string()));
    assert!(matches!(res, Err(PersistenceError::Malformed(m)) if m == "bad"));
    assert_eq!(store.get_devices().len(), 1);
}

#[test]
fn load_replaces_the_cache() {
    let mut store = DiscoveryStore::new();
    store.update_device(device("gone", "fp-gone", 0), Timestamp::new(0, 0));
    store
        .load(StoredDevices::Devices(vec![device("a", "fp-a", 1), device("b", "fp-b", 2)]))
        .expect("devices load");
    assert_eq!(names(&store.get_devices()), vec![pair("fp-a", "a"), pair("fp-b", "b")]);
}

#[test]
fn load_keeps_one_device_per_fingerprint() {
    let mut store = DiscoveryStore::new();
    let loaded = store
        .load(StoredDevices::Devices(vec![
            device("a", "fp-a", 1),
            device("b", "fp-b", 2),
            device("a-again", "fp-a", 3),
        ]))
        .expect("devices load");
    assert_eq!(names(&loaded), vec![pair("fp-a", "a-again"), pair("fp-b", "b")]);
}
