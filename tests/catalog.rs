use sound_changer::{
    AudioDevice, AudioError, AudioManager, AudioManagerState, CatalogRead, DEFAULT_CACHE_TTL_MS,
    DeviceState, DeviceType, devices_from_listing, initialize_audio_manager, parse_device_type,
};

fn device(id: &str, name: &str, t: DeviceType, is_default: bool) -> AudioDevice {
    AudioDevice {
        id: id.to_string(),
        name: name.to_string(),
        device_type: t,
        state: DeviceState::Active,
        is_default,
        is_communication_default: false,
        last_seen: None,
    }
}

fn sorted_ids(ds: &[AudioDevice]) -> Vec<String> {
    let mut ids: Vec<String> = ds.iter().map(|d| d.id.clone()).collect();
    ids.sort();
    ids
}

#[test]
fn test_audio_functionality() {
    let manager = initialize_audio_manager().unwrap();
    assert_eq!(manager.get_session_id().len(), 36);
    assert!(matches!(manager.get_audio_devices(0), CatalogRead::Fetch));
    assert!(!manager.state().is_fresh(0));
}

#[test]
fn session_ids_are_fresh_uuids() {
    let a = AudioManager::new().unwrap();
    let b = AudioManager::new().unwrap();
    assert_ne!(a.get_session_id(), b.get_session_id());
    assert_eq!(a.get_session_id().matches('-').count(), 4);
}

#[test]
fn read_within_ttl_is_served_from_cache() {
    let mut m = AudioManager::new().unwrap();
    let t = 1_000_000;
    assert!(matches!(m.get_audio_devices(t), CatalogRead::Fetch));
    let fetched = vec![device("A", "Speakers", DeviceType::Playback, true), device("B", "Mic", DeviceType::Recording, true)];
    let r = m.complete_device_fetch(Ok(fetched.clone()), t).unwrap();
    assert_eq!(r, fetched);
    for now in [t, t + 1, t + DEFAULT_CACHE_TTL_MS - 1] {
        match m.get_devices(now) {
            CatalogRead::Cached(ds) => assert_eq!(sorted_ids(&ds), vec!["A".to_string(), "B".to_string()]),
            CatalogRead::Fetch => panic!("fetched within the time-to-live at {}", now),
        }
    }
}

#[test]
fn read_after_ttl_fetches() {
    let mut m = AudioManager::new().unwrap();
    m.complete_device_fetch(Ok(vec![device("A", "Speakers", DeviceType::Playback, true)]), 500).unwrap();
    assert!(matches!(m.get_audio_devices(500 + DEFAULT_CACHE_TTL_MS), CatalogRead::Fetch));
    assert!(matches!(m.get_audio_devices(500 + 2 * DEFAULT_CACHE_TTL_MS), CatalogRead::Fetch));
}

#[test]
fn failed_fetch_leaves_catalog() {
    let mut m = AudioManager::new().unwrap();
    m.complete_device_fetch(Ok(vec![device("A", "Speakers", DeviceType::Playback, true)]), 0).unwrap();
    let r = m.complete_device_fetch(Err(AudioError::CommandFailed("down".to_string())), 40_000);
    assert_eq!(r, Err(AudioError::CommandFailed("down".to_string())));
    assert!(m.state().is_fresh(10));
    assert!(!m.state().is_fresh(40_000));
}

#[test]
fn invalidation_forces_fetch() {
    let mut m = AudioManager::new().unwrap();
    m.complete_device_fetch(Ok(vec![device("A", "Speakers", DeviceType::Playback, true)]), 0).unwrap();
    m.invalidate_cache();
    assert!(matches!(m.get_audio_devices(1), CatalogRead::Fetch));
    assert!(m.state().cached_devices().is_empty());
}

#[test]
fn refresh_replaces_wholesale_and_keys_by_id() {
    let mut s = AudioManagerState::default();
    s.refresh(&vec![device("A", "Old", DeviceType::Playback, false), device("B", "Mic", DeviceType::Recording, false)], 0);
    s.refresh(&vec![device("C", "New", DeviceType::Playback, false), device("C", "Newer", DeviceType::Playback, true)], 5);
    let ds = s.cached_devices();
    assert_eq!(ds.len(), 1);
    assert_eq!(ds[0].name, "Newer");
    assert!(ds[0].is_default);
}

#[test]
fn earlier_clock_counts_as_no_time_elapsed() {
    let mut s = AudioManagerState::with_ttl(10);
    s.refresh(&vec![], 100);
    assert!(s.is_fresh(50));
    assert!(s.is_fresh(109));
    assert!(!s.is_fresh(110));
    let zero = AudioManagerState::with_ttl(0);
    assert!(!zero.is_fresh(0));
}

#[test]
fn listing_output_scenario() {
    let out = r#"{"devices":[{"id":"A","name":"Speakers","device_type":"Playback","state":"Active","is_default":true}],"timestamp":"t"}"#;
    let ds = devices_from_listing(Ok(out.to_string())).unwrap();
    assert_eq!(ds.len(), 1);
    assert_eq!(ds[0].id, "A");
    assert_eq!(ds[0].name, "Speakers");
    assert_eq!(ds[0].device_type, DeviceType::Playback);
    assert_eq!(ds[0].state, DeviceState::Active);
    assert!(ds[0].is_default);
    assert!(!ds[0].is_communication_default);
    assert_eq!(ds[0].last_seen, None);
    let mut m = AudioManager::new().unwrap();
    assert!(matches!(m.get_devices(7), CatalogRead::Fetch));
    let got = m.complete_device_fetch(Ok(ds), 7).unwrap();
    assert_eq!(got.len(), 1);
    assert_eq!(got[0].id, "A");
    assert_eq!(
        devices_from_listing(Err(AudioError::CommandFailed("x".to_string()))),
        Err(AudioError::CommandFailed("x".to_string()))
    );
}

#[test]
fn device_type_strings() {
    assert_eq!(parse_device_type("Playback"), Ok(DeviceType::Playback));
    assert_eq!(parse_device_type("Recording"), Ok(DeviceType::Recording));
    assert_eq!(parse_device_type("playback"), Err(AudioError::ParseError("Invalid device type".to_string())));
}

#[test]
fn validation_of_ids() {
    let m = AudioManager::new().unwrap();
    let ds = vec![device("A", "Speakers", DeviceType::Playback, true)];
    assert_eq!(m.validate_device_id(&ds, "A"), Ok(true));
    assert_eq!(m.validate_device_id(&ds, "Z"), Err(AudioError::DeviceNotFound("Z".to_string())));
}

#[test]
fn module_commands() {
    let m = AudioManager::new().unwrap();
    assert_eq!(m.check_module_availability(Ok(r#"{"available":true,"version":"3.1.0.2","path":"C:\\m"}"#.to_string())), Ok(true));
    assert_eq!(m.check_module_availability(Ok(r#"{"available":false,"message":"AudioDeviceCmdlets module not found"}"#.to_string())), Ok(false));
    assert_eq!(
        m.check_module_availability(Err(AudioError::CommandFailed("no shell".to_string()))),
        Err(AudioError::CommandFailed("no shell".to_string()))
    );
    assert_eq!(m.install_module(Ok(r#"{"success":true}"#.to_string())), Ok(()));
    assert_eq!(
        m.install_module(Ok(r#"{"success":false,"error":"denied"}"#.to_string())),
        Err(AudioError::CommandFailed("denied".to_string()))
    );
}

#[test]
fn error_messages() {
    assert_eq!(AudioError::DeviceNotFound("B".to_string()).message(), "Device not found: B");
    assert_eq!(AudioError::CommandFailed("x".to_string()).message(), "Command execution failed: x");
    assert_eq!(AudioError::ParseError("y".to_string()).message(), "Parsing error: y");
    assert_eq!(AudioError::Unknown("z".to_string()).detail(), "z");
}
