use sound_changer::{
    AudioDevice, AudioError, AudioManager, CatalogRead, DeviceState, DeviceType, SwitchAction,
    SwitchEvent, SwitchSession, set_default_script,
};

fn device(id: &str, name: &str, t: DeviceType, is_default: bool) -> AudioDevice {
    AudioDevice {
        id: id.to_string(),
        name: name.to_string(),
        device_type: t,
        state: DeviceState::Active,
        is_default,
        is_communication_default: false,
        last_seen: None,
    }
}

fn catalog() -> Vec<AudioDevice> {
    vec![
        device("A", "Realtek Speakers", DeviceType::Playback, true),
        device("H", "USB Headset", DeviceType::Playback, false),
        device("M", "Array Microphone", DeviceType::Recording, true),
    ]
}

/// Runs a session against a fixed catalog and scripted command results;
/// returns the set-default ids asked for, the number of catalog reads, and
/// the final action.
fn drive(
    m: &mut AudioManager,
    mut session: SwitchSession,
    ds: &[AudioDevice],
    mut commands: Vec<Result<String, AudioError>>,
) -> (Vec<String>, usize, SwitchAction) {
    let mut set_calls = Vec::new();
    let mut reads = 0;
    let mut event = SwitchEvent::Devices(Ok(ds.to_vec()));
    reads += 1;
    loop {
        let (next, action) = m.advance_switch(session, event);
        session = next;
        match action {
            SwitchAction::ListDevices => {
                reads += 1;
                event = SwitchEvent::Devices(Ok(ds.to_vec()));
            }
            SwitchAction::SetDefault(id) => {
                set_calls.push(id);
                event = SwitchEvent::Command(commands.remove(0));
            }
            done => return (set_calls, reads, done),
        }
    }
}

fn fetched_manager() -> AudioManager {
    let mut m = AudioManager::new().unwrap();
    m.complete_device_fetch(Ok(catalog()), 0).unwrap();
    m
}

#[test]
fn switch_succeeds_and_invalidates() {
    let mut m = fetched_manager();
    let s = m.set_default_audio_device("H");
    let (calls, reads, end) = drive(&mut m, s, &catalog(), vec![Ok("{\"success\":true}".to_string())]);
    assert_eq!(calls, vec!["H".to_string()]);
    assert_eq!(reads, 2);
    assert_eq!(end, SwitchAction::Succeeded);
    assert!(matches!(m.get_audio_devices(1), CatalogRead::Fetch));
}

#[test]
fn switch_to_current_default_still_switches() {
    let mut m = fetched_manager();
    let s = m.set_default_device("A", &DeviceType::Playback);
    let (calls, _, end) = drive(&mut m, s, &catalog(), vec![Ok(String::new())]);
    assert_eq!(calls, vec!["A".to_string()]);
    assert_eq!(end, SwitchAction::Succeeded);
    assert!(matches!(m.get_audio_devices(1), CatalogRead::Fetch));
}

#[test]
fn unknown_device_is_rejected_without_switching() {
    let mut m = fetched_manager();
    let s = m.set_default_audio_device("B");
    let (calls, reads, end) = drive(&mut m, s, &catalog(), vec![]);
    assert!(calls.is_empty());
    assert_eq!(reads, 1);
    assert_eq!(end, SwitchAction::Failed(AudioError::DeviceNotFound("B".to_string())));
    match m.get_audio_devices(1) {
        CatalogRead::Cached(ds) => assert_eq!(ds.len(), 3),
        CatalogRead::Fetch => panic!("catalog was touched"),
    }
}

#[test]
fn failed_switch_restores_both_and_reports_cause() {
    let mut m = fetched_manager();
    let s = m.set_default_audio_device("H");
    let cause = AudioError::CommandFailed("access denied".to_string());
    let (calls, _, end) = drive(
        &mut m,
        s,
        &catalog(),
        vec![Err(cause.clone()), Err(AudioError::CommandFailed("again".to_string())), Ok(String::new())],
    );
    assert_eq!(calls, vec!["H".to_string(), "A".to_string(), "M".to_string()]);
    assert_eq!(end, SwitchAction::Failed(cause));
    assert!(matches!(m.get_audio_devices(1), CatalogRead::Cached(_)));
}

#[test]
fn failed_first_switch_has_no_fallback() {
    let mut m = AudioManager::new().unwrap();
    let ds = vec![device("H", "USB Headset", DeviceType::Playback, false)];
    let s = m.set_default_audio_device("H");
    let (calls, _, end) = drive(&mut m, s, &ds, vec![Err(AudioError::CommandFailed("boom".to_string()))]);
    assert_eq!(calls, vec!["H".to_string()]);
    assert_eq!(end, SwitchAction::Failed(AudioError::CommandFailed("boom".to_string())));
}

#[test]
fn failed_catalog_read_ends_switch() {
    let mut m = AudioManager::new().unwrap();
    let s = m.set_default_audio_device("H");
    let (next, action) = m.advance_switch(s, SwitchEvent::Devices(Err(AudioError::ParseError("bad".to_string()))));
    assert_eq!(next, SwitchSession::Finished);
    assert_eq!(action, SwitchAction::Failed(AudioError::ParseError("bad".to_string())));
}

#[test]
fn change_output_requires_source_default() {
    let mut m = fetched_manager();
    let s = m.change_audio_output("H", "A");
    let (calls, reads, end) = drive(&mut m, s, &catalog(), vec![]);
    assert!(calls.is_empty());
    assert_eq!(reads, 3);
    assert_eq!(end, SwitchAction::Failed(AudioError::CommandFailed("Device H is not currently the default".to_string())));
    let s = m.change_audio_output("A", "Q");
    let (_, _, end) = drive(&mut m, s, &catalog(), vec![]);
    assert_eq!(end, SwitchAction::Failed(AudioError::DeviceNotFound("Q".to_string())));
    let s = m.change_audio_output("A", "H");
    let (calls, reads, end) = drive(&mut m, s, &catalog(), vec![Ok(String::new())]);
    assert_eq!(calls, vec!["H".to_string()]);
    assert_eq!(reads, 5);
    assert_eq!(end, SwitchAction::Succeeded);
}

#[test]
fn quick_switch_matches_name_ignoring_case() {
    let mut m = fetched_manager();
    let s = m.quick_switch_to_device("headSET");
    let (calls, _, end) = drive(&mut m, s, &catalog(), vec![Ok(String::new())]);
    assert_eq!(calls, vec!["H".to_string()]);
    assert_eq!(end, SwitchAction::Succeeded);
    let s = m.quick_switch_to_device("a");
    let (calls, _, _) = drive(&mut m, s, &catalog(), vec![Ok(String::new())]);
    assert_eq!(calls, vec!["A".to_string()]);
    let s = m.quick_switch_to_device("Bluetooth");
    let (calls, _, end) = drive(&mut m, s, &catalog(), vec![]);
    assert!(calls.is_empty());
    assert_eq!(end, SwitchAction::Failed(AudioError::DeviceNotFound("Bluetooth".to_string())));
}

#[test]
fn events_of_the_wrong_kind_are_refused() {
    let s = SwitchSession::set_default("A");
    assert!(s.accepts(&SwitchEvent::Devices(Ok(vec![]))));
    assert!(!s.accepts(&SwitchEvent::Command(Ok(String::new()))));
    assert!(!SwitchSession::Finished.accepts(&SwitchEvent::Devices(Ok(vec![]))));
}

#[test]
fn set_default_script_names_the_device() {
    let s = set_default_script("{0.0.0}.{x}");
    assert_eq!(s.matches("{0.0.0}.{x}").count(), 8);
    assert!(s.contains("Set-AudioDevice -ID \"{0.0.0}.{x}\" -DefaultOnly"));
    assert!(!s.contains("{}"));
}
