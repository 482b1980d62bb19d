use sound_changer::{
    AudioError, DeviceState, DeviceType, JsonValue, parse_bool_field, parse_device_list_response,
    parse_install_response, parse_json,
};

const THREE_DEVICES: &str = r#"{"devices":[
  {"id":"{0.0.0.00000000}.{a}","name":"Speakers","device_type":"Playback","state":"Active","is_default":true,"is_communication_default":false,"last_seen":"2024-01-01T00:00:00.000Z"},
  {"id":"{0.0.0.00000000}.{b}","name":"Headphones","device_type":"Playback","state":"Unplugged","is_default":false,"is_communication_default":true,"last_seen":"2024-01-01T00:00:01.000Z"},
  {"id":"{0.0.1.00000000}.{c}","name":"Microphone","device_type":"Recording","state":"Disabled","is_default":false,"is_communication_default":false,"last_seen":"2024-01-01T00:00:02.000Z"}
],"timestamp":"2024-01-01T00:00:03.000Z","session":"HOST"}"#;

#[test]
fn three_devices_parse_with_all_fields() {
    let ds = parse_device_list_response(THREE_DEVICES).unwrap();
    assert_eq!(ds.len(), 3);
    assert_eq!(ds[0].id, "{0.0.0.00000000}.{a}");
    assert_eq!(ds[0].name, "Speakers");
    assert_eq!(ds[0].device_type, DeviceType::Playback);
    assert_eq!(ds[0].state, DeviceState::Active);
    assert!(ds[0].is_default);
    assert!(!ds[0].is_communication_default);
    assert_eq!(ds[0].last_seen.as_deref(), Some("2024-01-01T00:00:00.000Z"));
    assert_eq!(ds[1].name, "Headphones");
    assert_eq!(ds[1].device_type, DeviceType::Playback);
    assert_eq!(ds[1].state, DeviceState::Unplugged);
    assert!(!ds[1].is_default);
    assert!(ds[1].is_communication_default);
    assert_eq!(ds[2].name, "Microphone");
    assert_eq!(ds[2].device_type, DeviceType::Recording);
    assert_eq!(ds[2].state, DeviceState::Disabled);
    assert_eq!(ds.iter().filter(|d| d.is_default).count(), 1);
}

#[test]
fn error_member_wins_over_devices() {
    let text = r#"{"error":"module missing","type":"PowerShellExecutionError","devices":[{"id":"A","device_type":"Playback"}]}"#;
    assert_eq!(
        parse_device_list_response(text),
        Err(AudioError::CommandFailed("module missing".to_string()))
    );
}

#[test]
fn error_member_without_text_reads_unknown_error() {
    let text = r#"{"error":42,"devices":[]}"#;
    assert_eq!(
        parse_device_list_response(text),
        Err(AudioError::CommandFailed("Unknown error".to_string()))
    );
}

#[test]
fn missing_devices_array_is_parse_error() {
    assert_eq!(
        parse_device_list_response(r#"{"timestamp":"t"}"#),
        Err(AudioError::ParseError("Missing devices array".to_string()))
    );
    assert_eq!(
        parse_device_list_response(r#"{"devices":"none"}"#),
        Err(AudioError::ParseError("Missing devices array".to_string()))
    );
}

#[test]
fn text_that_is_not_json_is_parse_error() {
    assert!(matches!(parse_device_list_response("not json"), Err(AudioError::ParseError(_))));
    assert!(matches!(parse_json("{\"a\":"), Err(AudioError::ParseError(_))));
}

#[test]
fn unknown_device_type_is_skipped() {
    let text = r#"{"devices":[
      {"id":"A","name":"One","device_type":"Playback"},
      {"id":"B","name":"Two","device_type":"Loopback"},
      {"id":"C","name":"Three"},
      {"id":"D","name":"Four","device_type":"Recording"}]}"#;
    let ds = parse_device_list_response(text).unwrap();
    let ids: Vec<&str> = ds.iter().map(|d| d.id.as_str()).collect();
    assert_eq!(ids, vec!["A", "D"]);
}

#[test]
fn missing_optional_fields_take_defaults() {
    let ds = parse_device_list_response(r#"{"devices":[{"device_type":"Recording","state":"Sleeping"}]}"#).unwrap();
    assert_eq!(ds.len(), 1);
    assert_eq!(ds[0].id, "");
    assert_eq!(ds[0].name, "");
    assert_eq!(ds[0].state, DeviceState::Unknown);
    assert!(!ds[0].is_default);
    assert!(!ds[0].is_communication_default);
    assert_eq!(ds[0].last_seen, None);
}

#[test]
fn all_states_are_read() {
    let text = r#"{"devices":[
      {"id":"1","device_type":"Playback","state":"Active"},
      {"id":"2","device_type":"Playback","state":"Disabled"},
      {"id":"3","device_type":"Playback","state":"NotPresent"},
      {"id":"4","device_type":"Playback","state":"Unplugged"},
      {"id":"5","device_type":"Playback","state":"active"}]}"#;
    let states: Vec<DeviceState> = parse_device_list_response(text).unwrap().iter().map(|d| d.state).collect();
    assert_eq!(
        states,
        vec![DeviceState::Active, DeviceState::Disabled, DeviceState::NotPresent, DeviceState::Unplugged, DeviceState::Unknown]
    );
}

#[test]
fn json_tree_is_read() {
    let t = parse_json(r#"{"a":[1,true,null,"x"]}"#).unwrap();
    match t {
        JsonValue::Object(ms) => {
            assert_eq!(ms.len(), 1);
            assert_eq!(ms[0].key, "a");
            assert_eq!(
                ms[0].value,
                JsonValue::Array(vec![
                    JsonValue::Number("1".to_string()),
                    JsonValue::Bool(true),
                    JsonValue::Null,
                    JsonValue::Str("x".to_string()),
                ])
            );
        }
        other => panic!("not an object: {:?}", other),
    }
}

#[test]
fn bool_field_reads_true_only() {
    assert_eq!(parse_bool_field(r#"{"available":true,"version":"3.1"}"#, "available"), Ok(true));
    assert_eq!(parse_bool_field(r#"{"available":false,"message":"not found"}"#, "available"), Ok(false));
    assert_eq!(parse_bool_field(r#"{"available":"yes"}"#, "available"), Ok(false));
    assert_eq!(parse_bool_field(r#"{}"#, "available"), Ok(false));
    assert!(matches!(parse_bool_field("", "available"), Err(AudioError::ParseError(_))));
}

#[test]
fn install_answers() {
    assert_eq!(parse_install_response(r#"{"success":true,"version":"3.1","scope":"CurrentUser"}"#), Ok(()));
    assert_eq!(
        parse_install_response(r#"{"success":false,"error":"no network","suggestion":"retry"}"#),
        Err(AudioError::CommandFailed("no network".to_string()))
    );
    assert_eq!(
        parse_install_response(r#"{"success":false}"#),
        Err(AudioError::CommandFailed("Unknown installation error".to_string()))
    );
}
