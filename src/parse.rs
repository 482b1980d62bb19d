use vstd::prelude::*;
use crate::device::{AudioDevice, DeviceRecord, DeviceState, DeviceType, opt_str_view, records_of};
use crate::error::AudioError;
use crate::json::{
    JsonValue, array_member, bool_member, find_array, find_bool, find_member, find_str,
    json_of_text, member, parse_json, str_member,
};

verus! {

/// The direction named by a `device_type` member; any other value skips the record.
pub open spec fn device_type_from(t: Option<Seq<char>>) -> Option<DeviceType> {
    if t == Some("Playback"@) {
        Some(DeviceType::Playback)
    } else if t == Some("Recording"@) {
        Some(DeviceType::Recording)
    } else {
        None
    }
}

/// The state named by a `state` member; anything else reads as `Unknown`.
pub open spec fn state_from(t: Option<Seq<char>>) -> DeviceState {
    if t == Some("Active"@) {
        DeviceState::Active
    } else if t == Some("Disabled"@) {
        DeviceState::Disabled
    } else if t == Some("NotPresent"@) {
        DeviceState::NotPresent
    } else if t == Some("Unplugged"@) {
        DeviceState::Unplugged
    } else {
        DeviceState::Unknown
    }
}

pub open spec fn text_or_empty(t: Option<Seq<char>>) -> Seq<char> {
    match t {
        Some(s) => s,
        None => Seq::empty(),
    }
}

/// The record that one element of the `devices` array denotes, or `None`
/// where the element is skipped for want of a known `device_type`.
pub open spec fn record_from(v: JsonValue) -> Option<DeviceRecord> {
    match device_type_from(str_member(v, "device_type"@)) {
        None => None,
        Some(t) => Some(
            DeviceRecord {
                id: text_or_empty(str_member(v, "id"@)),
                name: text_or_empty(str_member(v, "name"@)),
                device_type: t,
                state: state_from(str_member(v, "state"@)),
                is_default: bool_member(v, "is_default"@) == Some(true),
                is_communication_default: bool_member(v, "is_communication_default"@) == Some(true),
                last_seen: str_member(v, "last_seen"@),
            },
        ),
    }
}

/// The records of the elements of a `devices` array, in order, skipped ones left out.
pub open spec fn records_from(items: Seq<JsonValue>) -> Seq<DeviceRecord>
    decreases items.len(),
{
    if items.len() == 0 {
        Seq::empty()
    } else {
        let rest = records_from(items.drop_last());
        match record_from(items.last()) {
            Some(r) => rest.push(r),
            None => rest,
        }
    }
}

/// What a device-list answer yields: an `error` member wins and becomes
/// `CommandFailed` with its text; else a missing `devices` array is a
/// `ParseError`; else the records of the array.
pub open spec fn device_list_result(v: JsonValue, r: Result<Vec<AudioDevice>, AudioError>) -> bool {
    if member(v, "error"@) is Some {
        r matches Err(AudioError::CommandFailed(m)) && m@ == (match str_member(v, "error"@) {
            Some(s) => s,
            None => "Unknown error"@,
        })
    } else if array_member(v, "devices"@) is None {
        r matches Err(AudioError::ParseError(m)) && m@ == "Missing devices array"@
    } else {
        r matches Ok(ds) && records_of(ds@) == records_from(array_member(v, "devices"@).unwrap())
    }
}

fn text_eq(s: &String, lit: &str) -> (r: bool)
    ensures
        r == (s@ == lit@),
{
    *s == String::from_str(lit)
}

fn device_type_of(t: &Option<String>) -> (r: Option<DeviceType>)
    ensures
        r == device_type_from(opt_str_view(*t)),
{
    match t {
        Some(s) => {
            if text_eq(s, "Playback") {
                Some(DeviceType::Playback)
            } else if text_eq(s, "Recording") {
                Some(DeviceType::Recording)
            } else {
                None
            }
        },
        None => None,
    }
}

fn state_of(t: &Option<String>) -> (r: DeviceState)
    ensures
        r == state_from(opt_str_view(*t)),
{
    match t {
        Some(s) => {
            if text_eq(s, "Active") {
                DeviceState::Active
            } else if text_eq(s, "Disabled") {
                DeviceState::Disabled
            } else if text_eq(s, "NotPresent") {
                DeviceState::NotPresent
            } else if text_eq(s, "Unplugged") {
                DeviceState::Unplugged
            } else {
                DeviceState::Unknown
            }
        },
        None => DeviceState::Unknown,
    }
}

fn string_or_empty(t: Option<String>) -> (r: String)
    ensures
        r@ == text_or_empty(opt_str_view(t)),
{
    match t {
        Some(s) => s,
        None => String::new(),
    }
}

/// Projects one element of a `devices` array into a device, or `None` where
/// its `device_type` is missing or unknown.
pub fn device_from_json(v: &JsonValue) -> (r: Option<AudioDevice>)
    ensures
        r is None <==> record_from(*v) is None,
        r matches Some(d) ==> record_from(*v) == Some(d@),
{
    let device_type = match device_type_of(&find_str(v, "device_type")) {
        Some(t) => t,
        None => return None,
    };
    let state = state_of(&find_str(v, "state"));
    Some(
        AudioDevice {
            id: string_or_empty(find_str(v, "id")),
            name: string_or_empty(find_str(v, "name")),
            device_type,
            state,
            is_default: find_bool(v, "is_default") == Some(true),
            is_communication_default: find_bool(v, "is_communication_default") == Some(true),
            last_seen: find_str(v, "last_seen"),
        },
    )
}

/// Projects a device-list answer, already read as JSON, into devices.
pub fn parse_device_list_value(v: &JsonValue) -> (r: Result<Vec<AudioDevice>, AudioError>)
    ensures
        device_list_result(*v, r),
{
    if find_member(v, "error").is_some() {
        let message = match find_str(v, "error") {
            Some(s) => s,
            None => String::from_str("Unknown error"),
        };
        return Err(AudioError::CommandFailed(message));
    }
    let items = match find_array(v, "devices") {
        Some(a) => a,
        None => return Err(AudioError::ParseError(String::from_str("Missing devices array"))),
    };
    let mut devices: Vec<AudioDevice> = Vec::new();
    let mut i: usize = 0;
    while i < items.len()
        invariant
            i <= items@.len(),
            records_of(devices@) == records_from(items@.subrange(0, i as int)),
        decreases items@.len() - i,
    {
        assert(items@.subrange(0, i as int + 1).drop_last() =~= items@.subrange(0, i as int));
        match device_from_json(&items[i]) {
            Some(d) => {
                let ghost before = devices@;
                devices.push(d);
                assert(records_of(devices@) =~= records_of(before).push(d@));
            },
            None => {},
        }
        i = i + 1;
    }
    assert(items@.subrange(0, items@.len() as int) =~= items@);
    Ok(devices)
}

/// Reads the tool's device-list answer: text that is not JSON is a
/// `ParseError`; JSON is projected as `parse_device_list_value` does.
pub fn parse_device_list_response(text: &str) -> (r: Result<Vec<AudioDevice>, AudioError>)
    ensures
        match json_of_text(text@) {
            None => r matches Err(AudioError::ParseError(_)),
            Some(v) => device_list_result(v, r),
        },
{
    let v = parse_json(text)?;
    parse_device_list_value(&v)
}

/// Reads a one-flag answer: the flag is true only where the member `field`
/// is the JSON literal `true`; text that is not JSON is a `ParseError`.
pub fn parse_bool_field(text: &str, field: &str) -> (r: Result<bool, AudioError>)
    ensures
        match json_of_text(text@) {
            None => r matches Err(AudioError::ParseError(_)),
            Some(v) => r == Ok::<bool, AudioError>(bool_member(v, field@) == Some(true)),
        },
{
    let v = parse_json(text)?;
    Ok(find_bool(&v, field) == Some(true))
}

/// What a module-installation answer yields: success where `success` is
/// `true`, else `CommandFailed` with the `error` text.
pub open spec fn install_result(v: JsonValue, r: Result<(), AudioError>) -> bool {
    if bool_member(v, "success"@) == Some(true) {
        r is Ok
    } else {
        r matches Err(AudioError::CommandFailed(m)) && m@ == (match str_member(v, "error"@) {
            Some(s) => s,
            None => "Unknown installation error"@,
        })
    }
}

/// Judges a module-installation answer, already read as JSON.
pub fn install_result_of(v: &JsonValue) -> (r: Result<(), AudioError>)
    ensures
        install_result(*v, r),
{
    if find_bool(v, "success") == Some(true) {
        Ok(())
    } else {
        let message = match find_str(v, "error") {
            Some(s) => s,
            None => String::from_str("Unknown installation error"),
        };
        Err(AudioError::CommandFailed(message))
    }
}

/// Reads a module-installation answer.
pub fn parse_install_response(text: &str) -> (r: Result<(), AudioError>)
    ensures
        match json_of_text(text@) {
            None => r matches Err(AudioError::ParseError(_)),
            Some(v) => install_result(v, r),
        },
{
    let v = parse_json(text)?;
    install_result_of(&v)
}

/// An answer with an `error` member is a `CommandFailed`, whatever `devices`
/// array it may also hold.
pub proof fn lemma_error_member_wins(v: JsonValue, r: Result<Vec<AudioDevice>, AudioError>)
    requires
        member(v, "error"@) is Some,
        device_list_result(v, r),
    ensures
        r matches Err(AudioError::CommandFailed(_)),
{
}

/// Where every element of a `devices` array names a known direction, each
/// element yields one record, in order, with the element's fields.
pub proof fn lemma_typed_elements_all_kept(items: Seq<JsonValue>)
    requires
        forall|i: int| 0 <= i < items.len() ==> (#[trigger] device_type_from(str_member(items[i], "device_type"@))) is Some,
    ensures
        records_from(items).len() == items.len(),
        forall|i: int| 0 <= i < items.len() ==> record_from(items[i]) == Some(#[trigger] records_from(items)[i]),
    decreases items.len(),
{
    if items.len() > 0 {
        let rest = items.drop_last();
        assert forall|i: int| 0 <= i < rest.len() implies (#[trigger] device_type_from(str_member(rest[i], "device_type"@))) is Some by {
            assert(rest[i] == items[i]);
        }
        lemma_typed_elements_all_kept(rest);
        assert(device_type_from(str_member(items[items.len() - 1], "device_type"@)) is Some);
        assert forall|i: int| 0 <= i < items.len() implies record_from(items[i]) == Some(#[trigger] records_from(items)[i]) by {
            if i < items.len() - 1 {
                assert(rest[i] == items[i]);
            }
        }
    }
}

} // verus!
