use vstd::prelude::*;
use crate::cache::AudioManagerState;
use crate::device::{AudioDevice, DeviceRecord, DeviceType, opt_str_view};
use crate::error::AudioError;
use crate::select::{lemma_first_where_exists, find_by_id, find_by_name, find_default, first_where, has_id, is_default_of, name_matches};

verus! {

/// The default devices captured just before a switch, kept for the fallback.
#[derive(Debug, PartialEq, Eq)]
pub struct PreviousDefaults {
    pub playback: Option<String>,
    pub recording: Option<String>,
}

/// Where a default-device switch stands, with what it still needs to know.
#[derive(Debug, PartialEq, Eq)]
pub enum SwitchSession {
    /// Output change: the source device must exist.
    CheckingSource { source: String, target: String },
    /// Output change: the target device must exist.
    CheckingTarget { source: String, target: String },
    /// Output change: the source device must be a current default.
    CheckingSourceDefault { source: String, target: String },
    /// Quick switch: the target is the first device whose name contains the query.
    Resolving { query: String },
    /// The target device must exist.
    Validating { target: String },
    /// The current defaults are captured.
    Snapshotting { target: String },
    /// The set-default command for the target is running.
    Switching { target: String, previous: PreviousDefaults },
    /// The switch failed; the previous playback default is being restored.
    RestoringPlayback { failure: AudioError, recording: Option<String> },
    /// The switch failed; the previous recording default is being restored.
    RestoringRecording { failure: AudioError },
    Finished,
}

/// What the caller hands a session: the answer to its last request.
#[derive(Debug)]
pub enum SwitchEvent {
    /// The current catalog, as a catalog read gave it.
    Devices(Result<Vec<AudioDevice>, AudioError>),
    /// The result of the set-default command, retries included.
    Command(Result<String, AudioError>),
}

/// What the caller does next for a session.
#[derive(Debug, PartialEq, Eq)]
pub enum SwitchAction {
    /// Read the catalog and answer with `SwitchEvent::Devices`.
    ListDevices,
    /// Run the set-default command for this id and answer with `SwitchEvent::Command`.
    SetDefault(String),
    /// The switch is done; the catalog has been invalidated.
    Succeeded,
    /// The switch is over with this error.
    Failed(AudioError),
}

pub open spec fn awaits_devices(s: SwitchSession) -> bool {
    ||| s is CheckingSource
    ||| s is CheckingTarget
    ||| s is CheckingSourceDefault
    ||| s is Resolving
    ||| s is Validating
    ||| s is Snapshotting
}

pub open spec fn awaits_command(s: SwitchSession) -> bool {
    ||| s is Switching
    ||| s is RestoringPlayback
    ||| s is RestoringRecording
}

/// The session can take this event: a catalog where it asked for one, a
/// command result where it ran one.
pub open spec fn accepts(s: SwitchSession, e: SwitchEvent) -> bool {
    match e {
        SwitchEvent::Devices(_) => awaits_devices(s),
        SwitchEvent::Command(_) => awaits_command(s),
    }
}

/// After a failed switch: restore the recording default, if there was one,
/// else report the failure.
pub open spec fn restore_recording(failure: AudioError, recording: Option<String>) -> (SwitchSession, SwitchAction) {
    match recording {
        Some(q) => (SwitchSession::RestoringRecording { failure }, SwitchAction::SetDefault(q)),
        None => (SwitchSession::Finished, SwitchAction::Failed(failure)),
    }
}

/// After a failed switch: restore the playback default, then the recording
/// default, each only where there was one.
pub open spec fn start_fallback(failure: AudioError, previous: PreviousDefaults) -> (SwitchSession, SwitchAction) {
    match previous.playback {
        Some(p) => (
            SwitchSession::RestoringPlayback { failure, recording: previous.recording },
            SwitchAction::SetDefault(p),
        ),
        None => restore_recording(failure, previous.recording),
    }
}

/// The step on a command result. A failed switch starts the fallback; the
/// fallback commands' own results are ignored and the switch's own failure is
/// what the session reports.
pub open spec fn on_command(s: SwitchSession, r: Result<String, AudioError>) -> (SwitchSession, SwitchAction) {
    match s {
        SwitchSession::Switching { target, previous } => match r {
            Ok(_) => (SwitchSession::Finished, SwitchAction::Succeeded),
            Err(e) => start_fallback(e, previous),
        },
        SwitchSession::RestoringPlayback { failure, recording } => restore_recording(failure, recording),
        SwitchSession::RestoringRecording { failure } => (SwitchSession::Finished, SwitchAction::Failed(failure)),
        _ => (s, SwitchAction::ListDevices),
    }
}

pub open spec fn contains_id(ds: Seq<AudioDevice>, id: Seq<char>) -> bool {
    first_where(ds, has_id(id)) is Some
}

/// The id of the first default device of a direction, as a text.
pub open spec fn default_id(ds: Seq<AudioDevice>, t: DeviceType) -> Option<Seq<char>> {
    match first_where(ds, is_default_of(t)) {
        Some(i) => Some(ds[i].id@),
        None => None,
    }
}

/// The step on a catalog `ds`.
pub open spec fn on_devices(s: SwitchSession, ds: Seq<AudioDevice>, s2: SwitchSession, a: SwitchAction) -> bool {
    match s {
        SwitchSession::CheckingSource { source, target } => if contains_id(ds, source@) {
            s2 == (SwitchSession::CheckingTarget { source, target }) && a == SwitchAction::ListDevices
        } else {
            s2 is Finished && a == SwitchAction::Failed(AudioError::DeviceNotFound(source))
        },
        SwitchSession::CheckingTarget { source, target } => if contains_id(ds, target@) {
            s2 == (SwitchSession::CheckingSourceDefault { source, target }) && a == SwitchAction::ListDevices
        } else {
            s2 is Finished && a == SwitchAction::Failed(AudioError::DeviceNotFound(target))
        },
        SwitchSession::CheckingSourceDefault { source, target } => match first_where(ds, has_id(source@)) {
            None => s2 is Finished && a == SwitchAction::Failed(AudioError::DeviceNotFound(source)),
            Some(i) => if ds[i].is_default {
                s2 == (SwitchSession::Validating { target }) && a == SwitchAction::ListDevices
            } else {
                s2 is Finished && (a matches SwitchAction::Failed(AudioError::CommandFailed(m))
                    && m@ == "Device "@ + source@ + " is not currently the default"@)
            },
        },
        SwitchSession::Resolving { query } => match first_where(ds, name_matches(query@)) {
            None => s2 is Finished && a == SwitchAction::Failed(AudioError::DeviceNotFound(query)),
            Some(i) => s2 == (SwitchSession::Validating { target: ds[i].id }) && a == SwitchAction::ListDevices,
        },
        SwitchSession::Validating { target } => if contains_id(ds, target@) {
            s2 == (SwitchSession::Snapshotting { target }) && a == SwitchAction::ListDevices
        } else {
            s2 is Finished && a == SwitchAction::Failed(AudioError::DeviceNotFound(target))
        },
        SwitchSession::Snapshotting { target } => (s2 matches SwitchSession::Switching { target: t2, previous }
            && t2 == target
            && opt_str_view(previous.playback) == default_id(ds, DeviceType::Playback)
            && opt_str_view(previous.recording) == default_id(ds, DeviceType::Recording))
            && a == SwitchAction::SetDefault(target),
        _ => false,
    }
}

/// One step of a session: from `s`, on event `e`, to `s2` with action `a`.
/// A failed catalog read ends the session with its error.
pub open spec fn transition(s: SwitchSession, e: SwitchEvent, s2: SwitchSession, a: SwitchAction) -> bool {
    match e {
        SwitchEvent::Devices(Err(err)) => s2 is Finished && a == SwitchAction::Failed(err),
        SwitchEvent::Devices(Ok(ds)) => on_devices(s, ds@, s2, a),
        SwitchEvent::Command(r) => (s2, a) == on_command(s, r),
    }
}

fn default_id_of(ds: &Vec<AudioDevice>, t: DeviceType) -> (r: Option<String>)
    ensures
        opt_str_view(r) == default_id(ds@, t),
{
    match find_default(ds, t) {
        Some(i) => Some(ds[i].id.clone()),
        None => None,
    }
}

fn exec_restore_recording(failure: AudioError, recording: Option<String>) -> (r: (SwitchSession, SwitchAction))
    ensures
        r == restore_recording(failure, recording),
{
    match recording {
        Some(q) => (SwitchSession::RestoringRecording { failure }, SwitchAction::SetDefault(q)),
        None => (SwitchSession::Finished, SwitchAction::Failed(failure)),
    }
}

impl SwitchSession {
    /// A switch of the default to `device_id`; its first request is a catalog read.
    pub fn set_default(device_id: &str) -> (r: Self)
        ensures
            r matches SwitchSession::Validating { target } && target@ == device_id@,
    {
        SwitchSession::Validating { target: String::from_str(device_id) }
    }

    /// A change of output from `from_id`, which must be a current default, to
    /// `to_id`; its first request is a catalog read.
    pub fn change_output(from_id: &str, to_id: &str) -> (r: Self)
        ensures
            r matches SwitchSession::CheckingSource { source, target } && source@ == from_id@ && target@ == to_id@,
    {
        SwitchSession::CheckingSource { source: String::from_str(from_id), target: String::from_str(to_id) }
    }

    /// A switch to the first device whose name contains `name`, ignoring
    /// case; its first request is a catalog read.
    pub fn quick_switch(name: &str) -> (r: Self)
        ensures
            r matches SwitchSession::Resolving { query } && query@ == name@,
    {
        SwitchSession::Resolving { query: String::from_str(name) }
    }

    /// Whether the session can take the event.
    pub fn accepts(&self, e: &SwitchEvent) -> (r: bool)
        ensures
            r == accepts(*self, *e),
    {
        match e {
            SwitchEvent::Devices(_) => match self {
                SwitchSession::CheckingSource { .. } | SwitchSession::CheckingTarget { .. }
                | SwitchSession::CheckingSourceDefault { .. } | SwitchSession::Resolving { .. }
                | SwitchSession::Validating { .. } | SwitchSession::Snapshotting { .. } => true,
                _ => false,
            },
            SwitchEvent::Command(_) => match self {
                SwitchSession::Switching { .. } | SwitchSession::RestoringPlayback { .. }
                | SwitchSession::RestoringRecording { .. } => true,
                _ => false,
            },
        }
    }

    /// Takes the answer to the session's last request. The catalog is
    /// invalidated exactly when the switch succeeds, and left as it is otherwise.
    pub fn step(self, e: SwitchEvent, cache: &mut AudioManagerState) -> (r: (SwitchSession, SwitchAction))
        requires
            accepts(self, e),
        ensures
            transition(self, e, r.0, r.1),
            r.1 is Succeeded ==> final(cache).catalog() == Map::<Seq<char>, DeviceRecord>::empty()
                && final(cache).last_refresh() is None && final(cache).ttl() == old(cache).ttl(),
            !(r.1 is Succeeded) ==> *final(cache) == *old(cache),
    {
        match e {
            SwitchEvent::Devices(Err(err)) => (SwitchSession::Finished, SwitchAction::Failed(err)),
            SwitchEvent::Devices(Ok(ds)) => self.on_catalog(&ds),
            SwitchEvent::Command(res) => match self {
                SwitchSession::Switching { target, previous } => match res {
                    Ok(_) => {
                        cache.invalidate();
                        (SwitchSession::Finished, SwitchAction::Succeeded)
                    },
                    Err(err) => match previous.playback {
                        Some(p) => (
                            SwitchSession::RestoringPlayback { failure: err, recording: previous.recording },
                            SwitchAction::SetDefault(p),
                        ),
                        None => exec_restore_recording(err, previous.recording),
                    },
                },
                SwitchSession::RestoringPlayback { failure, recording } => exec_restore_recording(failure, recording),
                SwitchSession::RestoringRecording { failure } => (SwitchSession::Finished, SwitchAction::Failed(failure)),
                _ => (self, SwitchAction::ListDevices),
            },
        }
    }

    fn on_catalog(self, ds: &Vec<AudioDevice>) -> (r: (SwitchSession, SwitchAction))
        requires
            awaits_devices(self),
        ensures
            on_devices(self, ds@, r.0, r.1),
    {
        match self {
            SwitchSession::CheckingSource { source, target } => {
                if find_by_id(ds, &source).is_some() {
                    (SwitchSession::CheckingTarget { source, target }, SwitchAction::ListDevices)
                } else {
                    (SwitchSession::Finished, SwitchAction::Failed(AudioError::DeviceNotFound(source)))
                }
            },
            SwitchSession::CheckingTarget { source, target } => {
                if find_by_id(ds, &target).is_some() {
                    (SwitchSession::CheckingSourceDefault { source, target }, SwitchAction::ListDevices)
                } else {
                    (SwitchSession::Finished, SwitchAction::Failed(AudioError::DeviceNotFound(target)))
                }
            },
            SwitchSession::CheckingSourceDefault { source, target } => match find_by_id(ds, &source) {
                None => (SwitchSession::Finished, SwitchAction::Failed(AudioError::DeviceNotFound(source))),
                Some(i) => {
                    if ds[i].is_default {
                        (SwitchSession::Validating { target }, SwitchAction::ListDevices)
                    } else {
                        let m = String::from_str("Device ").concat(source.as_str()).concat(" is not currently the default");
                        (SwitchSession::Finished, SwitchAction::Failed(AudioError::CommandFailed(m)))
                    }
                },
            },
            SwitchSession::Resolving { query } => match find_by_name(ds, &query) {
                None => (SwitchSession::Finished, SwitchAction::Failed(AudioError::DeviceNotFound(query))),
                Some(i) => (SwitchSession::Validating { target: ds[i].id.clone() }, SwitchAction::ListDevices),
            },
            SwitchSession::Validating { target } => {
                if find_by_id(ds, &target).is_some() {
                    (SwitchSession::Snapshotting { target }, SwitchAction::ListDevices)
                } else {
                    (SwitchSession::Finished, SwitchAction::Failed(AudioError::DeviceNotFound(target)))
                }
            },
            SwitchSession::Snapshotting { target } => {
                let previous = PreviousDefaults {
                    playback: default_id_of(ds, DeviceType::Playback),
                    recording: default_id_of(ds, DeviceType::Recording),
                };
                let action = SwitchAction::SetDefault(target.clone());
                (SwitchSession::Switching { target, previous }, action)
            },
            _ => (self, SwitchAction::ListDevices),
        }
    }
}

/// A switch whose set-default command fails reports that command's error,
/// whatever the fallback commands come to. The fallback runs the set-default
/// command once for each captured previous default, playback first, and not
/// at all where neither was captured.
pub proof fn lemma_failed_switch_reports_its_error(
    target: String,
    previous: PreviousDefaults,
    e: AudioError,
    r1: Result<String, AudioError>,
    r2: Result<String, AudioError>,
)
    ensures
        ({
            let (s1, a1) = on_command(SwitchSession::Switching { target, previous }, Err(e));
            let (s2, a2) = on_command(s1, r1);
            let (s3, a3) = on_command(s2, r2);
            match (previous.playback, previous.recording) {
                (None, None) => s1 is Finished && a1 == SwitchAction::Failed(e),
                (Some(p), None) => a1 == SwitchAction::SetDefault(p) && s2 is Finished
                    && a2 == SwitchAction::Failed(e),
                (None, Some(q)) => a1 == SwitchAction::SetDefault(q) && s2 is Finished
                    && a2 == SwitchAction::Failed(e),
                (Some(p), Some(q)) => a1 == SwitchAction::SetDefault(p) && a2 == SwitchAction::SetDefault(q)
                    && s3 is Finished && a3 == SwitchAction::Failed(e),
            }
        }),
{
}

/// Switching to an id that the catalog lacks ends at validation with
/// `DeviceNotFound` for that id: no set-default command is issued, and the
/// finished session takes no further event.
pub proof fn lemma_unknown_device_rejected(
    device_id: String,
    ds: Vec<AudioDevice>,
    s2: SwitchSession,
    a: SwitchAction,
    next: SwitchEvent,
)
    requires
        !contains_id(ds@, device_id@),
        transition(SwitchSession::Validating { target: device_id }, SwitchEvent::Devices(Ok(ds)), s2, a),
    ensures
        s2 is Finished,
        a == SwitchAction::Failed(AudioError::DeviceNotFound(device_id)),
        !accepts(s2, next),
{
}

/// Switching to the device that already is the default is not cut short: it
/// validates, captures the defaults, runs the set-default command for that
/// device and, when the command succeeds, ends in success, which invalidates
/// the catalog.
pub proof fn lemma_switch_to_current_default(
    device_id: String,
    ds: Vec<AudioDevice>,
    i: int,
    output: String,
    s1: SwitchSession,
    a1: SwitchAction,
    s2: SwitchSession,
    a2: SwitchAction,
)
    requires
        0 <= i < ds@.len(),
        ds@[i].id@ == device_id@,
        ds@[i].is_default,
        transition(SwitchSession::Validating { target: device_id }, SwitchEvent::Devices(Ok(ds)), s1, a1),
        transition(s1, SwitchEvent::Devices(Ok(ds)), s2, a2),
    ensures
        a1 == SwitchAction::ListDevices,
        a2 == SwitchAction::SetDefault(device_id),
        s2 is Switching,
        on_command(s2, Ok(output)) == (SwitchSession::Finished, SwitchAction::Succeeded),
{
    lemma_first_where_exists(ds@, has_id(device_id@), i);
}

} // verus!
