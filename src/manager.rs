use vstd::prelude::*;
use crate::cache::{AudioManagerState, DEFAULT_CACHE_TTL_MS, catalog_of, unique_ids};
use crate::device::{AudioDevice, DeviceRecord, DeviceType, records_of};
use crate::error::AudioError;
use crate::json::json_of_text;
use crate::parse::{device_list_result, install_result, parse_bool_field, parse_device_list_response, parse_install_response};
use crate::json::bool_member;
use crate::select::find_by_id;
use crate::switch::{SwitchAction, SwitchEvent, SwitchSession, accepts, contains_id, transition};

verus! {

/// The answer to a catalog read.
#[derive(Debug)]
pub enum CatalogRead {
    /// The snapshot is valid: its devices, each once, in no promised order.
    Cached(Vec<AudioDevice>),
    /// The snapshot is stale: run the listing command once, then hand its
    /// result to `complete_device_fetch`.
    Fetch,
}

/// Relies on uuid::Uuid::new_v4 and the hyphenated text form of a UUID: a
/// fresh random identifier of 36 characters.
#[verifier::external_body]
fn new_session_id() -> (r: String)
    ensures
        r@.len() == 36,
{
    uuid::Uuid::new_v4().to_string()
}

/// What the listing command's result yields: its failure, or the devices
/// read from its output.
pub open spec fn listing_result(output: Result<String, AudioError>, r: Result<Vec<AudioDevice>, AudioError>) -> bool {
    match output {
        Err(e) => r == Err::<Vec<AudioDevice>, AudioError>(e),
        Ok(text) => match json_of_text(text@) {
            None => r matches Err(AudioError::ParseError(_)),
            Some(v) => device_list_result(v, r),
        },
    }
}

/// Reads the devices out of the listing command's result.
pub fn devices_from_listing(output: Result<String, AudioError>) -> (r: Result<Vec<AudioDevice>, AudioError>)
    ensures
        listing_result(output, r),
{
    match output {
        Err(e) => Err(e),
        Ok(text) => parse_device_list_response(text.as_str()),
    }
}

/// Reads a direction as the dispatch layer spells it: `"Playback"` or
/// `"Recording"`; anything else is a `ParseError`.
pub fn parse_device_type(s: &str) -> (r: Result<DeviceType, AudioError>)
    ensures
        s@ == "Playback"@ ==> r == Ok::<DeviceType, AudioError>(DeviceType::Playback),
        s@ == "Recording"@ ==> r == Ok::<DeviceType, AudioError>(DeviceType::Recording),
        s@ != "Playback"@ && s@ != "Recording"@ ==> (r matches Err(AudioError::ParseError(m))
            && m@ == "Invalid device type"@),
{
    proof {
        reveal_strlit("Playback");
        reveal_strlit("Recording");
        assert("Playback"@.len() != "Recording"@.len());
    }
    let t = String::from_str(s);
    if t == String::from_str("Playback") {
        Ok(DeviceType::Playback)
    } else if t == String::from_str("Recording") {
        Ok(DeviceType::Recording)
    } else {
        Err(AudioError::ParseError(String::from_str("Invalid device type")))
    }
}

/// The device-management orchestrator: the device catalog and the session
/// identifier that tags its work.
pub struct AudioManager {
    state: AudioManagerState,
    session_id: String,
}

impl AudioManager {
    pub closed spec fn cache(&self) -> AudioManagerState {
        self.state
    }

    pub closed spec fn session(&self) -> Seq<char> {
        self.session_id@
    }

    /// A manager with an empty, stale catalog of the default time-to-live
    /// and a fresh session identifier.
    pub fn new() -> (r: Result<AudioManager, AudioError>)
        ensures
            r matches Ok(m)
                && m.cache().catalog() == Map::<Seq<char>, DeviceRecord>::empty()
                && m.cache().last_refresh() is None
                && m.cache().ttl() == DEFAULT_CACHE_TTL_MS
                && m.session().len() == 36,
    {
        let session_id = new_session_id();
        Ok(AudioManager { state: AudioManagerState::default(), session_id })
    }

    /// The device catalog.
    pub fn state(&self) -> (r: &AudioManagerState)
        ensures
            *r == self.cache(),
    {
        &self.state
    }

    /// The session identifier, for correlating log lines.
    pub fn get_session_id(&self) -> (r: &str)
        ensures
            r@ == self.session(),
    {
        self.session_id.as_str()
    }

    /// Starts a catalog read at time `now`: served from the snapshot while it
    /// is valid, else a single fetch is asked for.
    pub fn get_audio_devices(&self, now: u64) -> (r: CatalogRead)
        ensures
            r is Cached <==> self.cache().fresh(now),
            r matches CatalogRead::Cached(ds) ==> unique_ids(records_of(ds@))
                && catalog_of(records_of(ds@)) == self.cache().catalog(),
    {
        if self.state.is_fresh(now) {
            CatalogRead::Cached(self.state.cached_devices())
        } else {
            CatalogRead::Fetch
        }
    }

    /// The same read as `get_audio_devices`.
    pub fn get_devices(&self, now: u64) -> (r: CatalogRead)
        ensures
            r is Cached <==> self.cache().fresh(now),
            r matches CatalogRead::Cached(ds) ==> unique_ids(records_of(ds@))
                && catalog_of(records_of(ds@)) == self.cache().catalog(),
    {
        self.get_audio_devices(now)
    }

    /// Ends a catalog read that fetched, which started at `started`: a
    /// listing replaces the snapshot, stamped `started`, and is returned as
    /// fetched; a failure is returned and leaves the catalog as it was.
    pub fn complete_device_fetch(&mut self, fetched: Result<Vec<AudioDevice>, AudioError>, started: u64) -> (r: Result<Vec<AudioDevice>, AudioError>)
        ensures
            r == fetched,
            final(self).session() == old(self).session(),
            fetched matches Ok(ds) ==> final(self).cache().catalog() == catalog_of(records_of(ds@))
                && final(self).cache().last_refresh() == Some(started)
                && final(self).cache().ttl() == old(self).cache().ttl(),
            fetched is Err ==> final(self).cache() == old(self).cache(),
    {
        if let Ok(ds) = &fetched {
            self.state.refresh(ds, started);
        }
        fetched
    }

    /// Empties the catalog and marks it stale, so that the next read fetches.
    pub fn invalidate_cache(&mut self)
        ensures
            final(self).session() == old(self).session(),
            final(self).cache().catalog() == Map::<Seq<char>, DeviceRecord>::empty(),
            final(self).cache().last_refresh() is None,
            final(self).cache().ttl() == old(self).cache().ttl(),
    {
        self.state.invalidate();
    }

    /// Checks that `device_id` is in the catalog `devices`.
    pub fn validate_device_id(&self, devices: &Vec<AudioDevice>, device_id: &str) -> (r: Result<bool, AudioError>)
        ensures
            contains_id(devices@, device_id@) ==> r == Ok::<bool, AudioError>(true),
            !contains_id(devices@, device_id@) ==> (r matches Err(AudioError::DeviceNotFound(d)) && d@ == device_id@),
    {
        let id = String::from_str(device_id);
        if find_by_id(devices, &id).is_some() {
            Ok(true)
        } else {
            Err(AudioError::DeviceNotFound(id))
        }
    }

    /// Judges the module-availability command's result: its failure, or
    /// whether its answer has `available` set to `true`.
    pub fn check_module_availability(&self, output: Result<String, AudioError>) -> (r: Result<bool, AudioError>)
        ensures
            output matches Err(e) ==> r == Err::<bool, AudioError>(e),
            output matches Ok(text) ==> match json_of_text(text@) {
                None => r matches Err(AudioError::ParseError(_)),
                Some(v) => r == Ok::<bool, AudioError>(bool_member(v, "available"@) == Some(true)),
            },
    {
        match output {
            Err(e) => Err(e),
            Ok(text) => parse_bool_field(text.as_str(), "available"),
        }
    }

    /// Judges the module-installation command's result.
    pub fn install_module(&self, output: Result<String, AudioError>) -> (r: Result<(), AudioError>)
        ensures
            output matches Err(e) ==> r == Err::<(), AudioError>(e),
            output matches Ok(text) ==> match json_of_text(text@) {
                None => r matches Err(AudioError::ParseError(_)),
                Some(v) => install_result(v, r),
            },
    {
        match output {
            Err(e) => Err(e),
            Ok(text) => parse_install_response(text.as_str()),
        }
    }

    /// Starts a switch of the default device to `device_id`.
    pub fn set_default_audio_device(&self, device_id: &str) -> (r: SwitchSession)
        ensures
            r matches SwitchSession::Validating { target } && target@ == device_id@,
    {
        SwitchSession::set_default(device_id)
    }

    /// Starts a switch of the default device to `device_id`; the direction
    /// follows from the device itself.
    pub fn set_default_device(&self, device_id: &str, device_type: &DeviceType) -> (r: SwitchSession)
        ensures
            r matches SwitchSession::Validating { target } && target@ == device_id@,
    {
        self.set_default_audio_device(device_id)
    }

    /// Starts a change of output from `from_device_id`, which must be a
    /// current default, to `to_device_id`.
    pub fn change_audio_output(&self, from_device_id: &str, to_device_id: &str) -> (r: SwitchSession)
        ensures
            r matches SwitchSession::CheckingSource { source, target } && source@ == from_device_id@
                && target@ == to_device_id@,
    {
        SwitchSession::change_output(from_device_id, to_device_id)
    }

    /// Starts a switch to the first device whose name contains `device_name`,
    /// ignoring case.
    pub fn quick_switch_to_device(&self, device_name: &str) -> (r: SwitchSession)
        ensures
            r matches SwitchSession::Resolving { query } && query@ == device_name@,
    {
        SwitchSession::quick_switch(device_name)
    }

    /// Advances a switch session with the answer to its last request; a
    /// successful switch invalidates the catalog.
    pub fn advance_switch(&mut self, session: SwitchSession, event: SwitchEvent) -> (r: (SwitchSession, SwitchAction))
        requires
            accepts(session, event),
        ensures
            transition(session, event, r.0, r.1),
            final(self).session() == old(self).session(),
            r.1 is Succeeded ==> final(self).cache().catalog() == Map::<Seq<char>, DeviceRecord>::empty()
                && final(self).cache().last_refresh() is None
                && final(self).cache().ttl() == old(self).cache().ttl(),
            !(r.1 is Succeeded) ==> final(self).cache() == old(self).cache(),
    {
        session.step(event, &mut self.state)
    }
}

/// Sets up the orchestrator: a manager with an empty catalog and a fresh
/// session identifier.
pub fn initialize_audio_manager() -> (r: Result<AudioManager, AudioError>)
    ensures
        r matches Ok(m)
            && m.cache().catalog() == Map::<Seq<char>, DeviceRecord>::empty()
            && m.cache().last_refresh() is None
            && m.cache().ttl() == DEFAULT_CACHE_TTL_MS
            && m.session().len() == 36,
{
    AudioManager::new()
}

} // verus!
