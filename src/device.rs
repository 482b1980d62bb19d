use vstd::prelude::*;

verus! {

/// Direction of an audio endpoint.
#[derive(Debug, Clone, Copy, PartialEq, Eq, Structural)]
pub enum DeviceType {
    Playback,
    Recording,
}

/// Availability of an audio endpoint as the external tool reports it.
#[derive(Debug, Clone, Copy, PartialEq, Eq, Structural)]
pub enum DeviceState {
    Active,
    Disabled,
    NotPresent,
    Unplugged,
    Unknown,
}

/// One audio endpoint, as observed by a single listing.
#[derive(Debug, PartialEq, Eq)]
pub struct AudioDevice {
    pub id: String,
    pub name: String,
    pub device_type: DeviceType,
    pub state: DeviceState,
    pub is_default: bool,
    pub is_communication_default: bool,
    /// When the endpoint was observed, as an ISO timestamp.
    pub last_seen: Option<String>,
}

/// The mathematical content of an `AudioDevice`.
pub ghost struct DeviceRecord {
    pub id: Seq<char>,
    pub name: Seq<char>,
    pub device_type: DeviceType,
    pub state: DeviceState,
    pub is_default: bool,
    pub is_communication_default: bool,
    pub last_seen: Option<Seq<char>>,
}

pub open spec fn opt_str_view(o: Option<String>) -> Option<Seq<char>> {
    match o {
        Some(s) => Some(s@),
        None => None,
    }
}

impl View for AudioDevice {
    type V = DeviceRecord;

    open spec fn view(&self) -> DeviceRecord {
        DeviceRecord {
            id: self.id@,
            name: self.name@,
            device_type: self.device_type,
            state: self.state,
            is_default: self.is_default,
            is_communication_default: self.is_communication_default,
            last_seen: opt_str_view(self.last_seen),
        }
    }
}

/// The records of a sequence of devices, in order.
pub open spec fn records_of(ds: Seq<AudioDevice>) -> Seq<DeviceRecord> {
    ds.map_values(|d: AudioDevice| d@)
}

pub fn clone_opt_string(o: &Option<String>) -> (r: Option<String>)
    ensures
        r == *o,
{
    match o {
        Some(s) => Some(s.clone()),
        None => None,
    }
}

impl Clone for AudioDevice {
    fn clone(&self) -> (r: Self)
        ensures
            r == *self,
    {
        AudioDevice {
            id: self.id.clone(),
            name: self.name.clone(),
            device_type: self.device_type,
            state: self.state,
            is_default: self.is_default,
            is_communication_default: self.is_communication_default,
            last_seen: clone_opt_string(&self.last_seen),
        }
    }
}

/// Copies a list of devices, element for element.
pub fn clone_devices(ds: &Vec<AudioDevice>) -> (r: Vec<AudioDevice>)
    ensures
        r@ == ds@,
{
    let mut r: Vec<AudioDevice> = Vec::new();
    let mut i: usize = 0;
    while i < ds.len()
        invariant
            i <= ds@.len(),
            r@ == ds@.subrange(0, i as int),
        decreases ds@.len() - i,
    {
        r.push(ds[i].clone());
        i = i + 1;
    }
    assert(r@ =~= ds@);
    r
}

} // verus!
