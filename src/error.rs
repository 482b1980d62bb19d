use vstd::prelude::*;

verus! {

/// Failures reported by every operation of the library.
#[derive(Debug, PartialEq, Eq)]
pub enum AudioError {
    DeviceNotFound(String),
    PermissionDenied(String),
    CommandFailed(String),
    ParseError(String),
    ExternalApiError(String),
    Unknown(String),
}

/// The text that `AudioError::message` renders.
pub open spec fn error_message(e: AudioError) -> Seq<char> {
    match e {
        AudioError::DeviceNotFound(d) => "Device not found: "@ + d@,
        AudioError::PermissionDenied(d) => "Permission denied: "@ + d@,
        AudioError::CommandFailed(d) => "Command execution failed: "@ + d@,
        AudioError::ParseError(d) => "Parsing error: "@ + d@,
        AudioError::ExternalApiError(d) => "External API error: "@ + d@,
        AudioError::Unknown(d) => "Unknown error: "@ + d@,
    }
}

impl Clone for AudioError {
    fn clone(&self) -> (r: Self)
        ensures
            r == *self,
    {
        match self {
            AudioError::DeviceNotFound(d) => AudioError::DeviceNotFound(d.clone()),
            AudioError::PermissionDenied(d) => AudioError::PermissionDenied(d.clone()),
            AudioError::CommandFailed(d) => AudioError::CommandFailed(d.clone()),
            AudioError::ParseError(d) => AudioError::ParseError(d.clone()),
            AudioError::ExternalApiError(d) => AudioError::ExternalApiError(d.clone()),
            AudioError::Unknown(d) => AudioError::Unknown(d.clone()),
        }
    }
}

impl AudioError {
    /// A human-readable description: the kind of failure, then its detail.
    pub fn message(&self) -> (r: String)
        ensures
            r@ == error_message(*self),
    {
        match self {
            AudioError::DeviceNotFound(d) => String::from_str("Device not found: ").concat(d.as_str()),
            AudioError::PermissionDenied(d) => String::from_str("Permission denied: ").concat(d.as_str()),
            AudioError::CommandFailed(d) => String::from_str("Command execution failed: ").concat(d.as_str()),
            AudioError::ParseError(d) => String::from_str("Parsing error: ").concat(d.as_str()),
            AudioError::ExternalApiError(d) => String::from_str("External API error: ").concat(d.as_str()),
            AudioError::Unknown(d) => String::from_str("Unknown error: ").concat(d.as_str()),
        }
    }

    /// The detail text carried by the error, whatever its kind.
    pub fn detail(&self) -> (r: &String)
        ensures
            r == error_detail(*self),
    {
        match self {
            AudioError::DeviceNotFound(d) => d,
            AudioError::PermissionDenied(d) => d,
            AudioError::CommandFailed(d) => d,
            AudioError::ParseError(d) => d,
            AudioError::ExternalApiError(d) => d,
            AudioError::Unknown(d) => d,
        }
    }
}

pub open spec fn error_detail(e: AudioError) -> String {
    match e {
        AudioError::DeviceNotFound(d) => d,
        AudioError::PermissionDenied(d) => d,
        AudioError::CommandFailed(d) => d,
        AudioError::ParseError(d) => d,
        AudioError::ExternalApiError(d) => d,
        AudioError::Unknown(d) => d,
    }
}

} // verus!
