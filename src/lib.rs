//! Enumeration of audio endpoints and switching of the default endpoint,
//! driven through an external command tool.
//!
//! The library holds the decisions: reading the tool's JSON answers, the
//! retry policy of the command port, the time-bounded device catalog and the
//! default-switch protocol with its fallback. Spawning processes, sleeping
//! and locking are left to the caller, who feeds the results back in.
pub mod error;
pub mod device;
pub mod json;
pub mod parse;
pub mod retry;
pub mod cache;
pub mod select;
pub mod switch;
pub mod manager;
pub mod scripts;

pub use error::AudioError;
pub use device::{AudioDevice, DeviceRecord, DeviceState, DeviceType};
pub use json::{JsonMember, JsonValue, parse_json};
pub use parse::{
    device_from_json, install_result_of, parse_bool_field, parse_device_list_response,
    parse_device_list_value, parse_install_response,
};
pub use retry::{CommandOutcome, CommandRetry, MAX_RETRY_ATTEMPTS, RETRY_BASE_DELAY_MS, RetryAction};
pub use cache::{AudioManagerState, DEFAULT_CACHE_TTL_MS};
pub use switch::{PreviousDefaults, SwitchAction, SwitchEvent, SwitchSession};
pub use manager::{
    AudioManager, CatalogRead, devices_from_listing, initialize_audio_manager, parse_device_type,
};
pub use scripts::{INSTALL_MODULE_SCRIPT, LIST_DEVICES_SCRIPT, MODULE_AVAILABILITY_SCRIPT, set_default_script};
