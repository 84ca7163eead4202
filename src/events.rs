//! Event names and payloads shared with the application's windows.
use vstd::prelude::*;

pub mod config_settings;
pub mod names;

verus! {

/// The answer to a configuration change: the new value, or why it failed.
#[derive(Debug, Clone)]
pub enum ConfigResponse<T> {
    Updated { setting: String, value: T },
    Error { setting: String, error: String },
}

impl<T> ConfigResponse<T> {
    /// The response that `setting` now holds `value`.
    pub fn updated(setting: &str, value: T) -> (r: Self)
        ensures
            r matches ConfigResponse::Updated { setting: s, value: v } && s@ == setting@ && v
                == value,
    {
        ConfigResponse::Updated { setting: setting.to_owned(), value }
    }

    /// The response that changing `setting` failed with `error`.
    pub fn error(setting: &str, error: &str) -> (r: ConfigResponse<()>)
        ensures
            r matches ConfigResponse::Error { setting: s, error: e } && s@ == setting@ && e@
                == error@,
    {
        ConfigResponse::Error { setting: setting.to_owned(), error: error.to_owned() }
    }
}

/// The connection state that the overlay window reports.
#[derive(Debug, Clone)]
pub struct ConnectionStatePayload {
    pub state: String,
}

/// The outcome of a reconnection attempt.
#[derive(Debug, Clone)]
pub struct ReconnectResultPayload {
    pub success: bool,
    pub error: Option<String>,
}

} // verus!
