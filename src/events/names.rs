//! Names of the events broadcast between windows.
use vstd::prelude::*;

verus! {

pub const RECORDING_START: &'static str = "recording-start";

pub const RECORDING_STOP: &'static str = "recording-stop";

pub const PREPARE_RECORDING: &'static str = "prepare-recording";

pub const CONFIG_RESPONSE: &'static str = "config-response";

pub const REQUEST_DISCONNECT: &'static str = "request-disconnect";

pub const SETTINGS_CHANGED: &'static str = "settings-changed";

pub const RECONNECT_REQUEST: &'static str = "request-reconnect";

pub const CONNECTION_STATE: &'static str = "connection-state-changed";

pub const RECONNECT_STARTED: &'static str = "reconnect-started";

pub const RECONNECT_RESULT: &'static str = "reconnect-result";

pub const HISTORY_CHANGED: &'static str = "history-changed";

} // verus!
