use active_window::events::ConfigResponse;
use active_window::state::{ShortcutErrors, ShortcutState};

#[test]
fn no_errors_means_none() {
    let e = ShortcutErrors::default();
    assert!(!e.has_any_error());
    assert_eq!(ShortcutState::default(), ShortcutState::Idle);
}

#[test]
fn any_single_error_counts() {
    let e = ShortcutErrors { toggle_error: None, hold_error: Some("taken".to_string()), paste_last_error: None };
    assert!(e.has_any_error());
    let e = ShortcutErrors { toggle_error: None, hold_error: None, paste_last_error: Some("x".to_string()) };
    assert!(e.has_any_error());
}

#[test]
fn config_responses() {
    match ConfigResponse::updated("stt-timeout", 3u32) {
        ConfigResponse::Updated { setting, value } => {
            assert_eq!(setting, "stt-timeout");
            assert_eq!(value, 3);
        }
        _ => panic!("expected an update"),
    }
    match ConfigResponse::<u32>::error("prompt-sections", "offline") {
        ConfigResponse::Error { setting, error } => {
            assert_eq!(setting, "prompt-sections");
            assert_eq!(error, "offline");
        }
        _ => panic!("expected an error"),
    }
}

use active_window::config_sync::{ConfigSyncState, PROMPTS_PATH, STT_TIMEOUT_PATH};

#[test]
fn config_sync_starts_disconnected() {
    let s = ConfigSyncState::new();
    assert!(!s.is_connected());
    assert!(s.sync_target(PROMPTS_PATH).is_none());
    assert!(!ConfigSyncState::default().is_connected());
}

#[test]
fn config_sync_target_after_connect() {
    let mut s = ConfigSyncState::new();
    s.set_connected("http://host:8000".to_string(), "uuid-1".to_string());
    assert!(s.is_connected());
    let t = s.sync_target(STT_TIMEOUT_PATH).unwrap();
    assert_eq!(t.url, "http://host:8000/api/config/stt-timeout");
    assert_eq!(t.client_uuid, "uuid-1");
    s.set_disconnected();
    assert!(!s.is_connected());
    assert!(s.sync_target(PROMPTS_PATH).is_none());
}
