use vstd::prelude::*;

verus! {

/// Which phase of shortcut-driven recording the application is in.
#[derive(Debug, Clone, Copy, PartialEq, Eq, Structural, Default)]
pub enum ShortcutState {
    #[default]
    Idle,
    PreparingToRecordViaToggle,
    RecordingViaToggle,
    RecordingViaHold,
    WaitingForPasteKeyRelease,
}

/// The registration error of each global shortcut, if it failed.
#[derive(Debug, Clone, Default)]
pub struct ShortcutErrors {
    pub toggle_error: Option<String>,
    pub hold_error: Option<String>,
    pub paste_last_error: Option<String>,
}

impl ShortcutErrors {
    /// True when at least one shortcut failed to register.
    pub fn has_any_error(&self) -> (r: bool)
        ensures
            r == (self.toggle_error is Some || self.hold_error is Some
                || self.paste_last_error is Some),
    {
        self.toggle_error.is_some() || self.hold_error.is_some() || self.paste_last_error.is_some()
    }
}

/// Which global shortcuts were registered, and why the others were not.
#[derive(Debug, Clone)]
pub struct ShortcutRegistrationResult {
    pub toggle_registered: bool,
    pub hold_registered: bool,
    pub paste_last_registered: bool,
    pub errors: ShortcutErrors,
}

#[verifier::external_type_specification]
#[verifier::external_body]
#[verifier::reject_recursive_types(T)]
pub struct ExMutex<T: ?Sized>(std::sync::Mutex<T>);

#[verifier::external_type_specification]
#[verifier::external_body]
#[verifier::reject_recursive_types(T)]
pub struct ExRwLock<T: ?Sized>(std::sync::RwLock<T>);

/// State shared across the application's commands.
#[derive(Default)]
pub struct AppState {
    pub shortcut_state: std::sync::Mutex<ShortcutState>,
    pub shortcut_errors: std::sync::RwLock<ShortcutErrors>,
}

} // verus!
