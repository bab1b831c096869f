use chronoward::crypto::{CryptoError, KeySetup, KeychainStatus};
use chronoward::state::{
    default_focus_times, default_theme, default_warning_time, guard_write, AppState,
    WriteBlockedError,
};

fn make_state(keychain: KeychainStatus) -> AppState {
    AppState::new("/tmp/chronoward-test".to_string(), keychain)
}

#[test]
fn test_is_read_only_when_emergency_mode_set() {
    let mut state = make_state(KeychainStatus::Unavailable("test".to_string()));
    assert!(!state.is_read_only()); // not yet set
    state.set_emergency_mode("Keychain unavailable".to_string(), true);
    assert!(state.is_read_only());
}

#[test]
fn test_keychain_available_reflects_status() {
    let avail = make_state(KeychainStatus::Available);
    assert!(avail.keychain_available());

    let unavail = make_state(KeychainStatus::Unavailable("locked".to_string()));
    assert!(!unavail.keychain_available());
}

#[test]
fn test_path_helpers_are_correct() {
    let state = make_state(KeychainStatus::Available);
    assert_eq!(state.sheets_path(), "/tmp/chronoward-test/sheets.json".to_string());
    assert!(state.quarantine_path("sheets.json").contains("sheets.json.corrupt."));
}

#[test]
fn path_helpers() {
    let state = make_state(KeychainStatus::Available);
    assert_eq!(state.settings_path(), "/tmp/chronoward-test/settings.json");
    assert_eq!(state.timers_path(), "/tmp/chronoward-test/timers.json");
    assert_eq!(
        state.quarantine_path_at("sheets.json", 1705123456),
        "/tmp/chronoward-test/sheets.json.corrupt.1705123456"
    );
    assert_eq!(
        state.quarantine_path_at("timers.json", -5),
        "/tmp/chronoward-test/timers.json.corrupt.-5"
    );
    let slash = AppState::new("/data/".to_string(), KeychainStatus::Available);
    assert_eq!(slash.sheets_path(), "/data/sheets.json");
}

#[test]
fn write_blocked_error_fields() {
    let err = WriteBlockedError::new("keychain locked");
    assert_eq!(err.code, "WRITE_BLOCKED_EMERGENCY_MODE");
    assert_eq!(
        err.message,
        "ChronoWard is in read-only emergency mode and cannot save data. Reason: keychain locked. Please contact your IT administrator."
    );
}

#[test]
fn writes_are_guarded_in_emergency_mode() {
    let mut state = make_state(KeychainStatus::Available);
    assert!(guard_write(&state).is_ok());
    state.set_emergency_mode("locked".to_string(), false);
    let err = guard_write(&state).unwrap_err();
    assert!(err.message.contains("Reason: locked."));
}

#[test]
fn startup_enters_emergency_only_when_encrypted_data_is_locked() {
    let denied = || Err(CryptoError::KeychainAccess("no keychain".to_string()));
    let s = AppState::at_startup("/d".to_string(), denied(), true);
    let info = s.emergency_mode.clone().unwrap();
    assert_eq!(info.reason, "Keychain access error: no keychain");
    assert!(info.encrypted_data_exists);
    assert!(s.is_read_only());
    assert!(s.key.is_none());

    // No encrypted data: the app starts normally, keychain down.
    let s = AppState::at_startup("/d".to_string(), denied(), false);
    assert!(!s.is_read_only());
    assert!(!s.keychain_available());

    let s = AppState::at_startup(
        "/d".to_string(),
        Ok(KeySetup { key: vec![1u8; 32], read: None, written: None }),
        true,
    );
    assert!(!s.is_read_only());
    assert!(s.keychain_available());
    assert_eq!(s.key, Some(vec![1u8; 32]));
    assert!(!s.is_new_key);
}

#[test]
fn path_helpers_add_a_separator_only_where_needed() {
    let drive = AppState::new("C:".to_string(), KeychainStatus::Available);
    assert!(drive.sheets_path().ends_with("sheets.json"));
    let bare = AppState::new("data".to_string(), KeychainStatus::Available);
    assert_eq!(bare.timers_path(), "data/timers.json");
}

#[test]
fn default_settings_values() {
    assert_eq!(default_theme(), "midnight");
    assert_eq!(default_focus_times(), vec!["11:00", "14:00", "16:00"]);
    assert_eq!(default_warning_time(), "16:30");
}
