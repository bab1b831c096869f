use chronoward::crypto::{
    encrypt_with_key, seal, CryptoError, DecryptResult, KeySetup, KeychainStatus,
};
use chronoward::state::AppState;
use chronoward::storage::{
    content_for_disk, data_file_names, is_encrypted_content, is_stale_temp, load_settings_outcome,
    load_sheets_outcome, load_timers_outcome, refuses_plaintext, settings_after_decrypt,
    sheets_after_decrypt, temp_file_name, timers_after_decrypt, SaveRefusal, SettingsLoad,
    SheetsLoad, TimersLoad, STALE_TEMP_SECS,
};

fn test_key() -> Vec<u8> {
    (0..32).collect()
}

fn state(keychain: bool) -> AppState {
    if keychain {
        fresh_install()
    } else {
        AppState::new("/tmp/x".to_string(), KeychainStatus::Unavailable("locked".to_string()))
    }
}

/// The keychain key was created on this run.
fn fresh_install() -> AppState {
    let mut s = established();
    s.is_new_key = true;
    s
}

/// The keychain already held a key.
fn established() -> AppState {
    AppState::at_startup("/tmp/x".to_string(), Ok(KeySetup { key: test_key(), read: None, written: None }), false)
}

const DOWNGRADE: &str =
    "Plaintext data was refused: an encryption key already exists in the OS keychain.";

#[test]
fn encrypted_content_is_detected_after_leading_space() {
    assert!(is_encrypted_content("enc1:00"));
    assert!(is_encrypted_content(" \n\tenc1:00"));
    assert!(is_encrypted_content("\u{3000}enc1:"));
    assert!(!is_encrypted_content("{\"enc1:\": 1}"));
    assert!(!is_encrypted_content("enc2:00"));
    assert_eq!(data_file_names(), vec!["sheets.json", "timers.json", "settings.json"]);
}

#[test]
fn sheets_in_emergency_mode() {
    let mut s = state(false);
    s.set_emergency_mode("locked".to_string(), true);
    match load_sheets_outcome(&s, Some("{}".to_string())) {
        SheetsLoad::Emergency { reason, encrypted_data_exists } => {
            assert_eq!(reason, "locked");
            assert!(encrypted_data_exists);
        }
        other => panic!("unexpected {:?}", other),
    }
}

#[test]
fn sheets_plain_missing_corrupt_and_locked() {
    let s = state(true);
    assert!(matches!(load_sheets_outcome(&s, None), SheetsLoad::Missing));
    match load_sheets_outcome(&s, Some("{\"a\": []}".to_string())) {
        SheetsLoad::Loaded { text, mark_legacy } => {
            assert_eq!(text, "{\"a\": []}");
            assert!(mark_legacy);
        }
        other => panic!("unexpected {:?}", other),
    }
    assert!(matches!(
        load_sheets_outcome(&s, Some("{not json".to_string())),
        SheetsLoad::Corrupt { mark_legacy: true }
    ));
    match load_sheets_outcome(&state(false), Some("  enc1:00".to_string())) {
        SheetsLoad::Emergency { reason, encrypted_data_exists } => {
            assert_eq!(reason, "Sheets are encrypted but the OS keychain is unavailable.");
            assert!(encrypted_data_exists);
        }
        other => panic!("unexpected {:?}", other),
    }
}

#[test]
fn sheets_after_decryption() {
    match sheets_after_decrypt(Ok(DecryptResult::Decrypted("[1]".to_string()))) {
        SheetsLoad::Loaded { text, mark_legacy } => {
            assert_eq!(text, "[1]");
            assert!(!mark_legacy);
        }
        other => panic!("unexpected {:?}", other),
    }
    match sheets_after_decrypt(Err(CryptoError::DecryptionFailed)) {
        SheetsLoad::DecryptFailed { reason } => assert!(reason.starts_with("Decryption failed")),
        other => panic!("unexpected {:?}", other),
    }
    assert!(matches!(
        sheets_after_decrypt(Ok(DecryptResult::Decrypted("oops".to_string()))),
        SheetsLoad::Corrupt { mark_legacy: false }
    ));
}

#[test]
fn timers_outcomes() {
    let s = state(true);
    assert!(matches!(load_timers_outcome(&s, None), TimersLoad::Empty));
    assert!(matches!(load_timers_outcome(&state(false), Some("enc1:aa".to_string())), TimersLoad::Empty));
    assert!(matches!(load_timers_outcome(&s, Some("garbage".to_string())), TimersLoad::Empty));
    match load_timers_outcome(&s, Some("{\"t\": 1}".to_string())) {
        TimersLoad::Data { text, mark_legacy } => {
            assert_eq!(text, "{\"t\": 1}");
            assert!(mark_legacy);
        }
        other => panic!("unexpected {:?}", other),
    }
    match timers_after_decrypt(Err(CryptoError::NotUtf8)) {
        TimersLoad::Failed(m) => {
            assert_eq!(m, "Failed to decrypt timers.json: Decrypted bytes are not valid UTF-8")
        }
        other => panic!("unexpected {:?}", other),
    }
    let mut ro = state(true);
    ro.set_emergency_mode("x".to_string(), false);
    assert!(matches!(load_timers_outcome(&ro, Some("{}".to_string())), TimersLoad::Empty));
}

#[test]
fn settings_outcomes() {
    let s = state(true);
    assert!(matches!(load_settings_outcome(&s, None), SettingsLoad::NotFound));
    assert!(matches!(
        load_settings_outcome(&state(false), Some("enc1:aa".to_string())),
        SettingsLoad::Locked
    ));
    match load_settings_outcome(&s, Some("{\"theme\": \"aurora\"}".to_string())) {
        SettingsLoad::Text { text, mark_legacy } => {
            assert_eq!(text, "{\"theme\": \"aurora\"}");
            assert!(mark_legacy);
        }
        other => panic!("unexpected {:?}", other),
    }
    assert!(load_settings_outcome(&s, None).is_cacheable());
    assert!(!load_settings_outcome(&state(false), Some("enc1:aa".to_string())).is_cacheable());
    assert!(!load_settings_outcome(&established(), Some("{}".to_string())).is_cacheable());
    match settings_after_decrypt(Ok(DecryptResult::WasPlaintext("{}".to_string()))) {
        SettingsLoad::Text { mark_legacy, .. } => assert!(mark_legacy),
        other => panic!("unexpected {:?}", other),
    }
    match settings_after_decrypt(Err(CryptoError::PayloadNotHex)) {
        SettingsLoad::Failed(m) => {
            assert_eq!(m, "Failed to decrypt settings.json: enc1 payload is not valid hex")
        }
        other => panic!("unexpected {:?}", other),
    }
}

#[test]
fn saving_without_keychain_is_refused() {
    match content_for_disk(&state(false), "{\"a\":1}") {
        Err(SaveRefusal::Blocked(e)) => {
            assert_eq!(e.code, "WRITE_BLOCKED_EMERGENCY_MODE");
            assert!(e.message.contains("Reason: locked."));
        }
        other => panic!("unexpected {:?}", other),
    }
    let mut ro = established();
    ro.set_emergency_mode("gone".to_string(), true);
    match content_for_disk(&ro, "{}") {
        Err(SaveRefusal::Blocked(e)) => assert!(e.message.contains("Reason: gone.")),
        other => panic!("unexpected {:?}", other),
    }
}

#[test]
fn plaintext_is_refused_once_a_key_is_established() {
    let s = established();
    assert!(refuses_plaintext(&s));
    assert!(!refuses_plaintext(&fresh_install()));
    match load_sheets_outcome(&s, Some("{\"a\": []}".to_string())) {
        SheetsLoad::DowngradeBlocked { reason } => assert_eq!(reason, DOWNGRADE),
        other => panic!("unexpected {:?}", other),
    }
    assert!(matches!(load_timers_outcome(&s, Some("{\"t\": 1}".to_string())), TimersLoad::Empty));
    assert!(matches!(
        load_settings_outcome(&s, Some("{}".to_string())),
        SettingsLoad::DowngradeBlocked
    ));
    // With the keychain down there is no established key to protect.
    assert!(matches!(
        load_sheets_outcome(&state(false), Some("[]".to_string())),
        SheetsLoad::Loaded { mark_legacy: true, .. }
    ));
}

#[test]
fn save_then_load_round_trip() {
    let s = established();
    let json = "{\"2025-01-15\": [{\"task\": \"Design review\"}]}";
    let saved = content_for_disk(&s, json).unwrap();
    assert!(is_encrypted_content(&saved));
    match load_sheets_outcome(&s, Some(format!("\n{}\n", saved))) {
        SheetsLoad::Loaded { text, mark_legacy } => {
            assert_eq!(text, json);
            assert!(!mark_legacy);
        }
        other => panic!("unexpected {:?}", other),
    }
    match load_timers_outcome(&s, Some(saved.clone())) {
        TimersLoad::Data { text, mark_legacy } => {
            assert_eq!(text, json);
            assert!(!mark_legacy);
        }
        other => panic!("unexpected {:?}", other),
    }
    match load_settings_outcome(&s, Some(saved)) {
        SettingsLoad::Text { text, mark_legacy } => {
            assert_eq!(text, json);
            assert!(!mark_legacy);
        }
        other => panic!("unexpected {:?}", other),
    }
}

#[test]
fn sheets_sealed_under_another_key_fail_to_decrypt() {
    let other: Vec<u8> = vec![9u8; 32];
    let sealed = seal("{}", &other).unwrap();
    match load_sheets_outcome(&established(), Some(sealed)) {
        SheetsLoad::DecryptFailed { reason } => assert!(reason.starts_with("Decryption failed")),
        other => panic!("unexpected {:?}", other),
    }
}

#[test]
fn saved_text_reads_as_encrypted() {
    let key: Vec<u8> = (0..32).collect();
    let sealed = encrypt_with_key("{\"x\": 2}", &key, &[5u8; 12]).unwrap();
    assert!(is_encrypted_content(&sealed));
    assert_eq!(sealed.trim(), sealed);
}

#[test]
fn temp_files_of_saves_are_purged_when_stale() {
    let name = temp_file_name("sheets.json", 1705123456000000001);
    assert_eq!(name, "sheets.json.tmp.1705123456000000001");
    assert!(is_stale_temp(&name, STALE_TEMP_SECS + 1));
    assert!(!is_stale_temp(&name, STALE_TEMP_SECS));
    assert!(is_stale_temp(&temp_file_name("settings.json", 0), 7200));
    assert!(!is_stale_temp("sheets.json", 7200));
    assert!(!is_stale_temp("notes.json.tmp.5", 7200));
    assert!(!is_stale_temp("sheets.json.corrupt.5", 7200));
}

#[test]
fn without_a_cached_key_nothing_is_encrypted_or_decrypted() {
    let s = AppState::new("/tmp/x".to_string(), KeychainStatus::Available);
    assert!(matches!(
        content_for_disk(&s, "{}"),
        Err(SaveRefusal::Encrypt(CryptoError::KeyRetrieval))
    ));
    let sealed = seal("{}", &test_key()).unwrap();
    match load_sheets_outcome(&s, Some(sealed)) {
        SheetsLoad::DecryptFailed { reason } => {
            assert_eq!(reason, "Failed to retrieve encryption key from keychain")
        }
        other => panic!("unexpected {:?}", other),
    }
}
