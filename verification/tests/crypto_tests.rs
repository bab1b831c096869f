use chronoward::crypto::{
    check_stored_key, decrypt, decrypt_with_key, encrypt, encrypt_with_key, ensure_key_exists,
    generate_random_key,
    key_from_secret, key_setup_step, keychain_status_from, probe_keychain, seal,
    stored_format_of, CryptoError, DecryptResult, KeySetup, KeySetupStep, KeychainStatus,
    StoredFormat, KEY_SIZE,
};
use chronoward::keychain::KeyringFailure;

fn test_key() -> Vec<u8> {
    (0..32).collect()
}

#[test]
fn test_decrypt_detects_plaintext_legacy() {
    let legacy_json = r#"{"2025-01-15": []}"#;
    let result = decrypt(legacy_json).outcome.unwrap();
    assert!(result.needs_reencrypt());
    assert_eq!(result.into_plaintext(), legacy_json);
}

#[test]
fn test_decrypt_rejects_malformed_legacy_json() {
    let result = decrypt("{not json").outcome;
    assert!(matches!(result, Err(CryptoError::MalformedLegacy)));
    assert_eq!(
        CryptoError::MalformedLegacy.message(),
        "Unencrypted data is not valid JSON. Refusing to proceed."
    );
}

#[test]
fn test_decrypt_rejects_unknown_sentinel() {
    let bad = "enc9:somepayload";
    let result = decrypt(bad).outcome;
    assert!(result.is_err());
}

#[test]
fn test_decrypt_rejects_truncated_enc1_payload() {
    // 10 bytes hex = 5 bytes data, less than the 28-byte minimum
    let bad = "enc1:deadbeefdeadbeef1234";
    let result = decrypt(bad).outcome;
    assert!(result.is_err());
}

#[test]
fn test_generate_random_key_length() {
    let key = generate_random_key().unwrap();
    assert_eq!(key.len(), KEY_SIZE);
}

#[test]
fn test_two_encryptions_produce_different_ciphertext() {
    // Needs a live keychain; where there is none, there is nothing to check.
    if probe_keychain() == KeychainStatus::Available {
        let plaintext = "same plaintext";
        let ct1 = encrypt(plaintext).outcome.unwrap();
        let ct2 = encrypt(plaintext).outcome.unwrap();
        assert_ne!(ct1, ct2);
        assert_eq!(
            decrypt(&ct1).outcome.unwrap().into_plaintext(),
            decrypt(&ct2).outcome.unwrap().into_plaintext()
        );
    }
}

#[test]
fn sealed_text_opens_with_the_same_key() {
    let plaintext = r#"{"2025-01-15": [{"task": "Design review", "hours": 3.5}]}"#;
    let nonce = [7u8; 12];
    let sealed = encrypt_with_key(plaintext, &test_key(), &nonce).unwrap();
    assert!(sealed.starts_with("enc1:"));
    // nonce (12) + plaintext + tag (16), two hex digits per byte
    assert_eq!(sealed.len(), 5 + 2 * (12 + plaintext.len() + 16));
    assert!(sealed[5..].starts_with("070707070707070707070707"));
    match decrypt_with_key(&sealed, &test_key()).unwrap() {
        DecryptResult::Decrypted(text) => assert_eq!(text, plaintext),
        DecryptResult::WasPlaintext(_) => panic!("sealed text read back as plaintext"),
    }
}

#[test]
fn sealed_text_fails_under_another_key() {
    let sealed = encrypt_with_key("secret", &test_key(), &[1u8; 12]).unwrap();
    let other: Vec<u8> = vec![9u8; 32];
    assert!(matches!(decrypt_with_key(&sealed, &other), Err(CryptoError::DecryptionFailed)));
}

#[test]
fn sealing_refuses_a_short_key() {
    let r = encrypt_with_key("x", &[1u8; 16], &[0u8; 12]);
    assert!(matches!(r, Err(CryptoError::CipherInit)));
    let sealed = encrypt_with_key("x", &test_key(), &[0u8; 12]).unwrap();
    assert!(matches!(decrypt_with_key(&sealed, &[1u8; 16]), Err(CryptoError::CipherInit)));
}

#[test]
fn decrypt_errors_name_their_cause() {
    assert!(matches!(decrypt("enc9:somepayload").outcome, Err(CryptoError::UnknownSentinel)));
    assert!(matches!(decrypt("").outcome, Err(CryptoError::UnknownSentinel)));
    assert!(matches!(decrypt("encrypted?").outcome, Err(CryptoError::UnknownSentinel)));
    assert!(matches!(decrypt("enc1:zz").outcome, Err(CryptoError::PayloadNotHex)));
    assert!(matches!(decrypt("enc1:abc").outcome, Err(CryptoError::PayloadNotHex)));
    assert!(matches!(
        decrypt("enc1:deadbeefdeadbeef1234").outcome,
        Err(CryptoError::PayloadTooShort)
    ));
}

#[test]
fn tampered_ciphertext_is_refused() {
    let mut sealed = encrypt_with_key("hello", &test_key(), &[3u8; 12]).unwrap();
    let last = sealed.pop().unwrap();
    sealed.push(if last == '0' { '1' } else { '0' });
    assert!(matches!(
        decrypt_with_key(&sealed, &test_key()),
        Err(CryptoError::DecryptionFailed)
    ));
}

#[test]
fn legacy_text_is_kept_whole() {
    match decrypt_with_key("  {\"a\": 1}  ", &test_key()).unwrap() {
        DecryptResult::WasPlaintext(t) => assert_eq!(t, "  {\"a\": 1}  "),
        DecryptResult::Decrypted(_) => panic!("plaintext read as encrypted"),
    }
}

#[test]
fn stored_formats() {
    assert_eq!(stored_format_of("enc1:00"), StoredFormat::Enc1);
    assert_eq!(stored_format_of("{}"), StoredFormat::Legacy);
    assert_eq!(stored_format_of("enc"), StoredFormat::Unknown);
    assert_eq!(stored_format_of(""), StoredFormat::Unknown);
    assert_eq!(stored_format_of(" enc1:00"), StoredFormat::Legacy);
}

#[test]
fn error_messages() {
    assert_eq!(
        CryptoError::StoredKeyLength(16).message(),
        "Keychain key has unexpected length 16 (expected 32)"
    );
    assert_eq!(
        CryptoError::KeychainAccess("locked".to_string()).message(),
        "Keychain access error: locked"
    );
    assert_eq!(
        CryptoError::PayloadTooShort.message(),
        "enc1 payload too short to be valid ciphertext"
    );
    assert_eq!(
        CryptoError::StoredKeyCorrupt.message(),
        "Keychain key is not valid hex \u{2014} keychain may be corrupt"
    );
}

#[test]
fn stored_key_checks() {
    let hex32 = "00".repeat(32);
    assert_eq!(check_stored_key(&hex32).unwrap(), vec![0u8; 32]);
    assert!(matches!(check_stored_key("0011"), Err(CryptoError::StoredKeyLength(2))));
    assert!(matches!(check_stored_key("xyz"), Err(CryptoError::StoredKeyCorrupt)));
}

#[test]
fn keychain_status_from_setup() {
    let setup = KeySetup { key: vec![0u8; 32], read: None, written: None };
    assert_eq!(keychain_status_from(&Ok(setup)), KeychainStatus::Available);
    assert_eq!(
        keychain_status_from(&Err(CryptoError::KeychainEntry)),
        KeychainStatus::Unavailable("Failed to create keychain entry handle".to_string())
    );
}

#[test]
fn key_from_secret_decodes_hex() {
    assert_eq!(key_from_secret("00ff10").unwrap(), vec![0x00, 0xff, 0x10]);
    assert_eq!(key_from_secret("ABcd").unwrap(), vec![0xab, 0xcd]);
    assert!(matches!(key_from_secret("0g"), Err(CryptoError::StoredKeyNotHex)));
    assert!(matches!(key_from_secret("abc"), Err(CryptoError::StoredKeyNotHex)));
}

#[test]
fn key_setup_step_decides_from_the_read() {
    let hex32 = "ab".repeat(32);
    match key_setup_step(Ok(hex32)) {
        KeySetupStep::UseStored(key) => assert_eq!(key, vec![0xab; 32]),
        other => panic!("unexpected {:?}", other),
    }
    assert!(matches!(
        key_setup_step(Ok("0011".to_string())),
        KeySetupStep::Refuse(CryptoError::StoredKeyLength(2))
    ));
    assert!(matches!(
        key_setup_step(Ok("not hex".to_string())),
        KeySetupStep::Refuse(CryptoError::StoredKeyCorrupt)
    ));
    assert!(matches!(key_setup_step(Err(KeyringFailure::NoEntry)), KeySetupStep::Create));
    match key_setup_step(Err(KeyringFailure::Other("denied".to_string()))) {
        KeySetupStep::Refuse(CryptoError::KeychainAccess(m)) => assert_eq!(m, "denied"),
        other => panic!("unexpected {:?}", other),
    }
    assert_eq!(
        keychain_status_from(&Err(CryptoError::KeychainAccess("denied".to_string()))),
        KeychainStatus::Unavailable("Keychain access error: denied".to_string())
    );
}

#[test]
fn sealed_text_length_and_round_trip() {
    let key = test_key();
    let sealed = encrypt_with_key("hi", &key, &[7u8; 12]).unwrap();
    assert_eq!(sealed.len(), 5 + 2 * (12 + 2 + 16));
    assert!(sealed.starts_with("enc1:070707070707070707070707"));
    let fresh = seal("héllo", &key).unwrap();
    assert_eq!(fresh.len(), 5 + 2 * (12 + 6 + 16));
    match decrypt_with_key(&fresh, &key).unwrap() {
        DecryptResult::Decrypted(p) => assert_eq!(p, "héllo"),
        other => panic!("unexpected {:?}", other),
    }
    assert!(matches!(seal("x", &key[..16]), Err(CryptoError::CipherInit)));
}

#[test]
fn key_setup_reports_what_it_stored() {
    // Needs a live keychain; where there is none, there is nothing to check.
    if let Ok(setup) = ensure_key_exists() {
        assert_eq!(setup.key.len(), KEY_SIZE);
        if let Some(written) = &setup.written {
            let hex: String = setup.key.iter().map(|b| format!("{:02x}", b)).collect();
            assert_eq!(written.as_str(), hex);
        }
        // Setting up again finds the established key and writes nothing.
        if let Ok(again) = ensure_key_exists() {
            assert_eq!(again.key, setup.key);
            assert!(again.written.is_none());
            let hex: String = again.key.iter().map(|b| format!("{:02x}", b)).collect();
            assert_eq!(again.read.as_ref().unwrap().as_str(), hex);
        }
    }
}

#[test]
fn distinct_nonces_give_distinct_text() {
    let key = test_key();
    let a = encrypt_with_key("same plaintext", &key, &[1u8; 12]).unwrap();
    let b = encrypt_with_key("same plaintext", &key, &[2u8; 12]).unwrap();
    assert_ne!(a, b);
    for sealed in [&a, &b] {
        match decrypt_with_key(sealed, &key).unwrap() {
            DecryptResult::Decrypted(p) => assert_eq!(p, "same plaintext"),
            other => panic!("unexpected {:?}", other),
        }
    }
}

#[test]
fn decrypt_reads_the_keychain_only_for_enc1_payloads() {
    let legacy = decrypt("[1, 2]");
    assert!(legacy.secret.is_none());
    assert!(legacy.outcome.unwrap().needs_reencrypt());
    let short = decrypt("enc1:00");
    assert!(short.secret.is_none());
    assert!(matches!(short.outcome, Err(CryptoError::PayloadTooShort)));
}
