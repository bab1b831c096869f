//! The encryption layer for data at rest.
//!
//! Stored text comes in two forms:
//!   - `enc1:` followed by the hex of a 12-byte nonce and the AES-256-GCM
//!     ciphertext with its tag, sealed under a key kept in the OS keychain;
//!   - anything else that is non-empty and does not start with `enc`: legacy
//!     plaintext, accepted as it is when it is JSON, and to be re-encrypted on
//!     the next save; legacy text that is not JSON is refused.
//! Text that starts with `enc` but not with `enc1:`, and empty text, are
//! refused: they may come from a newer format or from corruption.
//!
//! The keychain key is 32 random bytes stored as hex under a fixed service
//! and account name, created on first use.

use aes_gcm::aead::{Aead, KeyInit};
use rand::RngCore;
use vstd::prelude::*;
use vstd::slice::slice_to_vec;
use vstd::string::*;
use vstd::utf8::*;

use crate::encoding::{json_accepts, json_is_valid, hex_decode, hex_decode_spec, hex_encode, hex_encode_spec, lemma_hex_round_trip, utf8_to_string};
use crate::keychain::{
    found_missing, keychain_entry, keychain_read, keychain_write, KeychainEntry, KeychainError,
    KeyringFailure, ReadSecret, StoredSecret,
};
use crate::text::{decimal, push_decimal, starts_with};

verus! {

broadcast use {encode_utf8_valid_utf8, encode_utf8_decode_utf8};

/// Length of an AES-256 key in bytes.
pub const KEY_SIZE: usize = 32;

/// Length of an AES-GCM nonce in bytes.
pub const NONCE_SIZE: usize = 12;

/// Length of an AES-GCM tag in bytes.
pub const TAG_SIZE: usize = 16;

/// The shortest `enc1:` payload: a nonce and a tag.
pub const MIN_PAYLOAD_LEN: usize = 28;

/// The largest plaintext, in bytes, that AES-GCM seals (2^36).
pub const MAX_PLAINTEXT_LEN: u64 = 68719476736;

/// Service name of the keychain entry that holds the key.
pub const KEYCHAIN_SERVICE: &'static str = "com.chronoward.app";

/// Account name of the keychain entry that holds the key.
pub const KEYCHAIN_ACCOUNT: &'static str = "chronoward-data-key";

/// Whether the OS keychain could be used, checked once at startup.
#[derive(Debug, Clone, PartialEq)]
pub enum KeychainStatus {
    /// The keychain answered and holds a key of the right size.
    Available,
    /// The keychain could not be used; the reason is for people to read.
    Unavailable(String),
}

/// The plaintext recovered from stored text, and whether it was stored
/// encrypted.
#[derive(Debug)]
pub enum DecryptResult {
    /// The text was `enc1:` data and decrypted to this.
    Decrypted(String),
    /// The text was legacy plaintext; it should be encrypted on the next save.
    WasPlaintext(String),
}

/// Why an encryption, a decryption or a keychain operation failed.
#[derive(Debug, Clone)]
pub enum CryptoError {
    /// The keychain entry handle could not be created.
    KeychainEntry,
    /// The key found in the keychain while setting up is not hex.
    StoredKeyCorrupt,
    /// The key found in the keychain while setting up has this many bytes, not 32.
    StoredKeyLength(usize),
    /// A new key could not be stored in the keychain.
    StoreKeyFailed,
    /// The keychain refused access; its own message.
    KeychainAccess(String),
    /// The key could not be read from the keychain.
    KeyRetrieval,
    /// The key read from the keychain is not hex.
    StoredKeyNotHex,
    /// AES-256-GCM refused the key (its length is not 32).
    CipherInit,
    /// AES-256-GCM refused to seal the plaintext (it is too long).
    EncryptionFailed,
    /// The stored text starts with `enc` but not with `enc1:`, or is empty.
    UnknownSentinel,
    /// The `enc1:` payload is not hex.
    PayloadNotHex,
    /// The `enc1:` payload is shorter than a nonce and a tag.
    PayloadTooShort,
    /// The ciphertext did not authenticate under the key.
    DecryptionFailed,
    /// The decrypted bytes are not UTF-8.
    NotUtf8,
    /// The stored text is neither `enc1:` data nor JSON.
    MalformedLegacy,
}

/// Why AES-256-GCM refused an operation.
#[derive(Debug)]
pub enum AeadFailure {
    /// The key is not 32 bytes long.
    InvalidKeyLength,
    /// Sealing: the plaintext is too long. Opening: the ciphertext does not
    /// authenticate.
    Rejected,
}

/// The text of an error, as shown to people.
pub open spec fn error_message(e: CryptoError) -> Seq<char> {
    match e {
        CryptoError::KeychainEntry => "Failed to create keychain entry handle"@,
        CryptoError::StoredKeyCorrupt => "Keychain key is not valid hex \u{2014} keychain may be corrupt"@,
        CryptoError::StoredKeyLength(n) => "Keychain key has unexpected length "@ + decimal(
            n as nat,
        ) + " (expected 32)"@,
        CryptoError::StoreKeyFailed => "Failed to store new encryption key in keychain"@,
        CryptoError::KeychainAccess(m) => "Keychain access error: "@ + m@,
        CryptoError::KeyRetrieval => "Failed to retrieve encryption key from keychain"@,
        CryptoError::StoredKeyNotHex => "Keychain key is not valid hex"@,
        CryptoError::CipherInit => "Failed to initialise AES-256-GCM cipher"@,
        CryptoError::EncryptionFailed => "Encryption failed: aead::Error"@,
        CryptoError::UnknownSentinel => "Unknown encryption sentinel in stored data. The data may have been written by a newer version of ChronoWard or may be corrupt. Refusing to proceed."@,
        CryptoError::PayloadNotHex => "enc1 payload is not valid hex"@,
        CryptoError::PayloadTooShort => "enc1 payload too short to be valid ciphertext"@,
        CryptoError::DecryptionFailed => "Decryption failed \u{2014} data may be corrupt or the keychain key has changed. Original data is preserved on disk."@,
        CryptoError::NotUtf8 => "Decrypted bytes are not valid UTF-8"@,
        CryptoError::MalformedLegacy => "Unencrypted data is not valid JSON. Refusing to proceed."@,
    }
}

impl CryptoError {
    /// The text of the error, as shown to people.
    pub fn message(&self) -> (r: String)
        ensures
            r@ == error_message(*self),
    {
        match self {
            CryptoError::KeychainEntry => String::from_str("Failed to create keychain entry handle"),
            CryptoError::StoredKeyCorrupt => String::from_str(
                "Keychain key is not valid hex \u{2014} keychain may be corrupt",
            ),
            CryptoError::StoredKeyLength(n) => {
                let mut s = String::from_str("Keychain key has unexpected length ");
                push_decimal(&mut s, *n as u64);
                s.append(" (expected 32)");
                s
            },
            CryptoError::StoreKeyFailed => String::from_str(
                "Failed to store new encryption key in keychain",
            ),
            CryptoError::KeychainAccess(m) => {
                let mut s = String::from_str("Keychain access error: ");
                s.append(m.as_str());
                s
            },
            CryptoError::KeyRetrieval => String::from_str(
                "Failed to retrieve encryption key from keychain",
            ),
            CryptoError::StoredKeyNotHex => String::from_str("Keychain key is not valid hex"),
            CryptoError::CipherInit => String::from_str("Failed to initialise AES-256-GCM cipher"),
            CryptoError::EncryptionFailed => String::from_str("Encryption failed: aead::Error"),
            CryptoError::UnknownSentinel => String::from_str(
                "Unknown encryption sentinel in stored data. The data may have been written by a newer version of ChronoWard or may be corrupt. Refusing to proceed.",
            ),
            CryptoError::PayloadNotHex => String::from_str("enc1 payload is not valid hex"),
            CryptoError::PayloadTooShort => String::from_str(
                "enc1 payload too short to be valid ciphertext",
            ),
            CryptoError::DecryptionFailed => String::from_str(
                "Decryption failed \u{2014} data may be corrupt or the keychain key has changed. Original data is preserved on disk.",
            ),
            CryptoError::NotUtf8 => String::from_str("Decrypted bytes are not valid UTF-8"),
            CryptoError::MalformedLegacy => String::from_str(
                "Unencrypted data is not valid JSON. Refusing to proceed.",
            ),
        }
    }
}

/// The plaintext held by a decryption result.
pub open spec fn plaintext_of(r: DecryptResult) -> String {
    match r {
        DecryptResult::Decrypted(s) => s,
        DecryptResult::WasPlaintext(s) => s,
    }
}

impl DecryptResult {
    /// The plaintext, whichever way it was stored.
    pub fn into_plaintext(self) -> (s: String)
        ensures
            s == plaintext_of(self),
    {
        match self {
            DecryptResult::Decrypted(s) => s,
            DecryptResult::WasPlaintext(s) => s,
        }
    }

    /// Whether the text was stored as plaintext and should be re-encrypted.
    pub fn needs_reencrypt(&self) -> (b: bool)
        ensures
            b == (*self is WasPlaintext),
    {
        match self {
            DecryptResult::WasPlaintext(_) => true,
            DecryptResult::Decrypted(_) => false,
        }
    }
}

// ── Stored-text format ──────────────────────────────────────────────────────

/// The sentinel of the encrypted format.
pub open spec fn enc1_sentinel() -> Seq<char> {
    "enc1:"@
}

/// The prefix that all encrypted formats, present and future, start with.
pub open spec fn enc_family() -> Seq<char> {
    "enc"@
}

/// The three forms that stored text can take.
#[derive(Debug, Clone, Copy, PartialEq, Eq, Structural)]
pub enum StoredFormat {
    /// `enc1:` followed by a payload.
    Enc1,
    /// Non-empty text that does not start with `enc`.
    Legacy,
    /// Empty text, or text in an `enc` format other than `enc1:`.
    Unknown,
}

pub open spec fn stored_format(s: Seq<char>) -> StoredFormat {
    if enc1_sentinel().is_prefix_of(s) {
        StoredFormat::Enc1
    } else if s.len() > 0 && !enc_family().is_prefix_of(s) {
        StoredFormat::Legacy
    } else {
        StoredFormat::Unknown
    }
}

/// The payload that follows the `enc1:` sentinel.
pub open spec fn enc1_payload(s: Seq<char>) -> Seq<char> {
    s.skip(enc1_sentinel().len() as int)
}

/// Tells which form stored text takes.
pub fn stored_format_of(s: &str) -> (f: StoredFormat)
    ensures
        f == stored_format(s@),
{
    if starts_with(s, "enc1:") {
        StoredFormat::Enc1
    } else if !s.is_empty() && !starts_with(s, "enc") {
        StoredFormat::Legacy
    } else {
        StoredFormat::Unknown
    }
}

/// The nonce and ciphertext bytes spelled by an `enc1:` payload.
pub open spec fn payload_bytes_spec(payload: Seq<char>) -> Result<Seq<u8>, CryptoError> {
    match hex_decode_spec(encode_utf8(payload)) {
        None => Err(CryptoError::PayloadNotHex),
        Some(b) => if b.len() < MIN_PAYLOAD_LEN {
            Err(CryptoError::PayloadTooShort)
        } else {
            Ok(b)
        },
    }
}

// ── AES-256-GCM ─────────────────────────────────────────────────────────────

/// The ciphertext, tag appended, that AES-256-GCM seals `plaintext` into under
/// `key` and `nonce`, with no associated data.
pub uninterp spec fn aes256gcm_seal(key: Seq<u8>, nonce: Seq<u8>, plaintext: Seq<u8>) -> Seq<u8>;

/// The plaintext that AES-256-GCM opens `ciphertext` (tag appended) to under
/// `key` and `nonce`, with no associated data; `None` where it does not
/// authenticate.
pub uninterp spec fn aes256gcm_open(key: Seq<u8>, nonce: Seq<u8>, ciphertext: Seq<u8>) -> Option<
    Seq<u8>,
>;

/// `Aes256Gcm::new_from_slice` and then `Aead::encrypt`, with no associated
/// data. The key is refused unless it has 32 bytes; the plaintext is refused
/// above 2^36 bytes (aes-gcm's `P_MAX`). The ciphertext is the plaintext's
/// length plus a 16-byte tag, and opening it under the same key and nonce
/// gives the plaintext back (the AEAD contract that the crate documents).
#[verifier::external_body]
fn aes256gcm_encrypt(key: &[u8], nonce: &[u8], plaintext: &[u8]) -> (r: Result<Vec<u8>, AeadFailure>)
    requires
        nonce@.len() == NONCE_SIZE,
    ensures
        (r matches Err(AeadFailure::InvalidKeyLength)) <==> key@.len() != KEY_SIZE,
        (r matches Err(AeadFailure::Rejected)) <==> (key@.len() == KEY_SIZE && plaintext@.len()
            > MAX_PLAINTEXT_LEN),
        r matches Ok(c) ==> {
            &&& c@ == aes256gcm_seal(key@, nonce@, plaintext@)
            &&& c@.len() == plaintext@.len() + TAG_SIZE
            &&& aes256gcm_open(key@, nonce@, c@) == Some(plaintext@)
        },
{
    let cipher = match aes_gcm::Aes256Gcm::new_from_slice(key) {
        Ok(c) => c,
        Err(_) => return Err(AeadFailure::InvalidKeyLength),
    };
    match cipher.encrypt(aes_gcm::Nonce::from_slice(nonce), plaintext) {
        Ok(bytes) => Ok(bytes),
        Err(_) => Err(AeadFailure::Rejected),
    }
}

/// `Aes256Gcm::new_from_slice` and then `Aead::decrypt`, with no associated
/// data. The key is refused unless it has 32 bytes; otherwise the result is
/// what AES-256-GCM opens the ciphertext to.
#[verifier::external_body]
fn aes256gcm_decrypt(key: &[u8], nonce: &[u8], ciphertext: &[u8]) -> (r: Result<Vec<u8>, AeadFailure>)
    requires
        nonce@.len() == NONCE_SIZE,
    ensures
        (r matches Err(AeadFailure::InvalidKeyLength)) <==> key@.len() != KEY_SIZE,
        key@.len() == KEY_SIZE ==> match r {
            Ok(p) => aes256gcm_open(key@, nonce@, ciphertext@) == Some(p@),
            Err(_) => aes256gcm_open(key@, nonce@, ciphertext@) is None,
        },
{
    let cipher = match aes_gcm::Aes256Gcm::new_from_slice(key) {
        Ok(c) => c,
        Err(_) => return Err(AeadFailure::InvalidKeyLength),
    };
    match cipher.decrypt(aes_gcm::Nonce::from_slice(nonce), ciphertext) {
        Ok(bytes) => Ok(bytes),
        Err(_) => Err(AeadFailure::Rejected),
    }
}

// ── Randomness and the keychain ─────────────────────────────────────────────

/// `rand::thread_rng().fill_bytes`: `n` bytes from the thread's
/// cryptographically secure generator. Nothing is stated of their values.
#[verifier::external_body]
fn random_bytes(n: usize) -> (r: Vec<u8>)
    ensures
        r@.len() == n,
{
    let mut v = vec![0u8; n];
    rand::thread_rng().fill_bytes(&mut v);
    v
}

/// The errors that setting up the key in the keychain can give.
pub open spec fn is_key_setup_error(e: CryptoError) -> bool {
    ||| e is KeychainEntry
    ||| e is StoredKeyCorrupt
    ||| e is StoredKeyLength
    ||| e is StoreKeyFailed
    ||| e is KeychainAccess
}

/// What a key stored in the keychain decodes to while setting up: its hex
/// must spell exactly 32 bytes.
pub open spec fn stored_key_spec(stored: Seq<char>) -> Result<Seq<u8>, CryptoError> {
    match hex_decode_spec(encode_utf8(stored)) {
        None => Err(CryptoError::StoredKeyCorrupt),
        Some(k) => if k.len() != KEY_SIZE {
            Err(CryptoError::StoredKeyLength(k.len() as usize))
        } else {
            Ok(k)
        },
    }
}

/// Checks a key read from the keychain while setting up.
pub fn check_stored_key(stored: &str) -> (r: Result<Vec<u8>, CryptoError>)
    ensures
        match r {
            Ok(k) => stored_key_spec(stored@) == Ok::<Seq<u8>, CryptoError>(k@),
            Err(e) => stored_key_spec(stored@) == Err::<Seq<u8>, CryptoError>(e),
        },
{
    match hex_decode(stored.as_bytes()) {
        None => Err(CryptoError::StoredKeyCorrupt),
        Some(key) => {
            if key.len() != KEY_SIZE {
                Err(CryptoError::StoredKeyLength(key.len()))
            } else {
                Ok(key)
            }
        },
    }
}

/// A fresh random 256-bit key.
pub fn generate_random_key() -> (r: Result<Vec<u8>, CryptoError>)
    ensures
        r matches Ok(k) && k@.len() == KEY_SIZE,
{
    Ok(random_bytes(KEY_SIZE))
}

/// What setting up the key does once the keychain entry has been read.
#[derive(Debug)]
pub enum KeySetupStep {
    /// The entry holds a valid key: it is used, and nothing is written.
    UseStored(Vec<u8>),
    /// The entry is missing (the first run): a key is created and stored.
    Create,
    /// Setting up fails with this error, and nothing is written.
    Refuse(CryptoError),
}

/// Decides what setting up the key does with what reading the keychain
/// entry gave: a stored key is checked and used, never replaced; a missing
/// entry means a key is to be created; any other failure is the keychain's
/// own error.
pub fn key_setup_step(read: Result<String, KeyringFailure>) -> (step: KeySetupStep)
    ensures
        match read {
            Ok(stored) => match stored_key_spec(stored@) {
                Ok(k) => step matches KeySetupStep::UseStored(key) && key@ == k,
                Err(e) => step == KeySetupStep::Refuse(e),
            },
            Err(KeyringFailure::NoEntry) => step is Create,
            Err(KeyringFailure::Other(m)) => step == KeySetupStep::Refuse(
                CryptoError::KeychainAccess(m),
            ),
        },
{
    match read {
        Ok(stored) => match check_stored_key(stored.as_str()) {
            Ok(key) => KeySetupStep::UseStored(key),
            Err(e) => KeySetupStep::Refuse(e),
        },
        Err(KeyringFailure::NoEntry) => KeySetupStep::Create,
        Err(KeyringFailure::Other(m)) => KeySetupStep::Refuse(CryptoError::KeychainAccess(m)),
    }
}

/// The key that setting up settled on, with the keychain operation it came
/// from.
pub struct KeySetup {
    /// The 256-bit key.
    pub key: Vec<u8>,
    /// The secret read from the keychain when an established key was found.
    pub read: Option<ReadSecret>,
    /// The secret stored in the keychain when this run created the key.
    pub written: Option<StoredSecret>,
}

/// The service and account of the keychain entry that holds the key.
pub open spec fn keychain_id() -> (Seq<char>, Seq<char>) {
    (KEYCHAIN_SERVICE@, KEYCHAIN_ACCOUNT@)
}

/// The key of a setup comes from the keychain entry that holds the key:
/// either it was read from the entry and decoded, with nothing written, or
/// reading the entry found it missing and this run stored its hex there.
pub open spec fn key_backed_by_keychain(s: KeySetup) -> bool {
    ||| {
        &&& s.written is None
        &&& s.read matches Some(rs)
        &&& rs.source() == keychain_id()
        &&& stored_key_spec(rs@) == Ok::<Seq<u8>, CryptoError>(s.key@)
    }
    ||| {
        &&& s.read is None
        &&& s.written matches Some(w)
        &&& w.target() == keychain_id()
        &&& found_missing(w.before(), keychain_id())
        &&& w@ == hex_encode_spec(s.key@)
    }
}

/// What setting up gave, as values: the key and the secret written, if any.
pub open spec fn setup_view(r: Result<KeySetup, CryptoError>) -> Result<
    (Seq<u8>, Option<Seq<char>>),
    CryptoError,
> {
    match r {
        Ok(s) => Ok(
            (
                s.key@,
                match s.written {
                    Some(w) => Some(w@),
                    None => None,
                },
            ),
        ),
        Err(e) => Err(e),
    }
}

/// What setting up gives once the entry is open and reading it gave `read`:
/// a stored key is used as it is, with nothing written; on the first run the
/// fresh key is used and its hex written, unless the keychain refuses the
/// write (`write_ok`); any other failure is the keychain's error.
pub open spec fn key_setup_spec(
    read: Result<String, KeyringFailure>,
    fresh: Seq<u8>,
    write_ok: bool,
) -> Result<(Seq<u8>, Option<Seq<char>>), CryptoError> {
    match read {
        Ok(stored) => match stored_key_spec(stored@) {
            Ok(k) => Ok((k, None)),
            Err(e) => Err(e),
        },
        Err(KeyringFailure::NoEntry) => if write_ok {
            Ok((fresh, Some(hex_encode_spec(fresh))))
        } else {
            Err(CryptoError::StoreKeyFailed)
        },
        Err(KeyringFailure::Other(m)) => Err(CryptoError::KeychainAccess(m)),
    }
}

/// Creates a key and stores its hex in the keychain entry, which reading
/// found missing.
fn create_key(entry: &KeychainEntry, missing: KeychainError) -> (r: Result<KeySetup, CryptoError>)
    requires
        found_missing(missing, entry@),
    ensures
        match r {
            Ok(s) => {
                &&& s.key@.len() == KEY_SIZE
                &&& s.read is None
                &&& s.written matches Some(w) && w@ == hex_encode_spec(s.key@) && w.target()
                    == entry@ && w.before() == missing
            },
            Err(e) => e is StoreKeyFailed,
        },
{
    let key = match generate_random_key() {
        Ok(k) => k,
        Err(_) => return Err(CryptoError::StoreKeyFailed),
    };
    let hex_key = hex_encode(key.as_slice());
    match keychain_write(entry, hex_key, missing) {
        Ok(stored) => Ok(KeySetup { key, read: None, written: Some(stored) }),
        Err(_) => Err(CryptoError::StoreKeyFailed),
    }
}

/// Reads the key from the keychain entry of `KEYCHAIN_SERVICE` and
/// `KEYCHAIN_ACCOUNT`, creating and storing a fresh one when the entry is
/// missing (the first run). A key that comes back was read from that entry
/// or stored in it on this run after reading found the entry missing; an
/// established key is never replaced. Unless the entry cannot be opened,
/// the outcome is what `key_setup_spec` gives for what reading the entry
/// gave, the fresh key drawn and whether the keychain took it.
pub fn ensure_key_exists() -> (r: Result<KeySetup, CryptoError>)
    ensures
        r matches Ok(s) ==> s.key@.len() == KEY_SIZE && key_backed_by_keychain(s),
        (r matches Err(e) && e is KeychainEntry) || exists|
            read: Result<String, KeyringFailure>,
            fresh: Seq<u8>,
            write_ok: bool,
        | fresh.len() == KEY_SIZE && setup_view(r) == #[trigger] key_setup_spec(read, fresh, write_ok),
        r matches Err(e) ==> is_key_setup_error(e),
        r matches Ok(s) ==> s.read is Some || s.written is Some,
        r matches Ok(s) ==> (s.read matches Some(rs) ==> {
            &&& rs.source() == (KEYCHAIN_SERVICE@, KEYCHAIN_ACCOUNT@)
            &&& hex_decode_spec(encode_utf8(rs@)) == Some(s.key@)
            &&& s.written is None
        }),
        r matches Ok(s) ==> (s.written matches Some(w) ==> {
            &&& s.read is None
            &&& w.target() == (KEYCHAIN_SERVICE@, KEYCHAIN_ACCOUNT@)
            &&& w.before().source() == (KEYCHAIN_SERVICE@, KEYCHAIN_ACCOUNT@)
            &&& w.before().while_reading()
            &&& w.before().failure() is NoEntry
            &&& w@ == hex_encode_spec(s.key@)
        }),
{
    let entry = match keychain_entry(KEYCHAIN_SERVICE, KEYCHAIN_ACCOUNT) {
        Ok(entry) => entry,
        Err(_) => return Err(CryptoError::KeychainEntry),
    };
    let (read, evidence, failure) = match keychain_read(&entry) {
        Ok(secret) => {
            let text = String::from_str(secret.as_str());
            (Ok(text), Some(secret), None)
        },
        Err(f) => (Err(f.kind()), None, Some(f)),
    };
    let ghost read0 = read;
    let step = key_setup_step(read);
    let ghost step0 = step;
    let r = match step {
        KeySetupStep::UseStored(key) => Ok(KeySetup { key, read: evidence, written: None }),
        KeySetupStep::Refuse(e) => Err(e),
        KeySetupStep::Create => match failure {
            Some(missing) => create_key(&entry, missing),
            None => Err(CryptoError::StoreKeyFailed),
        },
    };
    let ghost r0 = r;
    proof {
        let unused: Seq<u8> = Seq::new(KEY_SIZE as nat, |i: int| 0u8);
        match r0 {
            Ok(s) => {
                if step0 is Create {
                    assert(setup_view(r0) == key_setup_spec(read0, s.key@, true));
                } else {
                    assert(setup_view(r0) == key_setup_spec(read0, unused, true));
                }
            },
            Err(_) => {
                assert(setup_view(r0) == key_setup_spec(read0, unused, false));
            },
        }
    }
    r
}

/// A setup whose key is backed by the keychain never replaces an
/// established key: when it read a secret, it wrote nothing and the key is
/// the bytes that secret spells; when it wrote one, reading the entry had
/// found it missing, and what it wrote spells the key back.
pub proof fn lemma_setup_keeps_established_key(s: KeySetup)
    requires
        key_backed_by_keychain(s),
        s.key@.len() == KEY_SIZE,
    ensures
        s.read matches Some(rs) ==> {
            &&& s.written is None
            &&& hex_decode_spec(encode_utf8(rs@)) == Some(s.key@)
        },
        s.written matches Some(w) ==> {
            &&& s.read is None
            &&& w.before().while_reading()
            &&& w.before().failure() is NoEntry
            &&& hex_decode_spec(encode_utf8(w@)) == Some(s.key@)
        },
{
    lemma_hex_round_trip(s.key@);
}

/// A key that the first run stored is found again by the next setup, once
/// the keychain gives back the secret that was stored: it reads as the same
/// key, and nothing is written.
pub proof fn lemma_created_key_is_found_again(
    key: Seq<u8>,
    read: Result<String, KeyringFailure>,
    fresh: Seq<u8>,
    write_ok: bool,
)
    requires
        key.len() == KEY_SIZE,
        read matches Ok(secret) && secret@ == hex_encode_spec(key),
    ensures
        key_setup_spec(read, fresh, write_ok) == Ok::<(Seq<u8>, Option<Seq<char>>), CryptoError>(
            (key, None),
        ),
{
    lemma_hex_round_trip(key);
}

/// Whether the keychain can be used, as values: `None` when it is
/// available, else the reason.
pub open spec fn status_view(s: KeychainStatus) -> Option<Seq<char>> {
    match s {
        KeychainStatus::Available => None,
        KeychainStatus::Unavailable(reason) => Some(reason@),
    }
}

/// The keychain status that the outcome of setting up the key means.
pub open spec fn setup_status<T>(setup: Result<T, CryptoError>) -> Option<Seq<char>> {
    match setup {
        Ok(_) => None,
        Err(e) => Some(error_message(e)),
    }
}

/// The keychain status that the outcome of setting up the key means: the
/// reason of an unavailable keychain is the error's message.
pub fn keychain_status_from(setup: &Result<KeySetup, CryptoError>) -> (s: KeychainStatus)
    ensures
        status_view(s) == setup_status(*setup),
{
    match setup {
        Ok(_) => KeychainStatus::Available,
        Err(e) => KeychainStatus::Unavailable(e.message()),
    }
}

/// Probes the OS keychain, creating the key on a fresh install. The status
/// is what setting up the key came to: available with a stored key of 32
/// bytes or a freshly stored one, else unavailable with the error's message.
pub fn probe_keychain() -> (s: KeychainStatus)
    ensures
        status_view(s) == Some(error_message(CryptoError::KeychainEntry)) || exists|
            read: Result<String, KeyringFailure>,
            fresh: Seq<u8>,
            write_ok: bool,
        | fresh.len() == KEY_SIZE && status_view(s) == setup_status(
            #[trigger] key_setup_spec(read, fresh, write_ok),
        ),
{
    let setup = ensure_key_exists();
    let status = keychain_status_from(&setup);
    proof {
        if !(setup matches Err(e) && e is KeychainEntry) {
            let (read, fresh, write_ok) = choose|
                read: Result<String, KeyringFailure>,
                fresh: Seq<u8>,
                write_ok: bool,
            | fresh.len() == KEY_SIZE && setup_view(setup) == #[trigger] key_setup_spec(
                read,
                fresh,
                write_ok,
            );
            assert(setup_status(setup) == setup_status(key_setup_spec(read, fresh, write_ok)));
        }
    }
    status
}

/// The key that a keychain secret spells: the bytes of its hex.
pub open spec fn key_of_secret_spec(secret: Seq<char>) -> Result<Seq<u8>, CryptoError> {
    match hex_decode_spec(encode_utf8(secret)) {
        None => Err(CryptoError::StoredKeyNotHex),
        Some(k) => Ok(k),
    }
}

/// The value of a key result.
pub open spec fn key_result(r: Result<Vec<u8>, CryptoError>) -> Result<Seq<u8>, CryptoError> {
    match r {
        Ok(k) => Ok(k@),
        Err(e) => Err(e),
    }
}

/// The key that a keychain secret spells.
pub fn key_from_secret(secret: &str) -> (r: Result<Vec<u8>, CryptoError>)
    ensures
        key_result(r) == key_of_secret_spec(secret@),
{
    match hex_decode(secret.as_bytes()) {
        Some(key) => Ok(key),
        None => Err(CryptoError::StoredKeyNotHex),
    }
}

/// The outcome of an operation that reads the key from the keychain, with
/// the secret it read, or the keychain's failure when opening or reading the
/// entry failed.
pub struct WithKeychain<T> {
    /// What the operation gave.
    pub outcome: Result<T, CryptoError>,
    /// The secret read from the keychain entry, if the operation read it.
    pub secret: Option<ReadSecret>,
    /// Why the keychain entry could not be opened or read, if it could not.
    pub error: Option<KeychainError>,
}

/// The error that a failed opening or reading of the keychain entry gives.
pub open spec fn keychain_failure_error(e: KeychainError) -> CryptoError {
    if e.while_reading() {
        CryptoError::KeyRetrieval
    } else {
        CryptoError::KeychainEntry
    }
}

/// The keychain was not used, or was asked for the key and failed: the
/// failure of the entry of `KEYCHAIN_SERVICE` and `KEYCHAIN_ACCOUNT` comes
/// back, and the outcome is its error.
pub open spec fn keychain_failed<T>(r: WithKeychain<T>) -> bool {
    &&& r.secret is None
    &&& r.error matches Some(ke)
    &&& ke.source() == keychain_id()
    &&& r.outcome matches Err(e) && e == keychain_failure_error(ke)
}

/// Reads the key from the keychain entry of `KEYCHAIN_SERVICE` and
/// `KEYCHAIN_ACCOUNT`. Unlike `ensure_key_exists`, this never creates a key
/// and does not check its length. When the entry was read, the secret read
/// comes back with the outcome, and the key is what that secret spells as
/// hex; otherwise the keychain's failure to open or read the entry comes
/// back.
pub fn get_key() -> (r: WithKeychain<Vec<u8>>)
    ensures
        match r.secret {
            Some(rs) => {
                &&& rs.source() == keychain_id()
                &&& r.error is None
                &&& key_result(r.outcome) == key_of_secret_spec(rs@)
            },
            None => keychain_failed(r),
        },
        r.outcome matches Ok(k) ==> (r.secret matches Some(rs) && hex_decode_spec(encode_utf8(rs@))
            == Some(k@)),
{
    let entry = match keychain_entry(KEYCHAIN_SERVICE, KEYCHAIN_ACCOUNT) {
        Ok(entry) => entry,
        Err(f) => {
            return WithKeychain {
                outcome: Err(CryptoError::KeychainEntry),
                secret: None,
                error: Some(f),
            };
        },
    };
    let stored = match keychain_read(&entry) {
        Ok(stored) => stored,
        Err(f) => {
            return WithKeychain {
                outcome: Err(CryptoError::KeyRetrieval),
                secret: None,
                error: Some(f),
            };
        },
    };
    let outcome = key_from_secret(stored.as_str());
    WithKeychain { outcome, secret: Some(stored), error: None }
}

// ── Sealing and opening ─────────────────────────────────────────────────────

/// What stored text gives back, as values: the recovered text and whether
/// it was encrypted, or the error.
pub enum Decryption {
    Decrypted(Seq<char>),
    WasPlaintext(Seq<char>),
    Failed(CryptoError),
}

/// The value of a decryption result.
pub open spec fn decryption_of(r: Result<DecryptResult, CryptoError>) -> Decryption {
    match r {
        Ok(DecryptResult::Decrypted(s)) => Decryption::Decrypted(s@),
        Ok(DecryptResult::WasPlaintext(s)) => Decryption::WasPlaintext(s@),
        Err(e) => Decryption::Failed(e),
    }
}

/// What nonce-and-ciphertext bytes open to under a key: the first 12 bytes
/// are the nonce, the rest the ciphertext with its tag, and the plaintext
/// must be UTF-8.
pub open spec fn open_combined_spec(combined: Seq<u8>, key: Seq<u8>) -> Result<
    Seq<char>,
    CryptoError,
> {
    if key.len() != KEY_SIZE {
        Err(CryptoError::CipherInit)
    } else {
        match aes256gcm_open(key, combined.take(NONCE_SIZE as int), combined.skip(NONCE_SIZE as int)) {
            None => Err(CryptoError::DecryptionFailed),
            Some(p) => if valid_utf8(p) {
                Ok(decode_utf8(p))
            } else {
                Err(CryptoError::NotUtf8)
            },
        }
    }
}

/// What stored text gives back when the keychain key is `key`.
pub open spec fn decrypt_with_key_spec(stored: Seq<char>, key: Seq<u8>) -> Decryption {
    match stored_format(stored) {
        StoredFormat::Enc1 => match payload_bytes_spec(enc1_payload(stored)) {
            Err(e) => Decryption::Failed(e),
            Ok(b) => match open_combined_spec(b, key) {
                Ok(t) => Decryption::Decrypted(t),
                Err(e) => Decryption::Failed(e),
            },
        },
        StoredFormat::Legacy => if json_accepts(stored) {
            Decryption::WasPlaintext(stored)
        } else {
            Decryption::Failed(CryptoError::MalformedLegacy)
        },
        StoredFormat::Unknown => Decryption::Failed(CryptoError::UnknownSentinel),
    }
}

/// Whether decrypting stored text needs the keychain key: it is `enc1:`
/// text with a well-formed payload.
pub open spec fn needs_keychain_key(stored: Seq<char>) -> bool {
    stored_format(stored) == StoredFormat::Enc1 && payload_bytes_spec(enc1_payload(stored)) is Ok
}

/// What stored text gives back when the keychain gave `secret`: what it
/// gives under the key that the secret spells, or the error of a secret
/// that is not hex.
pub open spec fn decrypt_under_secret(stored: Seq<char>, secret: Seq<char>) -> Decryption {
    match key_of_secret_spec(secret) {
        Ok(k) => decrypt_with_key_spec(stored, k),
        Err(e) => Decryption::Failed(e),
    }
}

/// The text that `plaintext` is stored as, sealed under `key` and `nonce`.
pub open spec fn sealed_text(key: Seq<u8>, nonce: Seq<u8>, plaintext: Seq<char>) -> Seq<char> {
    enc1_sentinel() + hex_encode_spec(nonce + aes256gcm_seal(key, nonce, encode_utf8(plaintext)))
}

/// The payload after the sentinel.
fn enc1_payload_of(stored: &str) -> (p: &str)
    requires
        enc1_sentinel().is_prefix_of(stored@),
    ensures
        p@ == enc1_payload(stored@),
{
    proof {
        reveal_strlit("enc1:");
    }
    stored.substring_char(5, stored.unicode_len())
}

/// The nonce and ciphertext bytes that an `enc1:` payload spells.
pub fn payload_bytes(payload: &str) -> (r: Result<Vec<u8>, CryptoError>)
    ensures
        match r {
            Ok(b) => payload_bytes_spec(payload@) == Ok::<Seq<u8>, CryptoError>(b@),
            Err(e) => payload_bytes_spec(payload@) == Err::<Seq<u8>, CryptoError>(e),
        },
{
    match hex_decode(payload.as_bytes()) {
        None => Err(CryptoError::PayloadNotHex),
        Some(combined) => {
            if combined.len() < MIN_PAYLOAD_LEN {
                Err(CryptoError::PayloadTooShort)
            } else {
                Ok(combined)
            }
        },
    }
}

/// Opens nonce-and-ciphertext bytes under a key.
pub fn open_combined(combined: &[u8], key: &[u8]) -> (r: Result<String, CryptoError>)
    requires
        combined@.len() >= MIN_PAYLOAD_LEN,
    ensures
        match r {
            Ok(s) => open_combined_spec(combined@, key@) == Ok::<Seq<char>, CryptoError>(s@),
            Err(e) => open_combined_spec(combined@, key@) == Err::<Seq<char>, CryptoError>(e),
        },
{
    let (nonce, ciphertext) = combined.split_at(NONCE_SIZE);
    assert(nonce@ == combined@.take(NONCE_SIZE as int));
    assert(ciphertext@ == combined@.skip(NONCE_SIZE as int));
    let plaintext = match aes256gcm_decrypt(key, nonce, ciphertext) {
        Ok(p) => p,
        Err(AeadFailure::InvalidKeyLength) => return Err(CryptoError::CipherInit),
        Err(AeadFailure::Rejected) => return Err(CryptoError::DecryptionFailed),
    };
    match utf8_to_string(plaintext) {
        Some(s) => Ok(s),
        None => Err(CryptoError::NotUtf8),
    }
}

/// Decrypts stored text, reading the key from the keychain where the text
/// is `enc1:` data with a well-formed payload.
///   - `enc1:` text decrypts, under the key that the keychain entry's secret
///     spells, to its plaintext; the secret read comes back with the outcome;
///   - legacy plaintext comes back as it is, marked for re-encryption, when
///     it is JSON, and is refused when it is not;
///   - empty text, or text in an unknown `enc` format, is refused.
pub fn decrypt(stored: &str) -> (r: WithKeychain<DecryptResult>)
    ensures
        match r.secret {
            Some(rs) => {
                &&& needs_keychain_key(stored@)
                &&& rs.source() == keychain_id()
                &&& r.error is None
                &&& decryption_of(r.outcome) == decrypt_under_secret(stored@, rs@)
            },
            None => if needs_keychain_key(stored@) {
                keychain_failed(r)
            } else {
                &&& r.error is None
                &&& decryption_of(r.outcome) == decrypt_with_key_spec(stored@, Seq::empty())
            },
        },        r.outcome matches Ok(DecryptResult::Decrypted(p)) ==> r.secret is Some,
{
    match stored_format_of(stored) {
        StoredFormat::Enc1 => {
            let payload = enc1_payload_of(stored);
            match payload_bytes(payload) {
                Ok(_) => {},
                Err(e) => return WithKeychain { outcome: Err(e), secret: None, error: None },
            }
            let WithKeychain { outcome, secret, error } = get_key();
            let outcome = match outcome {
                Ok(key) => decrypt_with_key(stored, key.as_slice()),
                Err(e) => Err(e),
            };
            WithKeychain { outcome, secret, error }
        },
        StoredFormat::Legacy => {
            let outcome = if json_is_valid(stored) {
                Ok(DecryptResult::WasPlaintext(String::from_str(stored)))
            } else {
                Err(CryptoError::MalformedLegacy)
            };
            WithKeychain { outcome, secret: None, error: None }
        },
        StoredFormat::Unknown => WithKeychain {
            outcome: Err(CryptoError::UnknownSentinel),
            secret: None,
            error: None,
        },
    }
}

/// Decrypts stored text with a given key.
pub fn decrypt_with_key(stored: &str, key: &[u8]) -> (r: Result<DecryptResult, CryptoError>)
    ensures
        decryption_of(r) == decrypt_with_key_spec(stored@, key@),
{
    match stored_format_of(stored) {
        StoredFormat::Enc1 => {
            let payload = enc1_payload_of(stored);
            let combined = payload_bytes(payload)?;
            let text = open_combined(combined.as_slice(), key)?;
            Ok(DecryptResult::Decrypted(text))
        },
        StoredFormat::Legacy => {
            if json_is_valid(stored) {
                Ok(DecryptResult::WasPlaintext(String::from_str(stored)))
            } else {
                Err(CryptoError::MalformedLegacy)
            }
        },
        StoredFormat::Unknown => Err(CryptoError::UnknownSentinel),
    }
}

/// Sealed text opens, under the key it was sealed with, to the plaintext.
pub proof fn lemma_sealed_text_opens(key: Seq<u8>, nonce: Seq<u8>, plaintext: Seq<char>)
    requires
        key.len() == KEY_SIZE,
        nonce.len() == NONCE_SIZE,
        aes256gcm_open(key, nonce, aes256gcm_seal(key, nonce, encode_utf8(plaintext))) == Some(
            encode_utf8(plaintext),
        ),
        aes256gcm_seal(key, nonce, encode_utf8(plaintext)).len() >= TAG_SIZE,
    ensures
        decrypt_with_key_spec(sealed_text(key, nonce, plaintext), key) == Decryption::Decrypted(
            plaintext,
        ),
{
    let ct = aes256gcm_seal(key, nonce, encode_utf8(plaintext));
    let combined = nonce + ct;
    let hex = hex_encode_spec(combined);
    let s = sealed_text(key, nonce, plaintext);
    assert(s == enc1_sentinel() + hex);
    assert(enc1_sentinel().is_prefix_of(s)) by {
        assert(s.take(enc1_sentinel().len() as int) =~= enc1_sentinel());
    }
    assert(enc1_payload(s) =~= hex);
    lemma_hex_round_trip(combined);
    assert(combined.take(NONCE_SIZE as int) =~= nonce);
    assert(combined.skip(NONCE_SIZE as int) =~= ct);
}

/// Seals a plaintext under a key and a nonce, as `enc1:` text. Opening the
/// result with the same key gives the plaintext back.
pub fn encrypt_with_key(plaintext: &str, key: &[u8], nonce: &[u8]) -> (r: Result<String, CryptoError>)
    requires
        nonce@.len() == NONCE_SIZE,
    ensures
        key@.len() != KEY_SIZE ==> r == Err::<String, CryptoError>(CryptoError::CipherInit),
        key@.len() == KEY_SIZE && encode_utf8(plaintext@).len() > MAX_PLAINTEXT_LEN ==> r == Err::<
            String,
            CryptoError,
        >(CryptoError::EncryptionFailed),
        key@.len() == KEY_SIZE && encode_utf8(plaintext@).len() <= MAX_PLAINTEXT_LEN ==> (r matches Ok(
            s,
        ) && s@ == sealed_text(key@, nonce@, plaintext@)),
        r matches Ok(s) ==> decrypt_with_key_spec(s@, key@) == Decryption::Decrypted(plaintext@),
        r matches Ok(s) ==> s@.len() == 5 + 2 * (NONCE_SIZE + encode_utf8(plaintext@).len()
            + TAG_SIZE),
{
    let bytes = plaintext.as_bytes();
    let ciphertext = match aes256gcm_encrypt(key, nonce, bytes) {
        Ok(c) => c,
        Err(AeadFailure::InvalidKeyLength) => return Err(CryptoError::CipherInit),
        Err(AeadFailure::Rejected) => return Err(CryptoError::EncryptionFailed),
    };
    let mut combined = slice_to_vec(nonce);
    let mut tail = ciphertext;
    combined.append(&mut tail);
    let hex = hex_encode(combined.as_slice());
    let mut out = String::from_str("enc1:");
    out.append(hex.as_str());
    proof {
        lemma_sealed_text_opens(key@, nonce@, plaintext@);
        reveal_strlit("enc1:");
        assert(hex@.len() == 2 * combined@.len());
    }
    Ok(out)
}

/// Text sealed under one key with two different nonces differs: the nonce
/// is spelled out at the head of the text.
pub proof fn lemma_distinct_nonces_give_distinct_text(
    key: Seq<u8>,
    n1: Seq<u8>,
    n2: Seq<u8>,
    plaintext: Seq<char>,
)
    requires
        n1.len() == NONCE_SIZE,
        n2.len() == NONCE_SIZE,
        n1 != n2,
    ensures
        sealed_text(key, n1, plaintext) != sealed_text(key, n2, plaintext),
{
    let c1 = n1 + aes256gcm_seal(key, n1, encode_utf8(plaintext));
    let c2 = n2 + aes256gcm_seal(key, n2, encode_utf8(plaintext));
    let s1 = sealed_text(key, n1, plaintext);
    let s2 = sealed_text(key, n2, plaintext);
    if s1 == s2 {
        reveal_strlit("enc1:");
        assert(s1.skip(5) =~= hex_encode_spec(c1));
        assert(s2.skip(5) =~= hex_encode_spec(c2));
        lemma_hex_round_trip(c1);
        lemma_hex_round_trip(c2);
        assert(c1 == c2);
        assert(c1.take(NONCE_SIZE as int) =~= n1);
        assert(c2.take(NONCE_SIZE as int) =~= n2);
    }
}

/// `s` is `plaintext` stored under `key` with some nonce, and opens under
/// the key to the plaintext.
pub open spec fn sealed_under(key: Seq<u8>, plaintext: Seq<char>, s: Seq<char>) -> bool {
    exists|nonce: Seq<u8>|
        {
            &&& nonce.len() == NONCE_SIZE
            &&& s == #[trigger] sealed_text(key, nonce, plaintext)
            &&& decrypt_with_key_spec(s, key) == Decryption::Decrypted(plaintext)
        }
}

/// The length of the `enc1:` text that a plaintext is stored as: the
/// sentinel and the hex of the nonce, the ciphertext and the tag.
pub open spec fn sealed_len(plaintext: Seq<char>) -> int {
    5 + 2 * (NONCE_SIZE + encode_utf8(plaintext).len() + TAG_SIZE)
}

/// Encrypts a plaintext under a given key with a fresh random nonce, as
/// `enc1:` text.
pub fn seal(plaintext: &str, key: &[u8]) -> (r: Result<String, CryptoError>)
    ensures
        key@.len() != KEY_SIZE ==> r == Err::<String, CryptoError>(CryptoError::CipherInit),
        key@.len() == KEY_SIZE && encode_utf8(plaintext@).len() > MAX_PLAINTEXT_LEN ==> r == Err::<
            String,
            CryptoError,
        >(CryptoError::EncryptionFailed),
        key@.len() == KEY_SIZE && encode_utf8(plaintext@).len() <= MAX_PLAINTEXT_LEN ==> r is Ok,
        r matches Ok(s) ==> sealed_under(key@, plaintext@, s@) && s@.len() == sealed_len(
            plaintext@,
        ),
{
    let nonce = random_bytes(NONCE_SIZE);
    let r = encrypt_with_key(plaintext, key, nonce.as_slice());
    proof {
        if r is Ok {
            assert(r->Ok_0@ == sealed_text(key@, nonce@, plaintext@));
        }
    }
    r
}

/// What sealing a plaintext under `key` may give: the errors of a key of
/// the wrong size and of a plaintext too long, else `enc1:` text sealed
/// under the key.
pub open spec fn seal_admits(key: Seq<u8>, plaintext: Seq<char>, r: Result<String, CryptoError>) -> bool {
    &&& key.len() != KEY_SIZE ==> r == Err::<String, CryptoError>(CryptoError::CipherInit)
    &&& key.len() == KEY_SIZE && encode_utf8(plaintext).len() > MAX_PLAINTEXT_LEN ==> r == Err::<
        String,
        CryptoError,
    >(CryptoError::EncryptionFailed)
    &&& key.len() == KEY_SIZE && encode_utf8(plaintext).len() <= MAX_PLAINTEXT_LEN ==> r is Ok
    &&& r matches Ok(s) ==> sealed_under(key, plaintext, s@) && s@.len() == sealed_len(plaintext)
}

/// What encrypting a plaintext may give when the keychain gave `secret`:
/// sealing under the key that the secret spells, or the error of a secret
/// that is not hex.
pub open spec fn encrypt_under_secret(
    secret: Seq<char>,
    plaintext: Seq<char>,
    r: Result<String, CryptoError>,
) -> bool {
    match key_of_secret_spec(secret) {
        Ok(k) => seal_admits(k, plaintext, r),
        Err(e) => r == Err::<String, CryptoError>(e),
    }
}

/// When the keychain's secret spells a 32-byte key and the plaintext is not
/// too long for AES-GCM, encrypting with that secret succeeds.
pub proof fn lemma_encrypt_succeeds_under_a_valid_key(
    secret: Seq<char>,
    plaintext: Seq<char>,
    r: Result<String, CryptoError>,
    key: Seq<u8>,
)
    requires
        encrypt_under_secret(secret, plaintext, r),
        hex_decode_spec(encode_utf8(secret)) == Some(key),
        key.len() == KEY_SIZE,
        encode_utf8(plaintext).len() <= MAX_PLAINTEXT_LEN,
    ensures
        r is Ok,
{
}

/// What encrypting gives under a keychain secret, decrypting with the same
/// secret gives back: the text reads the keychain (it is well-formed
/// `enc1:` text) and decrypts to the plaintext.
pub proof fn lemma_decrypt_opens_what_encrypt_sealed(
    secret: Seq<char>,
    plaintext: Seq<char>,
    r: Result<String, CryptoError>,
)
    requires
        encrypt_under_secret(secret, plaintext, r),
        r is Ok,
    ensures
        needs_keychain_key(r->Ok_0@),
        decrypt_under_secret(r->Ok_0@, secret) == Decryption::Decrypted(plaintext),
{
    let s = r->Ok_0@;
    let k = key_of_secret_spec(secret)->Ok_0;
    let nonce = choose|nonce: Seq<u8>|
        {
            &&& nonce.len() == NONCE_SIZE
            &&& s == #[trigger] sealed_text(k, nonce, plaintext)
            &&& decrypt_with_key_spec(s, k) == Decryption::Decrypted(plaintext)
        };
    assert(decrypt_with_key_spec(s, k) == Decryption::Decrypted(plaintext));
}

/// Encrypts a plaintext under the keychain key with a fresh random nonce,
/// as `enc1:` text. When the keychain entry was read, the secret read comes
/// back with the outcome, and the text is sealed under the key it spells;
/// otherwise the keychain's failure to open or read the entry comes back.
pub fn encrypt(plaintext: &str) -> (r: WithKeychain<String>)
    ensures
        match r.secret {
            Some(rs) => {
                &&& rs.source() == keychain_id()
                &&& r.error is None
                &&& encrypt_under_secret(rs@, plaintext@, r.outcome)
            },
            None => keychain_failed(r),
        },
{
    let WithKeychain { outcome, secret, error } = get_key();
    let outcome = match outcome {
        Ok(key) => seal(plaintext, key.as_slice()),
        Err(e) => Err(e),
    };
    WithKeychain { outcome, secret, error }
}

} // verus!
