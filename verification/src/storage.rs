//! What loading and saving the three data files decide, given what was read
//! from disk: `sheets.json` (the timesheet, the sensitive file),
//! `timers.json` (running-timer state) and `settings.json` (preferences).
//!
//! A file is treated as encrypted when, after leading white space, it starts
//! with `enc1:`; it is then decrypted after trimming white space at both
//! ends, with the key read from the keychain once, at startup; a state with
//! no key cached neither decrypts nor encrypts. Anything else is taken as
//! plaintext: accepted
//! and marked for re-encryption while this run created the keychain key or
//! the keychain is down, and refused as a downgrade once an established key
//! exists.

use vstd::prelude::*;
use vstd::string::*;
use vstd::utf8::encode_utf8;

use crate::crypto::{
    decrypt_with_key, decrypt_with_key_spec, decryption_of, enc1_sentinel, error_message, seal,
    sealed_text, sealed_under, CryptoError,
    DecryptResult, Decryption, KeychainStatus, KEY_SIZE, MAX_PLAINTEXT_LEN, NONCE_SIZE,
};
use crate::encoding::{json_accepts, json_is_valid};
use crate::state::{write_blocked_message, AppState, WriteBlockedError};
use crate::text::{
    decimal, push_decimal, lemma_leading_ws_is, lemma_trailing_ws_is, starts_with, trim, trim_end_spec, trim_spec,
    trim_start, trim_start_spec,
};

verus! {

/// Whether file content is stored encrypted.
pub open spec fn is_encrypted_text(content: Seq<char>) -> bool {
    enc1_sentinel().is_prefix_of(trim_start_spec(content))
}

/// Whether file content is stored encrypted: after leading white space, it
/// starts with `enc1:`.
pub fn is_encrypted_content(content: &str) -> (r: bool)
    ensures
        r == is_encrypted_text(content@),
{
    starts_with(trim_start(content), "enc1:")
}

/// The data files that startup looks into for encrypted data, in order.
pub fn data_file_names() -> (r: Vec<&'static str>)
    ensures
        r@.len() == 3,
        r@[0]@ == "sheets.json"@,
        r@[1]@ == "timers.json"@,
        r@[2]@ == "settings.json"@,
{
    let mut v: Vec<&'static str> = Vec::new();
    v.push("sheets.json");
    v.push("timers.json");
    v.push("settings.json");
    v
}

// ── Temporary files ─────────────────────────────────────────────────────────

/// How old, in seconds, a leftover temporary file must be before startup
/// removes it.
pub const STALE_TEMP_SECS: u64 = 3600;

/// The temporary file a save writes before renaming it into place:
/// `<file>.tmp.<nanoseconds>`, unique to the moment of the save.
pub open spec fn temp_name_spec(file_name: Seq<char>, nanos: nat) -> Seq<char> {
    file_name + ".tmp."@ + decimal(nanos)
}

/// The name of the temporary file that saving `file_name` writes first.
pub fn temp_file_name(file_name: &str, nanos: u64) -> (r: String)
    ensures
        r@ == temp_name_spec(file_name@, nanos as nat),
{
    let mut name = String::from_str(file_name);
    name.append(".tmp.");
    push_decimal(&mut name, nanos);
    proof {
        reveal_strlit(".tmp.");
    }
    name
}

/// Whether a file name is that of a temporary file of one of the data
/// files: the data file's name followed by `.tmp.`.
pub open spec fn is_temp_name(name: Seq<char>) -> bool {
    ||| ("sheets.json"@ + ".tmp."@).is_prefix_of(name)
    ||| ("timers.json"@ + ".tmp."@).is_prefix_of(name)
    ||| ("settings.json"@ + ".tmp."@).is_prefix_of(name)
}

/// Whether startup removes a file of the data directory: a temporary file
/// of a data file, left over from a save that did not finish, and older
/// than an hour.
pub fn is_stale_temp(name: &str, age_secs: u64) -> (r: bool)
    ensures
        r == (is_temp_name(name@) && age_secs > STALE_TEMP_SECS),
{
    proof {
        reveal_strlit("sheets.json.tmp.");
        reveal_strlit("timers.json.tmp.");
        reveal_strlit("settings.json.tmp.");
        reveal_strlit("sheets.json");
        reveal_strlit("timers.json");
        reveal_strlit("settings.json");
        reveal_strlit(".tmp.");
        assert("sheets.json"@ + ".tmp."@ =~= "sheets.json.tmp."@);
        assert("timers.json"@ + ".tmp."@ =~= "timers.json.tmp."@);
        assert("settings.json"@ + ".tmp."@ =~= "settings.json.tmp."@);
    }
    let temp = starts_with(name, "sheets.json.tmp.") || starts_with(name, "timers.json.tmp.")
        || starts_with(name, "settings.json.tmp.");
    temp && age_secs > STALE_TEMP_SECS
}

/// The temporary file that saving a data file writes is one that startup
/// removes once it is older than an hour.
pub proof fn lemma_save_temp_is_purgeable(file_name: Seq<char>, nanos: nat)
    requires
        file_name == "sheets.json"@ || file_name == "timers.json"@ || file_name
            == "settings.json"@,
    ensures
        is_temp_name(temp_name_spec(file_name, nanos)),
{
    let t = temp_name_spec(file_name, nanos);
    let p = file_name + ".tmp."@;
    assert(t.take(p.len() as int) =~= p);
}

// ── Decrypting and the downgrade guard ───────────────────────────────────────

/// Whether plaintext data files are refused on load: the keychain is
/// available and holds a key that this run did not create, so plaintext on
/// disk can only be a downgrade.
pub open spec fn plaintext_refused(state: AppState) -> bool {
    state.keychain_status is Available && !state.is_new_key
}

/// The reason given when plaintext data is refused.
pub open spec fn downgrade_reason() -> Seq<char> {
    "Plaintext data was refused: an encryption key already exists in the OS keychain."@
}

/// What decrypting `stored` gives in `state`: what it gives under the key
/// cached at startup; with no key cached, nothing can be decrypted.
pub open spec fn decryption_in(state: AppState, stored: Seq<char>) -> Decryption {
    match state.key {
        Some(k) => decrypt_with_key_spec(stored, k@),
        None => Decryption::Failed(CryptoError::KeyRetrieval),
    }
}

/// Decrypts stored text with the key cached at startup.
fn decrypt_in(state: &AppState, stored: &str) -> (r: Result<DecryptResult, CryptoError>)
    ensures
        decryption_of(r) == decryption_in(*state, stored@),
{
    match &state.key {
        Some(k) => decrypt_with_key(stored, k.as_slice()),
        None => Err(CryptoError::KeyRetrieval),
    }
}

/// The refusal of plaintext, as the reason's text.
fn downgrade_message() -> (r: String)
    ensures
        r@ == downgrade_reason(),
{
    proof {
        reveal_strlit(
            "Plaintext data was refused: an encryption key already exists in the OS keychain.",
        );
    }
    String::from_str(
        "Plaintext data was refused: an encryption key already exists in the OS keychain.",
    )
}

/// Whether plaintext data files are refused on load.
pub fn refuses_plaintext(state: &AppState) -> (r: bool)
    ensures
        r == plaintext_refused(*state),
{
    state.keychain_available() && !state.is_new_key
}

// ── Sheets ──────────────────────────────────────────────────────────────────

/// The reason given when sheets are encrypted and the keychain is down.
pub open spec fn sheets_locked_reason() -> Seq<char> {
    "Sheets are encrypted but the OS keychain is unavailable."@
}

/// What loading the timesheet comes to.
#[derive(Debug)]
pub enum SheetsLoad {
    /// Read-only emergency mode: the renderer shows the locked UI.
    Emergency { reason: String, encrypted_data_exists: bool },
    /// No file: an empty timesheet.
    Missing,
    /// The file could not be decrypted; the error's message.
    DecryptFailed { reason: String },
    /// The file is plaintext while an established key exists: refused.
    DowngradeBlocked { reason: String },
    /// The file holds this JSON text.
    Loaded { text: String, mark_legacy: bool },
    /// The file is not JSON: it is to be quarantined and an empty timesheet
    /// returned.
    Corrupt { mark_legacy: bool },
}

/// What loading the timesheet comes to, as values; `mark_legacy` says that
/// the next save must encrypt the file.
pub enum SheetsLoadView {
    Emergency(Seq<char>, bool),
    Missing,
    DecryptFailed(Seq<char>),
    DowngradeBlocked(Seq<char>),
    Loaded(Seq<char>, bool),
    Corrupt(bool),
}

impl View for SheetsLoad {
    type V = SheetsLoadView;

    open spec fn view(&self) -> SheetsLoadView {
        match self {
            SheetsLoad::Emergency { reason, encrypted_data_exists } => SheetsLoadView::Emergency(
                reason@,
                *encrypted_data_exists,
            ),
            SheetsLoad::Missing => SheetsLoadView::Missing,
            SheetsLoad::DecryptFailed { reason } => SheetsLoadView::DecryptFailed(reason@),
            SheetsLoad::DowngradeBlocked { reason } => SheetsLoadView::DowngradeBlocked(reason@),
            SheetsLoad::Loaded { text, mark_legacy } => SheetsLoadView::Loaded(text@, *mark_legacy),
            SheetsLoad::Corrupt { mark_legacy } => SheetsLoadView::Corrupt(*mark_legacy),
        }
    }
}

/// Plaintext sheets: loaded when they parse, else corrupt.
pub open spec fn parsed_sheets(text: Seq<char>, mark_legacy: bool) -> SheetsLoadView {
    if json_accepts(text) {
        SheetsLoadView::Loaded(text, mark_legacy)
    } else {
        SheetsLoadView::Corrupt(mark_legacy)
    }
}

/// What the timesheet comes to after decryption gave `d`.
pub open spec fn sheets_after_decrypt_spec(d: Decryption) -> SheetsLoadView {
    match d {
        Decryption::Decrypted(t) => parsed_sheets(t, false),
        Decryption::WasPlaintext(t) => parsed_sheets(t, true),
        Decryption::Failed(e) => SheetsLoadView::DecryptFailed(error_message(e)),
    }
}

/// Whether loading the timesheet decrypts: the file exists, is encrypted,
/// the keychain is available and the app is not in emergency mode.
pub open spec fn sheets_need_decrypt(state: AppState, raw: Option<String>) -> bool {
    &&& state.emergency_mode is None
    &&& raw matches Some(t) && is_encrypted_text(t@)
    &&& state.keychain_status is Available
}

/// What loading the timesheet comes to when it does not decrypt.
pub open spec fn sheets_without_decrypt(state: AppState, raw: Option<String>) -> SheetsLoadView {
    match state.emergency_mode {
        Some(info) => SheetsLoadView::Emergency(info.reason@, info.encrypted_data_exists),
        None => match raw {
            None => SheetsLoadView::Missing,
            Some(t) => if is_encrypted_text(t@) {
                SheetsLoadView::Emergency(sheets_locked_reason(), true)
            } else if plaintext_refused(state) {
                SheetsLoadView::DowngradeBlocked(downgrade_reason())
            } else {
                parsed_sheets(t@, true)
            },
        },
    }
}

fn parse_sheets(text: String, mark_legacy: bool) -> (r: SheetsLoad)
    ensures
        r@ == parsed_sheets(text@, mark_legacy),
{
    if json_is_valid(text.as_str()) {
        SheetsLoad::Loaded { text, mark_legacy }
    } else {
        SheetsLoad::Corrupt { mark_legacy }
    }
}

/// What the timesheet comes to after decryption gave `d`: a decryption
/// error is reported with its message; legacy plaintext is marked for
/// re-encryption.
pub fn sheets_after_decrypt(d: Result<DecryptResult, CryptoError>) -> (r: SheetsLoad)
    ensures
        r@ == sheets_after_decrypt_spec(decryption_of(d)),
{
    match d {
        Ok(result) => {
            let mark_legacy = result.needs_reencrypt();
            parse_sheets(result.into_plaintext(), mark_legacy)
        },
        Err(e) => SheetsLoad::DecryptFailed { reason: e.message() },
    }
}

/// Loads the timesheet from the file's content (`None` when there is no
/// file).
///   - In emergency mode the emergency is reported.
///   - With no file, the timesheet is empty.
///   - Encrypted content with the keychain down is reported as an emergency.
///   - Encrypted content is decrypted.
///   - Plaintext is refused once an established key exists; otherwise it is
///     accepted and marked for re-encryption.
///   - Text that is not JSON is reported corrupt.
pub fn load_sheets_outcome(state: &AppState, raw: Option<String>) -> (r: SheetsLoad)
    ensures
        !sheets_need_decrypt(*state, raw) ==> r@ == sheets_without_decrypt(*state, raw),
        sheets_need_decrypt(*state, raw) ==> r@ == sheets_after_decrypt_spec(
            decryption_in(*state, trim_spec(raw->0@)),
        ),
{
    match &state.emergency_mode {
        Some(info) => {
            return SheetsLoad::Emergency {
                reason: info.reason.clone(),
                encrypted_data_exists: info.encrypted_data_exists,
            };
        },
        None => {},
    }
    let text = match raw {
        None => return SheetsLoad::Missing,
        Some(text) => text,
    };
    if is_encrypted_content(text.as_str()) {
        if !state.keychain_available() {
            proof {
                reveal_strlit("Sheets are encrypted but the OS keychain is unavailable.");
            }
            return SheetsLoad::Emergency {
                reason: String::from_str("Sheets are encrypted but the OS keychain is unavailable."),
                encrypted_data_exists: true,
            };
        }
        sheets_after_decrypt(decrypt_in(state, trim(text.as_str())))
    } else if refuses_plaintext(state) {
        SheetsLoad::DowngradeBlocked { reason: downgrade_message() }
    } else {
        parse_sheets(text, true)
    }
}

// ── Timers ──────────────────────────────────────────────────────────────────

/// What loading the timer state comes to.
#[derive(Debug)]
pub enum TimersLoad {
    /// No timer state: an empty object.
    Empty,
    /// The timer state is this JSON text; `mark_legacy` says that the next
    /// save must encrypt the file.
    Data { text: String, mark_legacy: bool },
    /// The file could not be decrypted; the command fails with this message.
    Failed(String),
}

/// What loading the timer state comes to, as values.
pub enum TimersLoadView {
    Empty,
    Data(Seq<char>, bool),
    Failed(Seq<char>),
}

impl View for TimersLoad {
    type V = TimersLoadView;

    open spec fn view(&self) -> TimersLoadView {
        match self {
            TimersLoad::Empty => TimersLoadView::Empty,
            TimersLoad::Data { text, mark_legacy } => TimersLoadView::Data(text@, *mark_legacy),
            TimersLoad::Failed(m) => TimersLoadView::Failed(m@),
        }
    }
}

/// Timer state text: the data when it parses, else empty.
pub open spec fn parsed_timers(text: Seq<char>, mark_legacy: bool) -> TimersLoadView {
    if json_accepts(text) {
        TimersLoadView::Data(text, mark_legacy)
    } else {
        TimersLoadView::Empty
    }
}

/// What the timer state comes to after decryption gave `d`.
pub open spec fn timers_after_decrypt_spec(d: Decryption) -> TimersLoadView {
    match d {
        Decryption::Decrypted(t) => parsed_timers(t, false),
        Decryption::WasPlaintext(t) => parsed_timers(t, true),
        Decryption::Failed(e) => TimersLoadView::Failed(
            "Failed to decrypt timers.json: "@ + error_message(e),
        ),
    }
}

/// Whether loading the timer state decrypts.
pub open spec fn timers_need_decrypt(state: AppState, raw: Option<String>) -> bool {
    &&& state.emergency_mode is None
    &&& raw matches Some(t) && is_encrypted_text(t@)
    &&& state.keychain_status is Available
}

/// What loading the timer state comes to when it does not decrypt.
pub open spec fn timers_without_decrypt(state: AppState, raw: Option<String>) -> TimersLoadView {
    if state.emergency_mode is Some {
        TimersLoadView::Empty
    } else {
        match raw {
            None => TimersLoadView::Empty,
            Some(t) => if is_encrypted_text(t@) || plaintext_refused(state) {
                TimersLoadView::Empty
            } else {
                parsed_timers(t@, true)
            },
        }
    }
}

fn parse_timers(text: String, mark_legacy: bool) -> (r: TimersLoad)
    ensures
        r@ == parsed_timers(text@, mark_legacy),
{
    if json_is_valid(text.as_str()) {
        TimersLoad::Data { text, mark_legacy }
    } else {
        TimersLoad::Empty
    }
}

/// What the timer state comes to after decryption gave `d`.
pub fn timers_after_decrypt(d: Result<DecryptResult, CryptoError>) -> (r: TimersLoad)
    ensures
        r@ == timers_after_decrypt_spec(decryption_of(d)),
{
    match d {
        Ok(result) => {
            let mark_legacy = result.needs_reencrypt();
            parse_timers(result.into_plaintext(), mark_legacy)
        },
        Err(e) => {
            let mut message = String::from_str("Failed to decrypt timers.json: ");
            let m = e.message();
            message.append(m.as_str());
            TimersLoad::Failed(message)
        },
    }
}

/// Loads the timer state from the file's content (`None` when there is no
/// file). Timers are not critical: in emergency mode, with no file, with
/// encrypted content and the keychain down, with plaintext refused as a
/// downgrade, or with content that is not JSON, the state is empty.
/// Accepted plaintext is marked for re-encryption. A decryption error fails
/// the command.
pub fn load_timers_outcome(state: &AppState, raw: Option<String>) -> (r: TimersLoad)
    ensures
        !timers_need_decrypt(*state, raw) ==> r@ == timers_without_decrypt(*state, raw),
        timers_need_decrypt(*state, raw) ==> r@ == timers_after_decrypt_spec(
            decryption_in(*state, trim_spec(raw->0@)),
        ),
{
    if state.is_read_only() {
        return TimersLoad::Empty;
    }
    let text = match raw {
        None => return TimersLoad::Empty,
        Some(text) => text,
    };
    if is_encrypted_content(text.as_str()) {
        if !state.keychain_available() {
            return TimersLoad::Empty;
        }
        timers_after_decrypt(decrypt_in(state, trim(text.as_str())))
    } else if refuses_plaintext(state) {
        TimersLoad::Empty
    } else {
        parse_timers(text, true)
    }
}

// ── Settings ────────────────────────────────────────────────────────────────

/// What loading the settings comes to, before the JSON is read into the
/// settings type.
#[derive(Debug)]
pub enum SettingsLoad {
    /// No file: defaults, which are cached.
    NotFound,
    /// Encrypted with the keychain down: defaults, which are not cached and
    /// not saved.
    Locked,
    /// Plaintext while an established key exists: refused; defaults, which
    /// are not cached.
    DowngradeBlocked,
    /// The settings text; `mark_legacy` says that the next save must encrypt.
    Text { text: String, mark_legacy: bool },
    /// The file could not be decrypted; the command fails with this message.
    Failed(String),
}

/// What loading the settings comes to, as values.
pub enum SettingsLoadView {
    NotFound,
    Locked,
    DowngradeBlocked,
    Text(Seq<char>, bool),
    Failed(Seq<char>),
}

impl View for SettingsLoad {
    type V = SettingsLoadView;

    open spec fn view(&self) -> SettingsLoadView {
        match self {
            SettingsLoad::NotFound => SettingsLoadView::NotFound,
            SettingsLoad::Locked => SettingsLoadView::Locked,
            SettingsLoad::DowngradeBlocked => SettingsLoadView::DowngradeBlocked,
            SettingsLoad::Text { text, mark_legacy } => SettingsLoadView::Text(text@, *mark_legacy),
            SettingsLoad::Failed(m) => SettingsLoadView::Failed(m@),
        }
    }
}

impl SettingsLoad {
    /// Whether the settings that this outcome gives are kept as the cached
    /// settings: those read from the file, and the defaults of a missing
    /// file; not the stand-in defaults of a locked or refused file, which are
    /// read again on the next load.
    pub fn is_cacheable(&self) -> (r: bool)
        ensures
            r == (self is NotFound || self is Text),
    {
        match self {
            SettingsLoad::NotFound => true,
            SettingsLoad::Text { .. } => true,
            SettingsLoad::Locked => false,
            SettingsLoad::DowngradeBlocked => false,
            SettingsLoad::Failed(_) => false,
        }
    }
}

/// What the settings come to after decryption gave `d`.
pub open spec fn settings_after_decrypt_spec(d: Decryption) -> SettingsLoadView {
    match d {
        Decryption::Decrypted(t) => SettingsLoadView::Text(t, false),
        Decryption::WasPlaintext(t) => SettingsLoadView::Text(t, true),
        Decryption::Failed(e) => SettingsLoadView::Failed(
            "Failed to decrypt settings.json: "@ + error_message(e),
        ),
    }
}

/// Whether loading the settings decrypts.
pub open spec fn settings_need_decrypt(state: AppState, raw: Option<String>) -> bool {
    &&& raw matches Some(t) && is_encrypted_text(t@)
    &&& state.keychain_status is Available
}

/// What loading the settings comes to when it does not decrypt.
pub open spec fn settings_without_decrypt(state: AppState, raw: Option<String>) -> SettingsLoadView {
    match raw {
        None => SettingsLoadView::NotFound,
        Some(t) => if is_encrypted_text(t@) {
            SettingsLoadView::Locked
        } else if plaintext_refused(state) {
            SettingsLoadView::DowngradeBlocked
        } else {
            SettingsLoadView::Text(t@, true)
        },
    }
}

/// What the settings come to after decryption gave `d`.
pub fn settings_after_decrypt(d: Result<DecryptResult, CryptoError>) -> (r: SettingsLoad)
    ensures
        r@ == settings_after_decrypt_spec(decryption_of(d)),
{
    match d {
        Ok(result) => {
            let mark_legacy = result.needs_reencrypt();
            SettingsLoad::Text { text: result.into_plaintext(), mark_legacy }
        },
        Err(e) => {
            let mut message = String::from_str("Failed to decrypt settings.json: ");
            let m = e.message();
            message.append(m.as_str());
            SettingsLoad::Failed(message)
        },
    }
}

/// Loads the settings from the file's content (`None` when there is no
/// file). When they are encrypted and the keychain is down, defaults are
/// used rather than blocking startup. Plaintext is refused once an
/// established key exists; otherwise it is accepted and marked for
/// re-encryption.
pub fn load_settings_outcome(state: &AppState, raw: Option<String>) -> (r: SettingsLoad)
    ensures
        !settings_need_decrypt(*state, raw) ==> r@ == settings_without_decrypt(*state, raw),
        settings_need_decrypt(*state, raw) ==> r@ == settings_after_decrypt_spec(
            decryption_in(*state, trim_spec(raw->0@)),
        ),
{
    let text = match raw {
        None => return SettingsLoad::NotFound,
        Some(text) => text,
    };
    if is_encrypted_content(text.as_str()) {
        if !state.keychain_available() {
            return SettingsLoad::Locked;
        }
        settings_after_decrypt(decrypt_in(state, trim(text.as_str())))
    } else if refuses_plaintext(state) {
        SettingsLoad::DowngradeBlocked
    } else {
        SettingsLoad::Text { text, mark_legacy: true }
    }
}

// ── Saving ──────────────────────────────────────────────────────────────────

/// Why a save wrote nothing.
#[derive(Debug)]
pub enum SaveRefusal {
    /// Writes are refused: the app is in emergency mode, or the keychain is
    /// down, and nothing may be stored unencrypted.
    Blocked(WriteBlockedError),
    /// Encryption failed.
    Encrypt(CryptoError),
}

/// `e` is the refusal of a write for `reason`.
pub open spec fn blocked_for(e: WriteBlockedError, reason: Seq<char>) -> bool {
    &&& e.code@ == "WRITE_BLOCKED_EMERGENCY_MODE"@
    &&& e.message@ == write_blocked_message(reason)
}

/// What saving `json` may give in a state where writes are allowed: text
/// sealed under the key cached at startup; with no key cached, nothing can
/// be encrypted.
pub open spec fn saved_in(state: AppState, json: Seq<char>, r: Result<String, SaveRefusal>) -> bool {
    match state.key {
        Some(k) => match r {
            Ok(s) => sealed_under(k@, json, s@),
            Err(SaveRefusal::Encrypt(e)) => {
                ||| k@.len() != KEY_SIZE && e is CipherInit
                ||| k@.len() == KEY_SIZE && encode_utf8(json).len() > MAX_PLAINTEXT_LEN
                    && e is EncryptionFailed
            },
            Err(SaveRefusal::Blocked(_)) => false,
        },
        None => r matches Err(SaveRefusal::Encrypt(e)) && e is KeyRetrieval,
    }
}

/// The text to write for serialised data. In emergency mode, and when the
/// keychain is down, the write is refused: nothing is ever stored
/// unencrypted. Otherwise the data is encrypted with the key cached at
/// startup under a fresh nonce.
pub fn content_for_disk(state: &AppState, json: &str) -> (r: Result<String, SaveRefusal>)
    ensures
        match state.emergency_mode {
            Some(info) => r matches Err(SaveRefusal::Blocked(e)) && blocked_for(e, info.reason@),
            None => match state.keychain_status {
                KeychainStatus::Unavailable(reason) => r matches Err(SaveRefusal::Blocked(e))
                    && blocked_for(e, reason@),
                KeychainStatus::Available => saved_in(*state, json@, r),
            },
        },
{
    match &state.emergency_mode {
        Some(info) => {
            return Err(SaveRefusal::Blocked(WriteBlockedError::new(info.reason.as_str())));
        },
        None => {},
    }
    match &state.keychain_status {
        KeychainStatus::Unavailable(reason) => {
            return Err(SaveRefusal::Blocked(WriteBlockedError::new(reason.as_str())));
        },
        KeychainStatus::Available => {},
    }
    let sealed = match &state.key {
        Some(k) => seal(json, k.as_slice()),
        None => Err(CryptoError::KeyRetrieval),
    };
    let ghost sealed0 = sealed;
    let r = match sealed {
        Ok(s) => Ok(s),
        Err(e) => Err(SaveRefusal::Encrypt(e)),
    };
    proof {
        match state.key {
            Some(_) => {
                if sealed0 is Err {
                    assert(r matches Err(SaveRefusal::Encrypt(e)) && e == sealed0->Err_0);
                }
                assert(saved_in(*state, json@, r));
            },
            None => {},
        }
    }
    r
}

// ── Laws ────────────────────────────────────────────────────────────────────

/// Sealed text is recognised as encrypted on load, and trimming leaves it
/// as it is.
pub proof fn lemma_sealed_text_reads_as_encrypted(key: Seq<u8>, nonce: Seq<u8>, json: Seq<char>)
    requires
        nonce.len() == NONCE_SIZE,
    ensures
        is_encrypted_text(sealed_text(key, nonce, json)),
        trim_spec(sealed_text(key, nonce, json)) == sealed_text(key, nonce, json),
{
    let s = sealed_text(key, nonce, json);
    let combined = nonce + crate::crypto::aes256gcm_seal(key, nonce, vstd::utf8::encode_utf8(json));
    let hex = crate::encoding::hex_encode_spec(combined);
    reveal_strlit("enc1:");
    assert(s == enc1_sentinel() + hex);
    assert(s[0] == 'e');
    lemma_leading_ws_is(s, 0);
    assert(trim_start_spec(s) =~= s);
    assert(enc1_sentinel().is_prefix_of(s)) by {
        assert(s.take(5) =~= enc1_sentinel());
    }
    assert(hex.len() == 2 * combined.len());
    let last = hex.len() - 1;
    assert(s.last() == hex[last]);
    let v = if last % 2 == 0 {
        (combined[last / 2] / 16) as int
    } else {
        (combined[last / 2] % 16) as int
    };
    assert(0 <= v < 16);
    assert(!crate::text::is_white_space(s.last()));
    lemma_trailing_ws_is(s, 0);
    assert(trim_end_spec(s) =~= s);
}

/// What a save writes loads back as what was saved: in a state with the
/// key cached, writes allowed and the keychain available, text that saving
/// `json` wrote is decrypted by every load with that key, and gives the
/// timesheet and the timer state when they are JSON, and the settings text,
/// none of them marked for re-encryption.
pub proof fn lemma_save_then_load(state: AppState, json: Seq<char>, saved: String)
    requires
        state.emergency_mode is None,
        state.keychain_status is Available,
        state.key is Some,
        sealed_under(state.key->0@, json, saved@),
    ensures
        sheets_need_decrypt(state, Some(saved)),
        timers_need_decrypt(state, Some(saved)),
        settings_need_decrypt(state, Some(saved)),
        sheets_after_decrypt_spec(decryption_in(state, trim_spec(saved@))) == parsed_sheets(
            json,
            false,
        ),
        timers_after_decrypt_spec(decryption_in(state, trim_spec(saved@))) == parsed_timers(
            json,
            false,
        ),
        settings_after_decrypt_spec(decryption_in(state, trim_spec(saved@)))
            == SettingsLoadView::Text(json, false),
{
    let k = state.key->0@;
    let nonce = choose|nonce: Seq<u8>|
        {
            &&& nonce.len() == NONCE_SIZE
            &&& saved@ == #[trigger] sealed_text(k, nonce, json)
            &&& decrypt_with_key_spec(saved@, k) == Decryption::Decrypted(json)
        };
    lemma_sealed_text_reads_as_encrypted(k, nonce, json);
}

/// In emergency mode nothing is decrypted: the timesheet reports the
/// emergency and the timer state is empty, whatever the files hold.
pub proof fn lemma_emergency_loads(state: AppState, raw: Option<String>)
    requires
        state.emergency_mode is Some,
    ensures
        !sheets_need_decrypt(state, raw),
        sheets_without_decrypt(state, raw) == SheetsLoadView::Emergency(
            state.emergency_mode->0.reason@,
            state.emergency_mode->0.encrypted_data_exists,
        ),
        !timers_need_decrypt(state, raw),
        timers_without_decrypt(state, raw) == TimersLoadView::Empty,
{
}

/// Once an established key exists, plaintext on disk is never taken as
/// data: the timesheet is refused as a downgrade, the timer state is empty
/// and the settings are refused, whatever the plaintext holds.
pub proof fn lemma_plaintext_refused_loads(state: AppState, raw: String)
    requires
        state.emergency_mode is None,
        plaintext_refused(state),
        !is_encrypted_text(raw@),
    ensures
        !sheets_need_decrypt(state, Some(raw)),
        sheets_without_decrypt(state, Some(raw)) == SheetsLoadView::DowngradeBlocked(
            downgrade_reason(),
        ),
        !timers_need_decrypt(state, Some(raw)),
        timers_without_decrypt(state, Some(raw)) == TimersLoadView::Empty,
        !settings_need_decrypt(state, Some(raw)),
        settings_without_decrypt(state, Some(raw)) == SettingsLoadView::DowngradeBlocked,
{
}

} // verus!
