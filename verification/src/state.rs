//! The application's state: where the data lives, whether the keychain can
//! be used, and whether the app is in read-only emergency mode; the paths of
//! the data files; the error that refused writes answer with; and the
//! default settings values.

use vstd::prelude::*;
use vstd::string::*;

use crate::crypto::{error_message, keychain_status_from, setup_status, status_view, CryptoError, KeySetup, KeychainStatus};
use crate::text::{push_signed_decimal, signed_decimal};

verus! {

// ── Default settings ────────────────────────────────────────────────────────

/// The theme of a fresh install.
pub fn default_theme() -> (r: String)
    ensures
        r@ == "midnight"@,
{
    String::from_str("midnight")
}

/// The focus times of a fresh install, in order.
pub fn default_focus_times() -> (r: Vec<String>)
    ensures
        r@.len() == 3,
        r@[0]@ == "11:00"@,
        r@[1]@ == "14:00"@,
        r@[2]@ == "16:00"@,
{
    let mut v: Vec<String> = Vec::new();
    v.push(String::from_str("11:00"));
    v.push(String::from_str("14:00"));
    v.push(String::from_str("16:00"));
    v
}

/// The hours-warning time of a fresh install.
pub fn default_warning_time() -> (r: String)
    ensures
        r@ == "16:30"@,
{
    String::from_str("16:30")
}

// ── Emergency mode ──────────────────────────────────────────────────────────

/// Why the app is in emergency mode and what the user should know.
#[derive(Debug, Clone)]
pub struct EmergencyModeInfo {
    /// Human-readable reason shown in the UI.
    pub reason: String,
    /// Whether any encrypted data files were found on disk. If false, the
    /// keychain failed but there is nothing to decrypt: the app can start
    /// fresh, but saves nothing until the keychain is back.
    pub encrypted_data_exists: bool,
}

/// What writes are refused with in emergency mode.
#[derive(Debug)]
pub struct WriteBlockedError {
    pub code: &'static str,
    pub message: String,
}

/// The message of a refused write.
pub open spec fn write_blocked_message(reason: Seq<char>) -> Seq<char> {
    "ChronoWard is in read-only emergency mode and cannot save data. Reason: "@ + reason
        + ". Please contact your IT administrator."@
}

impl WriteBlockedError {
    pub fn new(reason: &str) -> (e: WriteBlockedError)
        ensures
            e.code@ == "WRITE_BLOCKED_EMERGENCY_MODE"@,
            e.message@ == write_blocked_message(reason@),
    {
        let mut message = String::from_str(
            "ChronoWard is in read-only emergency mode and cannot save data. Reason: ",
        );
        message.append(reason);
        message.append(". Please contact your IT administrator.");
        WriteBlockedError { code: "WRITE_BLOCKED_EMERGENCY_MODE", message }
    }
}

// ── Paths ───────────────────────────────────────────────────────────────────

/// A file name that holds no separator and no drive prefix, and is not `.`
/// or `..`.
pub open spec fn is_plain_file_name(name: Seq<char>) -> bool {
    &&& name != seq!['.']
    &&& name != seq!['.', '.']
    &&& forall|i: int| 0 <= i < name.len() ==> #[trigger] name[i] != '/' && name[i] != '\\' && name[i]
        != ':'
}

/// A Windows verbatim path (`\\?\...`), whose components are rebuilt when
/// another is appended to it.
pub open spec fn is_verbatim_path(dir: Seq<char>) -> bool {
    seq!['\\', '\\', '?', '\\'].is_prefix_of(dir)
}

/// A directory that ends neither in a separator nor in a drive prefix, so
/// that appending to it adds a separator.
pub open spec fn needs_separator(dir: Seq<char>) -> bool {
    &&& dir.len() > 0
    &&& dir.last() != '/'
    &&& dir.last() != '\\'
    &&& dir.last() != ':'
}

/// `path` is `dir` with `name` appended, with or without a separator
/// between them.
pub open spec fn is_join_of(path: Seq<char>, dir: Seq<char>, name: Seq<char>) -> bool {
    ||| path == dir + name
    ||| path == dir + seq!['/'] + name
    ||| path == dir + seq!['\\'] + name
}

/// `path` is the file `name` in the directory `dir`: unless `dir` is a
/// Windows verbatim path, the directory, a separator where the platform's
/// rules call for one, and the name, with a separator always after a
/// directory that needs one.
pub open spec fn is_file_in(path: Seq<char>, dir: Seq<char>, name: Seq<char>) -> bool {
    !is_verbatim_path(dir) ==> {
        &&& is_join_of(path, dir, name)
        &&& needs_separator(dir) ==> (path == dir + seq!['/'] + name || path == dir + seq!['\\']
            + name)
    }
}

/// `Path::new(dir).join(name)`, as text. For a plain file name and a
/// directory that is not a Windows verbatim path, the result is the
/// directory, a separator where the platform's rules call for one, and the
/// name; after a non-empty directory that ends neither in a separator nor in
/// a drive prefix, a separator is always added. Which separator (`/`, or `\`
/// on Windows) is the platform's and is not stated.
#[verifier::external_body]
fn join_path(dir: &str, name: &str) -> (r: String)
    ensures
        is_plain_file_name(name@) && !is_verbatim_path(dir@) ==> is_join_of(r@, dir@, name@),
        is_plain_file_name(name@) && !is_verbatim_path(dir@) && needs_separator(dir@) ==> (r@
            == dir@ + seq!['/'] + name@ || r@ == dir@ + seq!['\\'] + name@),
{
    std::path::Path::new(dir).join(name).to_string_lossy().into_owned()
}

/// `chrono::Utc::now().timestamp()`: the current UNIX time in seconds.
/// Nothing is stated of it.
#[verifier::external_body]
fn utc_timestamp_now() -> (t: i64) {
    chrono::Utc::now().timestamp()
}

/// The name a corrupt file is moved to: `<filename>.corrupt.<timestamp>`.
pub open spec fn quarantine_name(filename: Seq<char>, timestamp: int) -> Seq<char> {
    filename + ".corrupt."@ + signed_decimal(timestamp)
}

// ── App-wide state ──────────────────────────────────────────────────────────

/// Where the data lives, whether the keychain can be used, the key it holds,
/// and whether the app is in read-only emergency mode.
pub struct AppState {
    /// Where all data files live. Set once at startup.
    pub data_dir: String,
    /// Keychain availability, checked once at startup.
    pub keychain_status: KeychainStatus,
    /// When set, the app refuses every write.
    pub emergency_mode: Option<EmergencyModeInfo>,
    /// The keychain key, read once at startup and used by every load and
    /// save of the data files; `None` when it was not read.
    pub key: Option<Vec<u8>>,
    /// Whether this run created the keychain key (a fresh install). When an
    /// established key exists, plaintext data files are refused on load.
    pub is_new_key: bool,
}

/// The emergency mode that startup enters: when the keychain is unavailable
/// and encrypted data exists on disk, with the keychain's reason. With no
/// encrypted data the app starts normally, and saves are refused until the
/// keychain is back.
pub open spec fn startup_emergency(status: KeychainStatus, encrypted_data_exists: bool) -> Option<
    (Seq<char>, bool),
> {
    match status {
        KeychainStatus::Available => None,
        KeychainStatus::Unavailable(reason) => if encrypted_data_exists {
            Some((reason@, true))
        } else {
            None
        },
    }
}

/// The emergency mode of a state, as values.
pub open spec fn emergency_view(e: Option<EmergencyModeInfo>) -> Option<(Seq<char>, bool)> {
    match e {
        None => None,
        Some(info) => Some((info.reason@, info.encrypted_data_exists)),
    }
}

/// The cached key of a state, as values.
pub open spec fn key_view(k: Option<Vec<u8>>) -> Option<Seq<u8>> {
    match k {
        None => None,
        Some(v) => Some(v@),
    }
}

/// The key that setting up the keychain gave, as values.
pub open spec fn setup_key(setup: Result<KeySetup, CryptoError>) -> Option<Seq<u8>> {
    match setup {
        Ok(s) => Some(s.key@),
        Err(_) => None,
    }
}

/// Whether setting up the keychain created the key on this run.
pub open spec fn setup_created_key(setup: Result<KeySetup, CryptoError>) -> bool {
    setup matches Ok(s) && s.written is Some
}

impl AppState {
    /// The state before the key and emergency mode are decided: no key is
    /// cached, and none is known to be new.
    pub fn new(data_dir: String, keychain_status: KeychainStatus) -> (s: AppState)
        ensures
            s.data_dir == data_dir,
            s.keychain_status == keychain_status,
            s.emergency_mode is None,
            s.key is None,
            !s.is_new_key,
    {
        AppState { data_dir, keychain_status, emergency_mode: None, key: None, is_new_key: false }
    }

    /// The state that startup builds from what setting up the keychain key
    /// gave: the keychain's status and key, whether the key is new, and
    /// emergency mode when the keychain is unavailable and encrypted data
    /// exists.
    pub fn at_startup(
        data_dir: String,
        setup: Result<KeySetup, CryptoError>,
        encrypted_data_exists: bool,
    ) -> (s: AppState)
        ensures
            s.data_dir == data_dir,
            status_view(s.keychain_status) == setup_status(setup),
            key_view(s.key) == setup_key(setup),
            s.is_new_key == setup_created_key(setup),
            emergency_view(s.emergency_mode) == startup_emergency(
                s.keychain_status,
                encrypted_data_exists,
            ),
            setup matches Ok(ks) ==> (s.key matches Some(k) && k@ == ks.key@),
            setup is Err ==> s.key is None,
            setup matches Ok(ks) ==> (s.keychain_status is Available && s.is_new_key
                == ks.written is Some),
            setup matches Err(e) ==> (s.keychain_status matches KeychainStatus::Unavailable(reason)
                && reason@ == error_message(e) && !s.is_new_key),
    {
        let keychain_status = keychain_status_from(&setup);
        let reason = match &keychain_status {
            KeychainStatus::Unavailable(reason) => Some(reason.clone()),
            KeychainStatus::Available => None,
        };
        let mut state = AppState::new(data_dir, keychain_status);
        match setup {
            Ok(ks) => {
                state.is_new_key = ks.written.is_some();
                state.key = Some(ks.key);
            },
            Err(_) => {},
        }
        match reason {
            Some(reason) => if encrypted_data_exists {
                state.set_emergency_mode(reason, true);
            },
            None => {},
        }
        state
    }

    /// Enters read-only emergency mode.
    pub fn set_emergency_mode(&mut self, reason: String, encrypted_data_exists: bool)
        ensures
            final(self).data_dir == old(self).data_dir,
            final(self).keychain_status == old(self).keychain_status,
            final(self).key == old(self).key,
            final(self).is_new_key == old(self).is_new_key,
            final(self).emergency_mode == Some(EmergencyModeInfo { reason, encrypted_data_exists }),
    {
        self.emergency_mode = Some(EmergencyModeInfo { reason, encrypted_data_exists });
    }

    /// Whether every write must be refused.
    pub fn is_read_only(&self) -> (r: bool)
        ensures
            r == (self.emergency_mode is Some),
    {
        self.emergency_mode.is_some()
    }

    /// Whether the keychain can be used for encryption.
    pub fn keychain_available(&self) -> (r: bool)
        ensures
            r == (self.keychain_status is Available),
    {
        match self.keychain_status {
            KeychainStatus::Available => true,
            KeychainStatus::Unavailable(_) => false,
        }
    }

    /// The path of the settings file.
    pub fn settings_path(&self) -> (p: String)
        ensures
            is_file_in(p@, self.data_dir@, "settings.json"@),
    {
        proof {
            reveal_strlit("settings.json");
        }
        join_path(self.data_dir.as_str(), "settings.json")
    }

    /// The path of the timesheet file.
    pub fn sheets_path(&self) -> (p: String)
        ensures
            is_file_in(p@, self.data_dir@, "sheets.json"@),
    {
        proof {
            reveal_strlit("sheets.json");
        }
        join_path(self.data_dir.as_str(), "sheets.json")
    }

    /// The path of the timer-state file.
    pub fn timers_path(&self) -> (p: String)
        ensures
            is_file_in(p@, self.data_dir@, "timers.json"@),
    {
        proof {
            reveal_strlit("timers.json");
        }
        join_path(self.data_dir.as_str(), "timers.json")
    }

    /// The path a corrupt file is moved to, stamped with a given UNIX time.
    pub fn quarantine_path_at(&self, filename: &str, timestamp: i64) -> (p: String)
        ensures
            is_plain_file_name(filename@) ==> is_file_in(
                p@,
                self.data_dir@,
                quarantine_name(filename@, timestamp as int),
            ),
    {
        let mut name = String::from_str(filename);
        name.append(".corrupt.");
        push_signed_decimal(&mut name, timestamp);
        proof {
            reveal_strlit(".corrupt.");
            if is_plain_file_name(filename@) {
                let q = quarantine_name(filename@, timestamp as int);
                assert(name@ == q);
                assert(q.len() > 2);
                assert forall|i: int| 0 <= i < q.len() implies #[trigger] q[i] != '/' && q[i]
                    != '\\' && q[i] != ':' by {
                    if i >= filename@.len() + 9 {
                        lemma_signed_decimal_plain(timestamp as int, i - filename@.len() - 9);
                    }
                }
            }
        }
        join_path(self.data_dir.as_str(), name.as_str())
    }

    /// The path a corrupt file is moved to: `<filename>.corrupt.<now>` in the
    /// data directory.
    pub fn quarantine_path(&self, filename: &str) -> (p: String)
        ensures
            is_plain_file_name(filename@) ==> exists|t: i64|
                is_file_in(p@, self.data_dir@, #[trigger] quarantine_name(filename@, t as int)),
    {
        let now = utc_timestamp_now();
        self.quarantine_path_at(filename, now)
    }
}

proof fn lemma_decimal_plain(n: nat, i: int)
    requires
        0 <= i < crate::text::decimal(n).len(),
    ensures
        crate::text::decimal(n)[i] != '/' && crate::text::decimal(n)[i] != '\\'
            && crate::text::decimal(n)[i] != ':',
    decreases n,
{
    if n >= 10 {
        if i < crate::text::decimal(n / 10).len() {
            lemma_decimal_plain(n / 10, i);
        }
    }
}

proof fn lemma_signed_decimal_plain(n: int, i: int)
    requires
        0 <= i < signed_decimal(n).len(),
    ensures
        signed_decimal(n)[i] != '/' && signed_decimal(n)[i] != '\\' && signed_decimal(n)[i] != ':',
{
    if n < 0 {
        if i > 0 {
            lemma_decimal_plain((-n) as nat, i - 1);
        }
    } else {
        lemma_decimal_plain(n as nat, i);
    }
}

/// The refusal that a write meets in emergency mode, if any.
pub fn guard_write(state: &AppState) -> (r: Result<(), WriteBlockedError>)
    ensures
        match state.emergency_mode {
            None => r is Ok,
            Some(info) => r matches Err(e) && e.code@ == "WRITE_BLOCKED_EMERGENCY_MODE"@
                && e.message@ == write_blocked_message(info.reason@),
        },
{
    match &state.emergency_mode {
        Some(info) => Err(WriteBlockedError::new(info.reason.as_str())),
        None => Ok(()),
    }
}

/// Startup caches whatever key setting up the keychain settled on, read or
/// freshly created, and none when setting up failed; the key is new exactly
/// when this run stored it.
pub proof fn lemma_startup_caches_the_setup_key(setup: Result<KeySetup, CryptoError>)
    ensures
        setup matches Ok(ks) ==> setup_key(setup) == Some(ks.key@),
        setup is Err ==> setup_key(setup) is None,
        setup_created_key(setup) <==> (setup matches Ok(ks) && ks.written is Some),
        setup is Ok <==> setup_status(setup) is None,
{
}

/// Startup enters read-only emergency mode exactly when the keychain is
/// unavailable and encrypted data exists, with the keychain's reason.
pub proof fn lemma_startup_read_only_iff_encrypted_data_locked(
    status: KeychainStatus,
    encrypted_data_exists: bool,
)
    ensures
        startup_emergency(status, encrypted_data_exists) is Some <==> (status is Unavailable
            && encrypted_data_exists),
        encrypted_data_exists ==> (status matches KeychainStatus::Unavailable(reason)
            ==> startup_emergency(status, encrypted_data_exists) == Some((reason@, true))),
{
}

} // verus!
