//! The OS keychain entry that holds the data key, through the `keyring`
//! crate: opening the entry, reading its secret and storing one.
//!
//! The values that these operations give are made here only: an open entry
//! records the service and account it was opened for; a secret read or
//! stored records the entry it came from or went to. Holding one elsewhere
//! is evidence of the keychain operation that made it.

use vstd::prelude::*;

verus! {

/// Why the keychain refused an operation: the entry is missing, or another
/// failure with the keychain's own message.
#[derive(Debug)]
pub enum KeyringFailure {
    NoEntry,
    Other(String),
}

/// `keyring::Entry`, a handle on one credential in the platform's store,
/// carried through opaquely.
#[verifier::external_type_specification]
#[verifier::external_body]
pub struct ExKeyringEntry(keyring::Entry);

/// An open keychain entry, with the service and account it was opened for.
pub struct KeychainEntry {
    entry: keyring::Entry,
    service: String,
    account: String,
}

impl View for KeychainEntry {
    /// The service and account of the entry.
    type V = (Seq<char>, Seq<char>);

    closed spec fn view(&self) -> (Seq<char>, Seq<char>) {
        (self.service@, self.account@)
    }
}

/// A secret that the keychain gave when its entry was read.
pub struct ReadSecret {
    secret: String,
    source: (String, String),
}

impl View for ReadSecret {
    type V = Seq<char>;

    closed spec fn view(&self) -> Seq<char> {
        self.secret@
    }
}

impl ReadSecret {
    /// The service and account of the entry that was read.
    pub closed spec fn source(&self) -> (Seq<char>, Seq<char>) {
        (self.source.0@, self.source.1@)
    }

    /// The secret, as text.
    pub fn as_str(&self) -> (r: &str)
        ensures
            r@ == self@,
    {
        self.secret.as_str()
    }
}

/// Why opening or reading a keychain entry failed, with the entry it was
/// and whether the failure came from reading it (else from opening it).
pub struct KeychainError {
    failure: KeyringFailure,
    source: (String, String),
    reading: bool,
}

impl KeychainError {
    /// What the keychain answered.
    pub closed spec fn failure(&self) -> KeyringFailure {
        self.failure
    }

    /// The service and account of the entry.
    pub closed spec fn source(&self) -> (Seq<char>, Seq<char>) {
        (self.source.0@, self.source.1@)
    }

    /// Whether reading the entry failed (else opening it did).
    pub closed spec fn while_reading(&self) -> bool {
        self.reading
    }

    /// What the keychain answered, as a value.
    pub fn kind(&self) -> (r: KeyringFailure)
        ensures
            r == self.failure(),
    {
        match &self.failure {
            KeyringFailure::NoEntry => KeyringFailure::NoEntry,
            KeyringFailure::Other(m) => KeyringFailure::Other(m.clone()),
        }
    }
}

/// Reading the entry found it missing: the one state in which a new secret
/// may be stored in it.
pub open spec fn found_missing(e: KeychainError, entry: (Seq<char>, Seq<char>)) -> bool {
    &&& e.while_reading()
    &&& e.failure() is NoEntry
    &&& e.source() == entry
}

/// A secret that the keychain accepted and stored, with the failed read
/// that preceded the write.
pub struct StoredSecret {
    secret: String,
    target: (String, String),
    before: KeychainError,
}

impl View for StoredSecret {
    type V = Seq<char>;

    closed spec fn view(&self) -> Seq<char> {
        self.secret@
    }
}

impl StoredSecret {
    /// The service and account of the entry the secret was stored in.
    pub closed spec fn target(&self) -> (Seq<char>, Seq<char>) {
        (self.target.0@, self.target.1@)
    }

    /// The failed read of the entry that the write followed.
    pub closed spec fn before(&self) -> KeychainError {
        self.before
    }

    /// The secret, as text.
    pub fn as_str(&self) -> (r: &str)
        ensures
            r@ == self@,
    {
        self.secret.as_str()
    }
}

/// `keyring::Entry::new`: a handle on the credential for a service and an
/// account, recording both, or why it could not be made, recording the
/// same. Whether it succeeds depends on the platform's credential store;
/// nothing is stated of that.
#[verifier::external_body]
pub(crate) fn keychain_entry(service: &str, account: &str) -> (r: Result<
    KeychainEntry,
    KeychainError,
>)
    ensures
        r matches Ok(e) ==> e@ == (service@, account@),
        r matches Err(f) ==> f.source() == (service@, account@) && !f.while_reading(),
{
    let source = (service.to_string(), account.to_string());
    match keyring::Entry::new(service, account) {
        Ok(entry) => Ok(KeychainEntry { entry, service: source.0, account: source.1 }),
        Err(keyring::Error::NoEntry) => Err(
            KeychainError { failure: KeyringFailure::NoEntry, source, reading: false },
        ),
        Err(e) => Err(
            KeychainError { failure: KeyringFailure::Other(e.to_string()), source, reading: false },
        ),
    }
}

/// `keyring::Entry::get_password`: the secret stored for the entry,
/// recording the entry it came from, or why the keychain could not give it.
/// What the keychain holds is outside this program; nothing is stated of it.
#[verifier::external_body]
pub(crate) fn keychain_read(entry: &KeychainEntry) -> (r: Result<ReadSecret, KeychainError>)
    ensures
        r matches Ok(s) ==> s.source() == entry@,
        r matches Err(f) ==> f.source() == entry@ && f.while_reading(),
{
    let source = (entry.service.clone(), entry.account.clone());
    match entry.entry.get_password() {
        Ok(secret) => Ok(ReadSecret { secret, source }),
        Err(keyring::Error::NoEntry) => Err(
            KeychainError { failure: KeyringFailure::NoEntry, source, reading: true },
        ),
        Err(e) => Err(
            KeychainError { failure: KeyringFailure::Other(e.to_string()), source, reading: true },
        ),
    }
}

/// `keyring::Entry::set_password`: stores a secret for the entry. Whether the
/// keychain accepts it is outside this program. When it does, the result
/// records the secret that was stored, the entry it was stored in, and the
/// failed read that the caller hands in as the reason for the write.
#[verifier::external_body]
pub(crate) fn keychain_write(entry: &KeychainEntry, secret: String, before: KeychainError) -> (r:
    Result<StoredSecret, KeyringFailure>)
    ensures
        r matches Ok(stored) ==> stored@ == secret@ && stored.target() == entry@ && stored.before()
            == before,
{
    match entry.entry.set_password(&secret) {
        Ok(()) => Ok(
            StoredSecret {
                secret,
                target: (entry.service.clone(), entry.account.clone()),
                before,
            },
        ),
        Err(keyring::Error::NoEntry) => Err(KeyringFailure::NoEntry),
        Err(e) => Err(KeyringFailure::Other(e.to_string())),
    }
}

} // verus!
