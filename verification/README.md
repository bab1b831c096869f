# chronoward

The core of ChronoWard, a local-first desktop time tracker, written in Verus.

`src/` is the verified library:

- `crypto` — the stored-data format (`enc1:` + hex of nonce and AES-256-GCM
  ciphertext, or legacy JSON plaintext), setting up the keychain-held key
  (an established key is used, never replaced; a fresh one is created and
  its hex stored on the first run), and encryption and decryption. Sealed
  text provably opens, under the key it was sealed with, to the plaintext.
- `keychain` — the keychain entry through `keyring`. The values it hands
  out (an open entry, a secret read, a secret stored) are made only there
  and record the service, account and secret of the operation, so the
  contracts above can say which entry a key came from.
- `storage` — what loading and saving `sheets.json`, `timers.json` and
  `settings.json` decide from the file content: emergency answers,
  decryption with the key cached at startup (a state with no key cached
  neither decrypts nor encrypts), legacy migration, the refusal
  of plaintext once an established key exists, the refusal of every write
  while the keychain is down, corruption quarantine, and the names of the
  temporary files that saves write and startup purges. What a save writes
  provably loads back as what was saved.
- `state` — data paths, keychain status and cached key, read-only emergency
  mode (entered when the keychain is down and encrypted data exists) and the
  error that refused writes answer with; default settings values.
- `scheduler` — `"HH:MM"` parsing and the tick that decides focus reminders
  (on the first tick of a configured minute, at most once per day) and
  hours-warning checks (at most once per minute); the fired minutes never
  repeat.
- `ui` — overlay anchoring, tray-menu actions, CSV export and import naming.
- `text`, `encoding` — trimming, prefixes, decimal rendering; hex and UTF-8.

Calls into `hex`, `aes-gcm`, `rand`, `keyring`, `serde_json`, `chrono` and a
few std functions sit behind `#[verifier::external_body]` wrappers whose
contracts are documented where they stand.

`app/` is the Tauri shell: windows, commands, tray, file I/O, the settings
schema (it holds floats) and the scheduler's timer loop.
